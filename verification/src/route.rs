use vstd::prelude::*;
use crate::types::{
    AddressInfo, AddressInfoV, BlockWithTransactionReceipts, BlockWithTransactionReceiptsV,
    TransactionWithReceipt, TransactionWithReceiptV,
};

verus! {

/// Which panel of the current view holds the keyboard focus. Independent of
/// the navigation target.
#[derive(Clone, Copy, PartialEq, Eq, Structural, Debug)]
pub enum ActiveBlock {
    SearchBar,
    LatestBlocks,
    LatestTransactions,
    Main,
}

/// A block target: the number it was requested under, and the fetched data
/// once it has arrived. Until then the payload is absent and the view
/// renders a loading state.
pub struct BlockRef {
    pub number: u64,
    pub payload: Option<BlockWithTransactionReceipts>,
}

pub ghost struct BlockRefV {
    pub number: u64,
    pub payload: Option<BlockWithTransactionReceiptsV>,
}

impl View for BlockRef {
    type V = BlockRefV;

    open spec fn view(&self) -> BlockRefV {
        BlockRefV {
            number: self.number,
            payload: match self.payload {
                Some(b) => Some(b@),
                None => None,
            },
        }
    }
}

impl Clone for BlockRef {
    fn clone(&self) -> (res: Self)
        ensures
            res@ == self@,
    {
        BlockRef {
            number: self.number,
            payload: match &self.payload {
                Some(b) => Some(b.clone()),
                None => None,
            },
        }
    }
}

/// A transaction target: the hash it was requested under, plus the fetched
/// transaction and receipt once they have arrived.
pub struct TxRef {
    pub hash: String,
    pub payload: Option<TransactionWithReceipt>,
}

pub ghost struct TxRefV {
    pub hash: Seq<char>,
    pub payload: Option<TransactionWithReceiptV>,
}

impl View for TxRef {
    type V = TxRefV;

    open spec fn view(&self) -> TxRefV {
        TxRefV {
            hash: self.hash@,
            payload: match self.payload {
                Some(t) => Some(t@),
                None => None,
            },
        }
    }
}

impl Clone for TxRef {
    fn clone(&self) -> (res: Self)
        ensures
            res@ == self@,
    {
        TxRef {
            hash: self.hash.clone(),
            payload: match &self.payload {
                Some(t) => Some(t.clone()),
                None => None,
            },
        }
    }
}

/// An address target: the address it was requested under, plus the resolved
/// information once it has arrived.
pub struct AddrRef {
    pub address: String,
    pub payload: Option<AddressInfo>,
}

pub ghost struct AddrRefV {
    pub address: Seq<char>,
    pub payload: Option<AddressInfoV>,
}

impl View for AddrRef {
    type V = AddrRefV;

    open spec fn view(&self) -> AddrRefV {
        AddrRefV {
            address: self.address@,
            payload: match self.payload {
                Some(a) => Some(a@),
                None => None,
            },
        }
    }
}

impl Clone for AddrRef {
    fn clone(&self) -> (res: Self)
        ensures
            res@ == self@,
    {
        AddrRef {
            address: self.address.clone(),
            payload: match &self.payload {
                Some(a) => Some(a.clone()),
                None => None,
            },
        }
    }
}

/// What a navigation entry displays. `Home` is the dashboard; the three
/// block-shaped variants show the same block data under different panels;
/// the other two show a transaction or an address.
pub enum RouteId {
    Home,
    Block(BlockRef),
    TransactionsOfBlock(BlockRef),
    WithdrawalsOfBlock(BlockRef),
    Transaction(TxRef),
    AddressInfo(AddrRef),
}

pub ghost enum RouteIdV {
    Home,
    Block(BlockRefV),
    TransactionsOfBlock(BlockRefV),
    WithdrawalsOfBlock(BlockRefV),
    Transaction(TxRefV),
    AddressInfo(AddrRefV),
}

impl View for RouteId {
    type V = RouteIdV;

    open spec fn view(&self) -> RouteIdV {
        match self {
            RouteId::Home => RouteIdV::Home,
            RouteId::Block(b) => RouteIdV::Block(b@),
            RouteId::TransactionsOfBlock(b) => RouteIdV::TransactionsOfBlock(b@),
            RouteId::WithdrawalsOfBlock(b) => RouteIdV::WithdrawalsOfBlock(b@),
            RouteId::Transaction(t) => RouteIdV::Transaction(t@),
            RouteId::AddressInfo(a) => RouteIdV::AddressInfo(a@),
        }
    }
}

impl Clone for RouteId {
    fn clone(&self) -> (res: Self)
        ensures
            res@ == self@,
    {
        match self {
            RouteId::Home => RouteId::Home,
            RouteId::Block(b) => RouteId::Block(b.clone()),
            RouteId::TransactionsOfBlock(b) => RouteId::TransactionsOfBlock(b.clone()),
            RouteId::WithdrawalsOfBlock(b) => RouteId::WithdrawalsOfBlock(b.clone()),
            RouteId::Transaction(t) => RouteId::Transaction(t.clone()),
            RouteId::AddressInfo(a) => RouteId::AddressInfo(a.clone()),
        }
    }
}

/// One entry of the navigation history: a target and the focused panel.
pub struct Route {
    id: RouteId,
    active_block: ActiveBlock,
}

pub ghost struct RouteV {
    pub id: RouteIdV,
    pub active_block: ActiveBlock,
}

impl View for Route {
    type V = RouteV;

    closed spec fn view(&self) -> RouteV {
        RouteV { id: self.id@, active_block: self.active_block }
    }
}

impl Clone for Route {
    fn clone(&self) -> (res: Self)
        ensures
            res@ == self@,
    {
        Route { id: self.id.clone(), active_block: self.active_block }
    }
}

impl Route {
    pub fn new(id: RouteId, active_block: ActiveBlock) -> (r: Route)
        ensures
            r@ == (RouteV { id: id@, active_block }),
    {
        Route { id, active_block }
    }

    /// The target of this entry, as a fresh value.
    pub fn get_id(&self) -> (r: RouteId)
        ensures
            r@ == self@.id,
    {
        self.id.clone()
    }

    pub fn get_active_block(&self) -> (r: ActiveBlock)
        ensures
            r == self@.active_block,
    {
        self.active_block
    }
}

/// The home entry: dashboard target with the search bar focused. It is the
/// route the stack starts from and falls back to.
pub open spec fn default_route_view() -> RouteV {
    RouteV { id: RouteIdV::Home, active_block: ActiveBlock::SearchBar }
}

impl Default for Route {
    fn default() -> (r: Route)
        ensures
            r@ == default_route_view(),
    {
        Route { id: RouteId::Home, active_block: ActiveBlock::SearchBar }
    }
}

} // verus!
