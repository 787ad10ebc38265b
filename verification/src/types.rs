use vstd::prelude::*;

verus! {

/// A token known to the registry: display name, ticker symbol, and the
/// hex string of its contract address. The registry is loaded once at
/// startup and never changes afterwards.
pub struct ERC20Token {
    pub name: String,
    pub ticker: String,
    pub contract_address: String,
}

pub ghost struct ERC20TokenV {
    pub name: Seq<char>,
    pub ticker: Seq<char>,
    pub contract_address: Seq<char>,
}

impl View for ERC20Token {
    type V = ERC20TokenV;

    open spec fn view(&self) -> ERC20TokenV {
        ERC20TokenV {
            name: self.name@,
            ticker: self.ticker@,
            contract_address: self.contract_address@,
        }
    }
}

impl Clone for ERC20Token {
    fn clone(&self) -> (res: Self)
        ensures
            res == *self,
    {
        ERC20Token {
            name: self.name.clone(),
            ticker: self.ticker.clone(),
            contract_address: self.contract_address.clone(),
        }
    }
}

pub open spec fn tokens_view(s: Seq<ERC20Token>) -> Seq<ERC20TokenV> {
    s.map_values(|t: ERC20Token| t@)
}

/// The first registry entry carrying the given ticker, scanning in
/// registry order.
pub open spec fn first_token_by_ticker(s: Seq<ERC20TokenV>, ticker: Seq<char>) -> Option<
    ERC20TokenV,
>
    decreases s.len(),
{
    if s.len() == 0 {
        None
    } else if s[0].ticker == ticker {
        Some(s[0])
    } else {
        first_token_by_ticker(s.drop_first(), ticker)
    }
}

/// The first registry entry carrying the given contract address, scanning
/// in registry order.
pub open spec fn first_token_by_address(s: Seq<ERC20TokenV>, address: Seq<char>) -> Option<
    ERC20TokenV,
>
    decreases s.len(),
{
    if s.len() == 0 {
        None
    } else if s[0].contract_address == address {
        Some(s[0])
    } else {
        first_token_by_address(s.drop_first(), address)
    }
}

/// Scanning past a prefix without the ticker does not change which token is
/// found first.
proof fn lemma_first_ticker_skip(s: Seq<ERC20TokenV>, ticker: Seq<char>, i: int)
    requires
        0 <= i <= s.len(),
        forall|j: int| 0 <= j < i ==> (#[trigger] s[j]).ticker != ticker,
    ensures
        first_token_by_ticker(s, ticker) == first_token_by_ticker(s.skip(i), ticker),
    decreases i,
{
    if i == 0 {
        assert(s.skip(0) =~= s);
    } else {
        assert(s.drop_first() =~= s.skip(1));
        lemma_first_ticker_skip(s.skip(1), ticker, i - 1);
        assert(s.skip(1).skip(i - 1) =~= s.skip(i));
    }
}

/// Scanning past a prefix without the address does not change which token
/// is found first.
proof fn lemma_first_address_skip(s: Seq<ERC20TokenV>, address: Seq<char>, i: int)
    requires
        0 <= i <= s.len(),
        forall|j: int| 0 <= j < i ==> (#[trigger] s[j]).contract_address != address,
    ensures
        first_token_by_address(s, address) == first_token_by_address(s.skip(i), address),
    decreases i,
{
    if i == 0 {
        assert(s.skip(0) =~= s);
    } else {
        assert(s.drop_first() =~= s.skip(1));
        lemma_first_address_skip(s.skip(1), address, i - 1);
        assert(s.skip(1).skip(i - 1) =~= s.skip(i));
    }
}

impl ERC20Token {
    /// The first registry entry whose ticker equals the query, if any.
    pub fn find_by_ticker(tokens: &Vec<ERC20Token>, ticker: &String) -> (r: Option<ERC20Token>)
        ensures
            match r {
                None => first_token_by_ticker(tokens_view(tokens@), ticker@) is None,
                Some(t) => first_token_by_ticker(tokens_view(tokens@), ticker@) == Some(t@),
            },
    {
        let n = tokens.len();
        let mut i: usize = 0;
        while i < n
            invariant
                i <= n,
                n == tokens.len(),
                forall|j: int| 0 <= j < i ==> (#[trigger] tokens_view(tokens@)[j]).ticker
                    != ticker@,
            decreases n - i,
        {
            let ghost tv = tokens_view(tokens@);
            proof {
                assert(tv.len() == tokens@.len());
                assert(tv[i as int] == tokens@[i as int]@);
            }
            if tokens[i].ticker == *ticker {
                proof {
                    lemma_first_ticker_skip(tv, ticker@, i as int);
                    assert(tv.skip(i as int)[0] == tv[i as int]);
                    assert(first_token_by_ticker(tv, ticker@) == Some(tv[i as int]));
                }
                return Some(tokens[i].clone());
            }
            i = i + 1;
        }
        proof {
            assert(tokens_view(tokens@).len() == tokens@.len());
            lemma_first_ticker_skip(tokens_view(tokens@), ticker@, n as int);
            assert(tokens_view(tokens@).skip(n as int).len() == 0);
        }
        None
    }

    /// The first registry entry whose contract address equals the query, if
    /// any.
    pub fn find_by_address(tokens: &Vec<ERC20Token>, address: &String) -> (r: Option<ERC20Token>)
        ensures
            match r {
                None => first_token_by_address(tokens_view(tokens@), address@) is None,
                Some(t) => first_token_by_address(tokens_view(tokens@), address@) == Some(t@),
            },
    {
        let n = tokens.len();
        let mut i: usize = 0;
        while i < n
            invariant
                i <= n,
                n == tokens.len(),
                forall|j: int| 0 <= j < i ==> (#[trigger] tokens_view(tokens@)[j]).contract_address
                    != address@,
            decreases n - i,
        {
            let ghost tv = tokens_view(tokens@);
            proof {
                assert(tv.len() == tokens@.len());
                assert(tv[i as int] == tokens@[i as int]@);
            }
            if tokens[i].contract_address == *address {
                proof {
                    lemma_first_address_skip(tv, address@, i as int);
                    assert(tv.skip(i as int)[0] == tv[i as int]);
                    assert(first_token_by_address(tv, address@) == Some(tv[i as int]));
                }
                return Some(tokens[i].clone());
            }
            i = i + 1;
        }
        proof {
            assert(tokens_view(tokens@).len() == tokens@.len());
            lemma_first_address_skip(tokens_view(tokens@), address@, n as int);
            assert(tokens_view(tokens@).skip(n as int).len() == 0);
        }
        None
    }
}

/// One transaction receipt, reduced to the fields the core reads: the hash
/// of the transaction it belongs to and the number of the block it was
/// included in. The block number may be absent in data coming from a node;
/// reconciliation must tolerate that.
pub struct TransactionReceipt {
    pub transaction_hash: String,
    pub block_number: Option<u64>,
}

pub ghost struct TransactionReceiptV {
    pub transaction_hash: Seq<char>,
    pub block_number: Option<u64>,
}

impl View for TransactionReceipt {
    type V = TransactionReceiptV;

    open spec fn view(&self) -> TransactionReceiptV {
        TransactionReceiptV {
            transaction_hash: self.transaction_hash@,
            block_number: self.block_number,
        }
    }
}

impl Clone for TransactionReceipt {
    fn clone(&self) -> (res: Self)
        ensures
            res == *self,
    {
        TransactionReceipt {
            transaction_hash: self.transaction_hash.clone(),
            block_number: self.block_number,
        }
    }
}

/// A fetched block, reduced to plain values. Number and hash may be absent
/// on data straight from a node.
pub struct Block {
    pub number: Option<u64>,
    pub hash: Option<String>,
    pub timestamp: u64,
    pub transaction_count: usize,
}

pub ghost struct BlockV {
    pub number: Option<u64>,
    pub hash: Option<Seq<char>>,
    pub timestamp: u64,
    pub transaction_count: usize,
}

pub open spec fn opt_string_view(s: Option<String>) -> Option<Seq<char>> {
    match s {
        Some(x) => Some(x@),
        None => None,
    }
}

impl View for Block {
    type V = BlockV;

    open spec fn view(&self) -> BlockV {
        BlockV {
            number: self.number,
            hash: opt_string_view(self.hash),
            timestamp: self.timestamp,
            transaction_count: self.transaction_count,
        }
    }
}

impl Clone for Block {
    fn clone(&self) -> (res: Self)
        ensures
            res == *self,
    {
        Block {
            number: self.number,
            hash: match &self.hash {
                Some(h) => Some(h.clone()),
                None => None,
            },
            timestamp: self.timestamp,
            transaction_count: self.transaction_count,
        }
    }
}

/// A block paired with the transaction receipts fetched for it so far.
/// Block data and receipt data arrive from independent fetches, so the
/// receipt list starts absent and is only ever added to.
pub struct BlockWithTransactionReceipts {
    pub block: Block,
    pub transaction_receipts: Option<Vec<TransactionReceipt>>,
}

pub ghost struct BlockWithTransactionReceiptsV {
    pub block: BlockV,
    /// An absent receipt list reads as the empty one: nothing distinguishes
    /// them to a reader of the state, and the merge treats them alike.
    pub transaction_receipts: Seq<TransactionReceiptV>,
}

pub open spec fn receipts_seq_view(s: Seq<TransactionReceipt>) -> Seq<TransactionReceiptV> {
    s.map_values(|r: TransactionReceipt| r@)
}

pub open spec fn opt_receipts_view(o: Option<Vec<TransactionReceipt>>) -> Seq<TransactionReceiptV> {
    match o {
        Some(v) => receipts_seq_view(v@),
        None => Seq::empty(),
    }
}

impl View for BlockWithTransactionReceipts {
    type V = BlockWithTransactionReceiptsV;

    open spec fn view(&self) -> BlockWithTransactionReceiptsV {
        BlockWithTransactionReceiptsV {
            block: self.block@,
            transaction_receipts: opt_receipts_view(self.transaction_receipts),
        }
    }
}

impl Clone for BlockWithTransactionReceipts {
    fn clone(&self) -> (res: Self)
        ensures
            res@ == self@,
    {
        let transaction_receipts = match &self.transaction_receipts {
            Some(v) => {
                let c = v.clone();
                proof {
                    assert(receipts_seq_view(c@) =~= receipts_seq_view(v@));
                }
                Some(c)
            },
            None => None,
        };
        BlockWithTransactionReceipts { block: self.block.clone(), transaction_receipts }
    }
}

/// A fetched transaction, reduced to plain values.
pub struct Transaction {
    pub hash: String,
    pub from: String,
    pub to: Option<String>,
    pub value: u128,
}

pub ghost struct TransactionV {
    pub hash: Seq<char>,
    pub from: Seq<char>,
    pub to: Option<Seq<char>>,
    pub value: u128,
}

impl View for Transaction {
    type V = TransactionV;

    open spec fn view(&self) -> TransactionV {
        TransactionV {
            hash: self.hash@,
            from: self.from@,
            to: opt_string_view(self.to),
            value: self.value,
        }
    }
}

impl Clone for Transaction {
    fn clone(&self) -> (res: Self)
        ensures
            res == *self,
    {
        Transaction {
            hash: self.hash.clone(),
            from: self.from.clone(),
            to: match &self.to {
                Some(t) => Some(t.clone()),
                None => None,
            },
            value: self.value,
        }
    }
}

/// A transaction together with its receipt, as one fetch returns them.
pub struct TransactionWithReceipt {
    pub transaction: Transaction,
    pub receipt: TransactionReceipt,
}

pub ghost struct TransactionWithReceiptV {
    pub transaction: TransactionV,
    pub receipt: TransactionReceiptV,
}

impl View for TransactionWithReceipt {
    type V = TransactionWithReceiptV;

    open spec fn view(&self) -> TransactionWithReceiptV {
        TransactionWithReceiptV { transaction: self.transaction@, receipt: self.receipt@ }
    }
}

impl Clone for TransactionWithReceipt {
    fn clone(&self) -> (res: Self)
        ensures
            res == *self,
    {
        TransactionWithReceipt {
            transaction: self.transaction.clone(),
            receipt: self.receipt.clone(),
        }
    }
}

/// What a name-or-address resolution returns: the address in hex, and the
/// display name registered for it, if one exists. `ens_id == None` means
/// the lookup succeeded and found no name.
pub struct AddressInfo {
    pub address: String,
    pub ens_id: Option<String>,
}

pub ghost struct AddressInfoV {
    pub address: Seq<char>,
    pub ens_id: Option<Seq<char>>,
}

impl View for AddressInfo {
    type V = AddressInfoV;

    open spec fn view(&self) -> AddressInfoV {
        AddressInfoV { address: self.address@, ens_id: opt_string_view(self.ens_id) }
    }
}

impl Clone for AddressInfo {
    fn clone(&self) -> (res: Self)
        ensures
            res == *self,
    {
        AddressInfo {
            address: self.address.clone(),
            ens_id: match &self.ens_id {
                Some(n) => Some(n.clone()),
                None => None,
            },
        }
    }
}

} // verus!
