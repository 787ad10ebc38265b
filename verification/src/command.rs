use vstd::prelude::*;
use crate::types::{
    AddressInfo, AddressInfoV, BlockWithTransactionReceipts, BlockWithTransactionReceiptsV,
    TransactionReceipt, TransactionReceiptV, TransactionWithReceipt, TransactionWithReceiptV,
    receipts_seq_view,
};

verus! {

/// What a resolution request asks about: a plain name, or an address given
/// as a hex string.
pub enum NameOrAddress {
    Name(String),
    Address(String),
}

pub ghost enum NameOrAddressV {
    Name(Seq<char>),
    Address(Seq<char>),
}

impl View for NameOrAddress {
    type V = NameOrAddressV;

    open spec fn view(&self) -> NameOrAddressV {
        match self {
            NameOrAddress::Name(s) => NameOrAddressV::Name(s@),
            NameOrAddress::Address(s) => NameOrAddressV::Address(s@),
        }
    }
}

/// A request for exactly one unit of external data, sent to the fetch
/// worker. `is_searching` distinguishes a user-initiated search from an
/// opportunistic fill of a display name.
pub enum Command {
    GetBlock { number: u64 },
    GetTransactionWithReceipt { transaction_hash: String },
    GetNameOrAddressInfo { name_or_address: NameOrAddress, is_searching: bool },
    GetBlockReceipts { number: u64 },
}

pub ghost enum CommandV {
    GetBlock { number: u64 },
    GetTransactionWithReceipt { transaction_hash: Seq<char> },
    GetNameOrAddressInfo { name_or_address: NameOrAddressV, is_searching: bool },
    GetBlockReceipts { number: u64 },
}

impl View for Command {
    type V = CommandV;

    open spec fn view(&self) -> CommandV {
        match self {
            Command::GetBlock { number } => CommandV::GetBlock { number: *number },
            Command::GetTransactionWithReceipt { transaction_hash } => {
                CommandV::GetTransactionWithReceipt { transaction_hash: transaction_hash@ }
            },
            Command::GetNameOrAddressInfo { name_or_address, is_searching } => {
                CommandV::GetNameOrAddressInfo {
                    name_or_address: name_or_address@,
                    is_searching: *is_searching,
                }
            },
            Command::GetBlockReceipts { number } => {
                CommandV::GetBlockReceipts { number: *number }
            },
        }
    }
}

/// What the fetch worker hands back for a command: the fetched data, or a
/// bare failure marker when the fetch did not produce any. Every dispatched
/// command yields exactly one of these, and consuming any of them clears
/// the shared loading flag.
pub enum FetchResult {
    Block { block: BlockWithTransactionReceipts },
    TransactionWithReceipt { transaction_with_receipt: TransactionWithReceipt },
    NameOrAddressInfo { info: AddressInfo },
    BlockReceipts { transaction_receipts: Vec<TransactionReceipt> },
    Failure,
}

pub ghost enum FetchResultV {
    Block { block: BlockWithTransactionReceiptsV },
    TransactionWithReceipt { transaction_with_receipt: TransactionWithReceiptV },
    NameOrAddressInfo { info: AddressInfoV },
    BlockReceipts { transaction_receipts: Seq<TransactionReceiptV> },
    Failure,
}

impl View for FetchResult {
    type V = FetchResultV;

    open spec fn view(&self) -> FetchResultV {
        match self {
            FetchResult::Block { block } => FetchResultV::Block { block: block@ },
            FetchResult::TransactionWithReceipt { transaction_with_receipt } => {
                FetchResultV::TransactionWithReceipt {
                    transaction_with_receipt: transaction_with_receipt@,
                }
            },
            FetchResult::NameOrAddressInfo { info } => {
                FetchResultV::NameOrAddressInfo { info: info@ }
            },
            FetchResult::BlockReceipts { transaction_receipts } => {
                FetchResultV::BlockReceipts {
                    transaction_receipts: receipts_seq_view(transaction_receipts@),
                }
            },
            FetchResult::Failure => FetchResultV::Failure,
        }
    }
}

} // verus!
