use vstd::prelude::*;
use vstd::seq_lib::*;
use crate::route::{AddrRefV, BlockRefV, RouteIdV, RouteV, TxRefV};
use crate::types::{
    AddressInfoV, BlockWithTransactionReceiptsV, TransactionReceiptV, TransactionWithReceiptV,
};

verus! {

/// The test a receipt must pass to attach to a block payload: it carries
/// the same block number, absent numbers matching absent numbers.
pub open spec fn receipt_matches(r: TransactionReceiptV, number: Option<u64>) -> bool {
    r.block_number == number
}

pub open spec fn matching_receipts(
    rs: Seq<TransactionReceiptV>,
    number: Option<u64>,
) -> Seq<TransactionReceiptV> {
    rs.filter(|r: TransactionReceiptV| receipt_matches(r, number))
}

/// Receipts merge additively into a resolved block payload: those carrying
/// the payload's block number are appended, in arrival order, to what is
/// already there — never replacing it. A target whose payload has not
/// arrived is left untouched, so receipts that come before their block are
/// dropped for that entry.
pub open spec fn merge_receipts_into_block_ref(
    b: BlockRefV,
    rs: Seq<TransactionReceiptV>,
) -> BlockRefV {
    match b.payload {
        None => b,
        Some(p) => BlockRefV {
            number: b.number,
            payload: Some(
                BlockWithTransactionReceiptsV {
                    block: p.block,
                    transaction_receipts: p.transaction_receipts
                        + matching_receipts(rs, p.block.number),
                },
            ),
        },
    }
}

/// How one navigation entry absorbs a batch of fetched receipts: each of
/// the three block-shaped targets keeps its own variant and its focus and
/// merges the batch into its payload; every other entry is unchanged.
pub open spec fn merge_receipts_into_route(r: RouteV, rs: Seq<TransactionReceiptV>) -> RouteV {
    match r.id {
        RouteIdV::Block(b) => RouteV {
            id: RouteIdV::Block(merge_receipts_into_block_ref(b, rs)),
            active_block: r.active_block,
        },
        RouteIdV::TransactionsOfBlock(b) => RouteV {
            id: RouteIdV::TransactionsOfBlock(merge_receipts_into_block_ref(b, rs)),
            active_block: r.active_block,
        },
        RouteIdV::WithdrawalsOfBlock(b) => RouteV {
            id: RouteIdV::WithdrawalsOfBlock(merge_receipts_into_block_ref(b, rs)),
            active_block: r.active_block,
        },
        _ => r,
    }
}

/// A fetched block attaches to a block-shaped target that still lacks its
/// payload and whose number the fetched data carries; any other target is
/// unchanged. A target already resolved keeps what it has, so earlier
/// merges are never overwritten.
pub open spec fn attach_block_to_ref(
    b: BlockRefV,
    fetched: BlockWithTransactionReceiptsV,
) -> BlockRefV {
    if b.payload is None && fetched.block.number == Some(b.number) {
        BlockRefV { number: b.number, payload: Some(fetched) }
    } else {
        b
    }
}

pub open spec fn attach_block_to_route(
    r: RouteV,
    fetched: BlockWithTransactionReceiptsV,
) -> RouteV {
    match r.id {
        RouteIdV::Block(b) => RouteV {
            id: RouteIdV::Block(attach_block_to_ref(b, fetched)),
            active_block: r.active_block,
        },
        RouteIdV::TransactionsOfBlock(b) => RouteV {
            id: RouteIdV::TransactionsOfBlock(attach_block_to_ref(b, fetched)),
            active_block: r.active_block,
        },
        RouteIdV::WithdrawalsOfBlock(b) => RouteV {
            id: RouteIdV::WithdrawalsOfBlock(attach_block_to_ref(b, fetched)),
            active_block: r.active_block,
        },
        _ => r,
    }
}

/// A fetched transaction attaches to a transaction target that was asked
/// for its hash and still lacks its payload.
pub open spec fn attach_transaction_to_ref(t: TxRefV, fetched: TransactionWithReceiptV) -> TxRefV {
    if t.payload is None && fetched.transaction.hash == t.hash {
        TxRefV { hash: t.hash, payload: Some(fetched) }
    } else {
        t
    }
}

pub open spec fn attach_transaction_to_route(r: RouteV, fetched: TransactionWithReceiptV) -> RouteV {
    match r.id {
        RouteIdV::Transaction(t) => RouteV {
            id: RouteIdV::Transaction(attach_transaction_to_ref(t, fetched)),
            active_block: r.active_block,
        },
        _ => r,
    }
}

/// Resolved address information attaches to an address target that was
/// asked for that address and still lacks its payload.
pub open spec fn attach_address_info_to_ref(a: AddrRefV, info: AddressInfoV) -> AddrRefV {
    if a.payload is None && info.address == a.address {
        AddrRefV { address: a.address, payload: Some(info) }
    } else {
        a
    }
}

pub open spec fn attach_address_info_to_route(r: RouteV, info: AddressInfoV) -> RouteV {
    match r.id {
        RouteIdV::AddressInfo(a) => RouteV {
            id: RouteIdV::AddressInfo(attach_address_info_to_ref(a, info)),
            active_block: r.active_block,
        },
        _ => r,
    }
}

/// How one navigation entry absorbs any terminal fetch outcome: each kind
/// of data attaches to the entries interested in it, and a failure leaves
/// every entry as it was, still showing its loading state.
pub open spec fn apply_result_to_route(r: RouteV, res: crate::command::FetchResultV) -> RouteV {
    match res {
        crate::command::FetchResultV::Block { block } => attach_block_to_route(r, block),
        crate::command::FetchResultV::TransactionWithReceipt { transaction_with_receipt } => {
            attach_transaction_to_route(r, transaction_with_receipt)
        },
        crate::command::FetchResultV::NameOrAddressInfo { info } => {
            attach_address_info_to_route(r, info)
        },
        crate::command::FetchResultV::BlockReceipts { transaction_receipts } => {
            merge_receipts_into_route(r, transaction_receipts)
        },
        crate::command::FetchResultV::Failure => r,
    }
}

/// The block payload a route shows, if it is one of the block-shaped
/// targets and its data has arrived.
pub open spec fn route_block_payload(r: RouteV) -> Option<BlockWithTransactionReceiptsV> {
    match r.id {
        RouteIdV::Block(b) => b.payload,
        RouteIdV::TransactionsOfBlock(b) => b.payload,
        RouteIdV::WithdrawalsOfBlock(b) => b.payload,
        _ => None,
    }
}

/// Reconciliation is scoped: a batch of receipts all carrying block number
/// `n` leaves every entry unchanged whose resolved block payload carries a
/// different number — and every entry that is not block-shaped at all.
pub proof fn lemma_receipts_scoped(r: RouteV, rs: Seq<TransactionReceiptV>, n: u64)
    requires
        forall|i: int| 0 <= i < rs.len() ==> rs[i].block_number == Some(n),
        match route_block_payload(r) {
            Some(p) => p.block.number != Some(n),
            None => true,
        },
    ensures
        merge_receipts_into_route(r, rs) == r,
{
    match route_block_payload(r) {
        Some(p) => {
            assert forall|i: int| 0 <= i < rs.len() implies !receipt_matches(
                #[trigger] rs[i],
                p.block.number,
            ) by {
                assert(rs[i].block_number == Some(n));
            }
            lemma_filter_all_neg(rs, p.block.number);
            assert(p.transaction_receipts + matching_receipts(rs, p.block.number)
                =~= p.transaction_receipts);
        },
        None => {},
    }
}

/// A filter that no element of the batch passes yields the empty sequence.
proof fn lemma_filter_all_neg(rs: Seq<TransactionReceiptV>, number: Option<u64>)
    requires
        forall|i: int| 0 <= i < rs.len() ==> !receipt_matches(#[trigger] rs[i], number),
    ensures
        matching_receipts(rs, number) =~= Seq::<TransactionReceiptV>::empty(),
    decreases rs.len(),
{
    reveal(Seq::filter);
    if rs.len() > 0 {
        lemma_filter_all_neg(rs.drop_last(), number);
    }
}

/// Applying the same receipts batch twice appends its matching receipts
/// twice: the merge is additive, not deduplicating, by design.
pub proof fn lemma_receipts_merge_twice(b: BlockRefV, rs: Seq<TransactionReceiptV>)
    requires
        b.payload is Some,
    ensures
        merge_receipts_into_block_ref(merge_receipts_into_block_ref(b, rs), rs) == (BlockRefV {
            number: b.number,
            payload: Some(
                BlockWithTransactionReceiptsV {
                    block: b.payload->Some_0.block,
                    transaction_receipts: b.payload->Some_0.transaction_receipts
                        + matching_receipts(rs, b.payload->Some_0.block.number)
                        + matching_receipts(rs, b.payload->Some_0.block.number),
                },
            ),
        }),
{
}

/// The two arrival orders for a block and its receipts, on a target whose
/// payload has not arrived yet. Block first: the receipts that match are
/// appended to the fetched data. Receipts first: they find no payload and
/// are dropped, and the block then attaches as fetched — the documented
/// ordering gap.
pub proof fn lemma_block_and_receipts_order(
    b: BlockRefV,
    fetched: BlockWithTransactionReceiptsV,
    rs: Seq<TransactionReceiptV>,
)
    requires
        b.payload is None,
        fetched.block.number == Some(b.number),
    ensures
        merge_receipts_into_block_ref(attach_block_to_ref(b, fetched), rs) == (BlockRefV {
            number: b.number,
            payload: Some(
                BlockWithTransactionReceiptsV {
                    block: fetched.block,
                    transaction_receipts: fetched.transaction_receipts + matching_receipts(
                        rs,
                        fetched.block.number,
                    ),
                },
            ),
        }),
        attach_block_to_ref(merge_receipts_into_block_ref(b, rs), fetched) == (BlockRefV {
            number: b.number,
            payload: Some(fetched),
        }),
{
}

/// On a target whose payload has already arrived, a late block fetch and a
/// receipts batch commute: the attach is a no-op either way, so only the
/// merge acts.
pub proof fn lemma_reconcile_commutes_when_resolved(
    b: BlockRefV,
    fetched: BlockWithTransactionReceiptsV,
    rs: Seq<TransactionReceiptV>,
)
    requires
        b.payload is Some,
    ensures
        merge_receipts_into_block_ref(attach_block_to_ref(b, fetched), rs)
            == attach_block_to_ref(merge_receipts_into_block_ref(b, rs), fetched),
{
}

} // verus!
