use crate::digest::sha256_of;
use crate::stf::{slot_result_of, zero_root, ApplySlotResult, TARGET_DIGEST};
use vstd::prelude::*;

verus! {

/// A slot with a single blob yields exactly one receipt, and that receipt is a
/// success if and only if the SHA-256 digest of the blob equals the target
/// digest; otherwise it is a failure.
pub proof fn lemma_single_blob_verdict(blob: Seq<u8>)
    ensures
        slot_result_of(seq![blob]).receipts.len() == 1,
        slot_result_of(seq![blob]).receipts[0].batch_hash == sha256_of(blob),
        slot_result_of(seq![blob]).receipts[0].inner == ApplySlotResult::Success <==> sha256_of(
            blob,
        ) == TARGET_DIGEST@,
        slot_result_of(seq![blob]).receipts[0].inner == ApplySlotResult::Failure <==> sha256_of(
            blob,
        ) != TARGET_DIGEST@,
{
}

/// Receipts follow the order of the blobs: applying the blobs `a` followed by
/// the blobs `b` gives the receipts of `a` followed by those of `b`.
pub proof fn lemma_receipts_follow_blob_order(a: Seq<Seq<u8>>, b: Seq<Seq<u8>>)
    ensures
        slot_result_of(a + b).receipts.len() == a.len() + b.len(),
        slot_result_of(a + b).receipts == slot_result_of(a).receipts + slot_result_of(b).receipts,
{
    assert(slot_result_of(a + b).receipts =~= slot_result_of(a).receipts + slot_result_of(
        b,
    ).receipts);
}

/// Applying a slot is deterministic: equal blob contents give equal results,
/// state commitment and receipts alike.
pub proof fn lemma_apply_slot_deterministic(blobs1: Seq<Seq<u8>>, blobs2: Seq<Seq<u8>>)
    requires
        blobs1 == blobs2,
    ensures
        slot_result_of(blobs1) == slot_result_of(blobs2),
{
}

/// The state commitment after a slot is the all-zero one, whatever the blobs.
pub proof fn lemma_state_root_fixed(a: Seq<Seq<u8>>, b: Seq<Seq<u8>>)
    ensures
        slot_result_of(a).state_root == zero_root(),
        slot_result_of(a).state_root == slot_result_of(b).state_root,
{
}

} // verus!
