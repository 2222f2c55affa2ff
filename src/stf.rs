use crate::digest::{sha256_digest, sha256_of};
use sov_rollup_interface::stf::TransactionReceipt;
use std::marker::PhantomData;
use vstd::prelude::*;

verus! {

/// Declares `sov_rollup_interface::stf::TransactionReceipt`, carried as an
/// opaque value: blobs here hold no transactions, so such receipts only ever
/// stand in empty lists.
#[verifier::external_type_specification]
#[verifier::external_body]
#[verifier::reject_recursive_types(R)]
pub struct ExTransactionReceipt<R>(TransactionReceipt<R>);

/// The digest whose preimage a blob must carry to be classified as a success.
pub const TARGET_DIGEST: [u8; 32] = [
    43, 50, 219, 108, 44, 10, 98, 53, 251, 19, 151, 232, 34, 94, 168, 94, 15, 14, 110, 140, 123,
    18, 109, 0, 22, 204, 189, 224, 230, 103, 21, 30,
];

/// Outcome of processing one blob.
#[derive(Clone, Copy, Debug, PartialEq, Eq, Structural)]
pub enum ApplySlotResult {
    /// Incorrect hash preimage was posted on the DA.
    Failure,
    /// Correct hash preimage was posted on the DA.
    Success,
}

/// Receipt for one blob of a slot.
#[derive(Clone, Debug)]
pub struct BatchReceipt {
    /// SHA-256 digest of the blob's verified content.
    pub batch_hash: [u8; 32],
    /// Receipts of the transactions inside the blob: always empty here.
    pub tx_receipts: Vec<TransactionReceipt<()>>,
    /// The verdict on the blob.
    pub inner: ApplySlotResult,
}

/// What applying one slot produces.
#[derive(Debug)]
pub struct SlotResult {
    /// The state commitment after the slot.
    pub state_root: [u8; 32],
    /// One receipt per blob, in the order of the blobs.
    pub batch_receipts: Vec<BatchReceipt>,
    /// Witness for re-execution: none is needed.
    pub witness: (),
}

/// Mathematical view of a [`BatchReceipt`].
pub struct ReceiptModel {
    pub batch_hash: Seq<u8>,
    pub tx_receipt_count: nat,
    pub inner: ApplySlotResult,
}

/// Mathematical view of a [`SlotResult`].
pub struct SlotModel {
    pub state_root: Seq<u8>,
    pub receipts: Seq<ReceiptModel>,
}

impl View for BatchReceipt {
    type V = ReceiptModel;

    open spec fn view(&self) -> ReceiptModel {
        ReceiptModel {
            batch_hash: self.batch_hash@,
            tx_receipt_count: self.tx_receipts@.len(),
            inner: self.inner,
        }
    }
}

impl View for SlotResult {
    type V = SlotModel;

    open spec fn view(&self) -> SlotModel {
        SlotModel {
            state_root: self.state_root@,
            receipts: self.batch_receipts@.map_values(|r: BatchReceipt| r@),
        }
    }
}

/// The all-zero 32-byte state commitment.
pub open spec fn zero_root() -> Seq<u8> {
    Seq::new(32, |_i: int| 0u8)
}

/// The verdict for a blob whose content hashes to `digest`.
pub open spec fn verdict_of(digest: Seq<u8>) -> ApplySlotResult {
    if digest == TARGET_DIGEST@ {
        ApplySlotResult::Success
    } else {
        ApplySlotResult::Failure
    }
}

/// The receipt for a blob whose content hashes to `digest`.
pub open spec fn receipt_for_digest(digest: Seq<u8>) -> ReceiptModel {
    ReceiptModel { batch_hash: digest, tx_receipt_count: 0, inner: verdict_of(digest) }
}

/// The receipt for a blob with content `blob`.
pub open spec fn receipt_of(blob: Seq<u8>) -> ReceiptModel {
    receipt_for_digest(sha256_of(blob))
}

/// The result of applying a slot whose blobs have the contents `blobs`.
pub open spec fn slot_result_of(blobs: Seq<Seq<u8>>) -> SlotModel {
    SlotModel { state_root: zero_root(), receipts: blobs.map_values(|b: Seq<u8>| receipt_of(b)) }
}

/// Classifies a blob by the SHA-256 digest of its content: `Success` exactly
/// when the digest equals `TARGET_DIGEST` byte for byte.
pub fn classify_digest(digest: &[u8; 32]) -> (r: ApplySlotResult)
    ensures
        r == verdict_of(digest@),
{
    let target = TARGET_DIGEST;
    let mut i: usize = 0;
    while i < 32
        invariant
            0 <= i <= 32,
            digest@.len() == 32,
            target@ == TARGET_DIGEST@,
            forall|j: int| 0 <= j < i ==> digest@[j] == target@[j],
        decreases 32 - i,
    {
        if digest[i] != target[i] {
            assert(digest@[i as int] != TARGET_DIGEST@[i as int]);
            return ApplySlotResult::Failure;
        }
        i = i + 1;
    }
    assert(digest@ =~= TARGET_DIGEST@);
    ApplySlotResult::Success
}

/// Builds the receipt for a blob whose content hashes to `digest`: the digest
/// itself, no transaction receipts, and the verdict on the digest.
pub fn batch_receipt_for_digest(digest: [u8; 32]) -> (r: BatchReceipt)
    ensures
        r@ == receipt_for_digest(digest@),
{
    let inner = classify_digest(&digest);
    BatchReceipt { batch_hash: digest, tx_receipts: Vec::new(), inner }
}

/// A state transition function that checks whether the senders of blobs know
/// a preimage of `TARGET_DIGEST`. It keeps no state.
#[derive(Debug, Default, PartialEq, Eq)]
pub struct CheckHashPreimageStf<Cond> {
    phantom_data: PhantomData<Cond>,
}

impl<Cond> CheckHashPreimageStf<Cond> {
    /// A new state transition function; it carries no state.
    pub fn new() -> Self {
        CheckHashPreimageStf { phantom_data: PhantomData }
    }

    /// Genesis: the state commitment is the all-zero one, whatever the
    /// initial state.
    pub fn init_chain(&mut self, _initial_state: ()) -> (r: [u8; 32])
        ensures
            r@ == zero_root(),
            *final(self) == *old(self),
    {
        let r = [0u8; 32];
        assert(r@ =~= zero_root());
        r
    }

    /// Applies one slot: one receipt per blob, in the order of `blobs`, each
    /// holding the SHA-256 digest of the blob and the verdict on it; the state
    /// commitment stays the all-zero one. The previous commitment, the witness,
    /// the slot header and the validity condition do not affect the result.
    pub fn apply_slot<H, V>(
        &mut self,
        _pre_state_root: &[u8; 32],
        _witness: (),
        _slot_header: &H,
        _validity_condition: &V,
        blobs: &[Vec<u8>],
    ) -> (r: SlotResult)
        ensures
            r@ == slot_result_of(blobs@.map_values(|b: Vec<u8>| b@)),
            r.batch_receipts@.len() == blobs@.len(),
            *final(self) == *old(self),
    {
        let mut receipts: Vec<BatchReceipt> = Vec::new();
        let mut i: usize = 0;
        while i < blobs.len()
            invariant
                0 <= i <= blobs@.len(),
                receipts@.len() == i,
                forall|j: int| 0 <= j < i ==> (#[trigger] receipts@[j])@ == receipt_of(blobs@[j]@),
            decreases blobs@.len() - i,
        {
            let hash = sha256_digest(blobs[i].as_slice());
            receipts.push(batch_receipt_for_digest(hash));
            i = i + 1;
        }
        let state_root = [0u8; 32];
        let r = SlotResult { state_root, batch_receipts: receipts, witness: () };
        assert(state_root@ =~= zero_root());
        assert(r@.receipts =~= slot_result_of(blobs@.map_values(|b: Vec<u8>| b@)).receipts);
        r
    }
}

} // verus!
