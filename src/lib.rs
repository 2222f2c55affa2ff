//! A stateless state transition function that checks, blob by blob, whether
//! the sender posted a preimage of one fixed SHA-256 digest.

pub mod digest;
pub mod lemmas;
pub mod stf;

pub use stf::{
    batch_receipt_for_digest, classify_digest, ApplySlotResult, BatchReceipt,
    CheckHashPreimageStf, SlotResult, TARGET_DIGEST,
};
