//! The legacy-shaped PSBT container.
//!
//! The original PSBT generation carries a complete unsigned transaction,
//! with the per-input and per-output PSBT fields in parallel arrays beside
//! it: the array lengths must match the embedded transaction's input and
//! output counts.

use vstd::prelude::*;

use crate::input::InputV0;
use crate::keys::{ExtendedPubKey, KeySource};
use crate::output::OutputV0;
use crate::raw::{unique_keys, Key, ProprietaryKey};
use crate::tx::Transaction;

verus! {

/// A PSBT container in the legacy shape.
#[derive(Clone, Debug, PartialEq, Eq)]
pub struct PsbtV0 {
    /// The complete unsigned transaction this container is built around.
    pub unsigned_tx: Transaction,
    /// The wire number of the recorded generation; zero for this shape.
    pub version: u32,
    /// Extended public keys and the key source each was derived from;
    /// keys unique, stored and round-tripped but never derived.
    pub xpub: Vec<(ExtendedPubKey, KeySource)>,
    /// Global vendor-namespaced entries, copied verbatim.
    pub proprietary: Vec<(ProprietaryKey, Vec<u8>)>,
    /// Global unrecognized entries, copied verbatim.
    pub unknown: Vec<(Key, Vec<u8>)>,
    /// The PSBT fields of each input, parallel to the embedded
    /// transaction's inputs.
    pub inputs: Vec<InputV0>,
    /// The PSBT fields of each output, parallel to the embedded
    /// transaction's outputs.
    pub outputs: Vec<OutputV0>,
}

impl PsbtV0 {
    /// Container invariant: the parallel arrays match the embedded
    /// transaction's counts, and every key-value map — global and per
    /// record — holds each key at most once.
    pub open spec fn wf(self) -> bool {
        &&& self.inputs@.len() == self.unsigned_tx.input@.len()
        &&& self.outputs@.len() == self.unsigned_tx.output@.len()
        &&& unique_keys(self.xpub@)
        &&& unique_keys(self.proprietary@)
        &&& unique_keys(self.unknown@)
        &&& forall|i: int|
            0 <= i < self.inputs@.len() ==> unique_keys(
                (#[trigger] self.inputs@[i]).proprietary@,
            ) && unique_keys(self.inputs@[i].unknown@)
        &&& forall|i: int|
            0 <= i < self.outputs@.len() ==> unique_keys(
                (#[trigger] self.outputs@[i]).proprietary@,
            ) && unique_keys(self.outputs@[i].unknown@)
    }
}

} // verus!
