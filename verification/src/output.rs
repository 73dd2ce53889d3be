//! Per-output PSBT records, in the legacy and the modern shape.
//!
//! The modern [`Output`] bundles the bare transaction output with the PSBT
//! fields for that output; the legacy [`OutputV0`] holds the PSBT fields
//! alone. As with inputs, [`Output::with`] and [`Output::split`] are exact
//! structural inverses. Outputs carry no signature data, so building one
//! from a transaction output cannot fail.

use vstd::prelude::*;

use crate::raw::{Key, ProprietaryKey};
use crate::tx::TxOut;

verus! {

/// The legacy-shaped PSBT fields of one output: what a legacy container
/// stores beside its embedded transaction.
#[derive(Clone, Debug, PartialEq, Eq)]
pub struct OutputV0 {
    /// Vendor-namespaced entries, copied verbatim and never inspected.
    pub proprietary: Vec<(ProprietaryKey, Vec<u8>)>,
    /// Unrecognized entries, copied verbatim and never inspected.
    pub unknown: Vec<(Key, Vec<u8>)>,
}

/// One output's PSBT record in the modern shape: the bare transaction
/// output at its position, together with the output's PSBT fields.
#[derive(Clone, Debug, PartialEq, Eq)]
pub struct Output {
    /// Position within the transaction's output sequence.
    pub index: usize,
    /// The bare transaction output this record stands for.
    pub txout: TxOut,
    /// Vendor-namespaced entries, copied verbatim and never inspected.
    pub proprietary: Vec<(ProprietaryKey, Vec<u8>)>,
    /// Unrecognized entries, copied verbatim and never inspected.
    pub unknown: Vec<(Key, Vec<u8>)>,
}

impl Output {
    /// The record [`Output::with`] builds from legacy PSBT fields and a
    /// bare output at a given position.
    pub open spec fn spec_with(index: usize, v0: OutputV0, txout: TxOut) -> Output {
        Output { index, txout, proprietary: v0.proprietary, unknown: v0.unknown }
    }

    /// The pair [`Output::split`] decomposes a record into: its legacy
    /// PSBT fields and its bare transaction output.
    pub open spec fn spec_split(self) -> (OutputV0, TxOut) {
        (OutputV0 { proprietary: self.proprietary, unknown: self.unknown }, self.txout)
    }

    /// What a record freshly built by [`Output::new`] holds: the given
    /// position and bare output, empty maps.
    pub open spec fn is_new(self, index: usize, txout: TxOut) -> bool {
        &&& self.index == index
        &&& self.txout == txout
        &&& self.proprietary@.len() == 0
        &&& self.unknown@.len() == 0
    }

    /// Builds the record for a fresh signing session from the transaction
    /// output at `index`.
    pub fn new(index: usize, txout: TxOut) -> (r: Output)
        ensures
            r.is_new(index, txout),
    {
        Output { index, txout, proprietary: Vec::new(), unknown: Vec::new() }
    }

    /// Merges a legacy PSBT output with its bare transaction output into
    /// the modern record at position `index`.
    pub fn with(index: usize, v0: OutputV0, txout: TxOut) -> (r: Output)
        ensures
            r == Output::spec_with(index, v0, txout),
    {
        let OutputV0 { proprietary, unknown } = v0;
        Output { index, txout, proprietary, unknown }
    }

    /// Decomposes the record back into its legacy PSBT fields and its bare
    /// transaction output — the exact structural inverse of
    /// [`Output::with`].
    pub fn split(self) -> (r: (OutputV0, TxOut))
        ensures
            r == self.spec_split(),
    {
        let Output { index: _, txout, proprietary, unknown } = self;
        (OutputV0 { proprietary, unknown }, txout)
    }
}

/// Law: `split` is the exact structural inverse of `with` for outputs.
pub proof fn lemma_output_split_with(index: usize, v0: OutputV0, txout: TxOut)
    ensures
        Output::spec_with(index, v0, txout).spec_split() == (v0, txout),
{
}

/// Law: `with` is the exact structural inverse of `split` for outputs.
pub proof fn lemma_output_with_split(r: Output)
    ensures
        Output::spec_with(r.index, r.spec_split().0, r.spec_split().1) == r,
{
}

} // verus!
