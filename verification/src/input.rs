//! Per-input PSBT records, in the legacy and the modern shape.
//!
//! A modern [`Input`] bundles the bare transaction input with the PSBT
//! fields for that input; a legacy [`InputV0`] holds the PSBT fields
//! alone, the bare input living in the container's embedded transaction.
//! [`Input::with`] merges a legacy record with its bare input and
//! [`Input::split`] undoes the merge exactly, so no field is duplicated or
//! lost across the two shapes.

use vstd::prelude::*;

use crate::raw::{Key, ProprietaryKey};
use crate::tx::{txin_unsigned, TxIn};

verus! {

/// Error building an [`Input`] record from a transaction input.
#[derive(Clone, Copy, Debug, PartialEq, Eq, Structural)]
pub enum TxinError {
    /// The input at this index already carries script-sig or witness data;
    /// the transaction embedded in a PSBT must be literally unsigned.
    AlreadySigned(usize),
}

/// The legacy-shaped PSBT fields of one input: what a legacy container
/// stores beside its embedded transaction.
#[derive(Clone, Debug, PartialEq, Eq)]
pub struct InputV0 {
    /// The locktime this input's signer insists the transaction carry, if
    /// one was declared.
    pub required_locktime: Option<u32>,
    /// Vendor-namespaced entries, copied verbatim and never inspected.
    pub proprietary: Vec<(ProprietaryKey, Vec<u8>)>,
    /// Unrecognized entries, copied verbatim and never inspected.
    pub unknown: Vec<(Key, Vec<u8>)>,
}

/// One input's PSBT record in the modern shape: the bare transaction input
/// at its position, together with the input's PSBT fields.
#[derive(Clone, Debug, PartialEq, Eq)]
pub struct Input {
    /// Position within the transaction's input sequence.
    pub index: usize,
    /// The bare transaction input this record stands for.
    pub txin: TxIn,
    /// The locktime this input's signer insists the transaction carry, if
    /// one was declared.
    pub required_locktime: Option<u32>,
    /// Vendor-namespaced entries, copied verbatim and never inspected.
    pub proprietary: Vec<(ProprietaryKey, Vec<u8>)>,
    /// Unrecognized entries, copied verbatim and never inspected.
    pub unknown: Vec<(Key, Vec<u8>)>,
}

impl Input {
    /// The record [`Input::with`] builds from legacy PSBT fields and a
    /// bare input at a given position.
    pub open spec fn spec_with(index: usize, v0: InputV0, txin: TxIn) -> Input {
        Input {
            index,
            txin,
            required_locktime: v0.required_locktime,
            proprietary: v0.proprietary,
            unknown: v0.unknown,
        }
    }

    /// The pair [`Input::split`] decomposes a record into: its legacy
    /// PSBT fields and its bare transaction input.
    pub open spec fn spec_split(self) -> (InputV0, TxIn) {
        (
            InputV0 {
                required_locktime: self.required_locktime,
                proprietary: self.proprietary,
                unknown: self.unknown,
            },
            self.txin,
        )
    }

    /// What a record freshly built by [`Input::new`] holds: the given
    /// position and bare input, no declared locktime, empty maps.
    pub open spec fn is_new(self, index: usize, txin: TxIn) -> bool {
        &&& self.index == index
        &&& self.txin == txin
        &&& self.required_locktime is None
        &&& self.proprietary@.len() == 0
        &&& self.unknown@.len() == 0
    }

    /// Builds the record for a fresh signing session from the transaction
    /// input at `index`. Fails if the input already carries signature
    /// data, naming the offending index.
    pub fn new(index: usize, txin: TxIn) -> (r: Result<Input, TxinError>)
        ensures
            txin_unsigned(txin) ==> r is Ok && r->Ok_0.is_new(index, txin),
            !txin_unsigned(txin) ==> r == Err::<Input, TxinError>(TxinError::AlreadySigned(index)),
    {
        if txin.is_unsigned() {
            Ok(
                Input {
                    index,
                    txin,
                    required_locktime: None,
                    proprietary: Vec::new(),
                    unknown: Vec::new(),
                },
            )
        } else {
            Err(TxinError::AlreadySigned(index))
        }
    }

    /// Merges a legacy PSBT input with its bare transaction input into the
    /// modern record at position `index`.
    pub fn with(index: usize, v0: InputV0, txin: TxIn) -> (r: Input)
        ensures
            r == Input::spec_with(index, v0, txin),
    {
        let InputV0 { required_locktime, proprietary, unknown } = v0;
        Input { index, txin, required_locktime, proprietary, unknown }
    }

    /// Decomposes the record back into its legacy PSBT fields and its bare
    /// transaction input — the exact structural inverse of
    /// [`Input::with`].
    pub fn split(self) -> (r: (InputV0, TxIn))
        ensures
            r == self.spec_split(),
    {
        let Input { index: _, txin, required_locktime, proprietary, unknown } = self;
        (InputV0 { required_locktime, proprietary, unknown }, txin)
    }

    /// The locktime requirement this input declares, if any — never a
    /// guessed value.
    pub fn locktime(&self) -> (r: Option<u32>)
        ensures
            r == self.required_locktime,
    {
        self.required_locktime
    }
}

/// Law: `split` is the exact structural inverse of `with` — a record built
/// from legacy PSBT fields and a bare input decomposes back into exactly
/// that pair.
pub proof fn lemma_input_split_with(index: usize, v0: InputV0, txin: TxIn)
    ensures
        Input::spec_with(index, v0, txin).spec_split() == (v0, txin),
{
}

/// Law: `with` is the exact structural inverse of `split` — rebuilding a
/// record at its own position from its split parts restores it field for
/// field.
pub proof fn lemma_input_with_split(r: Input)
    ensures
        Input::spec_with(r.index, r.spec_split().0, r.spec_split().1) == r,
{
}

} // verus!
