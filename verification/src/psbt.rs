//! The modern-shaped PSBT container and its construction from a
//! transaction.
//!
//! In the modern shape the transaction-level fields stand alone as global
//! fields, so inputs and outputs can be worked on before a complete
//! transaction exists: the signed transaction version is stored as its
//! unsigned bit pattern, and a fallback locktime covers inputs that
//! declare no requirement of their own.

use vstd::prelude::*;

use crate::input::{Input, TxinError};
use crate::keys::{ExtendedPubKey, KeySource};
use crate::output::Output;
use crate::raw::{unique_keys, Key, ProprietaryKey};
use crate::tx::{all_inputs_unsigned, txin_unsigned, Transaction};
use crate::version::PsbtVersion;

verus! {

/// Error converting a transaction into a container.
#[derive(Clone, Copy, Debug, PartialEq, Eq, Structural)]
pub enum TxError {
    /// The signed transaction version does not fit the container's
    /// unsigned version field; carries the offending value.
    InvalidTxVersion(i32),
    /// An input failed the must-be-unsigned gate; carries the offending
    /// index.
    Txin(TxinError),
}

/// A PSBT container in the modern shape.
#[derive(Clone, Debug, PartialEq, Eq)]
pub struct Psbt {
    /// The wire generation this container is recorded under.
    pub psbt_version: PsbtVersion,
    /// Extended public keys and the key source each was derived from;
    /// keys unique, stored and round-tripped but never derived.
    pub xpub: Vec<(ExtendedPubKey, KeySource)>,
    /// The transaction version, stored as the unsigned bit pattern of the
    /// signed transaction field.
    pub tx_version: u32,
    /// The locktime used when no input declares a requirement of its own.
    pub fallback_locktime: u32,
    /// One record per transaction input, in transaction order.
    pub inputs: Vec<Input>,
    /// One record per transaction output, in transaction order.
    pub outputs: Vec<Output>,
    /// Global vendor-namespaced entries, copied verbatim.
    pub proprietary: Vec<(ProprietaryKey, Vec<u8>)>,
    /// Global unrecognized entries, copied verbatim.
    pub unknown: Vec<(Key, Vec<u8>)>,
}

impl Psbt {
    /// Container invariant: each record's positional index equals its
    /// position in the sequence, and every key-value map — global and per
    /// record — holds each key at most once.
    pub open spec fn wf(self) -> bool {
        &&& forall|i: int|
            0 <= i < self.inputs@.len() ==> (#[trigger] self.inputs@[i]).index == i
        &&& forall|i: int|
            0 <= i < self.outputs@.len() ==> (#[trigger] self.outputs@[i]).index == i
        &&& unique_keys(self.xpub@)
        &&& unique_keys(self.proprietary@)
        &&& unique_keys(self.unknown@)
        &&& forall|i: int|
            0 <= i < self.inputs@.len() ==> unique_keys(
                (#[trigger] self.inputs@[i]).proprietary@,
            ) && unique_keys(self.inputs@[i].unknown@)
        &&& forall|i: int|
            0 <= i < self.outputs@.len() ==> unique_keys(
                (#[trigger] self.outputs@[i]).proprietary@,
            ) && unique_keys(self.outputs@[i].unknown@)
    }

    /// What a container freshly built by [`Psbt::with`] holds: every
    /// transaction input and output wrapped into a record at its position,
    /// the transaction's version and locktime carried over, and empty key
    /// maps.
    pub open spec fn is_with(self, tx: Transaction, psbt_version: PsbtVersion) -> bool {
        &&& self.psbt_version == psbt_version
        &&& self.xpub@.len() == 0
        &&& self.tx_version as int == tx.version as int
        &&& self.fallback_locktime == tx.lock_time
        &&& self.inputs@.len() == tx.input@.len()
        &&& forall|i: int|
            0 <= i < tx.input@.len() ==> (#[trigger] self.inputs@[i]).is_new(
                i as usize,
                tx.input@[i],
            )
        &&& self.outputs@.len() == tx.output@.len()
        &&& forall|i: int|
            0 <= i < tx.output@.len() ==> (#[trigger] self.outputs@[i]).is_new(
                i as usize,
                tx.output@[i],
            )
        &&& self.proprietary@.len() == 0
        &&& self.unknown@.len() == 0
    }

    /// Builds a modern container from a complete transaction for a fresh
    /// signing session.
    ///
    /// Succeeds exactly when every input is unsigned and the signed
    /// transaction version is non-negative, so that it fits the unsigned
    /// field as the same value. A signed-looking input fails the whole
    /// operation with the first offending index; a version that does not
    /// fit fails with the offending value — nothing is truncated and no
    /// partial container is returned.
    pub fn with(tx: Transaction, psbt_version: PsbtVersion) -> (r: Result<Psbt, TxError>)
        ensures
            r is Ok <==> all_inputs_unsigned(tx.input@) && tx.version >= 0,
            r is Ok ==> r->Ok_0.is_with(tx, psbt_version) && r->Ok_0.wf(),
            !all_inputs_unsigned(tx.input@) ==> exists|k: int|
                #![trigger tx.input@[k]]
                0 <= k < tx.input@.len() && !txin_unsigned(tx.input@[k]) && (forall|j: int|
                    0 <= j < k ==> txin_unsigned(#[trigger] tx.input@[j])) && r == Err::<
                    Psbt,
                    TxError,
                >(TxError::Txin(TxinError::AlreadySigned(k as usize))),
            all_inputs_unsigned(tx.input@) && tx.version < 0 ==> r == Err::<Psbt, TxError>(
                TxError::InvalidTxVersion(tx.version),
            ),
    {
        let Transaction { version, lock_time, input, output } = tx;
        let ghost tx_inputs = input@;
        let ghost tx_outputs = output@;

        let mut rest_in = input;
        let mut inputs: Vec<Input> = Vec::new();
        while rest_in.len() > 0
            invariant
                tx_inputs == tx.input@,
                inputs@.len() + rest_in@.len() == tx_inputs.len(),
                rest_in@ == tx_inputs.skip(inputs@.len() as int),
                forall|j: int| 0 <= j < inputs@.len() ==> txin_unsigned(#[trigger] tx_inputs[j]),
                forall|j: int|
                    0 <= j < inputs@.len() ==> (#[trigger] inputs@[j]).is_new(
                        j as usize,
                        tx_inputs[j],
                    ),
            decreases rest_in@.len(),
        {
            let idx: usize = inputs.len();
            let txin = rest_in.remove(0);
            proof {
                assert(txin == tx_inputs[idx as int]);
                assert(rest_in@ =~= tx_inputs.skip(idx as int + 1));
            }
            match Input::new(idx, txin) {
                Ok(inp) => inputs.push(inp),
                Err(e) => {
                    proof {
                        let k = idx as int;
                        assert(tx.input@ == tx_inputs);
                        assert(!txin_unsigned(tx.input@[k]));
                        assert(!all_inputs_unsigned(tx.input@));
                        assert(e == TxinError::AlreadySigned(idx));
                        assert(0 <= k < tx.input@.len() && !txin_unsigned(tx.input@[k]) && (
                        forall|j: int| 0 <= j < k ==> txin_unsigned(#[trigger] tx.input@[j])));
                    }
                    return Err(TxError::Txin(e));
                },
            }
        }

        let mut rest_out = output;
        let mut outputs: Vec<Output> = Vec::new();
        while rest_out.len() > 0
            invariant
                outputs@.len() + rest_out@.len() == tx_outputs.len(),
                rest_out@ == tx_outputs.skip(outputs@.len() as int),
                forall|j: int|
                    0 <= j < outputs@.len() ==> (#[trigger] outputs@[j]).is_new(
                        j as usize,
                        tx_outputs[j],
                    ),
            decreases rest_out@.len(),
        {
            let idx: usize = outputs.len();
            let txout = rest_out.remove(0);
            proof {
                assert(txout == tx_outputs[idx as int]);
                assert(rest_out@ =~= tx_outputs.skip(idx as int + 1));
            }
            outputs.push(Output::new(idx, txout));
        }

        if version < 0 {
            return Err(TxError::InvalidTxVersion(version));
        }
        let tx_version: u32 = version as u32;

        let n_in: usize = inputs.len();
        let n_out: usize = outputs.len();
        let built = Psbt {
            psbt_version,
            xpub: Vec::new(),
            tx_version,
            fallback_locktime: lock_time,
            inputs,
            outputs,
            proprietary: Vec::new(),
            unknown: Vec::new(),
        };
        proof {
            assert(built.inputs@.len() == n_in);
            assert(built.outputs@.len() == n_out);
            assert forall|i: int| 0 <= i < built.inputs@.len() implies unique_keys(
                (#[trigger] built.inputs@[i]).proprietary@,
            ) && unique_keys(built.inputs@[i].unknown@) by {
                assert(built.inputs@[i].is_new(i as usize, tx.input@[i]));
            }
            assert forall|i: int| 0 <= i < built.outputs@.len() implies unique_keys(
                (#[trigger] built.outputs@[i]).proprietary@,
            ) && unique_keys(built.outputs@[i].unknown@) by {
                assert(built.outputs@[i].is_new(i as usize, tx.output@[i]));
            }
            assert forall|i: int| 0 <= i < built.inputs@.len() implies (#[trigger] built.inputs@[i]).index
                == i by {
                assert(built.inputs@[i].is_new(i as usize, tx.input@[i]));
            }
            assert forall|i: int| 0 <= i < built.outputs@.len() implies (#[trigger] built.outputs@[i]).index
                == i by {
                assert(built.outputs@[i].is_new(i as usize, tx.output@[i]));
            }
            assert(built.is_with(tx, psbt_version));
            assert(built.wf());
        }
        Ok(built)
    }
}

} // verus!
