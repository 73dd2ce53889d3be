//! The bare transaction shape the container is built from and finalized
//! into: version, locktime, and ordered input and output lists, each held
//! as plain values.

use vstd::prelude::*;

verus! {

/// One input of a bitcoin transaction.
#[derive(Clone, Debug, PartialEq, Eq)]
pub struct TxIn {
    /// Identifier of the transaction holding the output this input spends.
    pub prev_txid: Vec<u8>,
    /// Index of the spent output within that transaction.
    pub prev_vout: u32,
    /// The input's sequence number.
    pub sequence: u32,
    /// The script-sig; empty on an unsigned input.
    pub script_sig: Vec<u8>,
    /// The witness stack; empty on an unsigned input.
    pub witness: Vec<Vec<u8>>,
}

/// One output of a bitcoin transaction.
#[derive(Clone, Debug, PartialEq, Eq)]
pub struct TxOut {
    /// The output's value in satoshis.
    pub value: u64,
    /// The script that locks the output.
    pub script_pubkey: Vec<u8>,
}

/// A complete bitcoin transaction.
#[derive(Clone, Debug, PartialEq, Eq)]
pub struct Transaction {
    /// The signed 32-bit transaction version.
    pub version: i32,
    /// The transaction-level locktime.
    pub lock_time: u32,
    /// The ordered inputs.
    pub input: Vec<TxIn>,
    /// The ordered outputs.
    pub output: Vec<TxOut>,
}

/// True when the input carries no signature data: the transaction embedded
/// in a PSBT must be literally unsigned.
pub open spec fn txin_unsigned(t: TxIn) -> bool {
    t.script_sig@.len() == 0 && t.witness@.len() == 0
}

/// True when every input of the sequence is unsigned.
pub open spec fn all_inputs_unsigned(s: Seq<TxIn>) -> bool {
    forall|i: int| 0 <= i < s.len() ==> txin_unsigned(#[trigger] s[i])
}

impl TxIn {
    /// True when this input carries no script-sig and no witness data.
    pub fn is_unsigned(&self) -> (r: bool)
        ensures
            r == txin_unsigned(*self),
    {
        self.script_sig.len() == 0 && self.witness.len() == 0
    }
}

} // verus!
