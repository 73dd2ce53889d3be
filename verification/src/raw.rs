//! Raw PSBT keys and the opaque key-value entries stored under them.
//!
//! Unrecognized fields are kept under a [`Key`] (a type byte plus opaque
//! identifier bytes) and vendor-namespaced fields under a
//! [`ProprietaryKey`]. The container never inspects, mutates or drops such
//! an entry — it only copies it, so that every field survives a round trip
//! byte for byte. Entries live in plain vectors of pairs, ordered as they
//! were read; a well-formed map holds each key at most once.

use vstd::prelude::*;

verus! {

/// A raw PSBT key: the field-type byte plus opaque identifier bytes.
#[derive(Clone, Debug, PartialEq, Eq)]
pub struct Key {
    /// The field-type byte; values this software does not recognize land
    /// the whole entry in an `unknown` map.
    pub type_value: u8,
    /// The rest of the key, treated as an opaque identifier.
    pub key: Vec<u8>,
}

impl View for Key {
    type V = (u8, Seq<u8>);

    open spec fn view(&self) -> (u8, Seq<u8>) {
        (self.type_value, self.key@)
    }
}

/// A vendor-namespaced PSBT key: the reserved proprietary type byte is
/// implied; the key carries the vendor's identifier prefix, a
/// vendor-defined subtype and opaque key bytes.
#[derive(Clone, Debug, PartialEq, Eq)]
pub struct ProprietaryKey {
    /// The vendor's identifier prefix.
    pub prefix: Vec<u8>,
    /// The vendor-defined subtype byte.
    pub subtype: u8,
    /// The rest of the key, treated as an opaque identifier.
    pub key: Vec<u8>,
}

impl View for ProprietaryKey {
    type V = (Seq<u8>, u8, Seq<u8>);

    open spec fn view(&self) -> (Seq<u8>, u8, Seq<u8>) {
        (self.prefix@, self.subtype, self.key@)
    }
}

/// Each key occurs at most once among the entries, comparing keys by their
/// plain-value view.
pub open spec fn unique_keys<K: View, V>(entries: Seq<(K, V)>) -> bool {
    forall|i: int, j: int|
        0 <= i < entries.len() && 0 <= j < entries.len() && i != j ==> (#[trigger] entries[i]).0@
            != (#[trigger] entries[j]).0@
}

} // verus!
