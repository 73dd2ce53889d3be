//! Extended public keys and their originating key sources.
//!
//! The container stores and round-trips these values but never derives or
//! validates them: an extended public key is an opaque encoding, and a key
//! source is the plain (master fingerprint, derivation path) pair recorded
//! alongside it.

use vstd::prelude::*;

verus! {

/// An extended public key, held as its opaque serialized encoding. The
/// container uses it only as a map key: stored, compared and copied, never
/// decoded.
#[derive(Clone, Debug, PartialEq, Eq)]
pub struct ExtendedPubKey {
    /// The key's serialized bytes, treated as an opaque value.
    pub encoding: Vec<u8>,
}

impl View for ExtendedPubKey {
    type V = Seq<u8>;

    open spec fn view(&self) -> Seq<u8> {
        self.encoding@
    }
}

/// The (master fingerprint, derivation path) pair recorded alongside an
/// extended public key, letting a signer recognize and re-derive the
/// matching private key.
#[derive(Clone, Debug, PartialEq, Eq)]
pub struct KeySource {
    /// Fingerprint of the master key the path starts from.
    pub fingerprint: u32,
    /// The derivation path, one child index per step.
    pub path: Vec<u32>,
}

impl View for KeySource {
    type V = (u32, Seq<u32>);

    open spec fn view(&self) -> (u32, Seq<u32>) {
        (self.fingerprint, self.path@)
    }
}

} // verus!
