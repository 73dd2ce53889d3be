//! In-memory model and version-reconciliation logic for Partially Signed
//! Bitcoin Transaction (PSBT) containers.
//!
//! A PSBT carries an unsigned transaction together with per-input and
//! per-output signing metadata, plus opaque proprietary and unknown
//! key-value maps preserved for forward compatibility. Two wire
//! generations are in circulation: the legacy shape ([`PsbtV0`]), which
//! embeds a complete unsigned transaction, and the modern shape
//! ([`Psbt`]), which decomposes the transaction-level fields into
//! standalone global fields. The bridge between the two is lossless:
//! every conversion is specified field by field, the transaction version
//! crosses its signed/unsigned boundary bit-exactly, and the round trip
//! is proved to restore a freshly built container in every field.

pub mod bridge;
pub mod input;
pub mod keys;
pub mod output;
pub mod psbt;
pub mod raw;
pub mod tx;
pub mod v0;
pub mod version;

pub use bridge::StructureError;
pub use input::{Input, InputV0, TxinError};
pub use output::{Output, OutputV0};
pub use psbt::{Psbt, TxError};
pub use v0::PsbtV0;
pub use version::PsbtVersion;
