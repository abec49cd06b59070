//! Per-agent identity records for a hardware-backed signer.
//!
//! Each record binds an active authority credential (a TPM-held key) to a
//! cold recovery credential, and meters a repeatable liveness action
//! ("heartbeat") against a consumable resin balance.  The library holds the
//! state machine itself — creation, recovery of the authority key, and
//! metered heartbeats — while the host environment owns storage, signature
//! verification and event delivery.

pub mod identity;
pub mod key;
pub mod laws;
