//! A single-purpose payment library: it authorizes one invocation-scoped
//! native-asset transfer from a payer account to a treasury account.
//!
//! The caller hands in an ordered list of account references and a raw byte
//! buffer. The library checks that enough accounts are present, that the
//! payer signed, resolves the price (an optional little-endian override in
//! the buffer, else a fixed default), and derives the transfer to perform.
//! The ledger primitive that actually moves the balance belongs to the host
//! runtime; its outcome is mapped back verbatim.

pub mod payment;
pub mod price;
