//! A two-asset constant-product market maker, split into an instruction
//! codec and a swap processor.
//!
//! The codec turns the 9-byte wire payload (one direction tag, then a
//! little-endian 64-bit amount) into a typed [`codec::SwapRequest`]. The
//! processor applies one swap to the four balances involved — the two pool
//! reserves and the two user wallets — either mutating all four or, on any
//! error, none. Key loading, prompting, transaction signing and submission
//! to the ledger are the callers' business; this crate holds the logic and
//! its proofs.

pub mod codec;
pub mod swap;
