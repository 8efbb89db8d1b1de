//! A soulbound proof-of-personhood credential service.
//!
//! A caller obtains a one-time liveness challenge, submits evidence, and on a
//! passing verification receives a non-transferable credential bound to its
//! identity. The crate holds the verified core: the challenge registry with
//! single-use consumption, the verification engine with its pass/fail policy
//! and deterministic verification hash, the credential ledger with
//! one-credential-per-identity minting and monotonic token numbers, and the
//! append-only audit log. Suspending capability calls (randomness, liveness
//! inference, behavioral scoring) happen outside the library, which takes
//! their outcomes as plain values.

pub mod challenge;
pub mod encoding;
pub mod engine;
pub mod hashing;
pub mod ledger;
pub mod legacy;
pub mod zkproof;
