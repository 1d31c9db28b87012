//! A one-shot hybrid confidentiality-and-authenticity protocol over byte
//! buffers: a sender encrypts a payload for one recipient with post-quantum
//! key establishment (Kyber), derives a symmetric key (HKDF-SHA-256),
//! encrypts with AES-256-GCM, wraps the result in a deterministic binary
//! envelope, compresses it, and signs the compressed bytes (Dilithium).
//! The recipient verifies the signature before any decompression or
//! decryption is attempted, then exactly reverses the chain.
//!
//! The envelopes travel in this crate's own canonical length-prefixed
//! binary framing, specified and proved lossless in `codec`; artifacts in
//! any other framing are rejected as malformed.

pub mod aead;
pub mod codec;
pub mod compress;
pub mod errors;
pub mod kdf;
pub mod kem;
pub mod params;
pub mod pipeline;
pub mod sign;
