//! A strict, allocation-free decoder for OpenPGP binary-document signature
//! packets.
//!
//! Given a byte buffer, a reference time, and a weak-hash policy, the decoder
//! either returns the signer metadata ([`SigInfo`]) or rejects the input with
//! a specific [`Error`].  Every field width, duplicate-detection rule and
//! algorithm-policy decision is verified against the specification functions
//! in the corresponding modules.

pub mod error;
pub mod reader;
pub mod algo;
pub mod mpi;
pub mod subpacket;
pub mod framing;
pub mod signature;
pub mod laws;

pub use error::Error;
pub use reader::Reader;
pub use algo::{AllowWeakHashes, pkey_alg_mpis, check_hash_algorithm};
pub use mpi::read_mpi;
pub use signature::{SigInfo, parse, read_signature};
