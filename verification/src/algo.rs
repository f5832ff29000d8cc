//! Pure algorithm-policy tables: public-key algorithm codes against the wire
//! version, and hash algorithm codes against the weak-hash policy.

use vstd::prelude::*;
use crate::error::Error;

verus! {

/// Should weak hashes (less than 256 bits and vulnerable to collisions) be
/// allowed?
#[derive(PartialEq, Eq, Copy, Clone, Debug, Structural)]
pub enum AllowWeakHashes {
    /// Do not allow weak hashes
    No,
    /// Allow weak hashes
    Yes,
}

pub const OPENPGP_HASH_INSECURE_MD5: i32 = 1;

pub const OPENPGP_HASH_INSECURE_SHA1: i32 = 2;

pub const OPENPGP_HASH_INSECURE_RIPEMD160: i32 = 3;

pub const OPENPGP_HASH_EXPIRIMENTAL_DOUBLE_SHA: i32 = 4;

pub const OPENPGP_HASH_INSECURE_MD2: i32 = 5;

pub const OPENPGP_HASH_INSECURE_TIGER192: i32 = 6;

pub const OPENPGP_HASH_INSECURE_HAVAL_5_160: i32 = 7;

pub const OPENPGP_HASH_SHA256: i32 = 8;

pub const OPENPGP_HASH_SHA384: i32 = 9;

pub const OPENPGP_HASH_SHA512: i32 = 10;

pub const OPENPGP_HASH_SHA224: i32 = 11;

pub const OPENPGP_PUBLIC_KEY_RSA: u8 = 1;

pub const OPENPGP_PUBLIC_KEY_LEGACY_RSA_ENCRYPT_ONLY: u8 = 2;

pub const OPENPGP_PUBLIC_KEY_LEGACY_RSA_SIGN_ONLY: u8 = 3;

pub const OPENPGP_PUBLIC_KEY_ELGAMAL_ENCRYPT_ONLY: u8 = 16;

pub const OPENPGP_PUBLIC_KEY_DSA: u8 = 17;

pub const OPENPGP_PUBLIC_KEY_ECDH: u8 = 18;

pub const OPENPGP_PUBLIC_KEY_ECDSA: u8 = 19;

pub const OPENPGP_PUBLIC_KEY_INSECURE_ELGAMAL_SIGN_ENCRYPT: u8 = 20;

pub const OPENPGP_PUBLIC_KEY_DH: u8 = 21;

pub const OPENPGP_PUBLIC_KEY_EDDSA: u8 = 22;

/// The public-key algorithm table: how many MPIs a signature by `alg` holds
/// under wire version `sig_version`, or why the pair is rejected.
pub open spec fn spec_pkey_alg_mpis(alg: u8, sig_version: u8) -> Result<u8, Error> {
    if sig_version != 3 && sig_version != 4 {
        Err(Error::UnsupportedSignatureVersion)
    } else if alg == OPENPGP_PUBLIC_KEY_LEGACY_RSA_ENCRYPT_ONLY || alg
        == OPENPGP_PUBLIC_KEY_ELGAMAL_ENCRYPT_ONLY || alg
        == OPENPGP_PUBLIC_KEY_INSECURE_ELGAMAL_SIGN_ENCRYPT || alg == OPENPGP_PUBLIC_KEY_ECDH || alg
        == OPENPGP_PUBLIC_KEY_DH {
        Err(Error::InvalidPkeyAlgorithm(alg))
    } else if alg == OPENPGP_PUBLIC_KEY_RSA || alg == OPENPGP_PUBLIC_KEY_LEGACY_RSA_SIGN_ONLY {
        Ok(1)
    } else if alg == OPENPGP_PUBLIC_KEY_EDDSA && sig_version == 4 {
        Ok(2)
    } else if alg == OPENPGP_PUBLIC_KEY_DSA {
        Ok(2)
    } else if alg == OPENPGP_PUBLIC_KEY_ECDSA && sig_version == 4 {
        Err(Error::UnsupportedPkeyAlgorithm(alg))
    } else if alg == OPENPGP_PUBLIC_KEY_ECDSA || alg == OPENPGP_PUBLIC_KEY_EDDSA {
        Err(Error::PkeyAlgorithmRequiresV4Sig(alg))
    } else {
        Err(Error::UnknownPkeyAlgorithm(alg))
    }
}

/// Return the number of MPIs for the public-key algorithm `alg`, checking it
/// against signature version `sig_version`.  Returns `Err` if the algorithm
/// is invalid or unsupported for the given signature version.
pub fn pkey_alg_mpis(alg: u8, sig_version: u8) -> (r: Result<u8, Error>)
    ensures
        r == spec_pkey_alg_mpis(alg, sig_version),
{
    if sig_version != 3 && sig_version != 4 {
        Err(Error::UnsupportedSignatureVersion)
    } else if alg == OPENPGP_PUBLIC_KEY_LEGACY_RSA_ENCRYPT_ONLY || alg
        == OPENPGP_PUBLIC_KEY_ELGAMAL_ENCRYPT_ONLY || alg
        == OPENPGP_PUBLIC_KEY_INSECURE_ELGAMAL_SIGN_ENCRYPT || alg == OPENPGP_PUBLIC_KEY_ECDH || alg
        == OPENPGP_PUBLIC_KEY_DH {
        Err(Error::InvalidPkeyAlgorithm(alg))
    } else if alg == OPENPGP_PUBLIC_KEY_RSA || alg == OPENPGP_PUBLIC_KEY_LEGACY_RSA_SIGN_ONLY {
        Ok(1)
    } else if alg == OPENPGP_PUBLIC_KEY_EDDSA && sig_version == 4 {
        Ok(2)
    } else if alg == OPENPGP_PUBLIC_KEY_DSA {
        Ok(2)
    } else if alg == OPENPGP_PUBLIC_KEY_ECDSA && sig_version == 4 {
        Err(Error::UnsupportedPkeyAlgorithm(alg))
    } else if alg == OPENPGP_PUBLIC_KEY_ECDSA || alg == OPENPGP_PUBLIC_KEY_EDDSA {
        Err(Error::PkeyAlgorithmRequiresV4Sig(alg))
    } else {
        Err(Error::UnknownPkeyAlgorithm(alg))
    }
}

/// The hash-algorithm table: the digest length in bytes of `hash`, or why it
/// is rejected under the weak-hash policy `allow_weak_hashes`.
pub open spec fn spec_check_hash_algorithm(hash: i32, allow_weak_hashes: AllowWeakHashes) -> Result<
    u16,
    Error,
> {
    if hash == OPENPGP_HASH_SHA256 {
        Ok(32)
    } else if hash == OPENPGP_HASH_SHA384 {
        Ok(48)
    } else if hash == OPENPGP_HASH_SHA512 {
        Ok(64)
    } else if hash == OPENPGP_HASH_SHA224 && allow_weak_hashes == AllowWeakHashes::Yes {
        Ok(28)
    } else if hash == OPENPGP_HASH_INSECURE_MD5 && allow_weak_hashes == AllowWeakHashes::Yes {
        Ok(16)
    } else if hash == OPENPGP_HASH_INSECURE_SHA1 && allow_weak_hashes == AllowWeakHashes::Yes {
        Ok(20)
    } else if hash == OPENPGP_HASH_INSECURE_SHA1 || hash == OPENPGP_HASH_INSECURE_RIPEMD160 || hash
        == OPENPGP_HASH_INSECURE_MD2 || hash == OPENPGP_HASH_INSECURE_TIGER192 || hash
        == OPENPGP_HASH_INSECURE_HAVAL_5_160 || hash == OPENPGP_HASH_SHA224 {
        Err(Error::InsecureAlgorithm(hash))
    } else {
        Err(Error::UnsupportedHashAlgorithm(hash))
    }
}

/// Checks that a hash algorithm is secure; if it is, returns the length (in
/// bytes) of the hash it generates.  If `allow_weak_hashes` is set, also
/// allow SHA1 and SHA224.
pub fn check_hash_algorithm(hash: i32, allow_weak_hashes: AllowWeakHashes) -> (r: Result<u16, Error>)
    ensures
        r == spec_check_hash_algorithm(hash, allow_weak_hashes),
{
    if hash == OPENPGP_HASH_SHA256 {
        Ok(32)
    } else if hash == OPENPGP_HASH_SHA384 {
        Ok(48)
    } else if hash == OPENPGP_HASH_SHA512 {
        Ok(64)
    } else if hash == OPENPGP_HASH_SHA224 && allow_weak_hashes == AllowWeakHashes::Yes {
        Ok(28)
    } else if hash == OPENPGP_HASH_INSECURE_MD5 && allow_weak_hashes == AllowWeakHashes::Yes {
        Ok(16)
    } else if hash == OPENPGP_HASH_INSECURE_SHA1 && allow_weak_hashes == AllowWeakHashes::Yes {
        Ok(20)
    } else if hash == OPENPGP_HASH_INSECURE_SHA1 || hash == OPENPGP_HASH_INSECURE_RIPEMD160 || hash
        == OPENPGP_HASH_INSECURE_MD2 || hash == OPENPGP_HASH_INSECURE_TIGER192 || hash
        == OPENPGP_HASH_INSECURE_HAVAL_5_160 || hash == OPENPGP_HASH_SHA224 {
        Err(Error::InsecureAlgorithm(hash))
    } else {
        Err(Error::UnsupportedHashAlgorithm(hash))
    }
}

} // verus!
