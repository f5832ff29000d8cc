//! The two-variant signature-body parser and the top-level entry points.

use vstd::prelude::*;
use crate::algo::{
    AllowWeakHashes, check_hash_algorithm, pkey_alg_mpis, spec_check_hash_algorithm,
    spec_pkey_alg_mpis,
};
use crate::error::Error;
use crate::framing::{get_varlen_bytes, next_packet, sp_next_packet};
use crate::mpi::{read_mpi, sp_mpis};
use crate::reader::{Reader, sp_byte, sp_be16, sp_be32, sp_bytes};
use crate::subpacket::{
    AccG, InternalSigInfo, SUBPACKET_ISSUER_KEYID, acc_empty, process_subpacket, sp_area,
    sp_one_subpacket, to_array_8,
};
use vstd::slice::slice_index_get;

verus! {

pub const OPENPGP_SIGNATURE_TYPE_BINARY: u8 = 0;

/// Information about a signature
#[derive(Clone, Debug)]
pub struct SigInfo {
    /// Hash algorithm
    pub hash_alg: u8,
    /// Public-key algorithm
    pub pkey_alg: u8,
    /// Key ID
    pub key_id: [u8; 8],
    /// Fingerprint
    pub fingerprint: Option<[u8; 20]>,
    /// Creation time
    pub creation_time: u32,
    /// Expiration time, if any
    pub expiration_time: Option<u32>,
}

/// The mathematical value of a parse result.
pub ghost struct SigInfoG {
    pub hash_alg: u8,
    pub pkey_alg: u8,
    pub key_id: Seq<u8>,
    pub fingerprint: Option<Seq<u8>>,
    pub creation_time: u32,
    pub expiration_time: Option<u32>,
}

impl View for SigInfo {
    type V = SigInfoG;

    open spec fn view(&self) -> SigInfoG {
        SigInfoG {
            hash_alg: self.hash_alg,
            pkey_alg: self.pkey_alg,
            key_id: self.key_id@,
            fingerprint: match self.fingerprint {
                Some(f) => Some(f@),
                None => None,
            },
            creation_time: self.creation_time,
            expiration_time: self.expiration_time,
        }
    }
}

/// What both wire-version branches share once the algorithm codes, the key
/// id and the accumulator are known: resolve the MPI count, validate the
/// hash algorithm, require a creation time, skip the two-byte hash preview,
/// and read exactly the resolved count of MPIs.
pub open spec fn sp_tail(
    s: Seq<u8>,
    pkey_alg: u8,
    hash_alg: u8,
    version: u8,
    acc: AccG,
    key_id: Seq<u8>,
    allow_weak_hashes: AllowWeakHashes,
) -> Result<(SigInfoG, Seq<u8>), Error> {
    match spec_pkey_alg_mpis(pkey_alg, version) {
        Err(e) => Err(e),
        Ok(mpis) => match spec_check_hash_algorithm(hash_alg as i32, allow_weak_hashes) {
            Err(e) => Err(e),
            Ok(_) => match acc.creation_time {
                None => Err(Error::NoCreationTime),
                Some(creation_time) => match sp_bytes(s, 2) {
                    Err(e) => Err(e),
                    Ok((_, s1)) => match sp_mpis(s1, mpis as nat) {
                        Err(e) => Err(e),
                        Ok(rest) => Ok(
                            (
                                SigInfoG {
                                    hash_alg,
                                    pkey_alg,
                                    key_id,
                                    fingerprint: acc.fpr,
                                    creation_time,
                                    expiration_time: acc.expiration_time,
                                },
                                rest,
                            ),
                        ),
                    },
                },
            },
        },
    }
}

/// The legacy version-3 layout: a literal 5-byte hashed-length field, the
/// binary-document type byte, an unconditional creation time, the key id,
/// then the algorithm codes.
pub open spec fn sp_v3_body(s: Seq<u8>, timestamp: u32, allow_weak_hashes: AllowWeakHashes) -> Result<
    (SigInfoG, Seq<u8>),
    Error,
> {
    match sp_byte(s) {
        Err(e) => Err(e),
        Ok((b, s1)) => if b != 5 {
            Err(Error::IllFormedSignature)
        } else {
            match sp_byte(s1) {
                Err(e) => Err(e),
                Ok((t, s2)) => if t != OPENPGP_SIGNATURE_TYPE_BINARY {
                    Err(Error::IllFormedSignature)
                } else {
                    match sp_be32(s2) {
                        Err(e) => Err(e),
                        Ok((ctime, s3)) => match sp_bytes(s3, 8) {
                            Err(e) => Err(e),
                            Ok((kid, s4)) => match sp_byte(s4) {
                                Err(e) => Err(e),
                                Ok((pkey, s5)) => match sp_byte(s5) {
                                    Err(e) => Err(e),
                                    Ok((hash, s6)) => sp_tail(
                                        s6,
                                        pkey,
                                        hash,
                                        3,
                                        AccG {
                                            id: None,
                                            fpr: None,
                                            creation_time: Some(ctime),
                                            expiration_time: None,
                                        },
                                        kid,
                                        allow_weak_hashes,
                                    ),
                                },
                            },
                        },
                    }
                },
            }
        },
    }
}

/// The fixed-shape unhashed area of a version-4 signature: either a literal
/// zero-length field, legal only when the hashed area already provided the
/// issuer key id, or a literal 10-byte issuer-key-id record, legal only when
/// it did not.  Returns the resolved key id.
pub open spec fn sp_unhashed(s: Seq<u8>, id: Option<Seq<u8>>) -> Result<(Seq<u8>, Seq<u8>), Error> {
    match id {
        None => match sp_bytes(s, 4) {
            Err(e) => Err(e),
            Ok((hdr, s1)) => if hdr[0] == 0 && hdr[1] == 10 && hdr[2] == 9 && hdr[3]
                == SUBPACKET_ISSUER_KEYID {
                sp_bytes(s1, 8)
            } else {
                Err(Error::IllFormedSignature)
            },
        },
        Some(kid) => match sp_be16(s) {
            Err(e) => Err(e),
            Ok((z, s1)) => if z == 0 {
                Ok((kid, s1))
            } else {
                Err(Error::IllFormedSignature)
            },
        },
    }
}

/// The current version-4 layout: the binary-document type byte, the
/// algorithm codes, the length-framed hashed subpacket area, the restricted
/// unhashed area, and the fingerprint/key-id consistency check.
pub open spec fn sp_v4_body(s: Seq<u8>, timestamp: u32, allow_weak_hashes: AllowWeakHashes) -> Result<
    (SigInfoG, Seq<u8>),
    Error,
> {
    match sp_byte(s) {
        Err(e) => Err(e),
        Ok((t, s1)) => if t != OPENPGP_SIGNATURE_TYPE_BINARY {
            Err(Error::IllFormedSignature)
        } else {
            match sp_byte(s1) {
                Err(e) => Err(e),
                Ok((pkey, s2)) => match sp_byte(s2) {
                    Err(e) => Err(e),
                    Ok((hash, s3)) => match sp_be16(s3) {
                        Err(e) => Err(e),
                        Ok((hlen, s4)) => match sp_bytes(s4, hlen as int) {
                            Err(e) => Err(e),
                            Ok((area, s5)) => match sp_area(area, timestamp, acc_empty()) {
                                Err(e) => Err(e),
                                Ok(acc) => match sp_unhashed(s5, acc.id) {
                                    Err(e) => Err(e),
                                    Ok((kid, s6)) => match acc.fpr {
                                        Some(f) => if f.skip(12) == kid {
                                            sp_tail(
                                                s6,
                                                pkey,
                                                hash,
                                                4,
                                                acc,
                                                kid,
                                                allow_weak_hashes,
                                            )
                                        } else {
                                            Err(Error::IllFormedSignature)
                                        },
                                        None => sp_tail(
                                            s6,
                                            pkey,
                                            hash,
                                            4,
                                            acc,
                                            kid,
                                            allow_weak_hashes,
                                        ),
                                    },
                                },
                            },
                        },
                    },
                },
            }
        },
    }
}

/// The signature body: one version byte chooses the legacy or the current
/// layout; every other version is rejected.
pub open spec fn sp_parse_body(s: Seq<u8>, timestamp: u32, allow_weak_hashes: AllowWeakHashes) -> Result<
    (SigInfoG, Seq<u8>),
    Error,
> {
    match sp_byte(s) {
        Err(e) => Err(e),
        Ok((version, s1)) => if version == 3 {
            sp_v3_body(s1, timestamp, allow_weak_hashes)
        } else if version == 4 {
            sp_v4_body(s1, timestamp, allow_weak_hashes)
        } else {
            Err(Error::IllFormedSignature)
        },
    }
}

/// A signature read from a stream: the next packet must be a signature
/// packet (type tag 2) and its contents must be consumed in full.
pub open spec fn sp_read_signature(
    s: Seq<u8>,
    timestamp: u32,
    allow_weak_hashes: AllowWeakHashes,
) -> Result<(SigInfoG, Seq<u8>), Error> {
    match sp_next_packet(s) {
        Err(e) => Err(e),
        Ok((p, rest)) => if p.0 != 2 {
            Err(Error::IllFormedSignature)
        } else {
            match sp_parse_body(p.1, timestamp, allow_weak_hashes) {
                Err(e) => Err(e),
                Ok((si, brest)) => if brest.len() == 0 {
                    Ok((si, rest))
                } else {
                    Err(Error::TrailingJunk)
                },
            }
        },
    }
}

/// A standalone buffer holding exactly one signature packet: trailing bytes
/// after the packet are an error.
pub open spec fn sp_parse(s: Seq<u8>, timestamp: u32, allow_weak_hashes: AllowWeakHashes) -> Result<
    SigInfoG,
    Error,
> {
    match sp_read_signature(s, timestamp, allow_weak_hashes) {
        Err(e) => Err(e),
        Ok((si, rest)) => if rest.len() == 0 {
            Ok(si)
        } else {
            Err(Error::TrailingJunk)
        },
    }
}

/// The view of an optional owned key id.
pub open spec fn opt8_view(id: Option<[u8; 8]>) -> Option<Seq<u8>> {
    match id {
        Some(a) => Some(a@),
        None => None,
    }
}

/// Read the unhashed area and resolve the key id.
fn read_unhashed<'a>(reader: &mut Reader<'a>, id: Option<[u8; 8]>) -> (r: Result<[u8; 8], Error>)
    ensures
        match sp_unhashed(old(reader).remaining(), opt8_view(id)) {
            Ok(p) => r matches Ok(k) && k@ == p.0 && final(reader).remaining() == p.1,
            Err(e) => r == Err::<[u8; 8], Error>(e),
        },
{
    match id {
        None => {
            let hdr = match reader.get_bytes(4) {
                Ok(h) => h,
                Err(e) => { return Err(e) },
            };
            if !(*slice_index_get(hdr, 0) == 0 && *slice_index_get(hdr, 1) == 10 && *slice_index_get(
                hdr,
                2,
            ) == 9 && *slice_index_get(hdr, 3) == SUBPACKET_ISSUER_KEYID) {
                return Err(Error::IllFormedSignature);
            }
            let kid = match reader.get_bytes(8) {
                Ok(k) => k,
                Err(e) => { return Err(e) },
            };
            Ok(to_array_8(kid))
        },
        Some(e) => {
            let z = match reader.be_u16() {
                Ok(z) => z,
                Err(er) => { return Err(er) },
            };
            if z != 0 {
                return Err(Error::IllFormedSignature);
            }
            Ok(e)
        },
    }
}

/// Whether the trailing 8 bytes of the fingerprint equal the key id.
fn fpr_matches_keyid(f: &[u8; 20], k: &[u8; 8]) -> (r: bool)
    ensures
        r == (f@.skip(12) == k@),
{
    let mut i: usize = 0;
    while i < 8
        invariant
            0 <= i <= 8,
            forall|j: int| 0 <= j < i ==> f@[12 + j] == k@[j],
        decreases 8 - i,
    {
        if f[12 + i] != k[i] {
            proof {
                assert(f@.skip(12)[i as int] != k@[i as int]);
            }
            return false;
        }
        i = i + 1;
    }
    proof {
        assert(f@.skip(12) =~= k@);
    }
    true
}

/// The convergent tail of both branches: algorithm policy, creation-time
/// requirement, the skipped hash preview, and the MPI run.
#[verifier::loop_isolation(false)]
fn parse_tail<'a>(
    reader: &mut Reader<'a>,
    pkey_alg: u8,
    hash_alg: u8,
    version: u8,
    siginfo: InternalSigInfo,
    key_id: [u8; 8],
    allow_weak_hashes: AllowWeakHashes,
) -> (r: Result<SigInfo, Error>)
    ensures
        match sp_tail(
            old(reader).remaining(),
            pkey_alg,
            hash_alg,
            version,
            siginfo.view(),
            key_id@,
            allow_weak_hashes,
        ) {
            Ok(p) => r matches Ok(si) && si@ == p.0 && final(reader).remaining() == p.1,
            Err(e) => r == Err::<SigInfo, Error>(e),
        },
        r matches Ok(si) ==> si.fingerprint == siginfo.fpr && si.key_id == key_id,
{
    let mpis = match pkey_alg_mpis(pkey_alg, version) {
        Ok(m) => m,
        Err(e) => { return Err(e) },
    };
    match check_hash_algorithm(hash_alg as i32, allow_weak_hashes) {
        Ok(_) => (),
        Err(e) => { return Err(e) },
    };
    let creation_time = match siginfo.creation_time {
        Some(t) => t,
        None => { return Err(Error::NoCreationTime) },
    };
    // Ignore first 16 bits of hash
    match reader.get_bytes(2) {
        Ok(_) => (),
        Err(e) => { return Err(e) },
    };
    let ghost s_mpi = reader.remaining();
    let mut i: u8 = 0;
    while i < mpis
        invariant
            0 <= i <= mpis,
            sp_mpis(s_mpi, mpis as nat) == sp_mpis(reader.remaining(), (mpis - i) as nat),
        decreases mpis - i,
    {
        match read_mpi(reader) {
            Ok(_) => (),
            Err(e) => { return Err(e) },
        };
        i = i + 1;
    }
    Ok(
        SigInfo {
            hash_alg,
            pkey_alg,
            creation_time,
            expiration_time: siginfo.expiration_time,
            key_id,
            fingerprint: siginfo.fpr,
        },
    )
}

/// Parse the body of a signature packet.
#[verifier::loop_isolation(false)]
#[verifier::rlimit(100)]
fn parse_packet_body<'a>(
    reader: &mut Reader<'a>,
    timestamp: u32,
    allow_weak_hashes: AllowWeakHashes,
) -> (r: Result<SigInfo, Error>)
    ensures
        match sp_parse_body(old(reader).remaining(), timestamp, allow_weak_hashes) {
            Ok(p) => r matches Ok(si) && si@ == p.0 && final(reader).remaining() == p.1,
            Err(e) => r == Err::<SigInfo, Error>(e),
        },
        r matches Ok(si) ==> (si.fingerprint matches Some(f) ==> f@.skip(12) == si.key_id@),
{
    let version = match reader.byte() {
        Ok(v) => v,
        Err(e) => { return Err(e) },
    };
    let mut siginfo = InternalSigInfo {
        id: None,
        fpr: None,
        creation_time: None,
        expiration_time: None,
    };
    if version == 3 {
        let b = match reader.byte() {
            Ok(b) => b,
            Err(e) => { return Err(e) },
        };
        if b != 5 {
            return Err(Error::IllFormedSignature);
        }
        let t = match reader.byte() {
            Ok(b) => b,
            Err(e) => { return Err(e) },
        };
        if t != OPENPGP_SIGNATURE_TYPE_BINARY {
            return Err(Error::IllFormedSignature);
        }
        let ctime = match reader.be_u32() {
            Ok(c) => c,
            Err(e) => { return Err(e) },
        };
        siginfo.creation_time = Some(ctime);
        let kid = match reader.get_bytes(8) {
            Ok(k) => k,
            Err(e) => { return Err(e) },
        };
        let key_id = to_array_8(kid);
        let pkey_alg = match reader.byte() {
            Ok(p) => p,
            Err(e) => { return Err(e) },
        };
        let hash_alg = match reader.byte() {
            Ok(h) => h,
            Err(e) => { return Err(e) },
        };
        parse_tail(reader, pkey_alg, hash_alg, version, siginfo, key_id, allow_weak_hashes)
    } else if version == 4 {
        let t = match reader.byte() {
            Ok(b) => b,
            Err(e) => { return Err(e) },
        };
        if t != OPENPGP_SIGNATURE_TYPE_BINARY {
            return Err(Error::IllFormedSignature);
        }
        let pkey_alg = match reader.byte() {
            Ok(p) => p,
            Err(e) => { return Err(e) },
        };
        let hash_alg = match reader.byte() {
            Ok(h) => h,
            Err(e) => { return Err(e) },
        };
        let hashed_len = match reader.be_u16() {
            Ok(l) => l,
            Err(e) => { return Err(e) },
        };
        let area = match reader.get_bytes(hashed_len as usize) {
            Ok(a) => a,
            Err(e) => { return Err(e) },
        };
        let mut ar = Reader::new(area);
        while !ar.is_empty()
            invariant
                sp_area(area@, timestamp, acc_empty()) == sp_area(
                    ar.remaining(),
                    timestamp,
                    siginfo.view(),
                ),
            decreases ar.remaining().len(),
        {
            let ghost ar_pre = ar.remaining();
            let ghost acc_pre = siginfo.view();
            let frame = match get_varlen_bytes(&mut ar) {
                Ok(f) => f,
                Err(e) => { return Err(e) },
            };
            let mut fr = Reader::new(frame);
            let tag_byte = match fr.byte() {
                Ok(t) => t,
                Err(e) => { return Err(e) },
            };
            match process_subpacket(&mut fr, timestamp, tag_byte & 0x7F, &mut siginfo) {
                Ok(_) => (),
                Err(e) => { return Err(e) },
            };
            if !fr.is_empty() {
                return Err(Error::TrailingJunk);
            }
            proof {
                assert(sp_one_subpacket(frame@, timestamp, acc_pre) == Ok::<AccG, Error>(
                    siginfo.view(),
                ));
            }
        }
        let key_id = match read_unhashed(reader, siginfo.id) {
            Ok(k) => k,
            Err(e) => { return Err(e) },
        };
        match siginfo.fpr {
            Some(f) => {
                if !fpr_matches_keyid(&f, &key_id) {
                    return Err(Error::IllFormedSignature);
                }
            },
            None => (),
        };
        parse_tail(reader, pkey_alg, hash_alg, version, siginfo, key_id, allow_weak_hashes)
    } else {
        Err(Error::IllFormedSignature)
    }
}

/// Reads a signature from `reader`
pub fn read_signature<'a>(
    reader: &mut Reader<'a>,
    timestamp: u32,
    allow_weak_hashes: AllowWeakHashes,
) -> (r: Result<SigInfo, Error>)
    ensures
        match sp_read_signature(old(reader).remaining(), timestamp, allow_weak_hashes) {
            Ok(p) => r matches Ok(si) && si@ == p.0 && final(reader).remaining() == p.1,
            Err(e) => r == Err::<SigInfo, Error>(e),
        },
        r matches Ok(si) ==> (si.fingerprint matches Some(f) ==> f@.skip(12) == si.key_id@),
{
    let p = match next_packet(reader) {
        Ok(p) => p,
        Err(e) => { return Err(e) },
    };
    if p.0 != 2 {
        return Err(Error::IllFormedSignature);
    }
    let mut body = Reader::new(p.1);
    let si = match parse_packet_body(&mut body, timestamp, allow_weak_hashes) {
        Ok(s) => s,
        Err(e) => { return Err(e) },
    };
    if !body.is_empty() {
        return Err(Error::TrailingJunk);
    }
    Ok(si)
}

/// Parse a signature from a slice
pub fn parse<'a>(data: &'a [u8], timestamp: u32, allow_weak_hashes: AllowWeakHashes) -> (r: Result<
    SigInfo,
    Error,
>)
    ensures
        match sp_parse(data@, timestamp, allow_weak_hashes) {
            Ok(g) => r matches Ok(si) && si@ == g,
            Err(e) => r == Err::<SigInfo, Error>(e),
        },
        r matches Ok(si) ==> (si.fingerprint matches Some(f) ==> f@.skip(12) == si.key_id@),
{
    let mut reader = Reader::new(data);
    let si = match read_signature(&mut reader, timestamp, allow_weak_hashes) {
        Ok(s) => s,
        Err(e) => { return Err(e) },
    };
    if !reader.is_empty() {
        return Err(Error::TrailingJunk);
    }
    Ok(si)
}

} // verus!
