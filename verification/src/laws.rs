//! Laws of the decoder, proved over the specification functions that the
//! public contracts are stated with.

use vstd::prelude::*;
use crate::error::Error;
use crate::mpi::{mpi_canonical, sp_mpi};
use crate::reader::{be16_val, be32_val, sp_byte, sp_be16, sp_be32, sp_bytes};
use crate::signature::{SigInfoG, sp_parse, sp_unhashed};
use crate::subpacket::{
    AccG, SUBPACKET_CREATION_TIME, SUBPACKET_FINGERPRINT, SUBPACKET_ISSUER_KEYID,
    SUBPACKET_SIG_EXPIRATION_TIME, sp_process,
};

verus! {

/// A second occurrence of a creation-time, expiration-time, issuer-key-id
/// or fingerprint subpacket is rejected as structurally ill-formed: each
/// accumulator field moves from absent to present at most once.  The
/// temporal checks and the truncation check come first, so each clause
/// holds once the record's bytes are present and the temporal policy does
/// not already reject it.
pub proof fn lemma_second_occurrence_rejected(s: Seq<u8>, time: u32, acc: AccG)
    ensures
        acc.creation_time is Some && s.len() >= 4 && !(time != 0 && be32_val(s) < time)
            ==> sp_process(s, time, SUBPACKET_CREATION_TIME, acc) == Err::<(AccG, Seq<u8>), Error>(
            Error::IllFormedSignature,
        ),
        acc.expiration_time is Some && s.len() >= 4 && !(time != 0 && be32_val(s) >= time)
            ==> sp_process(s, time, SUBPACKET_SIG_EXPIRATION_TIME, acc) == Err::<
            (AccG, Seq<u8>),
            Error,
        >(Error::IllFormedSignature),
        acc.id is Some ==> sp_process(s, time, SUBPACKET_ISSUER_KEYID, acc) == Err::<
            (AccG, Seq<u8>),
            Error,
        >(Error::IllFormedSignature),
        acc.fpr is Some && s.len() >= 21 ==> sp_process(s, time, SUBPACKET_FINGERPRINT, acc)
            == Err::<(AccG, Seq<u8>), Error>(Error::IllFormedSignature),
{
}

/// A zero-bit-length MPI succeeds and yields an empty magnitude; an MPI
/// whose first content byte's leading-zero count is inconsistent with its
/// declared bit length is rejected as an encoding malformation.
pub proof fn lemma_mpi_canonical_form(s: Seq<u8>)
    ensures
        s.len() >= 2 && be16_val(s) == 0 ==> sp_mpi(s) == Ok::<(Seq<u8>, Seq<u8>), Error>(
            (Seq::<u8>::empty(), s.skip(2)),
        ),
        s.len() >= 2 && (be16_val(s) + 7) / 8 > 0 && 2 + (be16_val(s) + 7) / 8 <= s.len()
            && !mpi_canonical(be16_val(s), s[2]) ==> sp_mpi(s) == Err::<(Seq<u8>, Seq<u8>), Error>(
            Error::BadMPI,
        ),
{
    if s.len() >= 2 {
        let bits = be16_val(s);
        let blen = (bits + 7) as int / 8;
        if bits == 0 {
            assert(s.skip(2).take(0) =~= Seq::<u8>::empty());
            assert(s.skip(2).skip(0) =~= s.skip(2));
        } else if blen > 0 && 2 + blen <= s.len() {
            assert(s.skip(2).take(blen)[0] == s[2]);
        }
    }
}

/// When no issuer key id came from the hashed area, a version-4 unhashed
/// area whose first four bytes are anything other than the literal 10-byte
/// issuer-key-id record header is rejected as structurally ill-formed.
pub proof fn lemma_unhashed_area_restricted(s: Seq<u8>)
    ensures
        s.len() >= 4 && !(s[0] == 0 && s[1] == 10 && s[2] == 9 && s[3] == SUBPACKET_ISSUER_KEYID)
            ==> sp_unhashed(s, None) == Err::<(Seq<u8>, Seq<u8>), Error>(
            Error::IllFormedSignature,
        ),
        s.len() >= 2 && be16_val(s) != 0 ==> (forall|kid: Seq<u8>|
            sp_unhashed(s, Some(kid)) == Err::<(Seq<u8>, Seq<u8>), Error>(
                Error::IllFormedSignature,
            )),
{
    if s.len() >= 4 {
        assert(s.take(4)[0] == s[0]);
        assert(s.take(4)[1] == s[1]);
        assert(s.take(4)[2] == s[2]);
        assert(s.take(4)[3] == s[3]);
    }
}

/// One byte appended to `s` changes no successful primitive read of `s`:
/// the value is the same and the extra byte stays at the end of the rest.
proof fn lemma_push_primitives(s: Seq<u8>, b: u8, n: int)
    requires
        0 <= n <= s.len(),
    ensures
        s.len() >= 1 ==> sp_byte(s.push(b)) == Ok::<(u8, Seq<u8>), Error>(
            (s[0], s.skip(1).push(b)),
        ),
        sp_bytes(s.push(b), n) == Ok::<(Seq<u8>, Seq<u8>), Error>(
            (s.take(n), s.skip(n).push(b)),
        ),
        s.len() >= 2 ==> sp_be16(s.push(b)) == Ok::<(u16, Seq<u8>), Error>(
            (be16_val(s), s.skip(2).push(b)),
        ),
        s.len() >= 4 ==> sp_be32(s.push(b)) == Ok::<(u32, Seq<u8>), Error>(
            (be32_val(s), s.skip(4).push(b)),
        ),
{
    if s.len() >= 1 {
        assert(s.push(b)[0] == s[0]);
        assert(s.push(b).skip(1) =~= s.skip(1).push(b));
    }
    assert(s.push(b).take(n) =~= s.take(n));
    assert(s.push(b).skip(n) =~= s.skip(n).push(b));
    if s.len() >= 2 {
        assert(s.push(b)[1] == s[1]);
        assert(s.push(b).skip(2) =~= s.skip(2).push(b));
    }
    if s.len() >= 4 {
        assert(s.push(b)[2] == s[2]);
        assert(s.push(b)[3] == s[3]);
        assert(s.push(b).skip(4) =~= s.skip(4).push(b));
    }
}

/// One byte appended after a complete length-framed record leaves the
/// record as it was and lands after it.
proof fn lemma_varlen_extend(s: Seq<u8>, b: u8)
    requires
        crate::framing::sp_varlen(s) is Ok,
    ensures
        crate::framing::sp_varlen(s.push(b)) matches Ok(q) && crate::framing::sp_varlen(
            s,
        ) matches Ok(p) && q == (p.0, p.1.push(b)),
{
    let p = crate::framing::sp_varlen(s)->Ok_0;
    let b0 = s[0];
    let s1 = s.skip(1);
    lemma_push_primitives(s, b, 0);
    if b0 < 192 {
        lemma_push_primitives(s1, b, b0 as int);
    } else if b0 < 224 {
        let b1 = s1[0];
        let s2 = s1.skip(1);
        lemma_push_primitives(s1, b, 0);
        lemma_push_primitives(s2, b, (b0 - 192) * 0x100 + b1 + 192);
    } else if b0 == 255 {
        let s2 = s1.skip(4);
        lemma_push_primitives(s1, b, 0);
        lemma_push_primitives(s2, b, be32_val(s1) as int);
    }
}

/// One byte appended after a complete packet leaves the packet's tag and
/// contents as they were and lands after the packet.
proof fn lemma_next_packet_extend(s: Seq<u8>, b: u8)
    requires
        crate::framing::sp_next_packet(s) is Ok,
    ensures
        crate::framing::sp_next_packet(s.push(b)) matches Ok(q)
            && crate::framing::sp_next_packet(s) matches Ok(p) && q == (p.0, p.1.push(b)),
{
    let b0 = s[0];
    let s1 = s.skip(1);
    lemma_push_primitives(s, b, 0);
    if b0 & 0x40 != 0 {
        lemma_varlen_extend(s1, b);
    } else {
        if b0 & 3 == 0 {
            let n = s1[0];
            let s2 = s1.skip(1);
            lemma_push_primitives(s1, b, 0);
            lemma_push_primitives(s2, b, n as int);
        } else if b0 & 3 == 1 {
            let s2 = s1.skip(2);
            lemma_push_primitives(s1, b, 0);
            lemma_push_primitives(s2, b, be16_val(s1) as int);
        } else if b0 & 3 == 2 {
            let s2 = s1.skip(4);
            lemma_push_primitives(s1, b, 0);
            lemma_push_primitives(s2, b, be32_val(s1) as int);
        }
    }
}

/// A primitive read from a strict prefix of `s` either returns what it
/// returns on `s`, with the rest cut to the prefix, or fails with the
/// truncation error when the prefix is shorter than the read.
proof fn lemma_take_primitives(s: Seq<u8>, k: int, n: int)
    requires
        0 <= k <= s.len(),
        0 <= n,
    ensures
        k == 0 ==> sp_byte(s.take(k)) == Err::<(u8, Seq<u8>), Error>(Error::PrematureEOF),
        k >= 1 ==> sp_byte(s.take(k)) == Ok::<(u8, Seq<u8>), Error>(
            (s[0], s.skip(1).take(k - 1)),
        ),
        n <= k ==> sp_bytes(s.take(k), n) == Ok::<(Seq<u8>, Seq<u8>), Error>(
            (s.take(n), s.skip(n).take(k - n)),
        ),
        n > k ==> sp_bytes(s.take(k), n) == Err::<(Seq<u8>, Seq<u8>), Error>(Error::PrematureEOF),
        k < 2 ==> sp_be16(s.take(k)) == Err::<(u16, Seq<u8>), Error>(Error::PrematureEOF),
        k >= 2 ==> sp_be16(s.take(k)) == Ok::<(u16, Seq<u8>), Error>(
            (be16_val(s), s.skip(2).take(k - 2)),
        ),
        k < 4 ==> sp_be32(s.take(k)) == Err::<(u32, Seq<u8>), Error>(Error::PrematureEOF),
        k >= 4 ==> sp_be32(s.take(k)) == Ok::<(u32, Seq<u8>), Error>(
            (be32_val(s), s.skip(4).take(k - 4)),
        ),
{
    if k >= 1 {
        assert(s.take(k)[0] == s[0]);
        assert(s.take(k).skip(1) =~= s.skip(1).take(k - 1));
    }
    if n <= k {
        assert(s.take(k).take(n) =~= s.take(n));
        assert(s.take(k).skip(n) =~= s.skip(n).take(k - n));
    }
    if k >= 2 {
        assert(s.take(k)[1] == s[1]);
        assert(s.take(k).skip(2) =~= s.skip(2).take(k - 2));
    }
    if k >= 4 {
        assert(s.take(k)[2] == s[2]);
        assert(s.take(k)[3] == s[3]);
        assert(s.take(k).skip(4) =~= s.skip(4).take(k - 4));
    }
}

/// Cutting a fully-consumed length-framed record short always fails with
/// the truncation error.
proof fn lemma_varlen_truncate(s: Seq<u8>, k: int)
    requires
        crate::framing::sp_varlen(s) matches Ok(p) && p.1.len() == 0,
        0 <= k < s.len(),
    ensures
        crate::framing::sp_varlen(s.take(k)) == Err::<(Seq<u8>, Seq<u8>), Error>(
            Error::PrematureEOF,
        ),
{
    let b0 = s[0];
    let s1 = s.skip(1);
    let k1 = k - 1;
    lemma_take_primitives(s, k, 0);
    if k >= 1 {
        if b0 < 192 {
            lemma_take_primitives(s1, k1, b0 as int);
        } else if b0 < 224 {
            let s2 = s1.skip(1);
            lemma_take_primitives(s1, k1, 0);
            if k1 >= 1 {
                lemma_take_primitives(s2, k1 - 1, (b0 - 192) * 0x100 + s1[0] + 192);
            }
        } else {
            let s2 = s1.skip(4);
            lemma_take_primitives(s1, k1, 0);
            if k1 >= 4 {
                lemma_take_primitives(s2, k1 - 4, be32_val(s1) as int);
            }
        }
    }
}

/// Cutting a fully-consumed packet short always fails with the truncation
/// error.
proof fn lemma_next_packet_truncate(s: Seq<u8>, k: int)
    requires
        crate::framing::sp_next_packet(s) matches Ok(p) && p.1.len() == 0,
        0 <= k < s.len(),
    ensures
        crate::framing::sp_next_packet(s.take(k)) == Err::<((u8, Seq<u8>), Seq<u8>), Error>(
            Error::PrematureEOF,
        ),
{
    let b0 = s[0];
    let s1 = s.skip(1);
    let k1 = k - 1;
    lemma_take_primitives(s, k, 0);
    if k >= 1 {
        if b0 & 0x40 != 0 {
            lemma_varlen_truncate(s1, k1);
        } else if b0 & 3 == 0 {
            let s2 = s1.skip(1);
            lemma_take_primitives(s1, k1, 0);
            if k1 >= 1 {
                lemma_take_primitives(s2, k1 - 1, s1[0] as int);
            }
        } else if b0 & 3 == 1 {
            let s2 = s1.skip(2);
            lemma_take_primitives(s1, k1, 0);
            if k1 >= 2 {
                lemma_take_primitives(s2, k1 - 2, be16_val(s1) as int);
            }
        } else {
            let s2 = s1.skip(4);
            lemma_take_primitives(s1, k1, 0);
            if k1 >= 4 {
                lemma_take_primitives(s2, k1 - 4, be32_val(s1) as int);
            }
        }
    }
}

/// Every truncated prefix of a buffer holding a valid standalone signature
/// fails to parse, and fails precisely with the truncation error.
pub proof fn lemma_truncated_prefix_fails(
    s: Seq<u8>,
    timestamp: u32,
    allow_weak_hashes: crate::algo::AllowWeakHashes,
    k: int,
)
    requires
        sp_parse(s, timestamp, allow_weak_hashes) is Ok,
        0 <= k < s.len(),
    ensures
        sp_parse(s.take(k), timestamp, allow_weak_hashes) == Err::<SigInfoG, Error>(
            Error::PrematureEOF,
        ),
{
    lemma_next_packet_truncate(s, k);
}

/// Appending one extra byte to an otherwise-valid standalone buffer yields
/// the trailing-data error.
pub proof fn lemma_appended_byte_is_trailing_junk(
    s: Seq<u8>,
    timestamp: u32,
    allow_weak_hashes: crate::algo::AllowWeakHashes,
    b: u8,
)
    requires
        sp_parse(s, timestamp, allow_weak_hashes) is Ok,
    ensures
        sp_parse(s.push(b), timestamp, allow_weak_hashes) == Err::<SigInfoG, Error>(
            Error::TrailingJunk,
        ),
{
    lemma_next_packet_extend(s, b);
}

} // verus!
