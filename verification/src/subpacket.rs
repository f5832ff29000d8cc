//! The subpacket processor: one tagged, length-framed metadata record is
//! consumed and folded into the accumulator, enforcing per-kind legality and
//! no-duplication.

use vstd::prelude::*;
use vstd::slice::slice_index_get;
use crate::error::Error;
use crate::framing::{sp_varlen, lemma_sp_varlen_shrinks};
use crate::reader::{Reader, sp_byte, sp_be32, sp_bytes};

verus! {

pub const SUBPACKET_CREATION_TIME: u8 = 2;

pub const SUBPACKET_SIG_EXPIRATION_TIME: u8 = 3;

pub const SUBPACKET_EXPORTABLE: u8 = 4;

pub const SUBPACKET_TRUST_SIG: u8 = 5;

pub const SUBPACKET_REGEX: u8 = 6;

pub const SUBPACKET_REVOCABLE: u8 = 7;

pub const SUBPACKET_KEY_EXPIRATION_TIME: u8 = 9;

pub const SUBPACKET_PLACEHOLDER: u8 = 10;

pub const SUBPACKET_PREFERRED_SYMMETRIC: u8 = 11;

pub const SUBPACKET_REVOCATION_KEY: u8 = 12;

pub const SUBPACKET_ISSUER_KEYID: u8 = 16;

pub const SUBPACKET_NOTATION: u8 = 20;

pub const SUBPACKET_PREFERRED_HASH: u8 = 21;

pub const SUBPACKET_PREFERRED_COMPRESSION: u8 = 22;

pub const SUBPACKET_KEY_SERVER_PREFERENCES: u8 = 23;

pub const SUBPACKET_PREFERRED_KEY_SERVERS: u8 = 24;

pub const SUBPACKET_PRIMARY_USER_ID: u8 = 25;

pub const SUBPACKET_POLICY_URI: u8 = 26;

pub const SUBPACKET_KEY_FLAGS: u8 = 27;

pub const SUBPACKET_SIGNER_USER_ID: u8 = 28;

pub const SUBPACKET_REVOCATION_REASON: u8 = 29;

pub const SUBPACKET_FEATURES: u8 = 30;

pub const SUBPACKET_SIGNATURE_TARGET: u8 = 31;

pub const SUBPACKET_EMBEDDED_SIGNATURE: u8 = 32;

pub const SUBPACKET_FINGERPRINT: u8 = 33;

/// The fields a signature's subpackets may set, each at most once.
pub(crate) struct InternalSigInfo {
    /// Signer Key ID
    pub id: Option<[u8; 8]>,
    /// Fingerprint
    pub fpr: Option<[u8; 20]>,
    /// Creation time
    pub creation_time: Option<u32>,
    /// Expiration time
    pub expiration_time: Option<u32>,
}

/// The mathematical shadow of [`InternalSigInfo`].
pub ghost struct AccG {
    pub id: Option<Seq<u8>>,
    pub fpr: Option<Seq<u8>>,
    pub creation_time: Option<u32>,
    pub expiration_time: Option<u32>,
}

impl InternalSigInfo {
    /// The mathematical value of the accumulator.
    pub(crate) open spec fn view(&self) -> AccG {
        AccG {
            id: match self.id {
                Some(a) => Some(a@),
                None => None,
            },
            fpr: match self.fpr {
                Some(a) => Some(a@),
                None => None,
            },
            creation_time: self.creation_time,
            expiration_time: self.expiration_time,
        }
    }
}

/// The accumulator before any subpacket has been seen.
pub open spec fn acc_empty() -> AccG {
    AccG { id: None, fpr: None, creation_time: None, expiration_time: None }
}

/// Subpacket kinds that are structurally ill-formed on a binary document
/// signature: they belong to self-signatures, certifications, revocations,
/// subkey bindings or signature targets.
pub open spec fn banned_kind(tag: u8) -> bool {
    tag == SUBPACKET_KEY_EXPIRATION_TIME || tag == SUBPACKET_PREFERRED_SYMMETRIC || tag
        == SUBPACKET_PREFERRED_HASH || tag == SUBPACKET_PREFERRED_COMPRESSION || tag
        == SUBPACKET_KEY_SERVER_PREFERENCES || tag == SUBPACKET_PRIMARY_USER_ID || tag
        == SUBPACKET_PREFERRED_KEY_SERVERS || tag == SUBPACKET_FEATURES || tag
        == SUBPACKET_EXPORTABLE || tag == SUBPACKET_TRUST_SIG || tag == SUBPACKET_REGEX || tag
        == SUBPACKET_REVOCATION_KEY || tag == SUBPACKET_KEY_FLAGS || tag
        == SUBPACKET_REVOCATION_REASON || tag == SUBPACKET_SIGNATURE_TARGET || tag
        == SUBPACKET_EMBEDDED_SIGNATURE || tag == SUBPACKET_REVOCABLE || tag
        == SUBPACKET_PLACEHOLDER
}

/// Processing one subpacket body `s` of kind `tag` (critical bit already
/// removed) against the reference time `time` and the accumulator `acc`:
/// either the new accumulator and the bytes left in the record, or the
/// rejection.
pub open spec fn sp_process(s: Seq<u8>, time: u32, tag: u8, acc: AccG) -> Result<
    (AccG, Seq<u8>),
    Error,
> {
    if banned_kind(tag) {
        Err(Error::IllFormedSignature)
    } else if tag == SUBPACKET_SIG_EXPIRATION_TIME {
        match sp_be32(s) {
            Err(e) => Err(e),
            Ok((timestamp, s1)) => if time != 0 && timestamp >= time {
                Err(Error::SignatureExpired)
            } else if acc.expiration_time is Some {
                Err(Error::IllFormedSignature)
            } else {
                Ok((AccG { expiration_time: Some(timestamp), ..acc }, s1))
            },
        }
    } else if tag == SUBPACKET_CREATION_TIME {
        match sp_be32(s) {
            Err(e) => Err(e),
            Ok((timestamp, s1)) => if time != 0 && timestamp < time {
                Err(Error::SignatureNotValidYet)
            } else if acc.creation_time is Some {
                Err(Error::IllFormedSignature)
            } else {
                Ok((AccG { creation_time: Some(timestamp), ..acc }, s1))
            },
        }
    } else if tag == SUBPACKET_ISSUER_KEYID {
        if acc.id is Some {
            Err(Error::IllFormedSignature)
        } else {
            match sp_bytes(s, 8) {
                Err(e) => Err(e),
                Ok((kid, s1)) => Ok((AccG { id: Some(kid), ..acc }, s1)),
            }
        }
    } else if tag == SUBPACKET_FINGERPRINT {
        match sp_bytes(s, 21) {
            Err(e) => Err(e),
            Ok((b, s1)) => if b[0] == 4 && acc.fpr is None {
                Ok((AccG { fpr: Some(b.skip(1)), ..acc }, s1))
            } else {
                Err(Error::IllFormedSignature)
            },
        }
    } else {
        // notation data, policy URIs, signer user ids and every unknown
        // kind are rejected uniformly: unknown extensions are never
        // silently ignored
        Err(Error::UnsupportedCriticalSubpacket)
    }
}

/// One complete subpacket record `frame`: its tag byte (whose critical bit
/// is discarded), then its body, which the kind's handler must consume in
/// full.
pub open spec fn sp_one_subpacket(frame: Seq<u8>, time: u32, acc: AccG) -> Result<AccG, Error> {
    match sp_byte(frame) {
        Err(e) => Err(e),
        Ok((tag_byte, f1)) => match sp_process(f1, time, (tag_byte & 0x7F) as u8, acc) {
            Err(e) => Err(e),
            Ok((acc2, f2)) => if f2.len() == 0 {
                Ok(acc2)
            } else {
                Err(Error::TrailingJunk)
            },
        },
    }
}

/// A back-to-back run of length-framed subpackets filling the whole of `s`,
/// folded into `acc` in order.
pub open spec fn sp_area(s: Seq<u8>, time: u32, acc: AccG) -> Result<AccG, Error>
    decreases s.len(),
    via sp_area_dec
{
    if s.len() == 0 {
        Ok(acc)
    } else {
        match sp_varlen(s) {
            Err(e) => Err(e),
            Ok((frame, rest)) => match sp_one_subpacket(frame, time, acc) {
                Err(e) => Err(e),
                Ok(acc2) => sp_area(rest, time, acc2),
            },
        }
    }
}

#[via_fn]
proof fn sp_area_dec(s: Seq<u8>, time: u32, acc: AccG) {
    lemma_sp_varlen_shrinks(s);
}

/// Copy exactly 8 bytes from the front of `s` into an owned array.
pub(crate) fn to_array_8(s: &[u8]) -> (r: [u8; 8])
    requires
        s@.len() == 8,
    ensures
        r@ == s@,
{
    let r: [u8; 8] = [
        *slice_index_get(s, 0),
        *slice_index_get(s, 1),
        *slice_index_get(s, 2),
        *slice_index_get(s, 3),
        *slice_index_get(s, 4),
        *slice_index_get(s, 5),
        *slice_index_get(s, 6),
        *slice_index_get(s, 7),
    ];
    proof {
        assert(r@ =~= s@);
    }
    r
}

/// Copy the 20 bytes of `s` that follow its first byte into an owned array.
pub(crate) fn tail_array_20(s: &[u8]) -> (r: [u8; 20])
    requires
        s@.len() == 21,
    ensures
        r@ == s@.skip(1),
{
    let r: [u8; 20] = [
        *slice_index_get(s, 1),
        *slice_index_get(s, 2),
        *slice_index_get(s, 3),
        *slice_index_get(s, 4),
        *slice_index_get(s, 5),
        *slice_index_get(s, 6),
        *slice_index_get(s, 7),
        *slice_index_get(s, 8),
        *slice_index_get(s, 9),
        *slice_index_get(s, 10),
        *slice_index_get(s, 11),
        *slice_index_get(s, 12),
        *slice_index_get(s, 13),
        *slice_index_get(s, 14),
        *slice_index_get(s, 15),
        *slice_index_get(s, 16),
        *slice_index_get(s, 17),
        *slice_index_get(s, 18),
        *slice_index_get(s, 19),
        *slice_index_get(s, 20),
    ];
    proof {
        assert(r@ =~= s@.skip(1));
    }
    r
}

/// Whether `tag` is a kind this parser always rejects as ill-formed on a
/// binary document signature.
fn is_banned_kind(tag: u8) -> (r: bool)
    ensures
        r == banned_kind(tag),
{
    tag == SUBPACKET_KEY_EXPIRATION_TIME || tag == SUBPACKET_PREFERRED_SYMMETRIC || tag
        == SUBPACKET_PREFERRED_HASH || tag == SUBPACKET_PREFERRED_COMPRESSION || tag
        == SUBPACKET_KEY_SERVER_PREFERENCES || tag == SUBPACKET_PRIMARY_USER_ID || tag
        == SUBPACKET_PREFERRED_KEY_SERVERS || tag == SUBPACKET_FEATURES || tag
        == SUBPACKET_EXPORTABLE || tag == SUBPACKET_TRUST_SIG || tag == SUBPACKET_REGEX || tag
        == SUBPACKET_REVOCATION_KEY || tag == SUBPACKET_KEY_FLAGS || tag
        == SUBPACKET_REVOCATION_REASON || tag == SUBPACKET_SIGNATURE_TARGET || tag
        == SUBPACKET_EMBEDDED_SIGNATURE || tag == SUBPACKET_REVOCABLE || tag
        == SUBPACKET_PLACEHOLDER
}

/// Fold one subpacket of kind `tag` into `id`, reading its body from
/// `reader`.
pub(crate) fn process_subpacket<'a>(
    reader: &mut Reader<'a>,
    time: u32,
    tag: u8,
    id: &mut InternalSigInfo,
) -> (r: Result<(), Error>)
    ensures
        match sp_process(old(reader).remaining(), time, tag, old(id).view()) {
            Ok(p) => r == Ok::<(), Error>(()) && final(id).view() == p.0 && final(reader).remaining()
                == p.1,
            Err(e) => r == Err::<(), Error>(e),
        },
{
    if is_banned_kind(tag) {
        Err(Error::IllFormedSignature)
    } else if tag == SUBPACKET_SIG_EXPIRATION_TIME {
        let timestamp = match reader.be_u32() {
            Ok(t) => t,
            Err(e) => { return Err(e) },
        };
        if time != 0 && timestamp >= time {
            Err(Error::SignatureExpired)
        } else if id.expiration_time.is_some() {
            Err(Error::IllFormedSignature)
        } else {
            id.expiration_time = Some(timestamp);
            Ok(())
        }
    } else if tag == SUBPACKET_CREATION_TIME {
        let timestamp = match reader.be_u32() {
            Ok(t) => t,
            Err(e) => { return Err(e) },
        };
        if time != 0 && timestamp < time {
            Err(Error::SignatureNotValidYet)
        } else if id.creation_time.is_some() {
            Err(Error::IllFormedSignature)
        } else {
            id.creation_time = Some(timestamp);
            Ok(())
        }
    } else if tag == SUBPACKET_ISSUER_KEYID {
        if id.id.is_some() {
            return Err(Error::IllFormedSignature);
        }
        let kid = match reader.get_bytes(8) {
            Ok(b) => b,
            Err(e) => { return Err(e) },
        };
        id.id = Some(to_array_8(kid));
        Ok(())
    } else if tag == SUBPACKET_FINGERPRINT {
        let b = match reader.get_bytes(21) {
            Ok(b) => b,
            Err(e) => { return Err(e) },
        };
        if *slice_index_get(b, 0) == 4 && id.fpr.is_none() {
            id.fpr = Some(tail_array_20(b));
            Ok(())
        } else {
            Err(Error::IllFormedSignature)
        }
    } else {
        // reject unknown subpackets to keep the attack surface small
        Err(Error::UnsupportedCriticalSubpacket)
    }
}

} // verus!
