//! Packet and record framing: OpenPGP's variable-length size encoding for
//! length-framed records, and the packet header that yields a packet's type
//! tag and its content span.

use vstd::prelude::*;
use crate::error::Error;
use crate::reader::{Reader, sp_byte, sp_be16, sp_be32, sp_bytes};

verus! {

/// Taking one length-framed record from the front of `s`, framed by
/// OpenPGP's variable-length size encoding: a first byte below 192 is the
/// size itself; 192 through 223 open a two-byte size; 255 opens a four-byte
/// size; 224 through 254 (partial lengths) are rejected.  Returns the
/// record and the remaining bytes.
pub open spec fn sp_varlen(s: Seq<u8>) -> Result<(Seq<u8>, Seq<u8>), Error> {
    match sp_byte(s) {
        Err(e) => Err(e),
        Ok((b0, s1)) => if b0 < 192 {
            sp_bytes(s1, b0 as int)
        } else if b0 < 224 {
            match sp_byte(s1) {
                Err(e) => Err(e),
                Ok((b1, s2)) => sp_bytes(s2, (b0 - 192) * 0x100 + b1 + 192),
            }
        } else if b0 == 255 {
            match sp_be32(s1) {
                Err(e) => Err(e),
                Ok((n, s2)) => sp_bytes(s2, n as int),
            }
        } else {
            Err(Error::IllFormedSignature)
        },
    }
}

/// A record taken out of `s` leaves strictly fewer bytes behind.
pub proof fn lemma_sp_varlen_shrinks(s: Seq<u8>)
    ensures
        sp_varlen(s) matches Ok(p) ==> p.1.len() < s.len() && p.0.len() <= s.len(),
{
}

/// Take the next length-framed record from `reader`.
pub(crate) fn get_varlen_bytes<'a>(reader: &mut Reader<'a>) -> (r: Result<&'a [u8], Error>)
    ensures
        match sp_varlen(old(reader).remaining()) {
            Ok(p) => r matches Ok(out) && out@ == p.0 && final(reader).remaining() == p.1,
            Err(e) => r == Err::<&'a [u8], Error>(e),
        },
{
    let b0 = match reader.byte() {
        Ok(b) => b,
        Err(e) => { return Err(e) },
    };
    let len: usize = if b0 < 192 {
        b0 as usize
    } else if b0 < 224 {
        let b1 = match reader.byte() {
            Ok(b) => b,
            Err(e) => { return Err(e) },
        };
        (b0 as usize - 192) * 0x100 + b1 as usize + 192
    } else if b0 == 255 {
        let n = match reader.be_u32() {
            Ok(n) => n,
            Err(e) => { return Err(e) },
        };
        n as usize
    } else {
        return Err(Error::IllFormedSignature);
    };
    reader.get_bytes(len)
}

/// Taking the next packet from the front of `s`: the header byte must have
/// its first bit set; a new-format header carries the type tag in its low
/// six bits and frames the contents with the variable-length encoding; an
/// old-format header carries the tag in bits two through five and a one-,
/// two- or four-byte content size chosen by its low two bits (the
/// indeterminate size is rejected).  Returns the type tag, the contents,
/// and the bytes after the packet.
pub open spec fn sp_next_packet(s: Seq<u8>) -> Result<((u8, Seq<u8>), Seq<u8>), Error> {
    match sp_byte(s) {
        Err(e) => Err(e),
        Ok((b0, s1)) => if b0 & 0x80 == 0 {
            Err(Error::IllFormedSignature)
        } else if b0 & 0x40 != 0 {
            match sp_varlen(s1) {
                Err(e) => Err(e),
                Ok((contents, rest)) => Ok((((b0 & 0x3F) as u8, contents), rest)),
            }
        } else {
            let tag = ((b0 >> 2) & 0x0F) as u8;
            if b0 & 3 == 0 {
                match sp_byte(s1) {
                    Err(e) => Err(e),
                    Ok((n, s2)) => match sp_bytes(s2, n as int) {
                        Err(e) => Err(e),
                        Ok((contents, rest)) => Ok(((tag, contents), rest)),
                    },
                }
            } else if b0 & 3 == 1 {
                match sp_be16(s1) {
                    Err(e) => Err(e),
                    Ok((n, s2)) => match sp_bytes(s2, n as int) {
                        Err(e) => Err(e),
                        Ok((contents, rest)) => Ok(((tag, contents), rest)),
                    },
                }
            } else if b0 & 3 == 2 {
                match sp_be32(s1) {
                    Err(e) => Err(e),
                    Ok((n, s2)) => match sp_bytes(s2, n as int) {
                        Err(e) => Err(e),
                        Ok((contents, rest)) => Ok(((tag, contents), rest)),
                    },
                }
            } else {
                Err(Error::IllFormedSignature)
            }
        },
    }
}

/// Take the next packet's type tag and contents from `reader`.  An empty
/// reader fails with the truncation error.
pub(crate) fn next_packet<'a>(reader: &mut Reader<'a>) -> (r: Result<(u8, &'a [u8]), Error>)
    ensures
        match sp_next_packet(old(reader).remaining()) {
            Ok(p) => r matches Ok(out) && out.0 == p.0.0 && out.1@ == p.0.1
                && final(reader).remaining() == p.1,
            Err(e) => r == Err::<(u8, &'a [u8]), Error>(e),
        },
{
    let b0 = match reader.byte() {
        Ok(b) => b,
        Err(e) => { return Err(e) },
    };
    if b0 & 0x80 == 0 {
        return Err(Error::IllFormedSignature);
    }
    if b0 & 0x40 != 0 {
        let contents = match get_varlen_bytes(reader) {
            Ok(c) => c,
            Err(e) => { return Err(e) },
        };
        Ok((b0 & 0x3F, contents))
    } else {
        let tag = (b0 >> 2) & 0x0F;
        let len: usize = if b0 & 3 == 0 {
            match reader.byte() {
                Ok(n) => n as usize,
                Err(e) => { return Err(e) },
            }
        } else if b0 & 3 == 1 {
            match reader.be_u16() {
                Ok(n) => n as usize,
                Err(e) => { return Err(e) },
            }
        } else if b0 & 3 == 2 {
            match reader.be_u32() {
                Ok(n) => n as usize,
                Err(e) => { return Err(e) },
            }
        } else {
            return Err(Error::IllFormedSignature);
        };
        let contents = match reader.get_bytes(len) {
            Ok(c) => c,
            Err(e) => { return Err(e) },
        };
        Ok((tag, contents))
    }
}

} // verus!
