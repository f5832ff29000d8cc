//! The bounded cursor over a byte span, and the specification-level
//! primitives that describe what each read consumes and returns.
//!
//! Every read either succeeds, handing back a value and the remaining bytes,
//! or fails with [`Error::PrematureEOF`] when fewer bytes remain than were
//! requested.  The spec functions below state that protocol once; every
//! cursor method is proved against them.

use vstd::prelude::*;
use vstd::slice::{slice_index_get, slice_subrange};
use crate::error::Error;

verus! {

/// The big-endian value of the first two bytes of `s`.
pub open spec fn be16_val(s: Seq<u8>) -> u16
    recommends
        s.len() >= 2,
{
    ((s[0] as int) * 0x100 + (s[1] as int)) as u16
}

/// The big-endian value of the first four bytes of `s`.
pub open spec fn be32_val(s: Seq<u8>) -> u32
    recommends
        s.len() >= 4,
{
    ((s[0] as int) * 0x1000000 + (s[1] as int) * 0x10000 + (s[2] as int) * 0x100 + (
    s[3] as int)) as u32
}

/// Taking one byte from the front of `s`.
pub open spec fn sp_byte(s: Seq<u8>) -> Result<(u8, Seq<u8>), Error> {
    if s.len() >= 1 {
        Ok((s[0], s.skip(1)))
    } else {
        Err(Error::PrematureEOF)
    }
}

/// Taking exactly `n` raw bytes from the front of `s`.
pub open spec fn sp_bytes(s: Seq<u8>, n: int) -> Result<(Seq<u8>, Seq<u8>), Error> {
    if 0 <= n <= s.len() {
        Ok((s.take(n), s.skip(n)))
    } else {
        Err(Error::PrematureEOF)
    }
}

/// Taking a big-endian 16-bit integer from the front of `s`.
pub open spec fn sp_be16(s: Seq<u8>) -> Result<(u16, Seq<u8>), Error> {
    if s.len() >= 2 {
        Ok((be16_val(s), s.skip(2)))
    } else {
        Err(Error::PrematureEOF)
    }
}

/// Taking a big-endian 32-bit integer from the front of `s`.
pub open spec fn sp_be32(s: Seq<u8>) -> Result<(u32, Seq<u8>), Error> {
    if s.len() >= 4 {
        Ok((be32_val(s), s.skip(4)))
    } else {
        Err(Error::PrematureEOF)
    }
}

/// A sequential, non-owning cursor over a byte span.  Reads consume from the
/// front; a request for more bytes than remain fails without moving the
/// cursor.
#[derive(Clone, Copy)]
pub struct Reader<'a> {
    buf: &'a [u8],
    pos: usize,
}

impl<'a> Reader<'a> {
    #[verifier::type_invariant]
    spec fn wf(self) -> bool {
        self.pos <= self.buf@.len()
    }

    /// The bytes not yet consumed.
    pub closed spec fn remaining(self) -> Seq<u8> {
        self.buf@.skip(self.pos as int)
    }

    /// A cursor over all of `data`.
    pub fn new(data: &'a [u8]) -> (r: Reader<'a>)
        ensures
            r.remaining() == data@,
    {
        proof {
            assert(data@.skip(0) =~= data@);
        }
        Reader { buf: data, pos: 0 }
    }

    /// How many bytes remain.
    pub fn len(&self) -> (r: usize)
        ensures
            r == self.remaining().len(),
    {
        proof {
            use_type_invariant(self);
        }
        self.buf.len() - self.pos
    }

    /// Whether no bytes remain.
    pub fn is_empty(&self) -> (r: bool)
        ensures
            r == (self.remaining().len() == 0),
    {
        proof {
            use_type_invariant(self);
        }
        self.pos == self.buf.len()
    }

    /// Take one byte.
    pub fn byte(&mut self) -> (r: Result<u8, Error>)
        ensures
            match sp_byte(old(self).remaining()) {
                Ok(p) => r == Ok::<u8, Error>(p.0) && final(self).remaining() == p.1,
                Err(e) => r == Err::<u8, Error>(e) && *final(self) == *old(self),
            },
    {
        proof {
            use_type_invariant(&*self);
        }
        if self.pos < self.buf.len() {
            let b = *slice_index_get(self.buf, self.pos);
            self.pos = self.pos + 1;
            proof {
                assert(self.buf@.skip(self.pos as int) =~= old(self).remaining().skip(1));
            }
            Ok(b)
        } else {
            Err(Error::PrematureEOF)
        }
    }

    /// Take exactly `n` raw bytes.
    pub fn get_bytes(&mut self, n: usize) -> (r: Result<&'a [u8], Error>)
        ensures
            match sp_bytes(old(self).remaining(), n as int) {
                Ok(p) => r matches Ok(out) && out@ == p.0 && final(self).remaining() == p.1,
                Err(e) => r == Err::<&'a [u8], Error>(e) && *final(self) == *old(self),
            },
    {
        proof {
            use_type_invariant(&*self);
        }
        if n <= self.buf.len() - self.pos {
            let out = slice_subrange(self.buf, self.pos, self.pos + n);
            self.pos = self.pos + n;
            proof {
                assert(out@ =~= old(self).remaining().take(n as int));
                assert(self.buf@.skip(self.pos as int) =~= old(self).remaining().skip(n as int));
            }
            Ok(out)
        } else {
            Err(Error::PrematureEOF)
        }
    }

    /// Take a big-endian 16-bit integer.
    pub fn be_u16(&mut self) -> (r: Result<u16, Error>)
        ensures
            match sp_be16(old(self).remaining()) {
                Ok(p) => r == Ok::<u16, Error>(p.0) && final(self).remaining() == p.1,
                Err(e) => r == Err::<u16, Error>(e) && *final(self) == *old(self),
            },
    {
        proof {
            use_type_invariant(&*self);
        }
        if 2 <= self.buf.len() - self.pos {
            let b0 = *slice_index_get(self.buf, self.pos);
            let b1 = *slice_index_get(self.buf, self.pos + 1);
            self.pos = self.pos + 2;
            proof {
                assert(self.buf@.skip(self.pos as int) =~= old(self).remaining().skip(2));
            }
            Ok((b0 as u16) * 0x100 + (b1 as u16))
        } else {
            Err(Error::PrematureEOF)
        }
    }

    /// Take a big-endian 32-bit integer.
    pub fn be_u32(&mut self) -> (r: Result<u32, Error>)
        ensures
            match sp_be32(old(self).remaining()) {
                Ok(p) => r == Ok::<u32, Error>(p.0) && final(self).remaining() == p.1,
                Err(e) => r == Err::<u32, Error>(e) && *final(self) == *old(self),
            },
    {
        proof {
            use_type_invariant(&*self);
        }
        if 4 <= self.buf.len() - self.pos {
            let b0 = *slice_index_get(self.buf, self.pos);
            let b1 = *slice_index_get(self.buf, self.pos + 1);
            let b2 = *slice_index_get(self.buf, self.pos + 2);
            let b3 = *slice_index_get(self.buf, self.pos + 3);
            self.pos = self.pos + 4;
            proof {
                assert(self.buf@.skip(self.pos as int) =~= old(self).remaining().skip(4));
            }
            Ok((b0 as u32) * 0x1000000 + (b1 as u32) * 0x10000 + (b2 as u32) * 0x100 + (b3 as u32))
        } else {
            Err(Error::PrematureEOF)
        }
    }
}

} // verus!
