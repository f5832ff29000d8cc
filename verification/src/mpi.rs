//! The multiprecision-integer (MPI) decoder: one canonical big-endian
//! integer, prefixed by its bit length.

use vstd::prelude::*;
use vstd::slice::slice_index_get;
use vstd::std_specs::bits::u8_leading_zeros;
use crate::error::Error;
use crate::reader::{Reader, sp_be16, sp_bytes};

verus! {

/// Whether the declared bit length `bits` is consistent with the first
/// content byte of the magnitude: the number of leading zero bits in that
/// byte must leave no superfluous leading zero in the encoding.
pub open spec fn mpi_canonical(bits: u16, first: u8) -> bool {
    u8_leading_zeros(first) + (bits + 7) % 8 == 7
}

/// Reading one MPI from the front of `s`: a 16-bit big-endian bit-length
/// header, then `ceil(bits / 8)` magnitude bytes, which must be in canonical
/// form when non-empty.  Returns the magnitude and the remaining bytes.
pub open spec fn sp_mpi(s: Seq<u8>) -> Result<(Seq<u8>, Seq<u8>), Error> {
    match sp_be16(s) {
        Err(e) => Err(e),
        Ok((bits, s1)) => match sp_bytes(s1, (bits + 7) as int / 8) {
            Err(e) => Err(e),
            Ok((m, s2)) => if m.len() > 0 && !mpi_canonical(bits, m[0]) {
                Err(Error::BadMPI)
            } else {
                Ok((m, s2))
            },
        },
    }
}

/// Reading `n` MPIs back to back from the front of `s`, discarding their
/// magnitudes; the result is what remains after them.
pub open spec fn sp_mpis(s: Seq<u8>, n: nat) -> Result<Seq<u8>, Error>
    decreases n,
{
    if n == 0 {
        Ok(s)
    } else {
        match sp_mpi(s) {
            Err(e) => Err(e),
            Ok((m, s1)) => sp_mpis(s1, (n - 1) as nat),
        }
    }
}

/// Read a multiprecision integer (MPI) from `reader`.  Value is returned as
/// a slice.  On failure the reader is left where it stood.
pub fn read_mpi<'a>(reader: &mut Reader<'a>) -> (r: Result<&'a [u8], Error>)
    ensures
        match sp_mpi(old(reader).remaining()) {
            Ok(p) => r matches Ok(out) && out@ == p.0 && final(reader).remaining() == p.1,
            Err(e) => r == Err::<&'a [u8], Error>(e) && *final(reader) == *old(reader),
        },
{
    let mut sub = *reader;
    let bits = match sub.be_u16() {
        Ok(b) => b,
        Err(e) => { return Err(e) },
    };
    let blen = (bits as usize + 7) / 8;
    let mpi_buf = match sub.get_bytes(blen) {
        Ok(b) => b,
        Err(e) => { return Err(e) },
    };
    if mpi_buf.len() > 0 {
        let first = *slice_index_get(mpi_buf, 0);
        // check that there are no spurious leading zeros; this does not
        // apply to encrypted MPIs, but only signature MPIs are decoded here
        if first.leading_zeros() as usize + (bits as usize + 7) % 8 != 7 {
            return Err(Error::BadMPI);
        }
    }
    *reader = sub;
    Ok(mpi_buf)
}

} // verus!
