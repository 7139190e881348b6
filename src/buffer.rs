//! The fixed-size transfer buffer a pump reuses across reads.

use vstd::prelude::*;

verus! {

/// A buffer of `len` zero bytes.
pub fn new_buffer(len: usize) -> (buf: Vec<u8>)
    ensures
        buf@ == Seq::new(len as nat, |i: int| 0u8),
{
    let mut buf: Vec<u8> = Vec::with_capacity(len);
    reset_buf(&mut buf, len);
    buf
}

/// Brings `buf` back to `buf_len` bytes: longer contents are cut, and a
/// shorter buffer is padded with zeros.
pub fn reset_buf(buf: &mut Vec<u8>, buf_len: usize)
    ensures
        buf_len <= old(buf)@.len() ==> final(buf)@ == old(buf)@.subrange(0, buf_len as int),
        buf_len > old(buf)@.len() ==> final(buf)@ == old(buf)@ + Seq::new(
            (buf_len - old(buf)@.len()) as nat,
            |i: int| 0u8,
        ),
{
    if buf_len <= buf.len() {
        buf.truncate(buf_len);
    } else {
        let ghost start = buf@;
        while buf.len() < buf_len
            invariant
                start.len() <= buf@.len() <= buf_len,
                buf@ == start + Seq::new((buf@.len() - start.len()) as nat, |i: int| 0u8),
            decreases buf_len - buf@.len(),
        {
            buf.push(0u8);
            assert(buf@ =~= start + Seq::new((buf@.len() - start.len()) as nat, |i: int| 0u8));
        }
    }
}

/// The meaningful part of the buffer after a read of `n` bytes: the first
/// `n`; nothing left over from an earlier read goes with it.
pub fn payload(buf: &[u8], n: usize) -> (out: &[u8])
    requires
        n <= buf@.len(),
    ensures
        out@ == buf@.subrange(0, n as int),
{
    vstd::slice::slice_subrange(buf, 0, n)
}

} // verus!
