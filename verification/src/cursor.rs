use crate::error::Error;
use vstd::prelude::*;

verus! {

/// Bounds-checked sequential byte access over an immutable buffer.  All
/// higher decoding steps read only through these functions, so truncated
/// input is always a reported error, never an aborted process.
///
/// Returns the byte at `cursor` without advancing, or
/// `UnexpectedEndOfStream` at end of buffer.
pub fn peek_byte(bytes: &Vec<u8>, cursor: usize) -> (r: Result<u8, Error>)
    ensures
        r is Ok <==> cursor < bytes@.len(),
        r matches Ok(b) ==> b == bytes@[cursor as int],
        r matches Err(e) ==> e == Error::UnexpectedEndOfStream,
{
    if cursor < bytes.len() {
        Ok(bytes[cursor])
    } else {
        Err(Error::UnexpectedEndOfStream)
    }
}

/// Returns the byte at `cursor` and the advanced cursor, or
/// `UnexpectedEndOfStream` at end of buffer.
pub fn read_byte(bytes: &Vec<u8>, cursor: usize) -> (r: Result<(u8, usize), Error>)
    ensures
        r is Ok <==> cursor < bytes@.len(),
        r matches Ok(p) ==> p.0 == bytes@[cursor as int] && p.1 == cursor + 1,
        r matches Err(e) ==> e == Error::UnexpectedEndOfStream,
{
    if cursor < bytes.len() {
        Ok((bytes[cursor], cursor + 1))
    } else {
        Err(Error::UnexpectedEndOfStream)
    }
}

/// True when the `n` bytes at `cursor` lie inside the buffer.
pub fn has_bytes(bytes: &Vec<u8>, cursor: usize, n: usize) -> (r: bool)
    ensures
        r <==> cursor + n <= bytes@.len(),
{
    cursor <= bytes.len() && bytes.len() - cursor >= n
}

/// Returns the next `n` bytes and the advanced cursor, or
/// `UnexpectedEndOfStream` if fewer than `n` bytes remain.
pub fn read_exact(bytes: &Vec<u8>, cursor: usize, n: usize) -> (r: Result<
    (Vec<u8>, usize),
    Error,
>)
    ensures
        r is Ok <==> cursor + n <= bytes@.len(),
        r matches Ok(p) ==> p.0@ == bytes@.subrange(cursor as int, cursor + n) && p.1 == cursor
            + n,
        r matches Err(e) ==> e == Error::UnexpectedEndOfStream,
{
    if !has_bytes(bytes, cursor, n) {
        return Err(Error::UnexpectedEndOfStream);
    }
    let len = bytes.len();
    assert(cursor + n <= len <= usize::MAX);
    let mut out: Vec<u8> = Vec::new();
    let mut i: usize = 0;
    while i < n
        invariant
            cursor + n <= bytes@.len(),
            cursor + n <= usize::MAX,
            i <= n,
            out@ == bytes@.subrange(cursor as int, cursor + i),
        decreases n - i,
    {
        out.push(bytes[cursor + i]);
        i = i + 1;
        proof {
            assert(out@ =~= bytes@.subrange(cursor as int, cursor + i));
        }
    }
    Ok((out, cursor + n))
}

} // verus!
