use crate::bits::{nth_bit, spec_bit, spec_u16_le, u16_le};
use crate::cursor::{has_bytes, peek_byte, read_exact};
use crate::error::Error;
use crate::types::{ExtensionBlock, GraphicControlExtension};
use vstd::prelude::*;

verus! {

/// The label byte identifying a graphic-control metadata block.
pub const GRAPHIC_CONTROL_LABEL: u8 = 0xf9;

/// Where the sub-block stream starting at `c` ends: repeatedly a length
/// byte then that many payload bytes, until a zero length byte.  Yields the
/// cursor just past the terminator.  This structural walk is what makes
/// skipping an unrecognized block safe even when its payload bytes happen
/// to equal a structural tag value.
pub open spec fn spec_skip_sub_blocks(bytes: Seq<u8>, c: int) -> Result<int, Error>
    decreases bytes.len() - c,
{
    if c < 0 || c >= bytes.len() {
        Err(Error::UnexpectedEndOfStream)
    } else if bytes[c] == 0 {
        Ok(c + 1)
    } else if c + 1 + bytes[c] > bytes.len() {
        Err(Error::UnexpectedEndOfStream)
    } else {
        spec_skip_sub_blocks(bytes, c + 1 + bytes[c])
    }
}

/// A successful sub-block walk always advances the cursor and stays inside
/// the buffer.
pub proof fn lemma_skip_sub_blocks_bounds(bytes: Seq<u8>, c: int)
    requires
        spec_skip_sub_blocks(bytes, c) is Ok,
    ensures
        spec_skip_sub_blocks(bytes, c) matches Ok(e) && c < e <= bytes.len(),
    decreases bytes.len() - c,
{
    if !(c < 0 || c >= bytes.len()) && bytes[c] != 0 && c + 1 + bytes[c] <= bytes.len() {
        lemma_skip_sub_blocks_bounds(bytes, c + 1 + bytes[c]);
    }
}

/// The graphic-control metadata encoded at `c`, which points at the
/// block-size byte: a flags byte (bits 4-2 disposal method, bit 1 user
/// input, bit 0 transparency), a little-endian 16-bit delay time, a
/// transparent color index only if the transparency flag is set, and the
/// block terminator.  Yields the metadata and the cursor past the
/// terminator.
pub open spec fn spec_gce(bytes: Seq<u8>, c: int) -> Result<
    (GraphicControlExtension, int),
    Error,
> {
    if c + 4 > bytes.len() {
        Err(Error::UnexpectedEndOfStream)
    } else {
        let flags = bytes[c + 1];
        let transparent = spec_bit(flags, 0);
        let consumed: int = if transparent {
            6
        } else {
            5
        };
        if c + consumed > bytes.len() {
            Err(Error::UnexpectedEndOfStream)
        } else {
            Ok(
                (
                    GraphicControlExtension {
                        disposal_method: (flags >> 2) & 7,
                        user_input: spec_bit(flags, 1),
                        transparent_color: transparent,
                        delay_time: spec_u16_le(bytes[c + 2], bytes[c + 3]),
                        transparent_color_index: if transparent {
                            Some(bytes[c + 4])
                        } else {
                            None
                        },
                    },
                    c + consumed,
                ),
            )
        }
    }
}

/// A failed sub-block walk always reports the end of the stream.
pub proof fn lemma_skip_sub_blocks_err(bytes: Seq<u8>, c: int)
    requires
        spec_skip_sub_blocks(bytes, c) is Err,
    ensures
        spec_skip_sub_blocks(bytes, c) == Err::<int, Error>(Error::UnexpectedEndOfStream),
    decreases bytes.len() - c,
{
    if !(c < 0 || c >= bytes.len()) && bytes[c] != 0 && c + 1 + bytes[c] <= bytes.len() {
        lemma_skip_sub_blocks_err(bytes, c + 1 + bytes[c]);
    }
}

/// A failed metadata block scan always reports the end of the stream.
pub proof fn lemma_extension_block_err(bytes: Seq<u8>, c: int)
    requires
        spec_extension_block(bytes, c) is Err,
    ensures
        spec_extension_block(bytes, c) == Err::<(Option<GraphicControlExtension>, int), Error>(
            Error::UnexpectedEndOfStream,
        ),
{
    if c + 2 <= bytes.len() && bytes[c + 1] != GRAPHIC_CONTROL_LABEL {
        if spec_skip_sub_blocks(bytes, c + 2) is Err {
            lemma_skip_sub_blocks_err(bytes, c + 2);
        }
    }
}

/// Decoded graphic-control metadata always carries its transparent color
/// index exactly when its transparency flag is set.
pub proof fn lemma_gce_wf(bytes: Seq<u8>, c: int)
    requires
        spec_gce(bytes, c) is Ok,
    ensures
        spec_gce(bytes, c) matches Ok(p) && crate::types::gce_wf(p.0),
{
}

/// What scanning the metadata block at `c` (pointing at the introducer
/// byte) yields: the decoded graphic-control metadata for its label, no
/// value for any other label, and in both cases the cursor past the block.
pub open spec fn spec_extension_block(bytes: Seq<u8>, c: int) -> Result<
    (Option<GraphicControlExtension>, int),
    Error,
> {
    if c + 2 > bytes.len() {
        Err(Error::UnexpectedEndOfStream)
    } else if bytes[c + 1] == GRAPHIC_CONTROL_LABEL {
        match spec_gce(bytes, c + 2) {
            Ok((g, e)) => Ok((Some(g), e)),
            Err(er) => Err(er),
        }
    } else {
        match spec_skip_sub_blocks(bytes, c + 2) {
            Ok(e) => Ok((None, e)),
            Err(er) => Err(er),
        }
    }
}

/// Walks a sub-block stream: repeatedly reads a length byte, then skips
/// that many payload bytes, until the zero-length terminator.  Returns the
/// cursor just past the terminator.
fn skip_sub_blocks(bytes: &Vec<u8>, cursor: usize) -> (r: Result<usize, Error>)
    ensures
        (match r {
            Ok(e) => spec_skip_sub_blocks(bytes@, cursor as int) == Ok::<int, Error>(e as int),
            Err(er) => spec_skip_sub_blocks(bytes@, cursor as int) == Err::<int, Error>(er),
        }),
{
    let buffer_len = bytes.len();
    let mut c = cursor;
    loop
        invariant
            bytes@.len() == buffer_len,
            spec_skip_sub_blocks(bytes@, cursor as int) == spec_skip_sub_blocks(bytes@, c as int),
        decreases bytes@.len() - c,
    {
        let length = match peek_byte(bytes, c) {
            Ok(b) => b,
            Err(e) => {
                return Err(e);
            },
        };
        if length == 0 {
            return Ok(c + 1);
        }
        if !has_bytes(bytes, c + 1, length as usize) {
            return Err(Error::UnexpectedEndOfStream);
        }
        c = c + 1 + (length as usize);
    }
}

/// Decodes the fixed-layout graphic-control body at `cursor`, which points
/// at its block-size byte: reads the flags, the delay time, and the
/// transparent color index only when the transparency flag is set.
pub fn graphic_control_extension(bytes: &Vec<u8>, cursor: usize) -> (r: Result<
    (GraphicControlExtension, usize),
    Error,
>)
    ensures
        (match r {
            Ok(p) => spec_gce(bytes@, cursor as int) == Ok::<_, Error>((p.0, p.1 as int)),
            Err(er) => spec_gce(bytes@, cursor as int) == Err::<(GraphicControlExtension, int),
            Error,
            >(er),
        }),
{
    let (head, after_head) = match read_exact(bytes, cursor, 4) {
        Ok(p) => p,
        Err(e) => {
            return Err(e);
        },
    };
    let flags = head[1];
    let transparent = nth_bit(flags, 0);
    let (transparent_color_index, end) = if transparent {
        // transparent color index, then the block terminator
        let (tail, after_tail) = match read_exact(bytes, after_head, 2) {
            Ok(p) => p,
            Err(e) => {
                return Err(e);
            },
        };
        (Some(tail[0]), after_tail)
    } else {
        // the block terminator alone
        let (_tail, after_tail) = match read_exact(bytes, after_head, 1) {
            Ok(p) => p,
            Err(e) => {
                return Err(e);
            },
        };
        (None, after_tail)
    };
    let extension = GraphicControlExtension {
        disposal_method: (flags >> 2) & 7,
        user_input: nth_bit(flags, 1),
        transparent_color: transparent,
        delay_time: u16_le(head[2], head[3]),
        transparent_color_index,
    };
    Ok((extension, end))
}

/// Classifies the metadata block at `cursor` (pointing at the introducer
/// byte) by its label: decodes a graphic-control body, or structurally
/// skips the length-prefixed sub-blocks of any other label.
pub fn decode(bytes: &Vec<u8>, cursor: usize) -> (r: Result<(Option<ExtensionBlock>, usize), Error>)
    ensures
        (match r {
            Ok(p) => spec_extension_block(bytes@, cursor as int) matches Ok(q) && q.1 == p.1 as int
                && (match p.0 {
                    Some(ExtensionBlock::GraphicControlExtension(g)) => q.0 == Some(g),
                    None => q.0 is None,
                }),
            Err(er) => spec_extension_block(bytes@, cursor as int) == Err::<
                (Option<GraphicControlExtension>, int),
                Error,
            >(er),
        }),
        r matches Ok(p) ==> cursor < p.1 <= bytes@.len(),
{
    if !has_bytes(bytes, cursor, 2) {
        return Err(Error::UnexpectedEndOfStream);
    }
    let buffer_len = bytes.len();
    assert(cursor + 2 <= buffer_len <= usize::MAX);
    let label = bytes[cursor + 1];
    if label == GRAPHIC_CONTROL_LABEL {
        match graphic_control_extension(bytes, cursor + 2) {
            Ok((extension, end)) => Ok(
                (Some(ExtensionBlock::GraphicControlExtension(extension)), end),
            ),
            Err(e) => Err(e),
        }
    } else {
        match skip_sub_blocks(bytes, cursor + 2) {
            Ok(end) => {
                proof {
                    lemma_skip_sub_blocks_bounds(bytes@, cursor + 2);
                }
                Ok((None, end))
            },
            Err(e) => Err(e),
        }
    }
}

} // verus!
