use crate::bits::{color_table_entries, color_table_len};
use crate::cursor::read_exact;
use crate::error::Error;
use crate::types::{ColorMap, Rgb};
use vstd::prelude::*;

verus! {

/// The palette table of `n` entries stored at `c`: consecutive RGB byte
/// triples in table order, index 0 first.
pub open spec fn spec_palette(bytes: Seq<u8>, c: int, n: int) -> Seq<Rgb> {
    Seq::new(
        n as nat,
        |k: int| Rgb { r: bytes[c + 3 * k], g: bytes[c + 3 * k + 1], b: bytes[c + 3 * k + 2] },
    )
}

/// Decodes a palette table given its presence flag `m` and size exponent
/// `pixel`.  If absent, returns no table and does not advance the cursor.
/// If present, reads `2^(pixel+1)` RGB triples, failing with
/// `UnexpectedEndOfStream` if fewer bytes remain.
pub fn decode(bytes: &Vec<u8>, pixel: u8, m: bool, cursor: usize) -> (r: Result<
    (Option<ColorMap>, usize),
    Error,
>)
    requires
        pixel < 8,
    ensures
        !m ==> (r matches Ok(p) && p.0 is None && p.1 == cursor),
        m ==> (r is Ok <==> cursor + 3 * color_table_len(pixel) <= bytes@.len()),
        m && r is Ok ==> (r matches Ok(p) && p.0 matches Some(t) && t@ == spec_palette(
            bytes@,
            cursor as int,
            color_table_len(pixel) as int,
        ) && p.1 == cursor + 3 * color_table_len(pixel)),
        r matches Err(e) ==> e == Error::UnexpectedEndOfStream,
{
    if !m {
        return Ok((None, cursor));
    }
    let n = color_table_entries(pixel);
    let (win, end) = match read_exact(bytes, cursor, 3 * n) {
        Ok(p) => p,
        Err(e) => {
            return Err(e);
        },
    };
    let mut table: Vec<Rgb> = Vec::new();
    let mut k: usize = 0;
    while k < n
        invariant
            n == color_table_len(pixel),
            2 <= n <= 256,
            cursor + 3 * n <= bytes@.len(),
            win@.len() == 3 * n,
            win@ == bytes@.subrange(cursor as int, cursor + 3 * n),
            k <= n,
            table@ == spec_palette(bytes@, cursor as int, k as int),
        decreases n - k,
    {
        let entry = Rgb { r: win[3 * k], g: win[3 * k + 1], b: win[3 * k + 2] };
        table.push(entry);
        k = k + 1;
        proof {
            let p_new = spec_palette(bytes@, cursor as int, k as int);
            assert forall|j: int| 0 <= j < k implies table@[j] == p_new[j] by {
                if j < k as int - 1 {
                    assert(table@[j] == spec_palette(bytes@, cursor as int, k as int - 1)[j]);
                } else {
                    assert(win@[3 * j] == bytes@[cursor + 3 * j]);
                    assert(win@[3 * j + 1] == bytes@[cursor + 3 * j + 1]);
                    assert(win@[3 * j + 2] == bytes@[cursor + 3 * j + 2]);
                }
            }
            assert(table@ =~= p_new);
        }
    }
    Ok((Some(table), end))
}

} // verus!
