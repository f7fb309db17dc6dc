use crate::encoder::{put_bytes, write_at};
use crate::error::Error;
use crate::types::{ColorMap, Rgb};
use vstd::prelude::*;

verus! {

/// The bytes a palette table re-encodes to: consecutive RGB triples in
/// table order, index 0 first.
pub open spec fn spec_palette_bytes(t: Seq<Rgb>) -> Seq<u8>
    decreases t.len(),
{
    if t.len() == 0 {
        Seq::empty()
    } else {
        spec_palette_bytes(t.drop_last()) + seq![t.last().r, t.last().g, t.last().b]
    }
}

/// Writes a palette table's RGB triples at `cursor` if one is given, and
/// returns the cursor past them; with no table the buffer is unchanged
/// and the cursor does not advance.
pub fn encode(bytes: &mut Vec<u8>, color_map: Option<&ColorMap>, cursor: usize) -> (r: Result<
    usize,
    Error,
>)
    requires
        cursor <= old(bytes)@.len(),
        (match color_map {
            Some(t) => cursor + 3 * t@.len() <= usize::MAX,
            None => true,
        }),
    ensures
        (match color_map {
            Some(t) => r matches Ok(c2) && final(bytes)@ == write_at(
                old(bytes)@,
                cursor as int,
                spec_palette_bytes(t@),
            ) && c2 == cursor + 3 * t@.len(),
            None => r matches Ok(c2) && c2 == cursor && final(bytes)@ == old(bytes)@,
        }),
{
    let table = match color_map {
        Some(t) => t,
        None => {
            return Ok(cursor);
        },
    };
    let total = table.len();
    let mut data: Vec<u8> = Vec::new();
    let mut i: usize = 0;
    while i < total
        invariant
            total == table@.len(),
            cursor + 3 * total <= usize::MAX,
            i <= total,
            data@ == spec_palette_bytes(table@.take(i as int)),
            data@.len() == 3 * i,
        decreases total - i,
    {
        let entry = table[i];
        data.push(entry.r);
        data.push(entry.g);
        data.push(entry.b);
        i = i + 1;
        proof {
            let taken = table@.take(i as int);
            assert(taken.drop_last() =~= table@.take(i as int - 1));
            assert(taken.last() == table@[i as int - 1]);
            assert(data@ =~= spec_palette_bytes(taken.drop_last()) + seq![
                taken.last().r,
                taken.last().g,
                taken.last().b,
            ]);
        }
    }
    proof {
        assert(table@.take(total as int) =~= table@);
    }
    put_bytes(bytes, cursor, &data);
    Ok(cursor + 3 * total)
}

} // verus!
