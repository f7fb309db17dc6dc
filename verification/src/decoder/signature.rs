use crate::cursor::read_exact;
use crate::error::Error;
use vstd::prelude::*;

verus! {

/// The six ASCII bytes of the newer accepted version literal.
pub open spec fn gif89a_bytes() -> Seq<u8> {
    seq![0x47u8, 0x49u8, 0x46u8, 0x38u8, 0x39u8, 0x61u8]
}

/// The six ASCII bytes of the older accepted version literal.
pub open spec fn gif87a_bytes() -> Seq<u8> {
    seq![0x47u8, 0x49u8, 0x46u8, 0x38u8, 0x37u8, 0x61u8]
}

/// What decoding the signature at `c` yields: the signature text and the
/// advanced cursor, or the error.  The six bytes must match one of the two
/// accepted version literals exactly.
pub open spec fn spec_signature(bytes: Seq<u8>, c: int) -> Result<(Seq<char>, int), Error> {
    if c + 6 > bytes.len() {
        Err(Error::UnexpectedEndOfStream)
    } else if bytes.subrange(c, c + 6) == gif89a_bytes() {
        Ok(("GIF89a"@, c + 6))
    } else if bytes.subrange(c, c + 6) == gif87a_bytes() {
        Ok(("GIF87a"@, c + 6))
    } else {
        Err(Error::InvalidSignature)
    }
}

/// Reads the 6-byte signature at `cursor` and interprets it as ASCII;
/// fails with `InvalidSignature` unless it matches one of the two accepted
/// version literals.
pub fn decode(bytes: &Vec<u8>, cursor: usize) -> (r: Result<(String, usize), Error>)
    ensures
        r is Ok <==> spec_signature(bytes@, cursor as int) is Ok,
        r matches Ok(p) ==> spec_signature(bytes@, cursor as int) matches Ok(q) && p.0@ == q.0
            && p.1 == q.1,
        r matches Err(e) ==> spec_signature(bytes@, cursor as int) == Err::<(Seq<char>, int),
            Error,
        >(e),
{
    let (win, end) = match read_exact(bytes, cursor, 6) {
        Ok(p) => p,
        Err(e) => {
            return Err(e);
        },
    };
    if win[0] == 0x47 && win[1] == 0x49 && win[2] == 0x46 && win[3] == 0x38 && win[4] == 0x39
        && win[5] == 0x61 {
        proof {
            assert(bytes@.subrange(cursor as int, cursor + 6) =~= gif89a_bytes());
        }
        Ok(("GIF89a".to_owned(), end))
    } else if win[0] == 0x47 && win[1] == 0x49 && win[2] == 0x46 && win[3] == 0x38 && win[4]
        == 0x37 && win[5] == 0x61 {
        proof {
            assert(bytes@.subrange(cursor as int, cursor + 6) =~= gif87a_bytes());
        }
        Ok(("GIF87a".to_owned(), end))
    } else {
        proof {
            let sub = bytes@.subrange(cursor as int, cursor + 6);
            assert(sub[0] == win@[0] && sub[1] == win@[1] && sub[2] == win@[2] && sub[3]
                == win@[3] && sub[4] == win@[4] && sub[5] == win@[5]);
            assert(sub != gif89a_bytes() && sub != gif87a_bytes());
        }
        Err(Error::InvalidSignature)
    }
}

} // verus!
