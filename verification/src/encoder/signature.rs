use crate::decoder::signature::{gif87a_bytes, gif89a_bytes};
use crate::encoder::{put_bytes, write_at};
use crate::error::Error;
use crate::types::is_accepted_signature;
use vstd::prelude::*;
use vstd::string::StrSliceExecFns;

verus! {

/// The six ASCII bytes a signature re-encodes to.
pub open spec fn spec_signature_bytes(s: Seq<char>) -> Seq<u8> {
    if s == "GIF89a"@ {
        gif89a_bytes()
    } else {
        gif87a_bytes()
    }
}

/// Decides which accepted version literal `s` is, if any.
fn signature_variant(s: &str) -> (r: Option<bool>)
    ensures
        (match r {
            Some(newer) => if newer {
                s@ == "GIF89a"@
            } else {
                s@ == "GIF87a"@
            },
            None => !is_accepted_signature(s@),
        }),
{
    proof {
        reveal_strlit("GIF89a");
        reveal_strlit("GIF87a");
    }
    let n = s.unicode_len();
    if n != 6 {
        return None;
    }
    let c0 = s.get_char(0);
    let c1 = s.get_char(1);
    let c2 = s.get_char(2);
    let c3 = s.get_char(3);
    let c4 = s.get_char(4);
    let c5 = s.get_char(5);
    if c0 == 'G' && c1 == 'I' && c2 == 'F' && c3 == '8' && c4 == '9' && c5 == 'a' {
        proof {
            assert(s@ =~= "GIF89a"@);
        }
        Some(true)
    } else if c0 == 'G' && c1 == 'I' && c2 == 'F' && c3 == '8' && c4 == '7' && c5 == 'a' {
        proof {
            assert(s@ =~= "GIF87a"@);
        }
        Some(false)
    } else {
        None
    }
}

/// Validates that a signature is one of the two accepted version
/// literals and writes its six ASCII bytes at `cursor`, or fails with
/// `InvalidSignature` leaving the buffer unchanged.
pub fn encode(bytes: &mut Vec<u8>, signature: &String, cursor: usize) -> (r: Result<usize, Error>)
    requires
        cursor <= old(bytes)@.len(),
        cursor + 6 <= usize::MAX,
    ensures
        r is Ok <==> is_accepted_signature(signature@),
        r matches Ok(c2) ==> final(bytes)@ == write_at(
            old(bytes)@,
            cursor as int,
            spec_signature_bytes(signature@),
        ) && c2 == cursor + 6,
        r matches Err(e) ==> e == Error::InvalidSignature && final(bytes)@ == old(bytes)@,
{
    proof {
        reveal_strlit("GIF89a");
        reveal_strlit("GIF87a");
    }
    let newer = match signature_variant(signature.as_str()) {
        Some(v) => v,
        None => {
            return Err(Error::InvalidSignature);
        },
    };
    let mut data: Vec<u8> = Vec::new();
    data.push(0x47);
    data.push(0x49);
    data.push(0x46);
    data.push(0x38);
    if newer {
        data.push(0x39);
    } else {
        data.push(0x37);
    }
    data.push(0x61);
    proof {
        if newer {
            assert(spec_signature_bytes(signature@) == gif89a_bytes());
            assert(data@ =~= gif89a_bytes());
        } else {
            assert("GIF87a"@[4] == '7' && "GIF89a"@[4] == '9');
            assert(signature@ != "GIF89a"@);
            assert(spec_signature_bytes(signature@) == gif87a_bytes());
            assert(data@ =~= gif87a_bytes());
        }
    }
    put_bytes(bytes, cursor, &data);
    Ok(cursor + 6)
}

} // verus!
