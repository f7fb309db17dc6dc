pub mod color_map;
pub mod extension_block;
pub mod screen_descriptor;
pub mod signature;

use crate::encoder::extension_block::{encode_graphic_control_extension, spec_gce_bytes};
use crate::encoder::screen_descriptor::spec_screen_descriptor_bytes;
use crate::encoder::signature::spec_signature_bytes;
use crate::error::Error;
use crate::types::{is_accepted_signature, Frame, FrameModel, Gif};
use vstd::prelude::*;

verus! {

/// The buffer `b` with `w` written over the positions starting at `c`:
/// positions before `c` keep their bytes, the written span holds `w`, and
/// any bytes of `b` beyond the written span keep theirs.  The buffer grows
/// exactly as far as the written span requires.
pub open spec fn write_at(b: Seq<u8>, c: int, w: Seq<u8>) -> Seq<u8>
    recommends
        0 <= c <= b.len(),
{
    if c + w.len() >= b.len() {
        b.take(c) + w
    } else {
        b.take(c) + w + b.subrange(c + w.len(), b.len() as int)
    }
}

/// Writes `data` into the buffer at `cursor`, growing it as needed.
pub(crate) fn put_bytes(bytes: &mut Vec<u8>, cursor: usize, data: &Vec<u8>)
    requires
        cursor <= old(bytes)@.len(),
        cursor + data@.len() <= usize::MAX,
    ensures
        final(bytes)@ == write_at(old(bytes)@, cursor as int, data@),
{
    let n = data.len();
    let ghost initial = bytes@;
    while bytes.len() < cursor + n
        invariant
            cursor + n <= usize::MAX,
            initial.len() <= bytes@.len(),
            forall|k: int| 0 <= k < initial.len() ==> bytes@[k] == initial[k],
            bytes@.len() <= cursor + n || bytes@.len() == initial.len(),
        decreases cursor + n - bytes@.len(),
    {
        bytes.push(0);
    }
    let mut i: usize = 0;
    while i < n
        invariant
            cursor + n <= bytes@.len(),
            cursor + n <= usize::MAX,
            n == data@.len(),
            i <= n,
            bytes@.len() == if initial.len() >= cursor + n {
                initial.len() as int
            } else {
                cursor + n
            },
            forall|k: int| 0 <= k < cursor && k < initial.len() ==> bytes@[k] == initial[k],
            forall|k: int|
                cursor + n <= k < initial.len() && k < bytes@.len() ==> bytes@[k] == initial[k],
            forall|j: int| 0 <= j < i ==> bytes@[cursor + j] == data@[j],
        decreases n - i,
    {
        bytes.set(cursor + i, data[i]);
        i = i + 1;
    }
    proof {
        assert(bytes@ =~= write_at(initial, cursor as int, data@));
    }
}

/// The buffer and cursor after re-emitting one frame's metadata: its
/// graphic-control block when it carries one, nothing otherwise.
pub open spec fn spec_encode_frame(b: Seq<u8>, f: FrameModel, c: int) -> (Seq<u8>, int) {
    match f.graphic_control_extension {
        Some(g) => (write_at(b, c, spec_gce_bytes(g)), c + spec_gce_bytes(g).len()),
        None => (b, c),
    }
}

/// The buffer and cursor after re-emitting the metadata of a frame
/// sequence, first frame first.
pub open spec fn spec_encode_frames(b: Seq<u8>, fs: Seq<FrameModel>, c: int) -> (Seq<u8>, int)
    decreases fs.len(),
{
    if fs.len() == 0 {
        (b, c)
    } else {
        let (b1, c1) = spec_encode_frame(b, fs[0], c);
        spec_encode_frames(b1, fs.skip(1), c1)
    }
}

/// Re-emits one frame's graphic-control metadata block at `cursor`, if
/// the frame carries one, and returns the advanced cursor.
pub fn encode_frame(bytes: &mut Vec<u8>, frame: &Frame, cursor: usize) -> (r: Result<usize, Error>)
    requires
        cursor <= old(bytes)@.len(),
        cursor + 8 <= usize::MAX,
    ensures
        r matches Ok(c2) && ({
            let (b2, e2) = spec_encode_frame(old(bytes)@, frame@, cursor as int);
            final(bytes)@ == b2 && c2 as int == e2
        }),
{
    match &frame.graphic_control_extension {
        Some(extension) => {
            let end = encode_graphic_control_extension(bytes, extension, cursor);
            Ok(end)
        },
        None => Ok(cursor),
    }
}

/// Re-emits the metadata of every frame in order, threading the cursor.
pub fn encode_frames(bytes: &mut Vec<u8>, frames: &Vec<Frame>, cursor: usize) -> (r: Result<
    usize,
    Error,
>)
    requires
        cursor <= old(bytes)@.len(),
        cursor + 8 * frames@.len() <= usize::MAX,
    ensures
        r matches Ok(c2) && ({
            let (b2, e2) = spec_encode_frames(
                old(bytes)@,
                frames@.map_values(|f: Frame| f@),
                cursor as int,
            );
            final(bytes)@ == b2 && c2 as int == e2
        }),
{
    let ghost initial = bytes@;
    let ghost models = frames@.map_values(|f: Frame| f@);
    let mut c = cursor;
    let total = frames.len();
    let mut i: usize = 0;
    proof {
        assert(models.skip(0) =~= models);
    }
    while i < total
        invariant
            total == frames@.len(),
            models == frames@.map_values(|f: Frame| f@),
            i <= total,
            cursor <= c <= cursor + 8 * i,
            c <= bytes@.len(),
            cursor + 8 * total <= usize::MAX,
            spec_encode_frames(initial, models, cursor as int) == spec_encode_frames(
                bytes@,
                models.skip(i as int),
                c as int,
            ),
        decreases total - i,
    {
        let ghost before = bytes@;
        let ghost c_before = c as int;
        c = match encode_frame(bytes, &frames[i], c) {
            Ok(c2) => c2,
            Err(e) => {
                return Err(e);
            },
        };
        proof {
            assert(models.skip(i as int)[0] == models[i as int]);
            assert(models.skip(i as int).skip(1) =~= models.skip(i as int + 1));
            assert(spec_encode_frames(before, models.skip(i as int), c_before) == {
                let (b1, c1) = spec_encode_frame(before, models[i as int], c_before);
                spec_encode_frames(b1, models.skip(i as int + 1), c1)
            });
        }
        i = i + 1;
    }
    proof {
        assert(models.skip(total as int) =~= Seq::<FrameModel>::empty());
    }
    Ok(c)
}

/// Whether any frame of the document is interlaced.
pub open spec fn has_interlaced_frame(fs: Seq<FrameModel>) -> bool {
    exists|i: int| 0 <= i < fs.len() && (#[trigger] fs[i]).image_descriptor.i
}

/// Re-encodes a document's header: declines any document containing an
/// interlaced frame, validates the signature, and emits the signature
/// bytes followed by the screen descriptor bytes.
pub fn encode(gif: Gif) -> (r: Result<Vec<u8>, Error>)
    ensures
        has_interlaced_frame(gif@.frames) ==> r == Err::<Vec<u8>, Error>(
            Error::UnsupportedInterlacedFrame,
        ),
        !has_interlaced_frame(gif@.frames) && !is_accepted_signature(gif@.signature) ==> r
            == Err::<Vec<u8>, Error>(Error::InvalidSignature),
        !has_interlaced_frame(gif@.frames) && is_accepted_signature(gif@.signature) ==> (
        r matches Ok(v) && v@ == spec_signature_bytes(gif@.signature)
            + spec_screen_descriptor_bytes(gif@.screen_descriptor)),
{
    let frame_total = gif.frames.len();
    let mut i: usize = 0;
    while i < frame_total
        invariant
            frame_total == gif.frames@.len(),
            i <= frame_total,
            gif@.frames.len() == frame_total,
            forall|k: int| 0 <= k < i ==> !(#[trigger] gif@.frames[k]).image_descriptor.i,
        decreases frame_total - i,
    {
        if gif.frames[i].image_descriptor.i {
            assert(gif@.frames[i as int].image_descriptor.i);
            return Err(Error::UnsupportedInterlacedFrame);
        }
        i = i + 1;
    }
    let mut encoded: Vec<u8> = Vec::new();
    let after_signature = match signature::encode(&mut encoded, &gif.signature, 0) {
        Ok(c) => c,
        Err(e) => {
            return Err(e);
        },
    };
    match screen_descriptor::encode(&mut encoded, &gif.screen_descriptor, after_signature) {
        Ok(_) => {},
        Err(e) => {
            return Err(e);
        },
    };
    proof {
        let sig = spec_signature_bytes(gif@.signature);
        let sd = spec_screen_descriptor_bytes(gif@.screen_descriptor);
        assert(write_at(write_at(Seq::<u8>::empty(), 0, sig), 6, sd) =~= sig + sd);
    }
    Ok(encoded)
}

} // verus!
