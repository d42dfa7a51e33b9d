//! Sizes of the buffers that the engine fills, and the checks made before it
//! is asked to fill one.
//!
//! The engine writes a fixed number of bytes through whatever address it is
//! given. Nothing here lets a write start unless the destination is known to
//! be long enough.

use vstd::prelude::*;
use crate::violation::Violation;

verus! {

/// How a screen dump lays out one pixel.
#[derive(Clone, Copy, Debug, PartialEq, Eq, Structural)]
pub enum PixelFormat {
    /// One byte per pixel, 0 black to 255 white.
    Grayscale,
    /// Three bytes per pixel: red, green, blue.
    Rgb,
}

impl PixelFormat {
    /// Bytes per pixel.
    pub open spec fn spec_channels(self) -> usize {
        match self {
            PixelFormat::Grayscale => 1,
            PixelFormat::Rgb => 3,
        }
    }

    /// Bytes per pixel.
    #[verifier::when_used_as_spec(spec_channels)]
    pub fn channels(self) -> (n: usize)
        ensures
            n == self.spec_channels(),
    {
        match self {
            PixelFormat::Grayscale => 1,
            PixelFormat::Rgb => 3,
        }
    }
}

/// The length that a size reported by the engine stands for. A negative
/// report stands for none: the engine broke its own contract.
pub open spec fn spec_required_size(reported: i32) -> Result<usize, Violation> {
    if reported >= 0 {
        Ok(reported as usize)
    } else {
        Err(Violation::InvalidSize { reported })
    }
}

/// Turns a size reported by the engine into a length.
pub fn required_size(reported: i32) -> (size: usize)
    requires
        reported >= 0,
    ensures
        size == reported,
        Ok::<usize, Violation>(size) == spec_required_size(reported),
{
    reported as usize
}

/// Turns a size reported by the engine into a length, or says that the report
/// was negative.
pub fn try_required_size(reported: i32) -> (size: Result<usize, Violation>)
    ensures
        size == spec_required_size(reported),
        size is Ok <==> reported >= 0,
{
    if reported >= 0 {
        Ok(required_size(reported))
    } else {
        Err(Violation::InvalidSize { reported })
    }
}

/// Bytes in a dump of a `width` by `height` screen.
pub open spec fn screen_bytes(width: nat, height: nat, format: PixelFormat) -> nat {
    width * height * format.spec_channels() as nat
}

/// Bytes in a dump of a `width` by `height` screen, where that count is a
/// length, and the violation where it is not.
pub open spec fn spec_required_screen_bytes(
    width: usize,
    height: usize,
    format: PixelFormat,
) -> Result<usize, Violation> {
    if screen_bytes(width as nat, height as nat, format) <= usize::MAX {
        Ok(screen_bytes(width as nat, height as nat, format) as usize)
    } else {
        Err(Violation::SizeOverflow)
    }
}

/// Counts the bytes in a dump of a `width` by `height` screen, or says that
/// the count is beyond every length.
pub fn try_required_screen_bytes(width: usize, height: usize, format: PixelFormat) -> (bytes:
    Result<usize, Violation>)
    ensures
        bytes == spec_required_screen_bytes(width, height, format),
{
    let channels: usize = format.channels();
    let pixels: Option<usize> = width.checked_mul(height);
    match pixels {
        None => {
            assert(width * height * channels >= width * height) by (nonlinear_arith)
                requires
                    channels >= 1,
            ;
            Err(Violation::SizeOverflow)
        },
        Some(p) => match p.checked_mul(channels) {
            None => Err(Violation::SizeOverflow),
            Some(n) => Ok(n),
        },
    }
}

/// Counts the bytes in a dump of a `width` by `height` screen.
pub fn required_screen_bytes(width: usize, height: usize, format: PixelFormat) -> (bytes: usize)
    requires
        screen_bytes(width as nat, height as nat, format) <= usize::MAX,
    ensures
        bytes == screen_bytes(width as nat, height as nat, format),
{
    assert(width * height <= width * height * format.spec_channels()) by (nonlinear_arith)
        requires
            format.spec_channels() >= 1,
    ;
    width * height * format.channels()
}

/// Whether `required_len` bytes may be written into a buffer of `buffer_len`
/// bytes, and the violation if they may not.
pub open spec fn spec_validate(buffer_len: usize, required_len: usize) -> Result<(), Violation> {
    if buffer_len >= required_len {
        Ok(())
    } else {
        Err(Violation::BufferTooSmall { required: required_len, got: buffer_len })
    }
}

/// Checks that a buffer of `buffer_len` bytes can take `required_len` bytes.
pub fn validate(buffer_len: usize, required_len: usize) -> (verdict: Result<(), Violation>)
    ensures
        verdict == spec_validate(buffer_len, required_len),
        verdict is Ok <==> buffer_len >= required_len,
{
    if buffer_len >= required_len {
        Ok(())
    } else {
        Err(Violation::BufferTooSmall { required: required_len, got: buffer_len })
    }
}

/// What a buffer holds once `data` has been written at its start.
pub open spec fn filled(before: Seq<u8>, data: Seq<u8>) -> Seq<u8> {
    data + before.subrange(data.len() as int, before.len() as int)
}

/// Writes `data` at the start of `buf`. Every byte of `data` is written, and
/// the bytes of `buf` behind it stay as they were.
pub fn fill(buf: &mut [u8], data: &[u8])
    requires
        data@.len() <= old(buf)@.len(),
    ensures
        final(buf)@ == filled(old(buf)@, data@),
        final(buf)@.len() == old(buf)@.len(),
        data@.len() == old(buf)@.len() ==> final(buf)@ == data@,
{
    let n: usize = data.len();
    let mut i: usize = 0;
    while i < n
        invariant
            n == data@.len(),
            n <= buf@.len(),
            i <= n,
            buf@.len() == old(buf)@.len(),
            forall|j: int| 0 <= j < i ==> buf@[j] == data@[j],
            forall|j: int| i <= j < buf@.len() ==> buf@[j] == old(buf)@[j],
        decreases n - i,
    {
        buf[i] = data[i];
        i += 1;
    }
    assert(buf@ =~= filled(old(buf)@, data@));
    assert(data@.len() == old(buf)@.len() ==> filled(old(buf)@, data@) =~= data@);
}

/// A write puts every byte of the data in place and leaves the bytes behind
/// it alone. Where the data is as long as the buffer, the buffer holds the
/// data and nothing else.
pub proof fn lemma_fill_writes_every_byte(before: Seq<u8>, data: Seq<u8>)
    requires
        data.len() <= before.len(),
    ensures
        filled(before, data).len() == before.len(),
        forall|i: int| 0 <= i < data.len() ==> filled(before, data)[i] == data[i],
        forall|i: int| data.len() <= i < before.len() ==> filled(before, data)[i] == before[i],
        data.len() == before.len() ==> filled(before, data) == data,
{
    if data.len() == before.len() {
        assert(filled(before, data) =~= data);
    }
}

/// A buffer of exactly the required length passes the check, and one that is
/// a byte shorter fails it.
pub proof fn lemma_validate_boundary(required_len: usize)
    ensures
        spec_validate(required_len, required_len) == Ok::<(), Violation>(()),
        required_len > 0 ==> spec_validate((required_len - 1) as usize, required_len) == Err::<
            (),
            Violation,
        >(Violation::BufferTooSmall { required: required_len, got: (required_len - 1) as usize }),
{
}

/// Where the pixel at column `x`, row `y` starts in a dump of a screen that
/// is `width` pixels wide.
pub open spec fn spec_pixel_offset(x: nat, y: nat, width: nat, format: PixelFormat) -> nat {
    (y * width + x) * format.spec_channels() as nat
}

/// A pixel of the screen lies wholly inside the dump.
pub proof fn lemma_pixel_in_bounds(x: nat, y: nat, width: nat, height: nat, format: PixelFormat)
    requires
        x < width,
        y < height,
    ensures
        spec_pixel_offset(x, y, width, format) + format.spec_channels() <= screen_bytes(
            width,
            height,
            format,
        ),
{
    let c: nat = format.spec_channels() as nat;
    assert((y * width + x + 1) * c <= (width * height) * c) by (nonlinear_arith)
        requires
            x < width,
            y < height,
    ;
    assert((y * width + x + 1) * c == (y * width + x) * c + c) by (nonlinear_arith);
}

/// Finds where the pixel at column `x`, row `y` starts in a screen dump.
pub fn pixel_offset(x: usize, y: usize, width: usize, height: usize, format: PixelFormat) -> (offset:
    usize)
    requires
        x < width,
        y < height,
        screen_bytes(width as nat, height as nat, format) <= usize::MAX,
    ensures
        offset == spec_pixel_offset(x as nat, y as nat, width as nat, format),
        offset + format.spec_channels() <= screen_bytes(width as nat, height as nat, format),
{
    proof {
        lemma_pixel_in_bounds(x as nat, y as nat, width as nat, height as nat, format);
        let c: nat = format.spec_channels() as nat;
        assert(y * width + x <= (y * width + x) * c) by (nonlinear_arith)
            requires
                c >= 1,
        ;
        assert(y * width <= y * width + x);
    }
    (y * width + x) * format.channels()
}

} // verus!
