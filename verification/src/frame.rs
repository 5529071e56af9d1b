//! Captured frames and what an encoder needs of them: pixels in its channel
//! order, a timestamp for each frame, and a flat binary dump.

use vstd::prelude::*;

verus! {

/// One captured frame: the packed pixels as the capture source gave them,
/// four bytes a pixel in the order blue, green, red, alpha, and the time
/// since the frame before it, in nanoseconds.
#[derive(Debug)]
pub struct ClipFrame {
    pub frame: Vec<u8>,
    pub delay: u64,
}

impl Clone for ClipFrame {
    /// A full copy: the same bytes and the same delay.
    fn clone(&self) -> (copy: Self)
        ensures
            copy.frame@ == self.frame@,
            copy.delay == self.delay,
    {
        let frame = self.frame.clone();
        assert(frame@ =~= self.frame@);
        ClipFrame { frame, delay: self.delay }
    }
}

/// One pixel in the encoder's channel order.
#[derive(Debug, Clone, Copy, PartialEq, Eq, Structural)]
pub struct Pixel {
    pub r: u8,
    pub g: u8,
    pub b: u8,
    pub a: u8,
}

/// The pixels of a packed blue-green-red-alpha buffer, in red-green-blue-alpha
/// order. Bytes after the last whole pixel are left out.
pub open spec fn rgba_pixels(frame: Seq<u8>) -> Seq<Pixel> {
    Seq::new(
        (frame.len() / 4) as nat,
        |i: int| Pixel { r: frame[4 * i + 2], g: frame[4 * i + 1], b: frame[4 * i], a: frame[4 * i + 3] },
    )
}

/// What each frame holds as plain values: its bytes and its delay.
pub open spec fn frame_values(frames: Seq<ClipFrame>) -> Seq<(Seq<u8>, u64)> {
    Seq::new(frames.len(), |i: int| (frames[i].frame@, frames[i].delay))
}

/// The delay of each frame, in order.
pub open spec fn delays_of(frames: Seq<ClipFrame>) -> Seq<u64> {
    Seq::new(frames.len(), |i: int| frames[i].delay)
}

/// The time of frame `i` on the clip's own clock: the first frame is at 0,
/// and each later frame follows the one before it by its own delay.
pub open spec fn timestamp_at(delays: Seq<u64>, i: int) -> int
    decreases i,
{
    if i <= 0 {
        0
    } else {
        timestamp_at(delays, i - 1) + delays[i]
    }
}

/// The `width` low bytes of `value`, most significant first.
pub open spec fn be_bytes(value: nat, width: nat) -> Seq<u8>
    decreases width,
{
    if width == 0 {
        Seq::empty()
    } else {
        be_bytes(value / 256, (width - 1) as nat).push((value % 256) as u8)
    }
}

/// The number of bytes that the first `count` frames take in a dump.
pub open spec fn dump_size(frames: Seq<ClipFrame>, count: int) -> nat
    decreases count,
{
    if count <= 0 {
        0
    } else {
        dump_size(frames, count - 1) + 8 + frames[count - 1].frame@.len()
    }
}

/// The first `count` frames of a dump: for each the eight bytes of its
/// timestamp as they were handed in, then its pixels as they are.
pub open spec fn binary_frames(frames: Seq<ClipFrame>, stamps: Seq<[u8; 8]>, count: int) -> Seq<
    u8,
>
    decreases count,
{
    if count <= 0 {
        Seq::empty()
    } else {
        binary_frames(frames, stamps, count - 1) + stamps[count - 1]@ + frames[count - 1].frame@
    }
}

/// A whole dump: width and height in eight bytes each, most significant
/// first, then the frames.
pub open spec fn binary_layout(
    frames: Seq<ClipFrame>,
    stamps: Seq<[u8; 8]>,
    dimensions: (usize, usize),
) -> Seq<u8> {
    be_bytes(dimensions.0 as nat, 8) + be_bytes(dimensions.1 as nat, 8) + binary_frames(
        frames,
        stamps,
        frames.len() as int,
    )
}

/// Timestamps never go backwards, and stay within what sixteen bytes count.
pub proof fn lemma_timestamps_increase(delays: Seq<u64>, i: int, j: int)
    requires
        0 <= i <= j < delays.len(),
    ensures
        timestamp_at(delays, 0) == 0,
        0 <= timestamp_at(delays, i) <= timestamp_at(delays, j) <= j * u64::MAX,
        (forall|k: int| i < k <= j ==> delays[k] > 0) && i < j ==> timestamp_at(delays, i)
            < timestamp_at(delays, j),
    decreases j,
{
    if j > 0 {
        if i < j {
            lemma_timestamps_increase(delays, i, j - 1);
        } else {
            lemma_timestamps_increase(delays, j - 1, j - 1);
        }
        assert((j - 1) * u64::MAX + u64::MAX == j * u64::MAX) by (nonlinear_arith);
    }
}

/// The big-endian bytes of a 16-bit number.
pub fn u16_to_bytes(data: u16) -> (bytes: [u8; 2])
    ensures
        bytes@ == be_bytes(data as nat, 2),
        bytes@ == seq![(data / 256) as u8, (data % 256) as u8],
{
    let bytes: [u8; 2] = [(data / 256) as u8, (data % 256) as u8];
    proof {
        reveal_with_fuel(be_bytes, 3);
        assert(bytes@ =~= be_bytes(data as nat, 2));
        assert(bytes@ =~= seq![(data / 256) as u8, (data % 256) as u8]);
    }
    bytes
}

/// The big-endian bytes of a 64-bit number.
pub fn u64_to_bytes(data: u64) -> (bytes: [u8; 8])
    ensures
        bytes@ == be_bytes(data as nat, 8),
{
    let d1: u64 = data / 256;
    let d2: u64 = d1 / 256;
    let d3: u64 = d2 / 256;
    let d4: u64 = d3 / 256;
    let d5: u64 = d4 / 256;
    let d6: u64 = d5 / 256;
    let d7: u64 = d6 / 256;
    let bytes: [u8; 8] = [
        (d7 % 256) as u8,
        (d6 % 256) as u8,
        (d5 % 256) as u8,
        (d4 % 256) as u8,
        (d3 % 256) as u8,
        (d2 % 256) as u8,
        (d1 % 256) as u8,
        (data % 256) as u8,
    ];
    proof {
        reveal_with_fuel(be_bytes, 9);
        assert(bytes@ =~= be_bytes(data as nat, 8));
    }
    bytes
}

/// Reorders a packed blue-green-red-alpha buffer into pixels.
pub fn frame_to_pixels(frame: &Vec<u8>) -> (pixels: Vec<Pixel>)
    requires
        frame@.len() % 4 == 0,
    ensures
        pixels@ == rgba_pixels(frame@),
{
    let count: usize = frame.len() / 4;
    let mut pixels: Vec<Pixel> = Vec::new();
    let mut n: usize = 0;
    while n < count
        invariant
            frame@.len() == 4 * count,
            4 * count <= usize::MAX,
            n <= count,
            pixels@.len() == n,
            forall|k: int|
                0 <= k < n ==> #[trigger] pixels@[k] == (Pixel {
                    r: frame@[4 * k + 2],
                    g: frame@[4 * k + 1],
                    b: frame@[4 * k],
                    a: frame@[4 * k + 3],
                }),
        decreases count - n,
    {
        let i: usize = 4 * n;
        pixels.push(Pixel { r: frame[i + 2], g: frame[i + 1], b: frame[i], a: frame[i + 3] });
        n += 1;
    }
    assert(pixels@ =~= rgba_pixels(frame@));
    pixels
}

/// The timestamp of each frame, in nanoseconds from the first.
pub fn frame_timestamps(frames: &Vec<ClipFrame>) -> (stamps: Vec<u128>)
    ensures
        stamps@.len() == frames@.len(),
        forall|i: int|
            0 <= i < frames@.len() ==> #[trigger] stamps@[i] == timestamp_at(delays_of(frames@), i),
{
    let mut stamps: Vec<u128> = Vec::new();
    let mut timestamp: u128 = 0;
    let mut i: usize = 0;
    while i < frames.len()
        invariant
            i <= frames@.len(),
            stamps@.len() == i,
            i > 0 ==> timestamp == timestamp_at(delays_of(frames@), i - 1),
            i == 0 ==> timestamp == 0,
            forall|k: int| 0 <= k < i ==> #[trigger] stamps@[k] == timestamp_at(delays_of(frames@), k),
        decreases frames@.len() - i,
    {
        if i != 0 {
            proof {
                lemma_timestamps_increase(delays_of(frames@), i as int, i as int);
                lemma_timestamps_increase(delays_of(frames@), i - 1, i - 1);
                assert(i * u64::MAX <= usize::MAX * u64::MAX) by (nonlinear_arith)
                    requires
                        i <= usize::MAX,
                ;
            }
            timestamp = timestamp + frames[i].delay as u128;
        }
        stamps.push(timestamp);
        i += 1;
    }
    stamps
}

/// `std::io::Error`, the error that a dump is typed with; none is ever made.
#[verifier::external_type_specification]
#[verifier::external_body]
pub struct ExIoError(std::io::Error);

/// The flat dump of a snapshot: width and height, then for each frame the
/// eight bytes of its timestamp and its pixels. The timestamps are seconds
/// as floating-point numbers, which this library does not hold: the caller
/// hands in the bytes of each, one for every frame.
pub fn frames_to_binary(
    frames: Vec<ClipFrame>,
    stamps: Vec<[u8; 8]>,
    dimensions: (usize, usize),
) -> (dump: Result<Vec<u8>, std::io::Error>)
    requires
        stamps@.len() == frames@.len(),
    ensures
        dump matches Ok(bytes) && bytes@ == binary_layout(frames@, stamps@, dimensions),
{
    let count: usize = frames.len();
    let mut buffer: Vec<u8> = Vec::new();
    let width = u64_to_bytes(dimensions.0 as u64);
    let height = u64_to_bytes(dimensions.1 as u64);
    buffer.extend_from_slice(width.as_slice());
    buffer.extend_from_slice(height.as_slice());
    assert(buffer@ =~= be_bytes(dimensions.0 as nat, 8) + be_bytes(dimensions.1 as nat, 8));
    let mut i: usize = 0;
    while i < count
        invariant
            count == frames@.len(),
            stamps@.len() == count,
            i <= count,
            buffer@ == be_bytes(dimensions.0 as nat, 8) + be_bytes(dimensions.1 as nat, 8)
                + binary_frames(frames@, stamps@, i as int),
        decreases count - i,
    {
        let ghost before = buffer@;
        buffer.extend_from_slice(stamps[i].as_slice());
        buffer.extend_from_slice(frames[i].frame.as_slice());
        assert(buffer@ =~= before + stamps@[i as int]@ + frames@[i as int].frame@);
        assert(buffer@ =~= be_bytes(dimensions.0 as nat, 8) + be_bytes(dimensions.1 as nat, 8)
            + binary_frames(frames@, stamps@, i + 1));
        i += 1;
    }
    Ok(buffer)
}

/// `width` bytes are `width` bytes.
pub proof fn lemma_be_bytes_length(value: nat, width: nat)
    ensures
        be_bytes(value, width).len() == width,
    decreases width,
{
    if width > 0 {
        lemma_be_bytes_length(value / 256, (width - 1) as nat);
    }
}

/// A dump starts with the width and the height, eight bytes each, and
/// takes eight bytes more than its pixels for each frame.
pub proof fn lemma_dump_shape(
    frames: Seq<ClipFrame>,
    stamps: Seq<[u8; 8]>,
    dimensions: (usize, usize),
)
    requires
        stamps.len() == frames.len(),
    ensures
        binary_layout(frames, stamps, dimensions).len() == 16 + dump_size(
            frames,
            frames.len() as int,
        ),
        binary_layout(frames, stamps, dimensions).subrange(0, 8) == be_bytes(
            dimensions.0 as nat,
            8,
        ),
        binary_layout(frames, stamps, dimensions).subrange(8, 16) == be_bytes(
            dimensions.1 as nat,
            8,
        ),
{
    lemma_be_bytes_length(dimensions.0 as nat, 8);
    lemma_be_bytes_length(dimensions.1 as nat, 8);
    lemma_frames_length(frames, stamps, frames.len() as int);
    assert(binary_layout(frames, stamps, dimensions).subrange(0, 8) =~= be_bytes(
        dimensions.0 as nat,
        8,
    ));
    assert(binary_layout(frames, stamps, dimensions).subrange(8, 16) =~= be_bytes(
        dimensions.1 as nat,
        8,
    ));
}

proof fn lemma_frames_length(frames: Seq<ClipFrame>, stamps: Seq<[u8; 8]>, count: int)
    requires
        0 <= count <= frames.len(),
        stamps.len() == frames.len(),
    ensures
        binary_frames(frames, stamps, count).len() == dump_size(frames, count),
    decreases count,
{
    if count > 0 {
        lemma_frames_length(frames, stamps, count - 1);
        assert(stamps[count - 1]@.len() == 8);
    }
}

/// `imgref::Img`, an image over a container of pixels; nothing is known of
/// what is inside a value but through `image_pixels` and `image_dimensions`.
#[verifier::external_type_specification]
#[verifier::external_body]
#[verifier::reject_recursive_types(Container)]
pub struct ExImg<Container>(imgref::Img<Container>);

/// `rgb::Rgba`, a pixel of four channels; only carried through.
#[verifier::external_type_specification]
#[verifier::external_body]
#[verifier::reject_recursive_types(T)]
#[verifier::reject_recursive_types(A)]
pub struct ExRgba<T, A>(rgb::Rgba<T, A>);

/// The pixels that an image holds, row by row from the top left.
pub uninterp spec fn image_pixels(image: imgref::Img<Vec<rgb::Rgba<u8, u8>>>) -> Seq<Pixel>;

/// The width and height that an image was made with, in pixels.
pub uninterp spec fn image_dimensions(image: imgref::Img<Vec<rgb::Rgba<u8, u8>>>) -> (usize, usize);

/// Calls `imgref::Img::new` on the pixels, each turned into an `rgb::RGBA8`
/// with the same four channels. Trusted: the image holds those pixels in
/// that order, with the width and height given. `Img::new` takes the buffer
/// as it is and does not look at its length; it panics on a width of zero
/// and on a width or height beyond 32 bits, which `requires` leaves out.
#[verifier::external_body]
fn image_from_pixels(pixels: Vec<Pixel>, width: usize, height: usize) -> (image: imgref::Img<
    Vec<rgb::Rgba<u8, u8>>,
>)
    requires
        0 < width <= u32::MAX,
        height <= u32::MAX,
    ensures
        image_pixels(image) == pixels@,
        image_dimensions(image) == (width, height),
{
    let buf: Vec<rgb::Rgba<u8, u8>> = pixels
        .into_iter()
        .map(|p| rgb::Rgba { r: p.r, g: p.g, b: p.b, a: p.a })
        .collect();
    imgref::Img::new(buf, width, height)
}

/// Whether an image of these dimensions can be made.
pub open spec fn image_can_be_made(frame: Seq<u8>, dimensions: (usize, usize)) -> bool {
    &&& frame.len() % 4 == 0
    &&& 0 < dimensions.0 <= u32::MAX
    &&& dimensions.1 <= u32::MAX
}

/// The image that the encoder takes: the pixels of `frame` in its channel
/// order, with the given width and height.
pub fn frame_to_imgvec(frame: &Vec<u8>, dimensions: (usize, usize)) -> (image: imgref::Img<
    Vec<rgb::Rgba<u8, u8>>,
>)
    requires
        image_can_be_made(frame@, dimensions),
    ensures
        image_pixels(image) == rgba_pixels(frame@),
        image_dimensions(image) == dimensions,
{
    let pixels = frame_to_pixels(frame);
    image_from_pixels(pixels, dimensions.0, dimensions.1)
}

/// Tests whether an image of these dimensions can be made of `frame`.
pub fn can_make_image(frame: &Vec<u8>, dimensions: (usize, usize)) -> (possible: bool)
    ensures
        possible == image_can_be_made(frame@, dimensions),
{
    frame.len() % 4 == 0 && 0 < dimensions.0 && dimensions.0 <= 0xffff_ffff && dimensions.1
        <= 0xffff_ffff
}

/// Whether `frame` holds the pixels of an image of these dimensions, four
/// bytes for each and none beyond, and such an image can be made.
pub open spec fn frame_is_whole(frame: Seq<u8>, dimensions: (usize, usize)) -> bool {
    &&& frame.len() == dimensions.0 * dimensions.1 * 4
    &&& 0 < dimensions.0 <= u32::MAX
    &&& dimensions.1 <= u32::MAX
}

/// Tests whether `frame` holds exactly the pixels of an image of these
/// dimensions.
pub fn is_whole_frame(frame: &Vec<u8>, dimensions: (usize, usize)) -> (whole: bool)
    ensures
        whole == frame_is_whole(frame@, dimensions),
{
    if dimensions.0 == 0 || dimensions.0 > 0xffff_ffff || dimensions.1 > 0xffff_ffff {
        return false;
    }
    assert(dimensions.0 * dimensions.1 * 4 <= 0xffff_ffff * 0xffff_ffff * 4) by (nonlinear_arith)
        requires
            0 <= dimensions.0 <= 0xffff_ffff,
            0 <= dimensions.1 <= 0xffff_ffff,
    ;
    let width: u128 = dimensions.0 as u128;
    let height: u128 = dimensions.1 as u128;
    assert(width * height <= 0xffff_ffff * 0xffff_ffff) by (nonlinear_arith)
        requires
            0 <= width <= 0xffff_ffff,
            0 <= height <= 0xffff_ffff,
    ;
    let needed: u128 = width * height * 4;
    frame.len() as u128 == needed
}

/// Of a whole frame an image can be made, and it has one pixel for every
/// place of the image.
pub proof fn lemma_whole_frame_makes_image(frame: Seq<u8>, dimensions: (usize, usize))
    requires
        frame_is_whole(frame, dimensions),
    ensures
        image_can_be_made(frame, dimensions),
        rgba_pixels(frame).len() == dimensions.0 * dimensions.1,
{
}

} // verus!
