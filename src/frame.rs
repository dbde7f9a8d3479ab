//! The frame model of an animated container and the pixel-format steps
//! around a transform: RGB or RGBA in, packed RGBA to the GPU, RGB back out.

use vstd::prelude::*;
use vstd::string::StringExecFns;

use crate::error::GpuWorkerError;

verus! {

/// How a renderer treats a frame's pixels before drawing the next frame.
#[derive(Debug, Clone, Copy, PartialEq, Eq, Structural)]
pub enum DisposalMethod {
    /// No disposal is asked for.
    Any,
    /// Leave the frame in place.
    Keep,
    /// Restore the frame's area to the background.
    Background,
    /// Restore the frame's area to what was there before it.
    Previous,
}

/// One frame: a pixel buffer with its size and the attributes that the
/// container keeps per frame.
#[derive(Debug, Clone)]
pub struct Frame {
    /// Delay before the next frame, in hundredths of a second.
    pub delay: u16,
    pub dispose: DisposalMethod,
    /// Palette index that is drawn transparent, if any.
    pub transparent: Option<u8>,
    pub needs_user_input: bool,
    pub top: u16,
    pub left: u16,
    pub width: u16,
    pub height: u16,
    pub interlaced: bool,
    /// The pixels: RGBA after decoding, RGB when handed to the encoder.
    pub buffer: Vec<u8>,
}

/// A frame as a value: its attributes and its pixels.
pub struct FrameView {
    pub delay: u16,
    pub dispose: DisposalMethod,
    pub transparent: Option<u8>,
    pub needs_user_input: bool,
    pub top: u16,
    pub left: u16,
    pub width: u16,
    pub height: u16,
    pub interlaced: bool,
    pub buffer: Seq<u8>,
}

impl View for Frame {
    type V = FrameView;

    open spec fn view(&self) -> FrameView {
        FrameView {
            delay: self.delay,
            dispose: self.dispose,
            transparent: self.transparent,
            needs_user_input: self.needs_user_input,
            top: self.top,
            left: self.left,
            width: self.width,
            height: self.height,
            interlaced: self.interlaced,
            buffer: self.buffer@,
        }
    }
}

/// The views of a sequence of frames.
pub open spec fn frame_views(frames: Seq<Frame>) -> Seq<FrameView> {
    frames.map_values(|f: Frame| f@)
}

impl Frame {
    /// `other` keeps every attribute of `self` but its size and pixels.
    pub open spec fn same_attributes(&self, other: &Frame) -> bool {
        &&& other.delay == self.delay
        &&& other.dispose == self.dispose
        &&& other.transparent == self.transparent
        &&& other.needs_user_input == self.needs_user_input
        &&& other.top == self.top
        &&& other.left == self.left
        &&& other.interlaced == self.interlaced
    }
}

impl Default for Frame {
    /// An empty frame at the origin that asks to be kept, shown at once.
    fn default() -> (r: Frame)
        ensures
            r.delay == 0,
            r.dispose == DisposalMethod::Keep,
            r.transparent is None,
            !r.needs_user_input,
            r.top == 0 && r.left == 0,
            r.width == 0 && r.height == 0,
            !r.interlaced,
            r.buffer@.len() == 0,
    {
        Frame {
            delay: 0,
            dispose: DisposalMethod::Keep,
            transparent: None,
            needs_user_input: false,
            top: 0,
            left: 0,
            width: 0,
            height: 0,
            interlaced: false,
            buffer: Vec::new(),
        }
    }
}

/// The frames of one container, in order, with the canvas size they share.
#[derive(Debug, Clone)]
pub struct FrameSequence {
    pub width: u16,
    pub height: u16,
    pub frames: Vec<Frame>,
}

/// RGB triplets expanded to RGBA: each triplet is followed by an opaque
/// alpha byte.
pub open spec fn rgb_to_rgba(rgb: Seq<u8>) -> Seq<u8> {
    Seq::new(
        (rgb.len() / 3 * 4) as nat,
        |i: int|
            if i % 4 == 3 {
                255u8
            } else {
                rgb[(i / 4) * 3 + i % 4]
            },
    )
}

/// RGBA quadruples reduced to RGB: the alpha byte of each is dropped.
pub open spec fn rgba_to_rgb(rgba: Seq<u8>) -> Seq<u8> {
    Seq::new((rgba.len() / 4 * 3) as nat, |i: int| rgba[(i / 3) * 4 + i % 3])
}

/// What normalising a frame's pixels for a `width` x `height` canvas gives:
/// RGBA pixels pass through, RGB pixels get an opaque alpha byte, and any
/// other length is refused.
pub open spec fn normalized(buffer: Seq<u8>, width: int, height: int) -> Option<Seq<u8>> {
    if buffer.len() == 4 * width * height {
        Some(buffer)
    } else if buffer.len() == 3 * width * height {
        Some(rgb_to_rgba(buffer))
    } else {
        None
    }
}

/// Expanding RGB to RGBA keeps every pixel's channels in order and makes
/// every pixel opaque.
pub proof fn lemma_rgb_to_rgba_pixels(rgb: Seq<u8>)
    requires
        rgb.len() % 3 == 0,
    ensures
        rgb_to_rgba(rgb).len() == rgb.len() / 3 * 4,
        forall|p: int, c: int|
            0 <= p < rgb.len() / 3 && 0 <= c < 3 ==> #[trigger] rgb_to_rgba(rgb)[p * 4 + c]
                == rgb[p * 3 + c],
        forall|p: int| 0 <= p < rgb.len() / 3 ==> #[trigger] rgb_to_rgba(rgb)[p * 4 + 3] == 255,
{
    let out = rgb_to_rgba(rgb);
    assert forall|p: int, c: int| 0 <= p < rgb.len() / 3 && 0 <= c < 4 implies #[trigger] out[p
        * 4 + c] == if c == 3 {
        255u8
    } else {
        rgb[p * 3 + c]
    } by {
        assert((p * 4 + c) / 4 == p && (p * 4 + c) % 4 == c) by (nonlinear_arith)
            requires
                0 <= c < 4,
        ;
        assert(p * 4 + c < rgb.len() / 3 * 4) by (nonlinear_arith)
            requires
                0 <= p < rgb.len() / 3,
                0 <= c < 4,
        ;
    }
    assert forall|p: int| 0 <= p < rgb.len() / 3 implies #[trigger] out[p * 4 + 3] == 255 by {
        assert(out[p * 4 + 3] == 255u8);
    }
}

/// Dropping the alpha bytes that normalisation added gives the RGB pixels
/// back unchanged.
pub proof fn lemma_rgb_round_trip(rgb: Seq<u8>)
    requires
        rgb.len() % 3 == 0,
    ensures
        rgba_to_rgb(rgb_to_rgba(rgb)) == rgb,
{
    let rgba = rgb_to_rgba(rgb);
    let back = rgba_to_rgb(rgba);
    assert(rgba.len() / 4 * 3 == rgb.len()) by (nonlinear_arith)
        requires
            rgba.len() == rgb.len() / 3 * 4,
            rgb.len() % 3 == 0,
    ;
    assert forall|i: int| 0 <= i < back.len() implies back[i] == rgb[i] by {
        let p = i / 3;
        let c = i % 3;
        assert(p * 3 + c == i && 0 <= c < 3 && 0 <= p) by (nonlinear_arith)
            requires
                p == i / 3,
                c == i % 3,
                0 <= i,
        ;
        assert((p * 4 + c) / 4 == p && (p * 4 + c) % 4 == c && p * 4 + c < rgba.len()) by (
        nonlinear_arith)
            requires
                0 <= c < 3,
                0 <= p,
                p * 3 + c < rgb.len(),
                rgba.len() == rgb.len() / 3 * 4,
                rgb.len() % 3 == 0,
        ;
    }
    assert(back =~= rgb);
}

/// Relies on Vec::len, and on std's guarantee that a `Vec` never holds
/// more than `isize::MAX` bytes.
#[verifier::external_body]
fn byte_len(v: &Vec<u8>) -> (r: usize)
    ensures
        r == v@.len(),
        r <= isize::MAX,
{
    v.len()
}

fn expand_rgb(rgb: &Vec<u8>) -> (r: Vec<u8>)
    requires
        rgb@.len() % 3 == 0,
        rgb@.len() / 3 * 4 <= usize::MAX,
    ensures
        r@ == rgb_to_rgba(rgb@),
{
    let len: usize = rgb.len();
    let pixels: usize = len / 3;
    let mut out: Vec<u8> = Vec::new();
    let mut p: usize = 0;
    while p < pixels
        invariant
            rgb@.len() <= usize::MAX,
            pixels == rgb@.len() / 3,
            rgb@.len() % 3 == 0,
            p <= pixels,
            out@.len() == 4 * p,
            forall|i: int| 0 <= i < out@.len() ==> out@[i] == rgb_to_rgba(rgb@)[i],
        decreases pixels - p,
    {
        assert(3 * p + 3 <= rgb@.len()) by (nonlinear_arith)
            requires
                p < pixels,
                pixels == rgb@.len() / 3,
                rgb@.len() % 3 == 0,
        ;
        let base: usize = 3 * p;
        out.push(rgb[base]);
        out.push(rgb[base + 1]);
        out.push(rgb[base + 2]);
        out.push(255);
        assert forall|i: int| 0 <= i < out@.len() implies out@[i] == rgb_to_rgba(rgb@)[i] by {
            if i >= 4 * p {
                let c = i - 4 * p;
                assert(i / 4 == p && i % 4 == c) by (nonlinear_arith)
                    requires
                        i == 4 * p + c,
                        0 <= c < 4,
                ;
                assert(i < rgb@.len() / 3 * 4);
            }
        }
        p = p + 1;
    }
    assert(out@ =~= rgb_to_rgba(rgb@));
    out
}

/// Brings a frame's pixels to packed RGBA for a `width` x `height` canvas.
/// A buffer of `4 * width * height` bytes is returned as it is; one of
/// `3 * width * height` bytes gets an opaque alpha byte after each RGB
/// triplet. Any other length fails with `InvalidFrameSize`, whatever the
/// bytes.
pub fn normalize_frame_to_rgba(frame: &Frame, width: u32, height: u32) -> (r: Result<
    Vec<u8>,
    GpuWorkerError,
>)
    ensures
        r is Ok <==> normalized(frame.buffer@, width as int, height as int) is Some,
        r matches Ok(rgba) ==> Some(rgba@) == normalized(
            frame.buffer@,
            width as int,
            height as int,
        ) && rgba@.len() == 4 * width * height,
        r matches Err(e) ==> e is InvalidFrameSize,
{
    assert(width as int * height as int * 4 <= u128::MAX) by (nonlinear_arith)
        requires
            width <= u32::MAX,
            height <= u32::MAX,
    ;
    let pixels: u128 = width as u128 * height as u128;
    let len: usize = byte_len(&frame.buffer);
    assert(4 * pixels == 4 * width * height && 3 * pixels == 3 * width * height) by (
    nonlinear_arith)
        requires
            pixels == width as int * height as int,
    ;
    if len as u128 == 4 * pixels {
        let rgba = frame.buffer.clone();
        assert(rgba@ =~= frame.buffer@);
        Ok(rgba)
    } else if len as u128 == 3 * pixels {
        assert(len / 3 * 4 == 4 * width * height) by (nonlinear_arith)
            requires
                len == 3 * pixels,
                pixels == width as int * height as int,
        ;
        assert(len / 3 * 4 <= usize::MAX) by (nonlinear_arith)
            requires
                len <= isize::MAX,
                isize::MAX < usize::MAX / 2 + 1,
        ;
        Ok(expand_rgb(&frame.buffer))
    } else {
        Err(GpuWorkerError::InvalidFrameSize(String::from_str("Unexpected frame buffer size")))
    }
}

fn drop_alpha(rgba: &[u8]) -> (r: Vec<u8>)
    requires
        rgba@.len() % 4 == 0,
    ensures
        r@ == rgba_to_rgb(rgba@),
{
    let len: usize = rgba.len();
    let pixels: usize = len / 4;
    let mut out: Vec<u8> = Vec::new();
    let mut p: usize = 0;
    while p < pixels
        invariant
            rgba@.len() <= usize::MAX,
            pixels == rgba@.len() / 4,
            rgba@.len() % 4 == 0,
            p <= pixels,
            out@.len() == 3 * p,
            forall|i: int| 0 <= i < out@.len() ==> out@[i] == rgba_to_rgb(rgba@)[i],
        decreases pixels - p,
    {
        assert(4 * p + 4 <= rgba@.len()) by (nonlinear_arith)
            requires
                p < pixels,
                pixels == rgba@.len() / 4,
                rgba@.len() % 4 == 0,
        ;
        let base: usize = 4 * p;
        out.push(rgba[base]);
        out.push(rgba[base + 1]);
        out.push(rgba[base + 2]);
        assert forall|i: int| 0 <= i < out@.len() implies out@[i] == rgba_to_rgb(rgba@)[i] by {
            if i >= 3 * p {
                let c = i - 3 * p;
                assert(i / 3 == p && i % 3 == c) by (nonlinear_arith)
                    requires
                        i == 3 * p + c,
                        0 <= c < 3,
                ;
                assert(i < rgba@.len() / 4 * 3);
            }
        }
        p = p + 1;
    }
    assert(out@ =~= rgba_to_rgb(rgba@));
    out
}

/// Builds the frame that replaces `original` once its pixels have been
/// transformed: the transformed RGBA pixels, reduced to RGB, at the given
/// canvas size, with every other attribute of `original` kept.
pub fn create_mirrored_frame(original: &Frame, mirrored_rgba: &[u8], width: u16, height: u16) -> (r:
    Frame)
    requires
        mirrored_rgba@.len() == 4 * width * height,
    ensures
        original.same_attributes(&r),
        r.width == width,
        r.height == height,
        r.buffer@ == rgba_to_rgb(mirrored_rgba@),
        r.buffer@.len() == 3 * width * height,
{
    let ghost n: int = width as int * height as int;
    assert(4 * width * height == 4 * n && 3 * width * height == 3 * n) by (nonlinear_arith)
        requires
            n == width as int * height as int,
    ;
    assert(mirrored_rgba@.len() % 4 == 0 && mirrored_rgba@.len() / 4 == n);
    let rgb_data = drop_alpha(mirrored_rgba);
    Frame {
        delay: original.delay,
        dispose: original.dispose,
        transparent: original.transparent,
        needs_user_input: original.needs_user_input,
        top: original.top,
        left: original.left,
        width,
        height,
        interlaced: original.interlaced,
        buffer: rgb_data,
    }
}

} // verus!
