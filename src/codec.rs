//! Reading and writing animated GIF containers with the `gif` crate.
//!
//! Decoding yields the container's frames as RGBA, in order, with the
//! canvas size they share; encoding writes frames of RGB pixels back, each
//! with the attributes it carries, into a container that loops forever.

use vstd::prelude::*;
use vstd::string::StringExecFns;

use gif::DisposalMethod as GifDisposal;
use gif::Frame as GifFrame;

use crate::error::GpuWorkerError;
use crate::frame::{frame_views, DisposalMethod, Frame, FrameSequence, FrameView};

verus! {

/// gif's decoder over a container held in memory, set to hand out RGBA.
#[verifier::external_body]
pub struct GifDecoder {
    decoder: gif::Decoder<std::io::Cursor<Vec<u8>>>,
}

/// gif's encoder writing a container into memory.
#[verifier::external_body]
pub struct GifEncoder {
    encoder: gif::Encoder<Vec<u8>>,
}

/// A decoder together with what it reads: the container's bytes, how many
/// frames it has handed out so far, and whether it has stopped, at the end
/// of the container or on an error.
pub struct GifReader {
    decoder: GifDecoder,
    source: Ghost<Seq<u8>>,
    taken: Ghost<nat>,
    stopped: Ghost<bool>,
}

impl GifReader {
    /// The container the decoder reads.
    pub closed spec fn source(&self) -> Seq<u8> {
        self.source@
    }

    /// How many frames the decoder has handed out.
    pub closed spec fn taken(&self) -> nat {
        self.taken@
    }

    /// Whether the decoder has reported the end or an error.
    pub closed spec fn stopped(&self) -> bool {
        self.stopped@
    }
}

/// An encoder together with what it has written: the canvas, whether the
/// looping extension went out first, and each frame written, with the
/// quantisation speed it was built at.
pub struct GifWriter {
    encoder: GifEncoder,
    width: Ghost<u16>,
    height: Ghost<u16>,
    looping: Ghost<bool>,
    written: Ghost<Seq<(FrameView, i32)>>,
}

impl GifWriter {
    /// The canvas width of the screen descriptor written.
    pub closed spec fn width(&self) -> u16 {
        self.width@
    }

    /// The canvas height of the screen descriptor written.
    pub closed spec fn height(&self) -> u16 {
        self.height@
    }

    /// Whether the looping extension was written before any frame.
    pub closed spec fn looping(&self) -> bool {
        self.looping@
    }

    /// The frames written so far, each with its quantisation speed.
    pub closed spec fn written(&self) -> Seq<(FrameView, i32)> {
        self.written@
    }
}

/// A frame as gif's `Frame::from_rgb_speed` builds it, together with the
/// frame and speed it was built from.
pub struct QuantizedFrame {
    frame: GifFrame<'static>,
    source: Ghost<FrameView>,
    speed: Ghost<i32>,
}

impl QuantizedFrame {
    /// The frame this one was built from.
    pub closed spec fn source(&self) -> FrameView {
        self.source@
    }

    /// The speed it was quantised at.
    pub closed spec fn speed(&self) -> i32 {
        self.speed@
    }
}

/// The container that gif's `Encoder` writes into memory and hands back
/// from `into_inner`: a header and screen descriptor for a `width` x `height`
/// canvas with a global colour table of two black entries (what it writes
/// for an empty global palette), the looping extension where `looping`,
/// then each frame as `Frame::from_rgb_speed` builds it at its speed, with
/// its own colour table, delay, disposal, transparency, input flag, offsets
/// and interlacing, then the trailer.
pub uninterp spec fn gif_container(
    width: u16,
    height: u16,
    looping: bool,
    frames: Seq<(FrameView, i32)>,
) -> Seq<u8>;

/// Frames paired with the speed they are quantised at.
pub open spec fn at_speed(frames: Seq<FrameView>, speed: i32) -> Seq<(FrameView, i32)> {
    frames.map_values(|f: FrameView| (f, speed))
}

/// Whether gif's `DecodeOptions::read_info`, set to RGBA output, accepts
/// the container's header and screen descriptor.
pub uninterp spec fn gif_header_ok(bytes: Seq<u8>) -> bool;

/// The little-endian 16-bit number at `at` and `at + 1`.
pub open spec fn le_u16(bytes: Seq<u8>, at: int) -> int {
    bytes[at] + 256 * bytes[at + 1]
}

/// The canvas width of a container: the first field of the logical screen
/// descriptor, which follows the six-byte signature and version.
pub open spec fn canvas_width_of(bytes: Seq<u8>) -> int {
    le_u16(bytes, 6)
}

/// The canvas height of a container: the second field of the logical
/// screen descriptor.
pub open spec fn canvas_height_of(bytes: Seq<u8>) -> int {
    le_u16(bytes, 8)
}

/// What gif's `Decoder::read_next_frame`, set to RGBA output, returns when
/// it is called for the `index`-th time on the container, after handing out
/// `index` frames and nothing else: the next frame, `None` after the last,
/// or an error.
pub uninterp spec fn gif_next_frame(bytes: Seq<u8>, index: nat) -> Result<Option<FrameView>, ()>;

/// The frames that the decoder hands out from the `index`-th call on, in
/// order, or `None` where it fails before it reaches the end. A container
/// holds fewer frames than bytes (see `next_frame`), so the branch that
/// stops at `bytes.len()` is never taken; it only bounds the recursion.
pub open spec fn gif_frames_from(bytes: Seq<u8>, index: nat) -> Option<Seq<FrameView>>
    decreases bytes.len() - index,
{
    match gif_next_frame(bytes, index) {
        Ok(Some(frame)) => if index < bytes.len() {
            match gif_frames_from(bytes, index + 1) {
                Some(rest) => Some(seq![frame] + rest),
                None => None,
            }
        } else {
            None
        },
        Ok(None) => Some(Seq::empty()),
        Err(_) => None,
    }
}

/// Whether the container decodes: its header is accepted and every frame
/// up to the trailer is read.
pub open spec fn gif_decodes(bytes: Seq<u8>) -> bool {
    gif_header_ok(bytes) && gif_frames_from(bytes, 0) is Some
}

/// The frames of a container that decodes, in order, as RGBA.
pub open spec fn gif_frames(bytes: Seq<u8>) -> Seq<FrameView> {
    gif_frames_from(bytes, 0)->Some_0
}

#[verifier::external_type_specification]
#[verifier::external_body]
pub struct ExGifFrame<'a>(GifFrame<'a>);

#[verifier::external_type_specification]
pub struct ExGifDisposal(GifDisposal);

/// The speed that colour quantisation runs at, in the range 1 to 30 that
/// `gif::Frame::from_rgb_speed` takes; 10 trades speed against quality.
pub const QUANTIZE_SPEED: i32 = 10;

fn disposal_from_gif(d: GifDisposal) -> (r: DisposalMethod) {
    match d {
        GifDisposal::Any => DisposalMethod::Any,
        GifDisposal::Keep => DisposalMethod::Keep,
        GifDisposal::Background => DisposalMethod::Background,
        GifDisposal::Previous => DisposalMethod::Previous,
    }
}

fn disposal_to_gif(d: DisposalMethod) -> (r: GifDisposal) {
    match d {
        DisposalMethod::Any => GifDisposal::Any,
        DisposalMethod::Keep => GifDisposal::Keep,
        DisposalMethod::Background => GifDisposal::Background,
        DisposalMethod::Previous => GifDisposal::Previous,
    }
}

/// Relies on gif::DecodeOptions::read_info, set to RGBA colour output: it
/// reads the header and screen descriptor, or fails with the decoder's error.
#[verifier::external_body]
fn open_gif(bytes: &[u8]) -> (r: Result<GifReader, gif::DecodingError>)
    ensures
        r is Ok <==> gif_header_ok(bytes@),
        r matches Ok(reader) ==> reader.source() == bytes@ && reader.taken() == 0
            && !reader.stopped(),
{
    let mut options = gif::DecodeOptions::new();
    options.set_color_output(gif::ColorOutput::RGBA);
    let decoder = options.read_info(std::io::Cursor::new(bytes.to_vec()))?;
    let decoder = GifDecoder { decoder };
    Ok(GifReader { decoder, source: Ghost(bytes@), taken: Ghost(0), stopped: Ghost(false) })
}

/// Relies on gif::Decoder::width: the canvas width, which gif reads as a
/// little-endian number from bytes 6 and 7 once it accepts the header.
#[verifier::external_body]
fn canvas_width(reader: &GifReader) -> (r: u16)
    ensures
        r == canvas_width_of(reader.source()),
{
    reader.decoder.decoder.width()
}

/// Relies on gif::Decoder::height: the canvas height, which gif reads as a
/// little-endian number from bytes 8 and 9 once it accepts the header.
#[verifier::external_body]
fn canvas_height(reader: &GifReader) -> (r: u16)
    ensures
        r == canvas_height_of(reader.source()),
{
    reader.decoder.decoder.height()
}

/// Relies on gif::Decoder::read_next_frame: the next frame in container
/// order with its pixels as RGBA, `None` after the last, or the decoder's
/// error. Every frame takes at least the bytes of its image descriptor, so
/// a container hands out fewer frames than it has bytes. gif deinterlaces
/// the pixels it hands out, so every frame comes back as not interlaced.
/// What a call after the end or after an error returns is left open: the
/// reader has stopped, and is not called again.
#[verifier::external_body]
fn next_frame(reader: &mut GifReader) -> (r: Result<Option<Frame>, gif::DecodingError>)
    requires
        !old(reader).stopped(),
    ensures
        final(reader).source() == old(reader).source(),
        match gif_next_frame(old(reader).source(), old(reader).taken()) {
            Ok(Some(v)) => r matches Ok(Some(f)) && f@ == v && final(reader).taken() == old(
                reader,
            ).taken() + 1 && old(reader).taken() < old(reader).source().len()
                && !final(reader).stopped(),
            Ok(None) => r matches Ok(None) && final(reader).stopped(),
            Err(_) => r is Err && final(reader).stopped(),
        },
{
    let Some(f) = reader.decoder.decoder.read_next_frame()? else { return Ok(None) };
    Ok(Some(Frame {
        delay: f.delay, dispose: disposal_from_gif(f.dispose), transparent: f.transparent,
        needs_user_input: f.needs_user_input, top: f.top, left: f.left, width: f.width,
        height: f.height, interlaced: f.interlaced, buffer: f.buffer.to_vec(),
    }))
}

/// Relies on gif::Encoder::new with an empty global palette: it writes the
/// header and screen descriptor into the `Vec`, which cannot fail there.
#[verifier::external_body]
fn new_gif_encoder(width: u16, height: u16) -> (r: Result<GifWriter, gif::EncodingError>)
    ensures
        r is Ok,
        r matches Ok(writer) ==> writer.width() == width && writer.height() == height
            && !writer.looping() && writer.written().len() == 0,
{
    let encoder = GifEncoder { encoder: gif::Encoder::new(Vec::new(), width, height, &[])? };
    let (width, height, looping) = (Ghost(width), Ghost(height), Ghost(false));
    Ok(GifWriter { encoder, width, height, looping, written: Ghost(Seq::empty()) })
}

/// Relies on gif::Encoder::set_repeat with `Repeat::Infinite`: it writes
/// the looping extension into the `Vec`, which cannot fail there.
#[verifier::external_body]
fn repeat_forever(writer: &mut GifWriter) -> (r: Result<(), gif::EncodingError>)
    requires
        !old(writer).looping(),
        old(writer).written().len() == 0,
    ensures
        r is Ok,
        final(writer).looping(),
        final(writer).written() == old(writer).written(),
        final(writer).width() == old(writer).width(),
        final(writer).height() == old(writer).height(),
{
    writer.encoder.encoder.set_repeat(gif::Repeat::Infinite)
}

/// Relies on gif::Frame::from_rgb_speed, which gives RGB pixels a palette of
/// at most 256 colours (quantising where there are more) and panics unless
/// there are `3 * width * height` bytes and the speed lies in 1 to 30. The
/// frame's other attributes are carried over as they are.
#[verifier::external_body]
fn quantize_frame(frame: &Frame, speed: i32) -> (r: QuantizedFrame)
    requires
        frame.buffer@.len() == 3 * frame.width * frame.height,
        1 <= speed <= 30,
    ensures
        r.source() == frame@,
        r.speed() == speed,
{
    let mut f = GifFrame::from_rgb_speed(frame.width, frame.height, &frame.buffer, speed);
    f.delay = frame.delay;
    f.dispose = disposal_to_gif(frame.dispose);
    f.transparent = frame.transparent;
    f.needs_user_input = frame.needs_user_input;
    f.top = frame.top;
    f.left = frame.left;
    f.interlaced = frame.interlaced;
    QuantizedFrame { frame: f, source: Ghost(frame@), speed: Ghost(speed) }
}

/// Relies on gif::Encoder::write_frame: it writes the frame's control
/// extension, descriptor, palette and image data. A frame that
/// `from_rgb_speed` built has a buffer of `width * height` indices and a
/// palette of at most 256 colours, so none of its errors can arise.
#[verifier::external_body]
fn write_gif_frame(writer: &mut GifWriter, frame: &QuantizedFrame) -> (r: Result<
    (),
    gif::EncodingError,
>)
    ensures
        r is Ok,
        final(writer).written() == old(writer).written().push((frame.source(), frame.speed())),
        final(writer).looping() == old(writer).looping(),
        final(writer).width() == old(writer).width(),
        final(writer).height() == old(writer).height(),
{
    writer.encoder.encoder.write_frame(&frame.frame)
}

/// Relies on gif::Encoder::into_inner: it writes the trailer and hands back
/// the bytes written.
#[verifier::external_body]
fn finish_gif(writer: GifWriter) -> (r: Result<Vec<u8>, gif::EncodingError>)
    ensures
        r is Ok,
        r matches Ok(bytes) ==> bytes@ == gif_container(
            writer.width(),
            writer.height(),
            writer.looping(),
            writer.written(),
        ),
{
    writer.encoder.encoder.into_inner().map_err(gif::EncodingError::from)
}

/// Collects decoded frames into a sequence on the given canvas. A container
/// without frames is refused with `EmptyContainer`.
pub fn sequence_from_frames(width: u16, height: u16, frames: Vec<Frame>) -> (r: Result<
    FrameSequence,
    GpuWorkerError,
>)
    ensures
        r is Ok <==> frames@.len() > 0,
        r matches Ok(seq) ==> seq.width == width && seq.height == height && seq.frames@
            == frames@,
        r matches Err(e) ==> e is EmptyContainer,
{
    if frames.len() == 0 {
        return Err(GpuWorkerError::EmptyContainer(String::from_str("GIF contains no frames")));
    }
    Ok(FrameSequence { width, height, frames })
}

/// Decodes a container into its frames, as RGBA and in order, with the
/// canvas size from its screen descriptor. A malformed container fails with
/// `GifDecode`; one without frames fails with `EmptyContainer`.
pub fn decode_gif(gif_data: &[u8]) -> (r: Result<FrameSequence, GpuWorkerError>)
    ensures
        r is Ok <==> gif_decodes(gif_data@) && gif_frames(gif_data@).len() > 0,
        r matches Ok(seq) ==> seq.width == canvas_width_of(gif_data@) && seq.height
            == canvas_height_of(gif_data@) && frame_views(seq.frames@) == gif_frames(gif_data@),
        r matches Err(e) ==> (e is GifDecode <==> !gif_decodes(gif_data@)) && (e is GifDecode
            || e is EmptyContainer),
{
    let ghost bytes = gif_data@;
    let mut reader = match open_gif(gif_data) {
        Ok(reader) => reader,
        Err(e) => return Err(GpuWorkerError::GifDecode(e)),
    };
    let width = canvas_width(&reader);
    let height = canvas_height(&reader);
    let mut frames: Vec<Frame> = Vec::new();
    loop
        invariant_except_break
            !reader.stopped(),
            reader.taken() == frames@.len(),
            gif_frames_from(bytes, 0) == match gif_frames_from(bytes, reader.taken()) {
                Some(rest) => Some(frame_views(frames@) + rest),
                None => None::<Seq<FrameView>>,
            },
        invariant
            bytes == gif_data@,
            gif_header_ok(bytes),
            reader.source() == bytes,
            frames@.len() <= bytes.len(),
            width == canvas_width_of(bytes),
            height == canvas_height_of(bytes),
        ensures
            gif_frames_from(bytes, 0) == Some(frame_views(frames@)),
            width == canvas_width_of(bytes),
            height == canvas_height_of(bytes),
        decreases bytes.len() - frames@.len(),
    {
        let ghost k = reader.taken();
        let ghost before = frames@;
        match next_frame(&mut reader) {
            Ok(Some(frame)) => {
                frames.push(frame);
                proof {
                    assert(gif_frames_from(bytes, k) == match gif_frames_from(bytes, k + 1) {
                        Some(rest) => Some(seq![frame@] + rest),
                        None => None::<Seq<FrameView>>,
                    });
                    assert(frame_views(frames@) =~= frame_views(before) + seq![frame@]);
                    match gif_frames_from(bytes, k + 1) {
                        Some(rest) => {
                            assert(frame_views(before) + (seq![frame@] + rest) =~= frame_views(
                                frames@,
                            ) + rest);
                        },
                        None => {},
                    }
                }
            },
            Ok(None) => {
                assert(gif_frames_from(bytes, k) == Some(Seq::<FrameView>::empty()));
                assert(frame_views(frames@) + Seq::<FrameView>::empty() =~= frame_views(frames@));
                assert(gif_frames_from(bytes, 0) == Some(frame_views(frames@)));
                break ;
            },
            Err(e) => {
                assert(gif_next_frame(bytes, k) is Err);
                assert(gif_frames_from(bytes, k) is None);
                assert(!gif_decodes(bytes));
                return Err(GpuWorkerError::GifDecode(e));
            },
        }
    }
    assert(frame_views(frames@).len() == frames@.len());
    sequence_from_frames(width, height, frames)
}

/// Starts a container on a `width` x `height` canvas that loops forever.
pub fn create_gif_encoder(width: u16, height: u16) -> (r: Result<GifWriter, GpuWorkerError>)
    ensures
        r matches Ok(writer) && writer.width() == width && writer.height() == height
            && writer.looping() && writer.written().len() == 0,
{
    let mut writer = match new_gif_encoder(width, height) {
        Ok(writer) => writer,
        Err(e) => return Err(GpuWorkerError::GifEncode(e)),
    };
    match repeat_forever(&mut writer) {
        Ok(()) => Ok(writer),
        Err(e) => Err(GpuWorkerError::GifEncode(e)),
    }
}

/// Every frame holds RGB pixels for its own size.
pub open spec fn frames_are_rgb(frames: Seq<Frame>) -> bool {
    forall|i: int|
        0 <= i < frames.len() ==> (#[trigger] frames[i]).buffer@.len() == 3 * frames[i].width
            * frames[i].height
}

/// Encodes a sequence of RGB frames into a looping container on the
/// sequence's canvas, frame by frame in order, each quantised at
/// `QUANTIZE_SPEED` and written with its own attributes.
pub fn encode_gif(sequence: &FrameSequence) -> (r: Result<Vec<u8>, GpuWorkerError>)
    requires
        frames_are_rgb(sequence.frames@),
    ensures
        r matches Ok(bytes) && bytes@ == gif_container(
            sequence.width,
            sequence.height,
            true,
            at_speed(frame_views(sequence.frames@), QUANTIZE_SPEED),
        ),
{
    let mut writer = create_gif_encoder(sequence.width, sequence.height)?;
    let mut i: usize = 0;
    while i < sequence.frames.len()
        invariant
            frames_are_rgb(sequence.frames@),
            i <= sequence.frames@.len(),
            writer.width() == sequence.width,
            writer.height() == sequence.height,
            writer.looping(),
            writer.written() == at_speed(frame_views(sequence.frames@.take(i as int)), QUANTIZE_SPEED),
        decreases sequence.frames@.len() - i,
    {
        let frame = quantize_frame(&sequence.frames[i], QUANTIZE_SPEED);
        let written = write_gif_frame(&mut writer, &frame);
        proof {
            assert(sequence.frames@.take(i + 1) =~= sequence.frames@.take(i as int).push(
                sequence.frames@[i as int],
            ));
            assert(at_speed(frame_views(sequence.frames@.take(i + 1)), QUANTIZE_SPEED)
                =~= writer.written());
        }
        if let Err(e) = written {
            return Err(GpuWorkerError::GifEncode(e));
        }
        i = i + 1;
    }
    assert(sequence.frames@.take(i as int) =~= sequence.frames@);
    match finish_gif(writer) {
        Ok(bytes) => Ok(bytes),
        Err(e) => Err(GpuWorkerError::GifEncode(e)),
    }
}

} // verus!
