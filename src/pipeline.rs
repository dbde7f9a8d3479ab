//! A transform run over the frames of one container.
//!
//! The run hands out each frame's pixels as packed RGBA for the transform,
//! takes the transformed pixels back, and rebuilds the frame from them with
//! the original frame's attributes, strictly in container order. Once every
//! frame is back it encodes the rebuilt sequence. A failure at any step
//! leaves no output behind: bytes only come from a run that has finished.

use vstd::prelude::*;
use vstd::string::StringExecFns;

use crate::codec::{at_speed, encode_gif, frames_are_rgb, gif_container, QUANTIZE_SPEED};
use crate::error::{GpuWorkerError, TransformationError};
use crate::frame::{
    create_mirrored_frame,
    normalize_frame_to_rgba,
    normalized,
    frame_views,
    rgba_to_rgb,
    Frame,
    FrameSequence,
};

verus! {

/// The frames of one container on their way through a transform.
pub struct FrameTransformRun {
    source: FrameSequence,
    done: Vec<Frame>,
}

impl FrameTransformRun {
    /// The container the run works on.
    pub closed spec fn source(&self) -> FrameSequence {
        self.source
    }

    /// The frames rebuilt so far, in container order.
    pub closed spec fn done(&self) -> Seq<Frame> {
        self.done@
    }

    /// No more frames than the source holds are rebuilt, each on the
    /// source's canvas as RGB, with the attributes of the frame it replaces.
    /// `new` establishes it and every method keeps it.
    pub closed spec fn wf(&self) -> bool {
        &&& self.done@.len() <= self.source.frames@.len()
        &&& frames_are_rgb(self.done@)
        &&& forall|i: int|
            0 <= i < self.done@.len() ==> {
                &&& (#[trigger] self.done@[i]).width == self.source.width
                &&& self.done@[i].height == self.source.height
                &&& self.source.frames@[i].same_attributes(&self.done@[i])
            }
    }

    /// Starts a run over the frames of `source`.
    pub fn new(source: FrameSequence) -> (r: Self)
        ensures
            r.wf(),
            r.source() == source,
            r.done().len() == 0,
    {
        FrameTransformRun { source, done: Vec::new() }
    }

    /// Whether every frame has been transformed and rebuilt.
    pub fn is_finished(&self) -> (r: bool)
        requires
            self.wf(),
        ensures
            r == (self.done().len() == self.source().frames@.len()),
    {
        self.done.len() == self.source.frames.len()
    }

    /// The pixels of the next frame, as packed RGBA on the canvas, for the
    /// transform. Fails with `InvalidFrameSize` where the frame's buffer is
    /// neither RGB nor RGBA for the canvas.
    pub fn next_input(&self) -> (r: Result<Vec<u8>, GpuWorkerError>)
        requires
            self.wf(),
            self.done().len() < self.source().frames@.len(),
        ensures
            ({
                let frame = self.source().frames@[self.done().len() as int];
                let expected = normalized(
                    frame.buffer@,
                    self.source().width as int,
                    self.source().height as int,
                );
                &&& r is Ok <==> expected is Some
                &&& r matches Ok(rgba) ==> Some(rgba@) == expected
                &&& r matches Err(e) ==> e is InvalidFrameSize
            }),
    {
        let frame = &self.source.frames[self.done.len()];
        normalize_frame_to_rgba(frame, self.source.width as u32, self.source.height as u32)
    }

    /// Takes the transformed pixels of the next frame and rebuilds the frame
    /// from them: RGB pixels on the canvas, with every other attribute of
    /// the frame it replaces. Pixels that are not packed RGBA for the
    /// canvas are refused with a `ProcessingError` and change nothing.
    pub fn accept_output(&mut self, transformed: Vec<u8>) -> (r: Result<(), GpuWorkerError>)
        requires
            old(self).wf(),
            old(self).done().len() < old(self).source().frames@.len(),
        ensures
            final(self).wf(),
            r is Ok <==> transformed@.len() == 4 * old(self).source().width * old(self).source().height,
            final(self).source() == old(self).source(),
            (r is Ok ==> {
                let k = old(self).done().len() as int;
                let f = final(self).done()[k];
                &&& final(self).done().len() == k + 1
                &&& final(self).done().take(k) == old(self).done()
                &&& old(self).source().frames@[k].same_attributes(&f)
                &&& f.width == old(self).source().width
                &&& f.height == old(self).source().height
                &&& f.buffer@ == rgba_to_rgb(transformed@)
            }),
            r is Err ==> final(self).done() == old(self).done(),
            r matches Err(e) ==> e matches GpuWorkerError::Transformation(t) && t is ProcessingError,
    {
        let width = self.source.width;
        let height = self.source.height;
        assert(4 * (width as int) * (height as int) <= u64::MAX) by (nonlinear_arith)
            requires
                width <= u16::MAX,
                height <= u16::MAX,
        ;
        let expected: u64 = 4 * (width as u64) * (height as u64);
        if transformed.len() as u64 != expected {
            return Err(
                GpuWorkerError::Transformation(
                    TransformationError::ProcessingError(
                        String::from_str("transformed frame has the wrong size"),
                    ),
                ),
            );
        }
        let k = self.done.len();
        let frame = create_mirrored_frame(
            &self.source.frames[k],
            transformed.as_slice(),
            width,
            height,
        );
        self.done.push(frame);
        proof {
            assert(self.done@.take(k as int) =~= old(self).done@);
        }
        Ok(())
    }

    /// Encodes the rebuilt frames, in container order, on the source's
    /// canvas, into a container that loops forever.
    pub fn finish(self) -> (r: Result<Vec<u8>, GpuWorkerError>)
        requires
            self.wf(),
            self.done().len() == self.source().frames@.len(),
        ensures
            r matches Ok(bytes) && bytes@ == gif_container(
                self.source().width,
                self.source().height,
                true,
                at_speed(frame_views(self.done()), QUANTIZE_SPEED),
            ),
    {
        let FrameTransformRun { source, done } = self;
        let rebuilt = FrameSequence { width: source.width, height: source.height, frames: done };
        encode_gif(&rebuilt)
    }
}

} // verus!
