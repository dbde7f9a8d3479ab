//! Error types of the transforms and of the container pipeline.
//!
//! Every failure is returned as a value; nothing here panics. Each error
//! carries a message, and the pipeline error also knows the HTTP status class
//! that a service in front of the library reports it under.

use vstd::prelude::*;
use vstd::string::StringExecFns;

verus! {

#[verifier::external_type_specification]
#[verifier::external_body]
pub struct ExDecodingError(gif::DecodingError);

#[verifier::external_type_specification]
#[verifier::external_body]
pub struct ExEncodingError(gif::EncodingError);

/// Relies on the `Display` impl of gif::DecodingError for its message.
#[verifier::external_body]
fn decoding_error_text(e: &gif::DecodingError) -> String {
    e.to_string()
}

/// Relies on the `Display` impl of gif::EncodingError for its message.
#[verifier::external_body]
fn encoding_error_text(e: &gif::EncodingError) -> String {
    e.to_string()
}

/// A failure while running a transform on the GPU.
#[derive(Debug)]
pub enum TransformationError {
    /// The device could not be acquired or rejected a request.
    GpuError(String),
    /// The image handed to a transform does not fit its dimensions.
    InvalidInput(String),
    /// A transform produced something unusable.
    ProcessingError(String),
    /// A readback buffer could not be mapped or came back short.
    BufferError(String),
}

impl TransformationError {
    /// The message of this error.
    pub open spec fn text(&self) -> Seq<char> {
        match self {
            TransformationError::GpuError(s) => "GPU error: "@ + s@,
            TransformationError::InvalidInput(s) => "Invalid input: "@ + s@,
            TransformationError::ProcessingError(s) => "Processing error: "@ + s@,
            TransformationError::BufferError(s) => "Buffer error: "@ + s@,
        }
    }

    /// The message of this error, as a `String`.
    pub fn to_string(&self) -> (r: String)
        ensures
            r@ == self.text(),
    {
        match self {
            TransformationError::GpuError(s) => String::from_str("GPU error: ").concat(s.as_str()),
            TransformationError::InvalidInput(s) => String::from_str("Invalid input: ").concat(
                s.as_str(),
            ),
            TransformationError::ProcessingError(s) => String::from_str(
                "Processing error: ",
            ).concat(s.as_str()),
            TransformationError::BufferError(s) => String::from_str("Buffer error: ").concat(
                s.as_str(),
            ),
        }
    }
}

/// A failure of the container pipeline: decoding, normalising, transforming
/// or re-encoding frames.
#[derive(Debug)]
pub enum GpuWorkerError {
    /// The device failed.
    Gpu(String),
    /// A container's content could not be processed.
    ImageProcessing(String),
    /// The request is malformed: a missing or empty file.
    InvalidInput(String),
    /// The container is well formed but holds no frames.
    EmptyContainer(String),
    /// A frame's buffer is neither RGB nor RGBA for the canvas.
    InvalidFrameSize(String),
    /// Something failed that the request has no part in.
    Internal(String),
    /// The container could not be decoded.
    GifDecode(gif::DecodingError),
    /// The transformed frames could not be encoded.
    GifEncode(gif::EncodingError),
    /// A transform failed on the device.
    Transformation(TransformationError),
}

/// The HTTP status under which a service reports an error of this kind.
pub open spec fn status_of(e: GpuWorkerError) -> u16 {
    match e {
        GpuWorkerError::Gpu(_) | GpuWorkerError::Internal(_) => 500,
        GpuWorkerError::ImageProcessing(_)
        | GpuWorkerError::EmptyContainer(_)
        | GpuWorkerError::InvalidFrameSize(_)
        | GpuWorkerError::GifDecode(_)
        | GpuWorkerError::GifEncode(_) => 422,
        GpuWorkerError::InvalidInput(_) => 400,
        GpuWorkerError::Transformation(_) => 500,
    }
}

/// The short machine-readable kind under which a service reports an error.
pub open spec fn kind_of(e: GpuWorkerError) -> Seq<char> {
    match e {
        GpuWorkerError::Gpu(_) | GpuWorkerError::Internal(_) => "internal_error"@,
        GpuWorkerError::ImageProcessing(_)
        | GpuWorkerError::EmptyContainer(_)
        | GpuWorkerError::InvalidFrameSize(_)
        | GpuWorkerError::GifDecode(_)
        | GpuWorkerError::GifEncode(_) => "processing_error"@,
        GpuWorkerError::InvalidInput(_) => "invalid_request"@,
        GpuWorkerError::Transformation(_) => "transformation_error"@,
    }
}

impl GpuWorkerError {
    /// HTTP status: 500 for device and internal failures, 422 for decode and
    /// per-frame processing failures, 400 for a missing or empty file.
    pub fn status_code(&self) -> (r: u16)
        ensures
            r == status_of(*self),
    {
        match self {
            GpuWorkerError::Gpu(_) | GpuWorkerError::Internal(_) => 500,
            GpuWorkerError::ImageProcessing(_)
            | GpuWorkerError::EmptyContainer(_)
            | GpuWorkerError::InvalidFrameSize(_)
            | GpuWorkerError::GifDecode(_)
            | GpuWorkerError::GifEncode(_) => 422,
            GpuWorkerError::InvalidInput(_) => 400,
            GpuWorkerError::Transformation(_) => 500,
        }
    }

    /// The machine-readable kind of this error.
    pub fn error_type(&self) -> (r: &'static str)
        ensures
            r@ == kind_of(*self),
    {
        match self {
            GpuWorkerError::Gpu(_) | GpuWorkerError::Internal(_) => "internal_error",
            GpuWorkerError::ImageProcessing(_)
            | GpuWorkerError::EmptyContainer(_)
            | GpuWorkerError::InvalidFrameSize(_)
            | GpuWorkerError::GifDecode(_)
            | GpuWorkerError::GifEncode(_) => "processing_error",
            GpuWorkerError::InvalidInput(_) => "invalid_request",
            GpuWorkerError::Transformation(_) => "transformation_error",
        }
    }

    /// The message of this error: the variant's prefix followed by its text,
    /// or by the message of the gif error it carries.
    pub fn to_string(&self) -> (r: String)
        ensures
            match *self {
                GpuWorkerError::Gpu(s) => r@ == "GPU error: "@ + s@,
                GpuWorkerError::ImageProcessing(s) => r@ == "Image processing error: "@ + s@,
                GpuWorkerError::InvalidInput(s) => r@ == "Invalid input: "@ + s@,
                GpuWorkerError::Internal(s) => r@ == "Internal server error: "@ + s@,
                GpuWorkerError::EmptyContainer(s) => r@ == "Empty container: "@ + s@,
                GpuWorkerError::InvalidFrameSize(s) => r@ == "Invalid frame size: "@ + s@,
                GpuWorkerError::GifDecode(_) => exists|t: Seq<char>| r@ == "GIF decoding error: "@ + t,
                GpuWorkerError::GifEncode(_) => exists|t: Seq<char>| r@ == "GIF encoding error: "@ + t,
                GpuWorkerError::Transformation(t) => r@ == "Transformation error: "@ + t.text(),
            },
    {
        match self {
            GpuWorkerError::Gpu(s) => String::from_str("GPU error: ").concat(s.as_str()),
            GpuWorkerError::ImageProcessing(s) => String::from_str("Image processing error: ").concat(
                s.as_str(),
            ),
            GpuWorkerError::InvalidInput(s) => String::from_str("Invalid input: ").concat(s.as_str()),
            GpuWorkerError::Internal(s) => String::from_str("Internal server error: ").concat(
                s.as_str(),
            ),
            GpuWorkerError::EmptyContainer(s) => String::from_str("Empty container: ").concat(
                s.as_str(),
            ),
            GpuWorkerError::InvalidFrameSize(s) => String::from_str("Invalid frame size: ").concat(
                s.as_str(),
            ),
            GpuWorkerError::GifDecode(e) => String::from_str("GIF decoding error: ").concat(
                decoding_error_text(e).as_str(),
            ),
            GpuWorkerError::GifEncode(e) => String::from_str("GIF encoding error: ").concat(
                encoding_error_text(e).as_str(),
            ),
            GpuWorkerError::Transformation(t) => String::from_str("Transformation error: ").concat(
                t.to_string().as_str(),
            ),
        }
    }
}

} // verus!
