use gpu_worker::{GpuWorkerError, TransformationError};

#[test]
fn error_test_error_display() {
    let error = GpuWorkerError::InvalidInput("test input".to_string());
    assert_eq!(error.to_string(), "Invalid input: test input");
}

#[test]
fn test_error_response_status_codes() {
    let gpu_error = GpuWorkerError::Gpu("GPU failed".to_string());
    assert_eq!(gpu_error.status_code(), 500);

    let input_error = GpuWorkerError::InvalidInput("Bad input".to_string());
    assert_eq!(input_error.status_code(), 400);

    let processing_error = GpuWorkerError::ImageProcessing("Failed to process".to_string());
    assert_eq!(processing_error.status_code(), 422);
}

#[test]
fn test_error_type_exists() {
    let _error = GpuWorkerError::InvalidInput("test".to_string());
}

#[test]
fn integration_tests_test_error_display() {
    let error = GpuWorkerError::InvalidInput("test input".to_string());
    assert_eq!(error.to_string(), "Invalid input: test input");

    let error = GpuWorkerError::Gpu("GPU failed".to_string());
    assert_eq!(error.to_string(), "GPU error: GPU failed");
}

#[test]
fn error_kinds_and_messages() {
    let internal = GpuWorkerError::Internal("boom".to_string());
    assert_eq!(internal.status_code(), 500);
    assert_eq!(internal.error_type(), "internal_error");
    assert_eq!(internal.to_string(), "Internal server error: boom");

    let processing = GpuWorkerError::ImageProcessing("bad".to_string());
    assert_eq!(processing.error_type(), "processing_error");
    assert_eq!(processing.to_string(), "Image processing error: bad");

    let input = GpuWorkerError::InvalidInput("x".to_string());
    assert_eq!(input.error_type(), "invalid_request");

    let empty = GpuWorkerError::EmptyContainer("no frames".to_string());
    assert_eq!(empty.status_code(), 422);
    assert_eq!(empty.error_type(), "processing_error");
    assert_eq!(empty.to_string(), "Empty container: no frames");

    let size = GpuWorkerError::InvalidFrameSize("10 bytes".to_string());
    assert_eq!(size.status_code(), 422);
    assert_eq!(size.error_type(), "processing_error");
    assert_eq!(size.to_string(), "Invalid frame size: 10 bytes");

    let transform =
        GpuWorkerError::Transformation(TransformationError::BufferError("short".to_string()));
    assert_eq!(transform.status_code(), 500);
    assert_eq!(transform.error_type(), "transformation_error");
    assert_eq!(transform.to_string(), "Transformation error: Buffer error: short");
}

#[test]
fn transformation_error_messages() {
    assert_eq!(TransformationError::GpuError("a".to_string()).to_string(), "GPU error: a");
    assert_eq!(TransformationError::InvalidInput("b".to_string()).to_string(), "Invalid input: b");
    assert_eq!(
        TransformationError::ProcessingError("c".to_string()).to_string(),
        "Processing error: c"
    );
    assert_eq!(TransformationError::BufferError("d".to_string()).to_string(), "Buffer error: d");
}
