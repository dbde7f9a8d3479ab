use gpu_worker::codec::{create_gif_encoder, decode_gif, encode_gif, sequence_from_frames};
use gpu_worker::frame::{DisposalMethod, Frame, FrameSequence};
use gpu_worker::GpuWorkerError;

#[test]
fn test_create_gif_encoder_success() {
    let result = create_gif_encoder(100, 100);
    assert!(result.is_ok());
}

#[test]
fn test_decode_gif_empty_frames() {
    // Create a minimal GIF header without frames
    let gif_data = vec![
        b'G', b'I', b'F', b'8', b'9', b'a', // Header
        1, 0, 1, 0, // Width: 1, Height: 1
        0, 0, 0, // Global color table info
        0x3B, // Trailer
    ];

    let result = decode_gif(&gif_data);
    assert!(result.is_err());
    match result.unwrap_err() {
        GpuWorkerError::GifDecode(_) | GpuWorkerError::EmptyContainer(_) => (),
        _ => panic!("Expected GifDecode or EmptyContainer error"),
    }
}

#[test]
fn decoding_garbage_fails_with_decode_error() {
    let result = decode_gif(b"This is not a GIF file");
    assert!(matches!(result, Err(GpuWorkerError::GifDecode(_))));
    assert!(matches!(decode_gif(&[]), Err(GpuWorkerError::GifDecode(_))));
}

#[test]
fn empty_frame_list_is_refused() {
    assert!(matches!(
        sequence_from_frames(4, 4, vec![]),
        Err(GpuWorkerError::EmptyContainer(_))
    ));
    let seq = sequence_from_frames(4, 3, vec![Frame::default()]).unwrap();
    assert_eq!((seq.width, seq.height, seq.frames.len()), (4, 3, 1));
}

fn rgb_frame(width: u16, height: u16, delay: u16, dispose: DisposalMethod, pixels: &[[u8; 3]]) -> Frame {
    Frame {
        delay,
        dispose,
        width,
        height,
        buffer: pixels.iter().flatten().copied().collect(),
        ..Default::default()
    }
}

#[test]
fn encoded_frames_decode_with_their_pixels_and_attributes() {
    let red = [255, 0, 0];
    let blue = [0, 0, 255];
    let first = rgb_frame(2, 2, 7, DisposalMethod::Background, &[red, blue, blue, red]);
    let second = rgb_frame(2, 2, 12, DisposalMethod::Previous, &[blue, blue, red, red]);
    let sequence = FrameSequence { width: 2, height: 2, frames: vec![first, second] };

    let bytes = encode_gif(&sequence).unwrap();
    assert_eq!(&bytes[..6], b"GIF89a");
    assert_eq!(*bytes.last().unwrap(), 0x3B);

    let decoded = decode_gif(&bytes).unwrap();
    assert_eq!((decoded.width, decoded.height), (2, 2));
    assert_eq!(decoded.frames.len(), 2);
    let f0 = &decoded.frames[0];
    assert_eq!((f0.width, f0.height, f0.delay), (2, 2, 7));
    assert_eq!(f0.dispose, DisposalMethod::Background);
    assert_eq!(
        f0.buffer,
        vec![255, 0, 0, 255, 0, 0, 255, 255, 0, 0, 255, 255, 255, 0, 0, 255]
    );
    let f1 = &decoded.frames[1];
    assert_eq!(f1.delay, 12);
    assert_eq!(f1.dispose, DisposalMethod::Previous);
    assert_eq!(
        f1.buffer,
        vec![0, 0, 255, 255, 0, 0, 255, 255, 255, 0, 0, 255, 255, 0, 0, 255]
    );
}

#[test]
fn decode_error_message_has_its_prefix() {
    let err = decode_gif(b"not a gif").unwrap_err();
    assert_eq!(err.status_code(), 422);
    assert!(err.to_string().starts_with("GIF decoding error: "));
}

#[test]
fn empty_container_is_a_processing_failure() {
    let gif_data = vec![b'G', b'I', b'F', b'8', b'9', b'a', 1, 0, 1, 0, 0, 0, 0, 0x3B];
    let err = decode_gif(&gif_data).unwrap_err();
    assert_eq!(err.status_code(), 422);
}

#[test]
fn encoding_is_deterministic_and_keeps_the_canvas() {
    let frame = Frame { width: 1, height: 1, buffer: vec![9, 8, 7], ..Default::default() };
    let sequence = FrameSequence { width: 3, height: 2, frames: vec![frame] };
    let a = encode_gif(&sequence).unwrap();
    let b = encode_gif(&sequence).unwrap();
    assert_eq!(a, b);
    // Logical screen descriptor: width 3, height 2, little endian.
    assert_eq!(&a[6..10], &[3, 0, 2, 0]);
}

#[test]
fn decoded_canvas_is_read_from_the_screen_descriptor() {
    let frame = Frame { width: 2, height: 1, buffer: vec![1, 2, 3, 4, 5, 6], ..Default::default() };
    let bytes = encode_gif(&FrameSequence { width: 300, height: 2, frames: vec![frame] }).unwrap();
    let decoded = decode_gif(&bytes).unwrap();
    assert_eq!(decoded.width as usize, bytes[6] as usize + 256 * bytes[7] as usize);
    assert_eq!(decoded.height as usize, bytes[8] as usize + 256 * bytes[9] as usize);
    assert_eq!((decoded.width, decoded.height), (300, 2));
}
