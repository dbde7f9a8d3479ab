use gpu_worker::frame::{create_mirrored_frame, normalize_frame_to_rgba, DisposalMethod, Frame};
use gpu_worker::GpuWorkerError;

#[test]
fn test_normalize_rgba_buffer() {
    let frame = Frame {
        buffer: vec![255; 12], // 2x2 RGBA
        ..Default::default()
    };

    let result = normalize_frame_to_rgba(&frame, 2, 2);
    assert!(result.is_ok());
    assert_eq!(result.unwrap().len(), 16); // 2x2x4
}

#[test]
fn test_normalize_rgb_to_rgba() {
    let frame = Frame {
        buffer: vec![100, 150, 200, 50, 75, 100], // 2x1 RGB
        ..Default::default()
    };

    let result = normalize_frame_to_rgba(&frame, 2, 1).unwrap();
    assert_eq!(result, vec![100, 150, 200, 255, 50, 75, 100, 255]);
}

#[test]
fn test_create_mirrored_frame_preserves_properties() {
    let original = Frame {
        delay: 10,
        dispose: DisposalMethod::Background,
        transparent: Some(5),
        ..Default::default()
    };

    let mirrored_rgba = vec![100, 150, 200, 255]; // 1x1 RGBA
    let frame = create_mirrored_frame(&original, &mirrored_rgba, 1, 1);

    assert_eq!(frame.delay, 10);
    assert_eq!(frame.dispose, DisposalMethod::Background);
    assert_eq!(frame.transparent, Some(5));
}

#[test]
fn test_normalize_frame_invalid_size() {
    let frame = Frame {
        buffer: vec![255; 10], // Invalid size
        ..Default::default()
    };

    let result = normalize_frame_to_rgba(&frame, 2, 2);
    assert!(result.is_err());
    assert!(matches!(result.unwrap_err(), GpuWorkerError::InvalidFrameSize(_)));
}

#[test]
fn test_create_mirrored_frame_rgb_conversion() {
    let original = Frame::default();
    let mirrored_rgba = vec![255, 0, 0, 255, 0, 255, 0, 255]; // 2x1 RGBA (red, green)
    let frame = create_mirrored_frame(&original, &mirrored_rgba, 2, 1);

    assert_eq!(frame.width, 2);
    assert_eq!(frame.height, 1);
}

#[test]
fn test_normalize_frame_edge_cases() {
    let frame = Frame {
        buffer: vec![],
        ..Default::default()
    };
    let result = normalize_frame_to_rgba(&frame, 0, 0);
    assert!(result.is_ok());
    assert_eq!(result.unwrap().len(), 0);

    let frame = Frame {
        buffer: vec![255, 0, 0, 255],
        ..Default::default()
    };
    let result = normalize_frame_to_rgba(&frame, 1, 1);
    assert!(result.is_ok());
    assert_eq!(result.unwrap(), vec![255, 0, 0, 255]);
}

#[test]
fn rgb_expansion_forces_alpha_on_every_pixel() {
    // Every pixel's alpha byte is 255, even where the RGB bytes are zero.
    let rgb: Vec<u8> = (0..3 * 6).map(|i| (i * 7 % 256) as u8).collect();
    let frame = Frame { buffer: rgb.clone(), ..Default::default() };
    let rgba = normalize_frame_to_rgba(&frame, 3, 2).unwrap();
    assert_eq!(rgba.len(), 3 * 2 * 4);
    for p in 0..6 {
        assert_eq!(&rgba[4 * p..4 * p + 3], &rgb[3 * p..3 * p + 3]);
        assert_eq!(rgba[4 * p + 3], 255);
    }
    let zeros = Frame { buffer: vec![0; 3], ..Default::default() };
    assert_eq!(normalize_frame_to_rgba(&zeros, 1, 1).unwrap(), vec![0, 0, 0, 255]);
}

#[test]
fn rgba_buffer_passes_through_unchanged() {
    let rgba = vec![1, 2, 3, 0, 4, 5, 6, 7];
    let frame = Frame { buffer: rgba.clone(), ..Default::default() };
    assert_eq!(normalize_frame_to_rgba(&frame, 1, 2).unwrap(), rgba);
}

#[test]
fn invalid_size_fails_whatever_the_content() {
    for fill in [0u8, 1, 128, 255] {
        for len in [1usize, 5, 7, 11, 13, 17] {
            let frame = Frame { buffer: vec![fill; len], ..Default::default() };
            let result = normalize_frame_to_rgba(&frame, 2, 2);
            assert!(matches!(result, Err(GpuWorkerError::InvalidFrameSize(_))));
        }
    }
    // A buffer sized for another canvas is refused too.
    let frame = Frame { buffer: vec![9; 16], ..Default::default() };
    assert!(normalize_frame_to_rgba(&frame, 3, 3).is_err());
}

#[test]
fn mirrored_frame_drops_alpha_and_keeps_attributes() {
    let original = Frame {
        delay: 42,
        dispose: DisposalMethod::Previous,
        transparent: Some(3),
        needs_user_input: true,
        top: 7,
        left: 9,
        width: 5,
        height: 5,
        interlaced: true,
        buffer: vec![0; 100],
    };
    let rgba = vec![10, 20, 30, 40, 50, 60, 70, 80];
    let frame = create_mirrored_frame(&original, &rgba, 1, 2);
    assert_eq!(frame.buffer, vec![10, 20, 30, 50, 60, 70]);
    assert_eq!((frame.width, frame.height), (1, 2));
    assert_eq!(frame.delay, 42);
    assert_eq!(frame.dispose, DisposalMethod::Previous);
    assert_eq!(frame.transparent, Some(3));
    assert!(frame.needs_user_input);
    assert_eq!((frame.top, frame.left), (7, 9));
    assert!(frame.interlaced);
}

#[test]
fn default_frame_is_empty_and_kept() {
    let frame = Frame::default();
    assert_eq!(frame.dispose, DisposalMethod::Keep);
    assert_eq!(frame.delay, 0);
    assert!(frame.buffer.is_empty());
    assert_eq!(frame.transparent, None);
}

#[test]
fn rgb_frame_survives_an_identity_transform() {
    let rgb = vec![1, 2, 3, 4, 5, 6, 7, 8, 9, 10, 11, 12];
    let original = Frame { delay: 3, buffer: rgb.clone(), ..Default::default() };
    let rgba = normalize_frame_to_rgba(&original, 2, 2).unwrap();
    let rebuilt = create_mirrored_frame(&original, &rgba, 2, 2);
    assert_eq!(rebuilt.buffer, rgb);
    assert_eq!(rebuilt.delay, 3);
}
