use gpu_worker::readback::{
    calculate_aligned_bytes_per_row, finish_readback, plan_readback, remove_padding,
};
use gpu_worker::TransformationError;

#[test]
fn aligned_stride_is_smallest_multiple_of_256() {
    assert_eq!(calculate_aligned_bytes_per_row(0), 0);
    assert_eq!(calculate_aligned_bytes_per_row(1), 256);
    assert_eq!(calculate_aligned_bytes_per_row(64), 256);
    assert_eq!(calculate_aligned_bytes_per_row(65), 512);
    assert_eq!(calculate_aligned_bytes_per_row(100), 512);
    assert_eq!(calculate_aligned_bytes_per_row(1920), 7680);
}

#[test]
fn remove_padding_keeps_the_pixel_bytes_of_each_row() {
    let data = vec![1, 2, 3, 4, 9, 9, 9, 9, 5, 6, 7, 8, 9, 9, 9, 9];
    assert_eq!(remove_padding(&data, 1, 2, 8), vec![1, 2, 3, 4, 5, 6, 7, 8]);
    // The last row needs no padding after it.
    let data = vec![1, 2, 3, 4, 0, 0, 5, 6, 7, 8];
    assert_eq!(remove_padding(&data, 1, 2, 6), vec![1, 2, 3, 4, 5, 6, 7, 8]);
    assert!(remove_padding(&[], 3, 0, 256).is_empty());
}

#[test]
fn remove_padding_at_packed_stride_is_identity() {
    let data: Vec<u8> = (0..24).collect();
    assert_eq!(remove_padding(&data, 2, 3, 8), data);
}

fn pad(pixels: &[u8], width: usize, height: usize, stride: usize, fill: u8) -> Vec<u8> {
    let mut out = vec![fill; stride * height];
    for row in 0..height {
        out[row * stride..row * stride + 4 * width]
            .copy_from_slice(&pixels[row * 4 * width..(row + 1) * 4 * width]);
    }
    out
}

#[test]
fn repadding_restores_the_bytes_outside_the_padding() {
    let (width, height) = (3usize, 4usize);
    for stride in [12usize, 13, 16, 256] {
        let padded: Vec<u8> = (0..stride * height).map(|i| (i * 31 % 251) as u8).collect();
        let packed = remove_padding(&padded, width as u32, height as u32, stride as u32);
        let repadded = pad(&packed, width, height, stride, 0);
        assert_eq!(repadded.len(), padded.len());
        for i in 0..padded.len() {
            if i % stride < 4 * width {
                assert_eq!(repadded[i], padded[i]);
            }
        }
    }
}

#[test]
fn plan_readback_lays_out_aligned_rows() {
    let layout = plan_readback(100 * 100 * 4, 100, 100, 8192).unwrap();
    assert_eq!(layout.padded_bytes_per_row, 512);
    assert_eq!(layout.buffer_size, 512 * 100);
    assert_eq!((layout.width, layout.height), (100, 100));
}

#[test]
fn plan_readback_refuses_bad_images() {
    let refused = |r: Result<_, TransformationError>| {
        matches!(r, Err(TransformationError::InvalidInput(_)))
    };
    assert!(refused(plan_readback(0, 0, 0, 8192)));
    assert!(refused(plan_readback(0, 0, 5, 8192)));
    assert!(plan_readback(40, 10, 1, 8192).is_ok());
    assert!(refused(plan_readback(39, 10, 1, 8192)));
    assert!(refused(plan_readback(41, 10, 1, 8192)));
    assert!(refused(plan_readback(4 * 9000, 9000, 1, 8192)));
    assert!(refused(plan_readback(4 * 2 * 9000, 2, 9000, 8192)));
    assert!(plan_readback(4 * 8192, 8192, 1, 8192).is_ok());
}

#[test]
fn finish_readback_returns_exactly_the_image_size() {
    for (width, height) in [(1u32, 1u32), (3, 2), (64, 3), (65, 2), (100, 7)] {
        let len = (width * height * 4) as usize;
        let layout = plan_readback(len, width, height, 8192).unwrap();
        let data: Vec<u8> = (0..layout.buffer_size).map(|i| (i % 253) as u8).collect();
        let pixels = finish_readback(&data, &layout).unwrap();
        assert_eq!(pixels.len(), len);
        let stride = layout.padded_bytes_per_row as usize;
        for row in 0..height as usize {
            let w4 = 4 * width as usize;
            assert_eq!(&pixels[row * w4..(row + 1) * w4], &data[row * stride..row * stride + w4]);
        }
    }
}

#[test]
fn finish_readback_refuses_a_short_buffer() {
    let layout = plan_readback(16, 2, 2, 8192).unwrap();
    let data = vec![0u8; layout.buffer_size as usize - 1];
    assert!(matches!(
        finish_readback(&data, &layout),
        Err(TransformationError::BufferError(_))
    ));
}
