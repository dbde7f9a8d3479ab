//! Row-alignment arithmetic for GPU texture-to-buffer copies.
//!
//! A copy from a texture into a buffer writes each row at a stride that is a
//! multiple of the device's copy alignment. The helpers here compute that
//! stride and strip the padding again, so that callers only ever see tightly
//! packed RGBA rows (stride == 4 * width).

use vstd::prelude::*;
use vstd::slice::slice_subrange;
use vstd::string::StringExecFns;

use crate::error::TransformationError;

verus! {

/// The byte alignment that a texture-to-buffer copy asks of each row.
pub open spec fn row_alignment() -> int {
    256
}

/// Bytes in one tightly packed RGBA row.
pub open spec fn row_bytes(width: int) -> int {
    4 * width
}

/// The smallest multiple of `row_alignment()` that holds one RGBA row.
pub open spec fn aligned_row_stride(width: int) -> int {
    (row_bytes(width) + row_alignment() - 1) / row_alignment() * row_alignment()
}

/// Relies on wgpu::COPY_BYTES_PER_ROW_ALIGNMENT, which wgpu-types defines as 256.
#[verifier::external_body]
fn copy_bytes_per_row_alignment() -> (r: u32)
    ensures
        r == row_alignment(),
{
    wgpu::COPY_BYTES_PER_ROW_ALIGNMENT
}

proof fn lemma_aligned_row_stride(width: int)
    requires
        width >= 0,
    ensures
        aligned_row_stride(width) % row_alignment() == 0,
        row_bytes(width) <= aligned_row_stride(width),
        aligned_row_stride(width) < row_bytes(width) + row_alignment(),
{
    let n: int = row_bytes(width) + 255;
    let q: int = n / 256;
    assert(q * 256 <= n < q * 256 + 256) by (nonlinear_arith)
        requires
            q == n / 256,
            n >= 0,
    ;
    assert((q * 256) % 256 == 0) by (nonlinear_arith)
        requires
            q >= 0,
    ;
}

/// Smallest multiple of the copy alignment that is at least `4 * width`.
pub fn calculate_aligned_bytes_per_row(width: u32) -> (r: u32)
    requires
        row_bytes(width as int) + row_alignment() - 1 <= u32::MAX,
    ensures
        r == aligned_row_stride(width as int),
        r as int % row_alignment() == 0,
        row_bytes(width as int) <= r as int,
        (r as int) < row_bytes(width as int) + row_alignment(),
{
    let align = copy_bytes_per_row_alignment();
    let unpadded_bytes_per_row = 4 * width;
    proof {
        lemma_aligned_row_stride(width as int);
    }
    (unpadded_bytes_per_row + (align - 1)) / align * align
}

/// A buffer of `len` bytes holds `height` rows laid out `stride` bytes apart,
/// each with `4 * width` pixel bytes at its start.
pub open spec fn holds_rows(len: int, width: int, height: int, stride: int) -> bool {
    &&& row_bytes(width) <= stride
    &&& (height == 0 || (height - 1) * stride + row_bytes(width) <= len)
}

/// The tightly packed pixels of a padded buffer: the first `4 * width` bytes
/// of each of `height` rows laid out `stride` bytes apart, rows in order.
pub open spec fn unpadded(data: Seq<u8>, width: int, height: nat, stride: int) -> Seq<u8>
    decreases height,
{
    if height == 0 {
        Seq::empty()
    } else {
        let start = (height - 1) * stride;
        unpadded(data, width, (height - 1) as nat, stride) + data.subrange(
            start,
            start + row_bytes(width),
        )
    }
}

/// Packed rows laid out again `stride` bytes apart, each row's padding zeroed.
pub open spec fn repadded(pixels: Seq<u8>, width: int, height: int, stride: int) -> Seq<u8> {
    Seq::new(
        (height * stride) as nat,
        |i: int|
            if i % stride < row_bytes(width) {
                pixels[(i / stride) * row_bytes(width) + i % stride]
            } else {
                0u8
            },
    )
}

proof fn lemma_unpadded(data: Seq<u8>, width: int, height: nat, stride: int)
    requires
        width >= 0,
        holds_rows(data.len() as int, width, height as int, stride),
    ensures
        unpadded(data, width, height, stride).len() == height * row_bytes(width),
        forall|row: int, col: int|
            0 <= row < height && 0 <= col < row_bytes(width) ==> #[trigger] unpadded(
                data,
                width,
                height,
                stride,
            )[row * row_bytes(width) + col] == data[row * stride + col],
    decreases height,
{
    if height > 0 {
        let h1 = (height - 1) as nat;
        let rb = row_bytes(width);
        assert((h1 - 1) * stride + rb <= h1 * stride + rb) by (nonlinear_arith)
            requires
                stride >= 0,
        ;
        lemma_unpadded(data, width, h1, stride);
        let prefix = unpadded(data, width, h1, stride);
        assert(h1 * rb + rb == height * rb) by (nonlinear_arith)
            requires
                h1 + 1 == height,
        ;
        assert forall|row: int, col: int|
            0 <= row < height && 0 <= col < rb implies #[trigger] unpadded(
                data,
                width,
                height,
                stride,
            )[row * rb + col] == data[row * stride + col] by {
            if row < h1 {
                assert(row * rb + col < h1 * rb) by (nonlinear_arith)
                    requires
                        0 <= row,
                        row + 1 <= h1,
                        0 <= col < rb,
                ;
                assert(prefix[row * rb + col] == data[row * stride + col]);
            } else {
                assert(row * rb + col - prefix.len() == col);
            }
        }
    }
}

/// Copies the first `4 * width` bytes of each of `height` rows, laid out
/// `padded_bytes_per_row` bytes apart in `data`, into one packed buffer.
/// Where the stride is already `4 * width` this is an identity copy.
pub fn remove_padding(data: &[u8], width: u32, height: u32, padded_bytes_per_row: u32) -> (r:
    Vec<u8>)
    requires
        holds_rows(data@.len() as int, width as int, height as int, padded_bytes_per_row as int),
    ensures
        r@ == unpadded(data@, width as int, height as nat, padded_bytes_per_row as int),
        r@.len() == row_bytes(width as int) * height,
        padded_bytes_per_row == row_bytes(width as int) && data@.len() == r@.len() ==> r@
            == data@,
{
    let ghost w = width as int;
    let ghost stride = padded_bytes_per_row as int;
    let mut result: Vec<u8> = Vec::new();
    if height == 0 {
        return result;
    }
    let unpadded_bytes_per_row: usize = 4 * (width as usize);
    let data_len = data.len();
    let mut row: u32 = 0;
    while row < height
        invariant
            data_len == data@.len(),
            row <= height,
            height > 0,
            holds_rows(data@.len() as int, w, height as int, stride),
            unpadded_bytes_per_row == row_bytes(w),
            stride == padded_bytes_per_row,
            w == width,
            result@ == unpadded(data@, w, row as nat, stride),
        decreases height - row,
    {
        assert(row * stride <= (height - 1) * stride) by (nonlinear_arith)
            requires
                row <= height - 1,
                stride >= 0,
        ;
        let row_start: usize = row as usize * padded_bytes_per_row as usize;
        let row_end: usize = row_start + unpadded_bytes_per_row;
        result.extend_from_slice(slice_subrange(data, row_start, row_end));
        assert(result@ == unpadded(data@, w, (row + 1) as nat, stride));
        row = row + 1;
    }
    proof {
        lemma_unpadded(data@, w, height as nat, stride);
        if stride == row_bytes(w) && data@.len() == result@.len() {
            assert forall|i: int| 0 <= i < data@.len() implies result@[i] == data@[i] by {
                let rb = row_bytes(w);
                let row = i / rb;
                let col = i % rb;
                assert(row * rb + col == i && 0 <= row < height && 0 <= col < rb) by (
                nonlinear_arith)
                    requires
                        rb > 0,
                        row == i / rb,
                        col == i % rb,
                        0 <= i < rb * height,
                ;
                assert(result@[row * rb + col] == data@[row * stride + col]);
            }
            assert(result@ =~= data@);
        }
    }
    result
}

/// Re-padding the packed rows to the stride they came from gives back every
/// byte of the padded buffer that lies outside the padding.
pub proof fn lemma_repad_restores_rows(data: Seq<u8>, width: nat, height: nat, stride: nat)
    requires
        row_bytes(width as int) <= stride,
        data.len() == height * stride,
    ensures
        repadded(unpadded(data, width as int, height, stride as int), width as int, height as int, stride as int).len() == data.len(),
        forall|i: int|
            0 <= i < data.len() && i % (stride as int) < row_bytes(width as int) ==> #[trigger] repadded(
                unpadded(data, width as int, height, stride as int),
                width as int,
                height as int,
                stride as int,
            )[i] == data[i],
{
    let w = width as int;
    let s = stride as int;
    let h = height as int;
    assert(holds_rows(data.len() as int, w, h, s)) by {
        if h > 0 {
            assert((h - 1) * s + s == h * s) by (nonlinear_arith);
        }
    }
    lemma_unpadded(data, w, height, s);
    let packed = unpadded(data, w, height, s);
    assert forall|i: int|
        0 <= i < data.len() && i % s < row_bytes(w) implies #[trigger] repadded(packed, w, h, s)[i]
            == data[i] by {
        let row = i / s;
        let col = i % s;
        assert(row * s + col == i && 0 <= row < h && 0 <= col) by (nonlinear_arith)
            requires
                s > 0,
                row == i / s,
                col == i % s,
                0 <= i < h * s,
        ;
        assert(packed[row * row_bytes(w) + col] == data[row * s + col]);
    }
}

/// How one transform invocation lays out its readback: the image size, the
/// aligned row stride of the copy, and the size of the buffer it copies into.
#[derive(Debug, Clone, Copy)]
pub struct ReadbackLayout {
    pub width: u32,
    pub height: u32,
    pub padded_bytes_per_row: u32,
    pub buffer_size: u64,
}

impl ReadbackLayout {
    /// The stride is the aligned row stride of the width, and the buffer
    /// holds `height` rows at that stride.
    pub open spec fn wf(&self) -> bool {
        &&& self.padded_bytes_per_row == aligned_row_stride(self.width as int)
        &&& self.buffer_size == self.padded_bytes_per_row * self.height
    }
}

/// The dimensions on which a transform can run: both sides at least one
/// pixel and at most the device's largest texture side, with a row whose
/// aligned stride fits in 32 bits.
pub open spec fn dimensions_ok(width: int, height: int, max_dimension: int) -> bool {
    &&& 1 <= width <= max_dimension
    &&& 1 <= height <= max_dimension
    &&& row_bytes(width) + row_alignment() - 1 <= u32::MAX
}

/// Checks an image against its dimensions and lays out the readback of a
/// transform on it. The image must be tightly packed RGBA: `4 * width *
/// height` bytes. `max_dimension` is the largest texture side that the
/// device accepts.
pub fn plan_readback(image_len: usize, width: u32, height: u32, max_dimension: u32) -> (r: Result<
    ReadbackLayout,
    TransformationError,
>)
    ensures
        r is Ok <==> dimensions_ok(width as int, height as int, max_dimension as int) && image_len
            == row_bytes(width as int) * height,
        r matches Ok(layout) ==> layout.wf() && layout.width == width && layout.height == height,
        r matches Err(e) ==> e is InvalidInput,
{
    if width == 0 || height == 0 || width > max_dimension || height > max_dimension {
        return Err(
            TransformationError::InvalidInput(String::from_str("image dimensions out of range")),
        );
    }
    if width > 1073741760 {
        return Err(
            TransformationError::InvalidInput(String::from_str("image row too wide to copy")),
        );
    }
    assert(4 * (width as int) * (height as int) <= u64::MAX) by (nonlinear_arith)
        requires
            width <= 1073741760,
            height <= u32::MAX,
    ;
    let expected: u64 = 4 * (width as u64) * (height as u64);
    if image_len as u64 != expected {
        return Err(
            TransformationError::InvalidInput(
                String::from_str("image size does not match its dimensions"),
            ),
        );
    }
    let padded_bytes_per_row = calculate_aligned_bytes_per_row(width);
    assert(padded_bytes_per_row as int * (height as int) <= u64::MAX) by (nonlinear_arith)
        requires
            padded_bytes_per_row <= u32::MAX,
            height <= u32::MAX,
    ;
    let buffer_size: u64 = padded_bytes_per_row as u64 * height as u64;
    Ok(ReadbackLayout { width, height, padded_bytes_per_row, buffer_size })
}

/// Turns the bytes read back from a transform's output buffer into the
/// packed RGBA image: exactly `4 * width * height` bytes, row by row, with
/// the alignment padding of the copy removed. Fails with `BufferError`
/// where fewer bytes came back than the layout's buffer holds.
pub fn finish_readback(data: &[u8], layout: &ReadbackLayout) -> (r: Result<
    Vec<u8>,
    TransformationError,
>)
    requires
        layout.wf(),
    ensures
        r is Ok <==> data@.len() >= layout.buffer_size,
        r matches Ok(pixels) ==> pixels@ == unpadded(
            data@,
            layout.width as int,
            layout.height as nat,
            layout.padded_bytes_per_row as int,
        ) && pixels@.len() == row_bytes(layout.width as int) * layout.height,
        r matches Err(e) ==> e is BufferError,
{
    if (data.len() as u64) < layout.buffer_size {
        return Err(
            TransformationError::BufferError(String::from_str("readback buffer came back short")),
        );
    }
    proof {
        lemma_aligned_row_stride(layout.width as int);
        let s = layout.padded_bytes_per_row as int;
        let h = layout.height as int;
        let w = layout.width as int;
        assert(holds_rows(data@.len() as int, w, h, s)) by {
            if h > 0 {
                assert((h - 1) * s + s == s * h) by (nonlinear_arith);
            }
        }
    }
    Ok(remove_padding(data, layout.width, layout.height, layout.padded_bytes_per_row))
}

} // verus!
