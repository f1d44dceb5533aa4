//! The chroma data that the renderer uploads for a video frame.
use vstd::prelude::*;

use crate::media::{PixelFormat, VideoFrame};

verus! {

/// The chroma sample at (`row`, `col`) of a plane with rows `stride` bytes
/// apart; 128 (neutral chroma) where the plane is too short.
pub open spec fn uv_sample(data: Seq<u8>, stride: int, row: int, col: int) -> u8 {
    if row * stride + col < data.len() {
        data[row * stride + col]
    } else {
        128
    }
}

/// Whether `r` holds planes `u` and `v` of `w` x `h` samples interleaved row by
/// row (U, V, U, V, ...).
pub open spec fn interleaved_of(r: Seq<u8>, u: Seq<u8>, us: int, v: Seq<u8>, vs: int, w: int, h: int) -> bool {
    &&& r.len() == 2 * (h * w)
    &&& forall|row: int, col: int|
        0 <= row < h && 0 <= col < w ==> {
            &&& #[trigger] r[2 * (row * w + col)] == uv_sample(u, us, row, col)
            &&& r[2 * (row * w + col) + 1] == uv_sample(v, vs, row, col)
        }
}

proof fn lemma_index_order(w: int, row: int, col: int, r2: int, c2: int)
    by (nonlinear_arith)
    requires
        0 <= c2 < w,
        0 <= col,
        0 <= r2,
        r2 < row || (r2 == row && c2 < col),
    ensures
        r2 * w + c2 < row * w + col,
{
    if r2 < row {
        assert(r2 * w + w <= row * w);
    }
}

proof fn lemma_mul_bound(a: int, b: int)
    by (nonlinear_arith)
    requires
        0 <= a <= 0xffff_ffff_ffff_ffff,
        0 <= b <= 0xffff_ffff_ffff_ffff,
    ensures
        0 <= a * b <= 0xffff_ffff_ffff_fffe_0000_0000_0000_0001,
{
    assert(a * b <= a * 0xffff_ffff_ffff_ffff);
    assert(a * 0xffff_ffff_ffff_ffff <= 0xffff_ffff_ffff_ffff * 0xffff_ffff_ffff_ffff);
}

proof fn lemma_row_base(w: int, row: int)
    by (nonlinear_arith)
    requires
        0 <= w,
        0 <= row,
    ensures
        (row + 1) * w == row * w + w,
        0 <= row * w,
{
}

/// Interleaves a U plane and a V plane of `uv_width` x `uv_height` samples into
/// one UV plane (U, V, U, V, ...), row by row; a sample that lies past the end
/// of its plane is 128.
pub fn interleave_uv_planes(
    u_data: &[u8],
    u_stride: usize,
    v_data: &[u8],
    v_stride: usize,
    uv_width: usize,
    uv_height: usize,
) -> (r: Vec<u8>)
    ensures
        interleaved_of(r@, u_data@, u_stride as int, v_data@, v_stride as int, uv_width as int, uv_height as int),
{
    let mut result: Vec<u8> = Vec::new();
    let w = uv_width;
    let mut row: usize = 0;
    while row < uv_height
        invariant
            row <= uv_height,
            w == uv_width,
            result@.len() == 2 * (row * w),
            forall|r2: int, c2: int|
                0 <= r2 < row && 0 <= c2 < w ==> {
                    &&& #[trigger] result@[2 * (r2 * w + c2)] == uv_sample(u_data@, u_stride as int, r2, c2)
                    &&& result@[2 * (r2 * w + c2) + 1] == uv_sample(v_data@, v_stride as int, r2, c2)
                },
        decreases uv_height - row,
    {
        proof { lemma_row_base(w as int, row as int); }
        let mut col: usize = 0;
        while col < w
            invariant
                row < uv_height,
                col <= w,
                w == uv_width,
                result@.len() == 2 * (row * w + col),
                forall|r2: int, c2: int|
                    0 <= r2 && 0 <= c2 < w && (r2 < row || (r2 == row && c2 < col)) ==> {
                        &&& #[trigger] result@[2 * (r2 * w + c2)] == uv_sample(u_data@, u_stride as int, r2, c2)
                        &&& result@[2 * (r2 * w + c2) + 1] == uv_sample(v_data@, v_stride as int, r2, c2)
                    },
            decreases w - col,
        {
            proof {
                lemma_mul_bound(row as int, u_stride as int);
                lemma_mul_bound(row as int, v_stride as int);
            }
            let ui: u128 = row as u128 * u_stride as u128 + col as u128;
            let vi: u128 = row as u128 * v_stride as u128 + col as u128;
            let u: u8 = if ui < u_data.len() as u128 { u_data[ui as usize] } else { 128 };
            let v: u8 = if vi < v_data.len() as u128 { v_data[vi as usize] } else { 128 };
            let ghost before = result@;
            result.push(u);
            result.push(v);
            proof {
                assert forall|r2: int, c2: int|
                    0 <= r2 && 0 <= c2 < w && (r2 < row || (r2 == row && c2 < col + 1)) implies {
                        &&& #[trigger] result@[2 * (r2 * w + c2)] == uv_sample(u_data@, u_stride as int, r2, c2)
                        &&& result@[2 * (r2 * w + c2) + 1] == uv_sample(v_data@, v_stride as int, r2, c2)
                    } by {
                    if r2 == row && c2 == col {
                    } else {
                        lemma_index_order(w as int, row as int, col as int, r2, c2);
                        assert(result@[2 * (r2 * w + c2)] == before[2 * (r2 * w + c2)]);
                        assert(result@[2 * (r2 * w + c2) + 1] == before[2 * (r2 * w + c2) + 1]);
                    }
                }
            }
            col = col + 1;
        }
        row = row + 1;
    }
    result
}

/// A chroma plane ready to upload: its bytes and the distance between its rows.
#[derive(Clone, Debug)]
pub struct UvUpload {
    pub data: Vec<u8>,
    pub bytes_per_row: u32,
}

/// The bytes of plane `i` of a frame, empty where the frame has no such plane.
pub open spec fn plane_data(frame: VideoFrame, i: int) -> Seq<u8> {
    if frame.planes@.len() > i { frame.planes@[i].data@ } else { Seq::<u8>::empty() }
}

/// The stride of plane `i` of a frame, 0 where the frame has no such plane.
pub open spec fn plane_stride(frame: VideoFrame, i: int) -> int {
    if frame.planes@.len() > i { frame.planes@[i].stride as int } else { 0 }
}

/// Whether `up` holds the frame's second and third planes interleaved over half
/// its width and height, with rows of twice that half width.
pub open spec fn interleaved_upload(frame: VideoFrame, up: UvUpload) -> bool {
    &&& up.bytes_per_row == 2 * (frame.width / 2)
    &&& interleaved_of(
        up.data@,
        plane_data(frame, 1),
        plane_stride(frame, 1),
        plane_data(frame, 2),
        plane_stride(frame, 2),
        (frame.width / 2) as int,
        (frame.height / 2) as int,
    )
}

/// What the renderer uploads as the chroma plane of a frame: for NV12, the
/// second plane as it is (nothing where the frame has no second plane); for
/// any other format, the second and third planes (each empty with stride 0
/// where missing) interleaved over half the frame's width and height, with
/// rows of twice that half width. Returns `None` where nothing is uploaded.
pub fn uv_upload(frame: &VideoFrame) -> (r: Option<UvUpload>)
    ensures
        frame.format == PixelFormat::Nv12 ==> match r {
            None => frame.planes@.len() < 2,
            Some(up) => frame.planes@.len() >= 2 && up.data@ == frame.planes@[1].data@
                && up.bytes_per_row as int == frame.planes@[1].stride as int % 0x1_0000_0000,
        },
        frame.format != PixelFormat::Nv12 ==> r is Some && interleaved_upload(*frame, r->0),
{
    match frame.format {
        PixelFormat::Nv12 => {
            if frame.planes.len() >= 2 {
                let plane = &frame.planes[1];
                let bpr: u32 = (plane.stride as u64 % 0x1_0000_0000u64) as u32;
                Some(UvUpload { data: plane.data.clone(), bytes_per_row: bpr })
            } else {
                None
            }
        },
        _ => {
            let empty: Vec<u8> = Vec::new();
            let (u_data, u_stride): (&[u8], usize) = if frame.planes.len() >= 2 {
                (frame.planes[1].data.as_slice(), frame.planes[1].stride)
            } else {
                (empty.as_slice(), 0)
            };
            let (v_data, v_stride): (&[u8], usize) = if frame.planes.len() >= 3 {
                (frame.planes[2].data.as_slice(), frame.planes[2].stride)
            } else {
                (empty.as_slice(), 0)
            };
            let uv_w = (frame.width / 2) as usize;
            let uv_h = (frame.height / 2) as usize;
            let data = interleave_uv_planes(u_data, u_stride, v_data, v_stride, uv_w, uv_h);
            let up = UvUpload { data, bytes_per_row: frame.width / 2 * 2 };
            proof {
                assert(plane_data(*frame, 1) == u_data@ && plane_stride(*frame, 1) == u_stride as int);
                assert(plane_data(*frame, 2) == v_data@ && plane_stride(*frame, 2) == v_stride as int);
            }
            Some(up)
        },
    }
}

/// How the renderer follows a frame of a new size: the size its textures are
/// made for, and the size of its drawing surface, which is never 0.
#[derive(Clone, Copy, Debug, PartialEq, Eq, Structural)]
pub struct Resize {
    pub width: u32,
    pub height: u32,
    pub surface_width: u32,
    pub surface_height: u32,
}

/// `Some` where a frame of `frame_width` x `frame_height` differs in size from
/// the `width` x `height` that the renderer is set up for: the textures follow
/// the frame's size, the surface too but at least 1 x 1. `None` where the size
/// is the same.
pub open spec fn spec_resize_for_frame(width: u32, height: u32, frame_width: u32, frame_height: u32) -> Option<Resize> {
    if frame_width != width || frame_height != height {
        Some(Resize {
            width: frame_width,
            height: frame_height,
            surface_width: if frame_width == 0 { 1 } else { frame_width },
            surface_height: if frame_height == 0 { 1 } else { frame_height },
        })
    } else {
        None
    }
}

/// Whether and how the renderer is set up anew for a frame (see
/// `spec_resize_for_frame`).
pub fn resize_for_frame(width: u32, height: u32, frame_width: u32, frame_height: u32) -> (r: Option<Resize>)
    ensures
        r == spec_resize_for_frame(width, height, frame_width, frame_height),
{
    if frame_width != width || frame_height != height {
        Some(Resize {
            width: frame_width,
            height: frame_height,
            surface_width: if frame_width == 0 { 1 } else { frame_width },
            surface_height: if frame_height == 0 { 1 } else { frame_height },
        })
    } else {
        None
    }
}

} // verus!
