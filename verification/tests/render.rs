use raptor::media::{PixelFormat, PlaneData, VideoFrame};
use raptor::render::{interleave_uv_planes, resize_for_frame, uv_upload, Resize};

#[test]
fn test_interleave_uv_planes() {
    let u = vec![10u8, 20, 30, 40];
    let v = vec![50u8, 60, 70, 80];
    let result = interleave_uv_planes(&u, 2, &v, 2, 2, 2);
    assert_eq!(result, vec![10, 50, 20, 60, 30, 70, 40, 80]);
}

#[test]
fn test_interleave_uv_empty() {
    let result = interleave_uv_planes(&[], 0, &[], 0, 0, 0);
    assert!(result.is_empty());
}

// === Further cases ===

#[test]
fn short_planes_are_neutral() {
    let u = vec![1u8, 2, 3];
    let v = vec![9u8];
    // Stride 4: rows start at 0 and 4; row 1 lies past both planes.
    let result = interleave_uv_planes(&u, 4, &v, 4, 2, 2);
    assert_eq!(result, vec![1, 9, 2, 128, 128, 128, 128, 128]);
}

#[test]
fn stride_skips_padding() {
    let u = vec![1u8, 2, 0, 3, 4, 0];
    let v = vec![5u8, 6, 0, 7, 8, 0];
    let result = interleave_uv_planes(&u, 3, &v, 3, 2, 2);
    assert_eq!(result, vec![1, 5, 2, 6, 3, 7, 4, 8]);
}

fn frame(format: PixelFormat, planes: Vec<PlaneData>) -> VideoFrame {
    VideoFrame { pts_us: 0, width: 4, height: 2, format, planes }
}

#[test]
fn nv12_uploads_second_plane() {
    let f = frame(
        PixelFormat::Nv12,
        vec![PlaneData { data: vec![0; 8], stride: 4 }, PlaneData { data: vec![7, 8, 9, 10], stride: 4 }],
    );
    let up = uv_upload(&f).unwrap();
    assert_eq!(up.data, vec![7, 8, 9, 10]);
    assert_eq!(up.bytes_per_row, 4);
    assert!(uv_upload(&frame(PixelFormat::Nv12, vec![PlaneData { data: vec![0; 8], stride: 4 }])).is_none());
}

#[test]
fn yuv420p_uploads_interleaved_planes() {
    let f = frame(
        PixelFormat::Yuv420p,
        vec![
            PlaneData { data: vec![0; 8], stride: 4 },
            PlaneData { data: vec![1, 2], stride: 2 },
            PlaneData { data: vec![3, 4], stride: 2 },
        ],
    );
    let up = uv_upload(&f).unwrap();
    assert_eq!(up.data, vec![1, 3, 2, 4]);
    assert_eq!(up.bytes_per_row, 4);
    let missing = uv_upload(&frame(PixelFormat::Yuv420p, vec![])).unwrap();
    assert_eq!(missing.data, vec![128, 128, 128, 128]);
}

#[test]
fn resize_follows_frame_size_with_nonzero_surface() {
    assert_eq!(resize_for_frame(640, 480, 640, 480), None);
    assert_eq!(
        resize_for_frame(640, 480, 1920, 1080),
        Some(Resize { width: 1920, height: 1080, surface_width: 1920, surface_height: 1080 })
    );
    assert_eq!(
        resize_for_frame(640, 480, 0, 480),
        Some(Resize { width: 0, height: 480, surface_width: 1, surface_height: 480 })
    );
    assert_eq!(
        resize_for_frame(640, 480, 640, 0),
        Some(Resize { width: 640, height: 0, surface_width: 640, surface_height: 1 })
    );
}
