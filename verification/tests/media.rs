use raptor::media::{
    audio_codec_label, is_seek_marker, media_info_from_streams, micros_to_ticks, packet_time_base,
    plane_count, route_packet, seek_marker, ticks_to_micros, video_codec_label, AudioCodecId,
    PacketRoute, PixelFormat, SampleFormat, StreamParams, VideoCodecId,
};

#[test]
fn test_av_time_to_seconds() {
    // 5000 ticks of 1/1000 s are 5 s.
    let us = ticks_to_micros(5000, 1, 1000).unwrap();
    assert!((us - 5_000_000).abs() < 1_000);
}

fn streams() -> Vec<StreamParams> {
    vec![
        StreamParams::Other,
        StreamParams::Audio { codec: AudioCodecId::Aac, sample_rate: 48000, channels: 2, sample_format: SampleFormat::F32Planar },
        StreamParams::Video { codec: VideoCodecId::H264, width: 1920, height: 1080, pixel_format: PixelFormat::Yuv420p, fps_num: 30000, fps_den: 1001 },
        StreamParams::Video { codec: VideoCodecId::Vp9, width: 640, height: 480, pixel_format: PixelFormat::Nv12, fps_num: 25, fps_den: 1 },
        StreamParams::Audio { codec: AudioCodecId::Mp3, sample_rate: 44100, channels: 1, sample_format: SampleFormat::I16 },
    ]
}

#[test]
fn first_streams_are_played() {
    let info = media_info_from_streams(10_000_000, &streams());
    assert_eq!(info.duration_us, 10_000_000);
    assert_eq!(info.video_stream_index, Some(2));
    assert_eq!(info.audio_stream_index, Some(1));
    assert_eq!(info.video_codec_id, Some(VideoCodecId::H264));
    assert_eq!(info.audio_codec_id, Some(AudioCodecId::Aac));
    assert_eq!((info.width, info.height), (1920, 1080));
    assert_eq!(info.pixel_format, PixelFormat::Yuv420p);
    assert_eq!((info.fps_num, info.fps_den), (30000, 1001));
    assert_eq!((info.sample_rate, info.channels), (48000, 2));
    assert_eq!(info.sample_format, SampleFormat::F32Planar);
}

#[test]
fn no_streams_no_description() {
    let info = media_info_from_streams(0, &vec![StreamParams::Other]);
    assert_eq!(info.video_stream_index, None);
    assert_eq!(info.audio_stream_index, None);
    assert_eq!(info.video_codec_id, None);
    assert_eq!((info.width, info.height, info.fps_num, info.fps_den), (0, 0, 0, 1));
    assert_eq!(info.pixel_format, PixelFormat::Unknown);
    assert_eq!(info.sample_format, SampleFormat::Unknown);
}

#[test]
fn frame_rate_denominator_at_least_one() {
    let s = vec![StreamParams::Video { codec: VideoCodecId::Av1, width: 1, height: 1, pixel_format: PixelFormat::Bgra, fps_num: 24, fps_den: 0 }];
    let info = media_info_from_streams(1, &s);
    assert_eq!((info.fps_num, info.fps_den), (24, 1));
}

#[test]
fn packets_go_to_their_decoder() {
    let info = media_info_from_streams(0, &streams());
    assert_eq!(route_packet(&info, 2), PacketRoute::Video);
    assert_eq!(route_packet(&info, 1), PacketRoute::Audio);
    assert_eq!(route_packet(&info, 3), PacketRoute::Discard);
    assert_eq!(route_packet(&info, 0), PacketRoute::Discard);
}

#[test]
fn seek_markers_are_empty() {
    let m = seek_marker();
    assert!(is_seek_marker(&m));
    assert_eq!(m.stream_index, 0);
    let mut p = seek_marker();
    p.data.push(1);
    assert!(!is_seek_marker(&p));
}

#[test]
fn planes_per_format() {
    assert_eq!(plane_count(PixelFormat::Yuv420p), 3);
    assert_eq!(plane_count(PixelFormat::Nv12), 2);
    assert_eq!(plane_count(PixelFormat::Rgb24), 1);
    assert_eq!(plane_count(PixelFormat::Unknown), 1);
}

#[test]
fn time_base_fallback() {
    assert_eq!(packet_time_base(1, 1000), (1, 1000));
    assert_eq!(packet_time_base(0, 1000), (1, 90000));
    assert_eq!(packet_time_base(1, -5), (1, 90000));
}

#[test]
fn tick_conversions() {
    assert_eq!(ticks_to_micros(90000, 1, 90000), Some(1_000_000));
    assert_eq!(ticks_to_micros(-3, 1, 2), Some(-1_500_000));
    assert_eq!(ticks_to_micros(1, 1, 0), None);
    assert_eq!(ticks_to_micros(i64::MAX, 1, 1), None);
    assert_eq!(micros_to_ticks(1_000_000, 1, 90000), Some(90000));
    assert_eq!(micros_to_ticks(-1_500_000, 1, 1000), Some(-1500));
    assert_eq!(micros_to_ticks(5, 0, 1000), None);
    assert_eq!(micros_to_ticks(5, 1, 0), None);
    assert_eq!(micros_to_ticks(i64::MAX, 1, 2_000_000_000), Some(i64::MAX));
}

#[test]
fn codec_labels() {
    assert_eq!(video_codec_label(Some(VideoCodecId::H264)), "Some(H264)");
    assert_eq!(video_codec_label(None), "None");
    assert_eq!(audio_codec_label(Some(AudioCodecId::Opus)), "Some(Opus)");
    assert_eq!(audio_codec_label(None), "None");
}
