use raptor::avsync::VideoSyncDecision;
use raptor::event::{AudioInfo, VideoInfo};
use raptor::media::{media_info_from_streams, AudioCodecId, SampleFormat, StreamParams};
use raptor::media::{PixelFormat, VideoCodecId};
use raptor::pipeline::{
    demux_action, demux_turn, frame_action, pipeline_plan, render_poll, stored_micros, DecodeLoop,
    DecodeStep, DemuxAction, DemuxRead, DemuxTurn, RenderPoll, RenderTracker, SeekRequest,
    END_IDLE_LIMIT,
};

#[test]
fn plan_follows_streams() {
    let info = media_info_from_streams(0, &vec![StreamParams::Audio {
        codec: AudioCodecId::Aac,
        sample_rate: 44100,
        channels: 2,
        sample_format: SampleFormat::F32,
    }]);
    let audio = Some(AudioInfo { codec: "Some(Aac)".into(), channels: 1, sample_rate: 48000 });
    let p = pipeline_plan(false, true, &None, &audio, &info);
    assert!(!p.video_decoder);
    assert!(p.audio_decoder);
    assert_eq!(p.audio_output, Some((48000, 1)));
    let p = pipeline_plan(false, false, &None, &None, &info);
    assert!(!p.audio_decoder);
    assert_eq!(p.audio_output, Some((44100, 2)));
    let empty = media_info_from_streams(0, &vec![]);
    let video = Some(VideoInfo { width: 1, height: 1, codec: "None".into(), fps_num: 0, fps_den: 1 });
    let p = pipeline_plan(false, false, &video, &None, &empty);
    assert!(p.video_decoder);
    assert_eq!(p.audio_output, None);
}

#[test]
fn negative_times_store_as_zero() {
    assert_eq!(stored_micros(-5), 0);
    assert_eq!(stored_micros(1_234_567), 1_234_567);
}

#[test]
fn decode_loop_turns() {
    let mut d = DecodeLoop::new();
    assert_eq!(d.step(true, false, None, 0), DecodeStep::Exit);
    assert_eq!(d.step(false, true, None, 0), DecodeStep::Sleep(10));
    assert_eq!(d.step(false, false, Some(8), 0), DecodeStep::Sleep(5));
    assert_eq!(d.step(false, false, Some(7), 0), DecodeStep::Receive { flush: false });
    assert_eq!(d.step(false, false, None, 1), DecodeStep::Receive { flush: true });
    assert_eq!(d.step(false, false, None, 1), DecodeStep::Receive { flush: false });
    assert_eq!(d.last_seek_gen, 1);
}

#[test]
fn render_poll_order() {
    assert_eq!(render_poll(true, true, true), RenderPoll::Exit);
    assert_eq!(render_poll(false, true, true), RenderPoll::EndStopped);
    assert_eq!(render_poll(false, false, true), RenderPoll::Idle);
    assert_eq!(render_poll(false, false, false), RenderPoll::Receive);
}

#[test]
fn frame_actions() {
    let a = frame_action(VideoSyncDecision::Display, 2_000_000);
    assert!(a.show && a.wait_us == 0 && a.position_us == 2_000_000);
    let a = frame_action(VideoSyncDecision::Wait(30_000), 1);
    assert!(a.show && a.wait_us == 30_000 && a.position_us == 1);
    let a = frame_action(VideoSyncDecision::Drop, -1);
    assert!(!a.show && a.position_us == 0);
}

#[test]
fn render_tracker_ends_on_duration() {
    let mut t = RenderTracker::new();
    assert!(t.on_frame(1_000));
    assert!(!t.on_frame(2_000));
    assert_eq!(t.render_start_us, Some(1_000));
    assert!(!t.duration_reached(5_000, 5_000));
    assert!(t.duration_reached(6_000, 5_000));
    assert!(t.on_timeout(true, true, 6_000, 5_000));
}

#[test]
fn render_tracker_ends_after_idle_limit() {
    let mut t = RenderTracker::new();
    for _ in 0..END_IDLE_LIMIT - 1 {
        assert!(!t.on_timeout(true, true, 0, 1_000_000));
    }
    assert!(t.on_timeout(true, true, 0, 1_000_000));
    // Without video or before the demuxer is done, waits never end the file.
    let mut t = RenderTracker::new();
    for _ in 0..100 {
        assert!(!t.on_timeout(false, true, 0, 0));
        assert!(!t.on_timeout(true, false, 0, 0));
    }
    assert_eq!(t.idle_count, 0);
}

#[test]
fn seek_request_fields() {
    let r = SeekRequest { target_us: 5, from_us: 3 };
    assert_eq!(r, SeekRequest { target_us: 5, from_us: 3 });
}

#[test]
fn demux_turn_serves_seeks_before_reading() {
    let req = SeekRequest { target_us: 2_500_000, from_us: 1_000_000 };
    assert_eq!(demux_turn(true, Some(req)), DemuxTurn::Exit);
    assert_eq!(demux_turn(true, None), DemuxTurn::Exit);
    assert_eq!(demux_turn(false, Some(req)), DemuxTurn::Seek { target_us: 2_500_000 });
    assert_eq!(demux_turn(false, None), DemuxTurn::Read);
}

#[test]
fn demux_action_routes_and_ends() {
    let info = media_info_from_streams(0, &vec![
        StreamParams::Other,
        StreamParams::Video { codec: VideoCodecId::H264, width: 64, height: 48, pixel_format: PixelFormat::Yuv420p, fps_num: 25, fps_den: 1 },
        StreamParams::Audio { codec: AudioCodecId::Aac, sample_rate: 48000, channels: 2, sample_format: SampleFormat::F32 },
    ]);
    let known = Some(info);
    assert_eq!(demux_action(&known, DemuxRead::Packet { stream_index: 1 }), DemuxAction::SendVideo);
    assert_eq!(demux_action(&known, DemuxRead::Packet { stream_index: 2 }), DemuxAction::SendAudio);
    assert_eq!(demux_action(&known, DemuxRead::Packet { stream_index: 0 }), DemuxAction::Skip);
    assert_eq!(demux_action(&None, DemuxRead::Packet { stream_index: 1 }), DemuxAction::Skip);
    assert_eq!(demux_action(&known, DemuxRead::EndOfStream), DemuxAction::Finish);
    assert_eq!(demux_action(&known, DemuxRead::Failed), DemuxAction::Exit);
}
