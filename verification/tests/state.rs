use raptor::state::{PlayerEvent, PlayerState, SeekMode};

// === Allowed transitions ===

#[test]
fn idle_can_load() {
    assert!(PlayerState::Idle
        .can_transition_to(&PlayerEvent::Load { url: "test.mp4".into() })
        .is_ok());
}

#[test]
fn loading_can_become_ready() {
    assert!(PlayerState::Loading.can_transition_to(&PlayerEvent::FileLoaded).is_ok());
}

#[test]
fn loading_can_fail() {
    assert!(PlayerState::Loading.can_transition_to(&PlayerEvent::End).is_ok());
}

#[test]
fn ready_can_play() {
    assert!(PlayerState::Ready.can_transition_to(&PlayerEvent::Play).is_ok());
}

#[test]
fn ready_can_load_another_file() {
    assert!(PlayerState::Ready
        .can_transition_to(&PlayerEvent::Load { url: "test2.mp4".into() })
        .is_ok());
}

#[test]
fn ready_cannot_stop() {
    // Ready → Stop is valid
    assert!(PlayerState::Ready.can_transition_to(&PlayerEvent::Stop).is_ok());
}

#[test]
fn playing_can_pause() {
    assert!(PlayerState::Playing.can_transition_to(&PlayerEvent::Pause).is_ok());
}

#[test]
fn playing_can_stop() {
    assert!(PlayerState::Playing.can_transition_to(&PlayerEvent::Stop).is_ok());
}

#[test]
fn playing_can_seek() {
    assert!(PlayerState::Playing
        .can_transition_to(&PlayerEvent::Seek { target_us: 5_000_000, mode: SeekMode::Absolute })
        .is_ok());
}

#[test]
fn paused_can_resume() {
    assert!(PlayerState::Paused.can_transition_to(&PlayerEvent::Play).is_ok());
}

#[test]
fn paused_can_seek() {
    assert!(PlayerState::Paused
        .can_transition_to(&PlayerEvent::Seek { target_us: 10_000_000, mode: SeekMode::Absolute })
        .is_ok());
}

#[test]
fn paused_can_load() {
    assert!(PlayerState::Paused
        .can_transition_to(&PlayerEvent::Load { url: "test3.mp4".into() })
        .is_ok());
}

// === Refused transitions ===

#[test]
fn idle_cannot_play() {
    assert!(PlayerState::Idle.can_transition_to(&PlayerEvent::Play).is_err());
}

#[test]
fn idle_cannot_pause() {
    assert!(PlayerState::Idle.can_transition_to(&PlayerEvent::Pause).is_err());
}

#[test]
fn loading_cannot_play() {
    assert!(PlayerState::Loading.can_transition_to(&PlayerEvent::Play).is_err());
}

#[test]
fn loading_cannot_pause() {
    assert!(PlayerState::Loading.can_transition_to(&PlayerEvent::Pause).is_err());
}

// === Others ===

#[test]
fn playing_can_reach_eof() {
    assert!(PlayerState::Playing.can_transition_to(&PlayerEvent::End).is_ok());
}

#[test]
fn paused_can_stop() {
    assert!(PlayerState::Paused.can_transition_to(&PlayerEvent::Stop).is_ok());
}

#[test]
fn stopping_can_stopped() {
    // Stopped → Load is valid
    assert!(PlayerState::Stopped
        .can_transition_to(&PlayerEvent::Load { url: "x".into() })
        .is_ok());
}

#[test]
fn state_names() {
    assert_eq!(PlayerState::Idle.name(), "Idle");
    assert_eq!(PlayerState::Loading.name(), "Loading");
    assert_eq!(PlayerState::Ready.name(), "Ready");
    assert_eq!(PlayerState::Playing.name(), "Playing");
    assert_eq!(PlayerState::Paused.name(), "Paused");
    assert_eq!(PlayerState::Stopped.name(), "Stopped");
}

#[test]
fn next_state_transitions() {
    assert_eq!(
        PlayerState::Idle.next_state(&PlayerEvent::Load { url: "x".into() }),
        Some(PlayerState::Loading)
    );
    assert_eq!(PlayerState::Ready.next_state(&PlayerEvent::Play), Some(PlayerState::Playing));
}

// === Further cases ===

#[test]
fn refused_transition_names_state_and_event() {
    let err = PlayerState::Idle.can_transition_to(&PlayerEvent::Play).unwrap_err();
    assert_eq!(err, "invalid transition: Idle cannot handle Play");
    let err = PlayerState::Stopped
        .can_transition_to(&PlayerEvent::Seek { target_us: 1, mode: SeekMode::Relative })
        .unwrap_err();
    assert_eq!(err, "invalid transition: Stopped cannot handle Seek { target_us: 1, mode: Relative }");
    let err = PlayerState::Loading
        .can_transition_to(&PlayerEvent::Load { url: "x".into() })
        .unwrap_err();
    assert_eq!(err, "invalid transition: Loading cannot handle Load { url: \"x\" }");
    let err = PlayerState::Ready.can_transition_to(&PlayerEvent::SetVolume { volume: 80 }).unwrap_err();
    assert_eq!(err, "invalid transition: Ready cannot handle SetVolume { volume: 80 }");
}

#[test]
fn refused_transition_message_is_the_debug_text() {
    let states = [
        PlayerState::Idle,
        PlayerState::Loading,
        PlayerState::Ready,
        PlayerState::Playing,
        PlayerState::Paused,
        PlayerState::Stopped,
    ];
    let events = vec![
        PlayerEvent::Load { url: "file:///a \"b\" \\c\n\t\r\u{0}\u{1}\u{1f}\u{7f}'é\u{301}\u{200b}".into() },
        PlayerEvent::Load { url: String::new() },
        PlayerEvent::Play,
        PlayerEvent::Pause,
        PlayerEvent::TogglePause,
        PlayerEvent::Stop,
        PlayerEvent::Seek { target_us: -1_500_000, mode: SeekMode::Absolute },
        PlayerEvent::Seek { target_us: i64::MAX, mode: SeekMode::Relative },
        PlayerEvent::SetVolume { volume: 255 },
        PlayerEvent::Quit,
        PlayerEvent::End,
        PlayerEvent::PlaybackRestart,
        PlayerEvent::FileLoaded,
    ];
    for e in &events {
        assert_eq!(e.debug_text(), format!("{:?}", e));
        for s in &states {
            if let Err(m) = s.can_transition_to(e) {
                assert_eq!(m, format!("invalid transition: {:?} cannot handle {:?}", s, e));
            }
        }
    }
}

#[test]
fn default_state_is_idle() {
    assert_eq!(PlayerState::default(), PlayerState::Idle);
}

#[test]
fn check_agrees_with_next_state_everywhere() {
    let states = [
        PlayerState::Idle,
        PlayerState::Loading,
        PlayerState::Ready,
        PlayerState::Playing,
        PlayerState::Paused,
        PlayerState::Stopped,
    ];
    let events = vec![
        PlayerEvent::Load { url: "a".into() },
        PlayerEvent::Play,
        PlayerEvent::Pause,
        PlayerEvent::TogglePause,
        PlayerEvent::Stop,
        PlayerEvent::Seek { target_us: 0, mode: SeekMode::Absolute },
        PlayerEvent::SetVolume { volume: 3 },
        PlayerEvent::Quit,
        PlayerEvent::End,
        PlayerEvent::PlaybackRestart,
        PlayerEvent::FileLoaded,
    ];
    let mut accepted = 0;
    for s in states.iter() {
        for e in events.iter() {
            let ok = s.can_transition_to(e).is_ok();
            assert_eq!(ok, s.next_state(e).is_some());
            if ok {
                accepted += 1;
            }
        }
    }
    assert_eq!(accepted, 23);
}

#[test]
fn load_from_every_state_but_loading() {
    for s in [
        PlayerState::Idle,
        PlayerState::Ready,
        PlayerState::Playing,
        PlayerState::Paused,
        PlayerState::Stopped,
    ] {
        assert_eq!(s.next_state(&PlayerEvent::Load { url: "f".into() }), Some(PlayerState::Loading));
    }
    assert_eq!(PlayerState::Loading.next_state(&PlayerEvent::Load { url: "f".into() }), None);
}

#[test]
fn toggle_twice_returns() {
    let once = PlayerState::Playing.next_state(&PlayerEvent::TogglePause).unwrap();
    assert_eq!(once, PlayerState::Paused);
    assert_eq!(once.next_state(&PlayerEvent::TogglePause), Some(PlayerState::Playing));
    assert_eq!(PlayerState::Paused.next_state(&PlayerEvent::Seek { target_us: 3, mode: SeekMode::Absolute }), Some(PlayerState::Paused));
    assert_eq!(PlayerState::Loading.next_state(&PlayerEvent::End), Some(PlayerState::Idle));
}

#[test]
fn event_names() {
    assert_eq!(PlayerEvent::Load { url: "x".into() }.name(), "Load");
    assert_eq!(PlayerEvent::FileLoaded.name(), "FileLoaded");
    assert_eq!(PlayerEvent::SetVolume { volume: 1 }.name(), "SetVolume");
}
