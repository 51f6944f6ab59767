use dictate::osd::LevelRingBuffer;
use dictate::osd::OsdState;
use dictate::osd::State;
use dictate::overlay_state::WindowAnimationState;
use dictate::protocol::State as ProtocolState;
use dictate::protocol::should_unload_model;
use dictate::time::Moment;
use dictate::time::TimeSpan;

fn at_millis(ms: u128) -> Moment {
    Moment::from_nanos(ms * 1_000_000).unwrap()
}

#[test]
fn ring_shows_the_last_ten_levels_oldest_first() {
    let mut ring = LevelRingBuffer::new(0u32);
    for level in 1..=35u32 {
        ring.push(level);
    }
    assert_eq!(ring.last_10(), (26..=35).collect::<Vec<u32>>());
    assert_eq!(ring.latest(), 35);
}

#[test]
fn transcribing_stays_visible_for_half_a_second() {
    let mut osd = OsdState::new_at(0u8, at_millis(0));
    osd.update_level_at(7, at_millis(1));
    osd.update_state_at(State::Transcribing, false, at_millis(1_000));
    assert_eq!(osd.state, State::Transcribing);
    assert_eq!(osd.transcribing_state.unwrap().frozen_level, 7);

    osd.update_state_at(State::Idle, false, at_millis(1_200));
    assert_eq!(osd.state, State::Transcribing);
    assert!(osd.linger_until.is_none());

    osd.update_state_at(State::Idle, false, at_millis(1_600));
    assert_eq!(osd.state, State::Idle);
    assert!(osd.transcribing_state.is_none());
    assert_eq!(osd.linger_until, Some(at_millis(3_600)));
    assert!(osd.needs_window_at(at_millis(3_599)));
    assert!(!osd.needs_window_at(at_millis(3_600)));
}

#[test]
fn recording_clears_a_lingering_result() {
    let mut osd = OsdState::new_at(0u8, at_millis(0));
    osd.update_state_at(State::Transcribing, false, at_millis(0));
    osd.update_state_at(State::Idle, true, at_millis(600));
    assert!(osd.linger_until.is_some());
    osd.update_state_at(State::Recording, false, at_millis(700));
    assert!(osd.linger_until.is_none());
    assert_eq!(osd.recording_state.as_ref().unwrap().entered_at, at_millis(700));
    assert!(osd.needs_window_at(at_millis(10_000)));
}

#[test]
fn window_lifecycle_follows_need() {
    let mut osd = OsdState::new_at(0u8, at_millis(0));
    assert!(!osd.should_create_window_at(false, at_millis(1)));
    osd.update_state_at(State::Error, false, at_millis(1));
    assert!(osd.should_create_window_at(false, at_millis(2)));
    osd.start_appearing_animation();
    assert_eq!(
        osd.window_animation.as_ref().unwrap().state,
        WindowAnimationState::Appearing
    );
    osd.update_state_at(State::Idle, false, at_millis(3));
    assert!(osd.should_destroy_window_at(true, at_millis(4)));
    assert!(osd.should_start_disappearing_at(true, at_millis(4)));
    osd.start_disappearing_animation();
    assert!(!osd.should_start_disappearing_at(true, at_millis(5)));
    assert!(!osd.should_close_window());
    osd.window_animation = None;
    assert!(osd.should_close_window());
}

#[test]
fn silence_for_fifteen_seconds_is_a_timeout() {
    let osd = OsdState::new_at(0u8, at_millis(1_000));
    assert!(!osd.has_timeout_at(at_millis(16_000)));
    assert!(osd.has_timeout_at(at_millis(16_001)));
    assert!(!osd.has_timeout_at(at_millis(0)));
}

#[test]
fn state_colours() {
    assert_eq!(State::Idle.rgb8(false), (122, 122, 122));
    assert_eq!(State::Idle.rgb8(true), (118, 211, 155));
    assert_eq!(State::Recording.rgb8(true), (231, 76, 60));
    assert_eq!(State::Transcribing.rgb8(false), (52, 152, 219));
    assert_eq!(State::Error.rgb8(false), (243, 156, 18));
}

#[test]
fn protocol_state_names() {
    assert_eq!(ProtocolState::Idle.as_str(), "Idle");
    assert_eq!(ProtocolState::Idle.ui_label(), "Ready");
    assert_eq!(ProtocolState::Transcribing.ui_label(), "Transcribing");
}

#[test]
fn idle_service_unloads_only_after_the_timeout() {
    let minute = TimeSpan::from_secs(60);
    assert!(!should_unload_model(minute, TimeSpan::from_secs(60), true));
    assert!(should_unload_model(minute, TimeSpan::from_secs(61), true));
    assert!(!should_unload_model(minute, TimeSpan::from_secs(61), false));
    assert!(!should_unload_model(TimeSpan::from_millis(999), TimeSpan::from_secs(3600), true));
}
