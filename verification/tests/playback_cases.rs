use keyecho::echo::{
    audition_stroke, next_rand, sample_key, should_reopen_output, AudioCursor, AUDIO_EVENT_QUEUE_CAPACITY,
    LOW_LATENCY_BUFFER_CANDIDATES, SAMPLE_KEY_COUNT,
};
use keyecho::error::GeneralError;
use keyecho::keys::Key;
use keyecho::ui::{find_deep_link, on_close_requested, on_exit_requested, MenuItemId, WindowLabel};

#[test]
fn audition_picks_varied_keys() {
    let mut seed = 0x1234_5678_9abc_def0_u64;
    let picks: std::collections::HashSet<usize> =
        (0..20).map(|_| (next_rand(&mut seed) as usize) % SAMPLE_KEY_COUNT).collect();
    assert!(picks.len() > 1, "audition keys should vary");
}

#[test]
fn audition_strokes_stay_within_pacing() {
    let mut seed = 1u64;
    for _ in 0..500 {
        let stroke = audition_stroke(&mut seed);
        assert!((70..=110).contains(&stroke.hold_ms));
        assert!((120..=220).contains(&stroke.gap_ms));
        assert_ne!(seed, 0);
    }
    assert_eq!(sample_key(3), Key::Space);
}

#[test]
fn xorshift_step_is_exact() {
    let mut seed = 1u64;
    assert_eq!(next_rand(&mut seed), 1082269761);
    assert_eq!(seed, 1082269761);
}

#[test]
fn audio_event_queue_is_bounded() {
    assert_eq!(AUDIO_EVENT_QUEUE_CAPACITY, 256);
}

#[test]
fn audio_buffer_candidates_favor_latency_then_stability() {
    assert_eq!(LOW_LATENCY_BUFFER_CANDIDATES, [512, 1024, 2048]);
}

#[test]
fn audio_source_rejects_invalid_format() {
    assert!(AudioCursor::new(1, 0, 44_100).is_none());
    assert!(AudioCursor::new(1, 1, 0).is_none());
}

#[test]
fn audio_source_reports_exact_remaining_samples() {
    let mut source = AudioCursor::new(4, 2, 1_000).expect("valid source");

    assert_eq!(source.remaining(), 4);
    assert_eq!(source.total_duration_nanos(), 2_000_000);

    assert_eq!(source.next_index(), Some(0));
    assert_eq!(source.remaining(), 3);
    assert_eq!(source.next_index(), Some(1));
    assert_eq!(source.next_index(), Some(2));
    assert_eq!(source.next_index(), Some(3));
    assert_eq!(source.next_index(), None);
    assert_eq!(source.remaining(), 0);
}

#[test]
fn lost_or_missing_output_is_reopened() {
    assert!(should_reopen_output(false, false));
    assert!(should_reopen_output(true, true));
    assert!(!should_reopen_output(true, false));
}

#[test]
fn closing_the_dashboard_keeps_the_app_in_the_tray() {
    let flag = on_close_requested(false, WindowLabel::Dashboard.as_str());
    assert!(flag);
    assert_eq!(on_exit_requested(flag, false), (false, true));
    assert_eq!(on_exit_requested(false, false), (false, false));
    assert_eq!(on_exit_requested(true, true), (true, false));
    assert!(!on_close_requested(false, "Other"));
}

#[test]
fn tray_menu_ids_round_trip() {
    for id in [MenuItemId::DisplayDashboard, MenuItemId::Restart, MenuItemId::Quit, MenuItemId::AppVersion] {
        assert_eq!(MenuItemId::from_id(id.as_str()), Some(id));
    }
    assert_eq!(MenuItemId::from_id("quit"), None);
}

#[test]
fn deep_link_argument_is_found() {
    let args = vec!["keyecho".to_string(), "--flag".to_string(), "keyecho://activate?x=1".to_string()];
    assert_eq!(find_deep_link(&args), Some(2));
    assert_eq!(find_deep_link(&args[..2]), None);
}

#[test]
fn general_error_carries_its_message() {
    assert_eq!(GeneralError::from_message("boom").message(), "boom");
}

#[test]
fn event_source_returns_fresh_cursor_over_shared_samples() {
    let cached = AudioCursor::new(3, 1, 44_100).expect("valid source");
    let mut first = cached;
    let second = cached;

    assert_eq!(first.next_index(), Some(0));
    assert_eq!(first.remaining(), 2);
    assert_eq!(second.remaining(), 3);
}
