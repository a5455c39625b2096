use tauri_plugin_android_player::utils::ScopeGuard;
use tauri_plugin_android_player::{Error, VideoPlayerOptions, VideoPlayerResponse};

#[test]
fn default_options_specify_nothing() {
    let o = VideoPlayerOptions::default();
    assert_eq!(o.initial_src_index, None);
    assert_eq!(o.initial_src_time_ms, None);
    assert_eq!(o.autoplay, None);
    assert_eq!(o.keep_screen_on, None);
    assert_eq!(o.prevent_screen_capture, None);
    assert_eq!(o.reject_on_playback_error, None);
}

#[test]
fn options_and_response_compare_by_fields() {
    let mut o = VideoPlayerOptions::default();
    o.autoplay = Some(false);
    assert_ne!(o, VideoPlayerOptions::default());
    assert_eq!(o.clone(), o);
    let r = VideoPlayerResponse { last_src_index: 1, last_src_time_ms: 1500 };
    assert_eq!(r.clone(), r);
}

#[test]
fn not_android_error_message() {
    assert_eq!(Error::not_android().to_string(), "not android");
    assert_eq!(Error::from_message("boom".to_string()).to_string(), "boom");
}

#[test]
fn scope_guard_hands_out_its_action_once() {
    let mut g = ScopeGuard::new(|| 42);
    let f = g.take().unwrap();
    assert_eq!(f(), 42);
    assert!(g.take().is_none());
}
