//! The options with which the video player is opened, and what it reports
//! when it closes.
use vstd::prelude::*;

verus! {

/// Optional settings of the video player.
#[derive(Clone, Debug, PartialEq, Eq, Hash, Structural)]
pub struct VideoPlayerOptions {
    /// The index of the media source to start playback from. Defaults to `0`.
    pub initial_src_index: Option<usize>,
    /// The time in the media source to start playback from; values outside
    /// the valid range are clamped. Defaults to `0`.
    pub initial_src_time_ms: Option<u64>,
    /// Whether to start playback automatically. Defaults to `true`.
    pub autoplay: Option<bool>,
    /// Whether to keep the screen on during playback. Defaults to `true`.
    pub keep_screen_on: Option<bool>,
    /// Whether to prevent screen capture of the player (Android's
    /// `FLAG_SECURE`); if not specified, the caller's state is inherited.
    pub prevent_screen_capture: Option<bool>,
    /// Whether to close the player and return an error when playback fails.
    /// Defaults to `false`.
    pub reject_on_playback_error: Option<bool>,
}

impl Default for VideoPlayerOptions {
    /// No setting specified.
    fn default() -> (o: Self)
        ensures
            o.initial_src_index is None,
            o.initial_src_time_ms is None,
            o.autoplay is None,
            o.keep_screen_on is None,
            o.prevent_screen_capture is None,
            o.reject_on_playback_error is None,
    {
        VideoPlayerOptions {
            initial_src_index: None,
            initial_src_time_ms: None,
            autoplay: None,
            keep_screen_on: None,
            prevent_screen_capture: None,
            reject_on_playback_error: None,
        }
    }
}

/// What the video player reports when it closes: the media source played
/// last, and the time reached in it.
#[derive(Clone, Debug, PartialEq, Eq, Hash, Structural)]
pub struct VideoPlayerResponse {
    pub last_src_index: usize,
    pub last_src_time_ms: u64,
}

} // verus!
