//! Verified core of an Android video player plugin: media sources, the
//! registry of custom data streams served to the player, the data-source
//! error model, the decisions behind the native stream bridge, and the
//! bookkeeping of the shared sleep timer.
pub mod text;
pub mod playback_error_code;
pub mod error;
pub mod err;
pub mod media_stream;
pub mod media_source;
pub mod bridge;
pub mod read_seek;
pub mod sleep;
pub mod api;
pub mod utils;
pub mod laws;

pub use api::{VideoPlayerOptions, VideoPlayerResponse};
pub use err::Error;
pub use error::{DataSourceError, IoErrorKind};
pub use media_source::{DataSource, FilePath, MediaSource, MediaSourceRepr, PlayerSources, prepare_sources};
pub use media_stream::{MediaStream, MediaStreams};
