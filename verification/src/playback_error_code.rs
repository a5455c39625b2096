//! Playback error code.
//!
//! This is only a partial list. For the full list, see the media3
//! `PlaybackException` constants.
use vstd::prelude::*;

verus! {

/// Error codes greater than this value are reserved for custom error codes
/// defined by player implementations, so that they do not collide with the
/// codes defined by media3.
pub const CUSTOM_BASE: i32 = 1000000;

/// An I/O error whose cause could not be identified.
pub const IO_UNSPECIFIED: i32 = 2000;

/// The network connection could not be established.
pub const IO_NETWORK_CONNECTION_FAILED: i32 = 2001;

/// The network request timed out because the server took too long to respond.
pub const IO_NETWORK_CONNECTION_TIMEOUT: i32 = 2002;

/// The server returned a resource whose "Content-Type" HTTP header value is invalid.
pub const IO_INVALID_HTTP_CONTENT_TYPE: i32 = 2003;

/// The server returned an HTTP status code that the player does not expect.
pub const IO_BAD_HTTP_STATUS: i32 = 2004;

/// The file being accessed does not exist.
pub const IO_FILE_NOT_FOUND: i32 = 2005;

/// The player lacks the permission required for the I/O operation.
pub const IO_NO_PERMISSION: i32 = 2006;

/// The player attempted to access cleartext HTTP traffic (http://), which the
/// app's Network Security Configuration does not permit.
pub const IO_CLEARTEXT_NOT_PERMITTED: i32 = 2007;

} // verus!
