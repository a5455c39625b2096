//! The error that a data source reports to the player.
use vstd::prelude::*;
use vstd::string::StringExecFns;
use crate::playback_error_code;
use crate::text::{push_signed_decimal, signed_decimal};

verus! {

/// The kinds of I/O error that the library tells apart, by the error code
/// they are reported with or because the operation is retried; every other
/// kind is `Other`.
#[derive(Clone, Copy, Debug, PartialEq, Eq, Structural)]
pub enum IoErrorKind {
    NotFound,
    PermissionDenied,
    ConnectionRefused,
    ConnectionReset,
    ConnectionAborted,
    HostUnreachable,
    NetworkUnreachable,
    NetworkDown,
    NotConnected,
    Interrupted,
    Other,
}

/// An operation that failed with an error of this kind is simply tried
/// again: it was interrupted before it could complete.
pub fn is_retried(kind: IoErrorKind) -> (retry: bool)
    ensures
        retry == (kind == IoErrorKind::Interrupted),
{
    match kind {
        IoErrorKind::Interrupted => true,
        _ => false,
    }
}

/// The playback error code that an I/O error of the given kind is reported with.
pub open spec fn io_error_code(kind: IoErrorKind) -> i32 {
    match kind {
        IoErrorKind::NotFound => playback_error_code::IO_FILE_NOT_FOUND,
        IoErrorKind::PermissionDenied => playback_error_code::IO_NO_PERMISSION,
        IoErrorKind::ConnectionRefused
        | IoErrorKind::ConnectionReset
        | IoErrorKind::ConnectionAborted
        | IoErrorKind::HostUnreachable
        | IoErrorKind::NetworkUnreachable
        | IoErrorKind::NetworkDown
        | IoErrorKind::NotConnected => playback_error_code::IO_NETWORK_CONNECTION_FAILED,
        _ => playback_error_code::IO_UNSPECIFIED,
    }
}

/// The error code that an I/O error of the given kind is reported with.
pub fn error_code_for_io_kind(kind: IoErrorKind) -> (code: i32)
    ensures
        code == io_error_code(kind),
{
    match kind {
        IoErrorKind::NotFound => playback_error_code::IO_FILE_NOT_FOUND,
        IoErrorKind::PermissionDenied => playback_error_code::IO_NO_PERMISSION,
        IoErrorKind::ConnectionRefused
        | IoErrorKind::ConnectionReset
        | IoErrorKind::ConnectionAborted
        | IoErrorKind::HostUnreachable
        | IoErrorKind::NetworkUnreachable
        | IoErrorKind::NetworkDown
        | IoErrorKind::NotConnected => playback_error_code::IO_NETWORK_CONNECTION_FAILED,
        _ => playback_error_code::IO_UNSPECIFIED,
    }
}

/// The descriptions of an error's source chain, joined as `"; "`-prefixed
/// segments.
pub open spec fn cause_chain(causes: Seq<Seq<char>>) -> Seq<char>
    decreases causes.len(),
{
    if causes.len() == 0 {
        Seq::empty()
    } else {
        cause_chain(causes.drop_last()) + "; "@ + causes.last()
    }
}

/// The message of the exception raised on the player's side for an error
/// whose source chain has the given descriptions.
pub open spec fn exception_message(causes: Seq<Seq<char>>) -> Seq<char> {
    "Data source error"@ + cause_chain(causes)
}

/// The description of a panic whose payload reads `payload`, if it is text.
pub open spec fn panic_message(payload: Option<Seq<char>>) -> Seq<char> {
    match payload {
        Some(p) => "rust function panicked; "@ + p,
        None => "rust function panicked"@,
    }
}

/// The text that `to_string` gives for an error with the given code.
pub open spec fn display_message(code: i32) -> Seq<char> {
    "data source error (code="@ + signed_decimal(code as int) + ")"@
}

/// The views of a list of strings.
pub open spec fn string_views(v: Seq<String>) -> Seq<Seq<char>> {
    v.map_values(|s: String| s@)
}

/// An error of a data source: a playback error code and its source, given
/// by the descriptions along the source chain (the source's own description
/// first, then that of the source's source, and so on).
#[derive(Debug)]
pub struct DataSourceError {
    error_code: i32,
    causes: Vec<String>,
}

impl View for DataSourceError {
    /// The error code, and the descriptions along the source chain.
    type V = (i32, Seq<Seq<char>>);

    closed spec fn view(&self) -> (i32, Seq<Seq<char>>) {
        (self.error_code, string_views(self.causes@))
    }
}

impl DataSourceError {
    /// Creates a data source error with the specified error code.
    ///
    /// Use one of the `playback_error_code::IO_*` constants as the error
    /// code. To use a custom error code, specify a value greater than
    /// `playback_error_code::CUSTOM_BASE`.
    pub fn new(error_code: i32, causes: Vec<String>) -> (e: Self)
        ensures
            e@ == (error_code, string_views(causes@)),
    {
        DataSourceError { error_code, causes }
    }

    /// Creates a data source error with the code `IO_UNSPECIFIED`.
    pub fn io_unspecified(causes: Vec<String>) -> (e: Self)
        ensures
            e@ == (playback_error_code::IO_UNSPECIFIED, string_views(causes@)),
    {
        Self::new(playback_error_code::IO_UNSPECIFIED, causes)
    }

    /// An `IO_UNSPECIFIED` error whose source is a plain message.
    pub fn io_unspecified_message(message: String) -> (e: Self)
        ensures
            e@ == (playback_error_code::IO_UNSPECIFIED, seq![message@]),
    {
        let mut causes: Vec<String> = Vec::new();
        causes.push(message);
        let e = Self::io_unspecified(causes);
        assert(string_views(causes@) =~= seq![message@]);
        e
    }

    /// The error code.
    pub fn error_code(&self) -> (code: i32)
        ensures
            code == self@.0,
    {
        self.error_code
    }

    /// The error raised for an I/O error of the given kind, whose source
    /// chain has the given descriptions.
    pub fn from_io_error(kind: IoErrorKind, causes: Vec<String>) -> (e: Self)
        ensures
            e@ == (io_error_code(kind), string_views(causes@)),
    {
        Self::new(error_code_for_io_kind(kind), causes)
    }

    /// The message of the exception raised on the player's side: "Data
    /// source error" followed by `"; "` and each description along the source
    /// chain.
    pub fn to_datasource_exception_message(&self) -> (msg: String)
        ensures
            msg@ == exception_message(self@.1),
    {
        proof {
            reveal_strlit("Data source error");
            reveal_strlit("; ");
        }
        let mut msg = String::from_str("Data source error");
        let ghost causes = string_views(self.causes@);
        let n = self.causes.len();
        let mut i: usize = 0;
        while i < n
            invariant
                n == self.causes@.len(),
                causes == string_views(self.causes@),
                i <= n,
                msg@ == exception_message(causes.take(i as int)),
            decreases n - i,
        {
            assert(causes.take(i as int + 1).drop_last() =~= causes.take(i as int));
            msg.append("; ");
            msg.append(self.causes[i].as_str());
            assert(msg@ =~= exception_message(causes.take(i as int + 1)));
            i = i + 1;
        }
        assert(causes.take(n as int) =~= causes);
        msg
    }

    /// The error reported when a function of the data source panicked, given
    /// the panic payload when it is text.
    pub fn panic(payload: Option<&str>) -> (e: Self)
        ensures
            e@ == (playback_error_code::IO_UNSPECIFIED, seq![panic_message(
                match payload {
                    Some(p) => Some(p@),
                    None => None,
                },
            )]),
    {
        proof {
            reveal_strlit("rust function panicked; ");
            reveal_strlit("rust function panicked");
        }
        let msg = match payload {
            Some(p) => {
                let mut m = String::from_str("rust function panicked; ");
                m.append(p);
                m
            },
            None => String::from_str("rust function panicked"),
        };
        Self::io_unspecified_message(msg)
    }

    /// The text of this error: "data source error (code=N)".
    pub fn to_string(&self) -> (s: String)
        ensures
            s@ == display_message(self@.0),
    {
        proof {
            reveal_strlit("data source error (code=");
            reveal_strlit(")");
        }
        let mut s = String::from_str("data source error (code=");
        push_signed_decimal(&mut s, self.error_code as i64);
        s.append(")");
        s
    }
}

} // verus!
