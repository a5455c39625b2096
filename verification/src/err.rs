//! The error that opening the video player returns.
use vstd::prelude::*;
use vstd::string::StringExecFns;

verus! {

/// An error of the plugin, carried as its message.
#[derive(Debug)]
pub struct Error {
    message: String,
}

impl View for Error {
    /// The message.
    type V = Seq<char>;

    closed spec fn view(&self) -> Seq<char> {
        self.message@
    }
}

impl Error {
    /// The error returned on platforms other than Android: "not android".
    pub fn not_android() -> (e: Self)
        ensures
            e@ == "not android"@,
    {
        Error { message: String::from_str("not android") }
    }

    /// An error reported by the Android side of the plugin, with its message.
    pub fn from_message(message: String) -> (e: Self)
        ensures
            e@ == message@,
    {
        Error { message }
    }

    /// The message of the error, as it is displayed and serialized.
    pub fn to_string(&self) -> (s: String)
        ensures
            s@ == self@,
    {
        self.message.clone()
    }
}

} // verus!
