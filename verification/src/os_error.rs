//! What the operating system last recorded as an error.

use vstd::prelude::*;
use vstd::string::*;

verus! {

/// The last error of the operating system on the calling thread: its code
/// and the system's own message for that code.
///
/// The library never asks the system itself. The caller reads the pair
/// right after the failing call, before another system call on that thread
/// replaces it, and hands it to `describe`.
pub struct OsError {
    pub code: u32,
    pub text: String,
}

/// An `OsError` as mathematics.
pub struct OsErrorView {
    pub code: nat,
    pub text: Seq<char>,
}

impl View for OsError {
    type V = OsErrorView;

    open spec fn view(&self) -> OsErrorView {
        OsErrorView { code: self.code as nat, text: self.text@ }
    }
}

impl OsError {
    /// Holds a code and its message.
    pub fn new(code: u32, text: &str) -> (r: OsError)
        ensures
            r@ == (OsErrorView { code: code as nat, text: text@ }),
    {
        OsError { code, text: String::from_str(text) }
    }
}

} // verus!
