//! Failures of the toolkit itself.

use vstd::prelude::*;
use vstd::string::*;
use vstd::std_specs::cmp::PartialEqSpec;
use crate::event::EventKind;
use crate::os_error::{OsError, OsErrorView};
use crate::system_error::SystemError;

verus! {

/// Why an operation of the toolkit failed.
pub enum Error {
    KeyExists,
    KeyNotFound,
    BadType,
    BorrowError,
    EventNotSupported(EventKind),
    ControlRequired,
    ControlOrResourceRequired,
    ControlInUse,
    Unimplemented,
    System(SystemError),
}

/// An `Error` as mathematics: the event kind is its name.
pub enum ErrorView {
    KeyExists,
    KeyNotFound,
    BadType,
    BorrowError,
    EventNotSupported(Seq<char>),
    ControlRequired,
    ControlOrResourceRequired,
    ControlInUse,
    Unimplemented,
    System(SystemError),
}

impl View for Error {
    type V = ErrorView;

    open spec fn view(&self) -> ErrorView {
        match self {
            Error::KeyExists => ErrorView::KeyExists,
            Error::KeyNotFound => ErrorView::KeyNotFound,
            Error::BadType => ErrorView::BadType,
            Error::BorrowError => ErrorView::BorrowError,
            Error::EventNotSupported(e) => ErrorView::EventNotSupported(e@),
            Error::ControlRequired => ErrorView::ControlRequired,
            Error::ControlOrResourceRequired => ErrorView::ControlOrResourceRequired,
            Error::ControlInUse => ErrorView::ControlInUse,
            Error::Unimplemented => ErrorView::Unimplemented,
            Error::System(s) => ErrorView::System(*s),
        }
    }
}

impl ErrorView {
    /// The diagnostic of an error. Only a system error looks at `os`.
    pub open spec fn description(self, os: OsErrorView) -> Seq<char> {
        match self {
            ErrorView::KeyExists => "The same key already exists in the UI"@,
            ErrorView::KeyNotFound => "The key was not found in the ui"@,
            ErrorView::BadType =>
                "The key exists in the Ui, but the type requested did not match the type of the underlying object"@,
            ErrorView::BorrowError => "The Ui element was already borrowed"@,
            ErrorView::EventNotSupported(name) =>
                "The event of type "@ + name + " is not supported on this control"@,
            ErrorView::ControlRequired =>
                "The key passed to the command must identify a control"@,
            ErrorView::ControlOrResourceRequired =>
                "The key passed to the command must identify a control or a resource"@,
            ErrorView::ControlInUse =>
                "Impossible to modify the control, it is currently in use."@,
            ErrorView::Unimplemented => "Feature not yet implemented"@,
            ErrorView::System(s) => "A system error was raised: "@ + s.description(os),
        }
    }
}

impl Error {
    /// Renders the error. `os` is the system's last error, which only a
    /// system error shows.
    pub fn describe(&self, os: &OsError) -> (r: String)
        ensures
            r@ == self@.description(os@),
    {
        match self {
            Error::KeyExists => String::from_str("The same key already exists in the UI"),
            Error::KeyNotFound => String::from_str("The key was not found in the ui"),
            Error::BadType => String::from_str(
                "The key exists in the Ui, but the type requested did not match the type of the underlying object",
            ),
            Error::BorrowError => String::from_str("The Ui element was already borrowed"),
            Error::EventNotSupported(e) => {
                let mut r = String::from_str("The event of type ");
                r.append(e.name());
                r.append(" is not supported on this control");
                r
            },
            Error::ControlRequired => String::from_str(
                "The key passed to the command must identify a control",
            ),
            Error::ControlOrResourceRequired => String::from_str(
                "The key passed to the command must identify a control or a resource",
            ),
            Error::ControlInUse => String::from_str(
                "Impossible to modify the control, it is currently in use.",
            ),
            Error::Unimplemented => String::from_str("Feature not yet implemented"),
            Error::System(s) => {
                let mut r = String::from_str("A system error was raised: ");
                let inner = s.describe(os);
                r.append(inner.as_str());
                r
            },
        }
    }
}

impl Clone for Error {
    fn clone(&self) -> (r: Error)
        ensures
            r@ == self@,
    {
        match self {
            Error::KeyExists => Error::KeyExists,
            Error::KeyNotFound => Error::KeyNotFound,
            Error::BadType => Error::BadType,
            Error::BorrowError => Error::BorrowError,
            Error::EventNotSupported(e) => Error::EventNotSupported(e.clone()),
            Error::ControlRequired => Error::ControlRequired,
            Error::ControlOrResourceRequired => Error::ControlOrResourceRequired,
            Error::ControlInUse => Error::ControlInUse,
            Error::Unimplemented => Error::Unimplemented,
            Error::System(s) => Error::System(*s),
        }
    }
}

impl PartialEq for Error {
    fn eq(&self, other: &Error) -> (r: bool) {
        match (self, other) {
            (Error::KeyExists, Error::KeyExists) => true,
            (Error::KeyNotFound, Error::KeyNotFound) => true,
            (Error::BadType, Error::BadType) => true,
            (Error::BorrowError, Error::BorrowError) => true,
            (Error::EventNotSupported(a), Error::EventNotSupported(b)) => a == b,
            (Error::ControlRequired, Error::ControlRequired) => true,
            (Error::ControlOrResourceRequired, Error::ControlOrResourceRequired) => true,
            (Error::ControlInUse, Error::ControlInUse) => true,
            (Error::Unimplemented, Error::Unimplemented) => true,
            (Error::System(a), Error::System(b)) => a == b,
            _ => false,
        }
    }
}

impl Eq for Error {

}

impl vstd::std_specs::cmp::PartialEqSpecImpl for Error {
    open spec fn obeys_eq_spec() -> bool {
        true
    }

    open spec fn eq_spec(&self, other: &Error) -> bool {
        self@ == other@
    }
}

/// Two errors are equal exactly when they are the same variant and, where
/// the variant holds something, hold the same: the same event kind, the
/// same system error.
pub proof fn lemma_eq_compares_variant_and_payload(a: Error, b: Error)
    ensures
        a.eq_spec(&b) <==> match (a, b) {
            (Error::KeyExists, Error::KeyExists) => true,
            (Error::KeyNotFound, Error::KeyNotFound) => true,
            (Error::BadType, Error::BadType) => true,
            (Error::BorrowError, Error::BorrowError) => true,
            (Error::EventNotSupported(x), Error::EventNotSupported(y)) => x.eq_spec(&y),
            (Error::ControlRequired, Error::ControlRequired) => true,
            (Error::ControlOrResourceRequired, Error::ControlOrResourceRequired) => true,
            (Error::ControlInUse, Error::ControlInUse) => true,
            (Error::Unimplemented, Error::Unimplemented) => true,
            (Error::System(x), Error::System(y)) => x == y,
            _ => false,
        },
{
}

/// Equality of errors is reflexive, symmetric and transitive.
pub proof fn lemma_eq_is_equivalence(a: Error, b: Error, c: Error)
    ensures
        a.eq_spec(&a),
        a.eq_spec(&b) ==> b.eq_spec(&a),
        a.eq_spec(&b) && b.eq_spec(&c) ==> a.eq_spec(&c),
{
}

/// Describing is repeatable: equal errors with the same reading of the
/// system's last error give the same text.
pub proof fn lemma_description_repeatable(a: Error, b: Error, first: OsError, second: OsError)
    requires
        a.eq_spec(&b),
        first@ == second@,
    ensures
        a@.description(first@) == b@.description(second@),
{
}

/// Only a system error shows the system's last error: the text of every
/// other error is the same under any two readings.
pub proof fn lemma_toolkit_description_ignores_os_error(
    e: Error,
    first: OsError,
    second: OsError,
)
    requires
        !(e is System),
    ensures
        e@.description(first@) == e@.description(second@),
{
}

/// A wrapped system error reads as its fixed introduction followed by the
/// whole description of the system error.
pub proof fn lemma_system_description_wraps(s: SystemError, os: OsError)
    ensures
        Error::System(s)@.description(os@) == "A system error was raised: "@ + s.description(
            os@,
        ),
{
}

} // verus!
