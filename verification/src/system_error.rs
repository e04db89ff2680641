//! Failures of the operating system underneath the toolkit.

use vstd::prelude::*;
use vstd::string::*;
use crate::decimal::{decimal, decimal_string};
use crate::os_error::{OsError, OsErrorView};

verus! {

/// What the operating system refused to do for the toolkit.
#[derive(Clone, Copy, PartialEq, Eq, Structural)]
pub enum SystemError {
    SystemClassCreation,
    WindowCreationFail,
    UiCreation,
}

impl SystemError {
    /// The sentence that names the failure, without a full stop.
    pub open spec fn sentence_text(self) -> Seq<char> {
        match self {
            SystemError::SystemClassCreation => "Failed to create a system class for a control"@,
            SystemError::WindowCreationFail => "Failed to create a system window for a control"@,
            SystemError::UiCreation => "The system could not initialize the Ui"@,
        }
    }

    /// The full diagnostic: the sentence and a full stop, then on a line of
    /// its own `ID`, the system's code in base ten, a dash, and the
    /// system's message.
    pub open spec fn description(self, os: OsErrorView) -> Seq<char> {
        self.sentence_text() + ".\nID "@ + decimal(os.code) + " - "@ + os.text
    }

    /// The sentence that names the failure, without a full stop.
    pub fn sentence(&self) -> (r: &'static str)
        ensures
            r@ == self.sentence_text(),
    {
        match self {
            SystemError::SystemClassCreation => "Failed to create a system class for a control",
            SystemError::WindowCreationFail => "Failed to create a system window for a control",
            SystemError::UiCreation => "The system could not initialize the Ui",
        }
    }

    /// Renders the failure together with the system's last error `os`.
    pub fn describe(&self, os: &OsError) -> (r: String)
        ensures
            r@ == self.description(os@),
    {
        let mut r = String::from_str(self.sentence());
        r.append(".\nID ");
        let code = decimal_string(os.code);
        r.append(code.as_str());
        r.append(" - ");
        r.append(os.text.as_str());
        r
    }
}

/// Describing is repeatable: the same failure with the same reading of the
/// system's last error gives the same text.
pub proof fn lemma_system_description_repeatable(
    a: SystemError,
    b: SystemError,
    first: OsError,
    second: OsError,
)
    requires
        a == b,
        first@ == second@,
    ensures
        a.description(first@) == b.description(second@),
{
}

} // verus!
