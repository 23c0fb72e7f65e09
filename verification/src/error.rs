//! The error-accumulation sink: records that a problem was reported,
//! composes the diagnostic line, and is reset between interactive inputs.
//! Writing the diagnostic out is the caller's business.

use vstd::prelude::*;
use vstd::string::StringExecFns;

use crate::text::{dec_digits, usize_to_string};

verus! {

/// The diagnostic line for a reported error: the 1-based line number in
/// decimal, the category, and the message.
pub open spec fn error_message(line: nat, category: Seq<char>, message: Seq<char>) -> Seq<char> {
    "[line "@ + dec_digits(line) + "] "@ + category + " error : "@ + message
}

/// Tracks whether any error has been reported since the last reset.
pub struct ErrorReporter {
    pub program_error: bool,
}

impl ErrorReporter {
    /// A fresh reporter with no error recorded.
    pub fn new() -> (r: ErrorReporter)
        ensures
            !r.program_error,
    {
        ErrorReporter { program_error: false }
    }

    /// Records an error and returns its diagnostic line, ready to print.
    pub fn error(&mut self, line: usize, category: &str, message: &str) -> (msg: String)
        ensures
            final(self).program_error,
            msg@ == error_message(line as nat, category@, message@),
    {
        self.program_error = true;
        let mut msg = "[line ".to_owned();
        let digits = usize_to_string(line);
        msg.append(digits.as_str());
        msg.append("] ");
        msg.append(category);
        msg.append(" error : ");
        msg.append(message);
        proof {
            assert(msg@ =~= error_message(line as nat, category@, message@));
        }
        msg
    }

    /// Forgets any recorded error, as between two interactive inputs.
    pub fn reset(&mut self)
        ensures
            !final(self).program_error,
    {
        self.program_error = false;
    }

    /// Whether an error has been reported since the last reset.
    pub fn has_error(&self) -> (r: bool)
        ensures
            r == self.program_error,
    {
        self.program_error
    }
}

} // verus!
