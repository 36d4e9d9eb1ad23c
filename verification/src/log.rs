//! Messages that are shown only when verbose output is requested.

use vstd::prelude::*;
use vstd::std_specs::convert::IntoSpec;

verus! {

/// Decides whether a low-priority message is passed on to the operator.
pub struct VerboseLogger {
    pub verbose: bool,
}

impl VerboseLogger {
    /// A logger that shows messages exactly when `verbose` is set.
    pub fn new(verbose: bool) -> (logger: VerboseLogger)
        ensures
            logger.verbose == verbose,
    {
        VerboseLogger { verbose }
    }

    /// What `keep` does with a message.
    pub open spec fn kept(&self, message: String) -> Option<String> {
        if self.verbose {
            Some(message)
        } else {
            None
        }
    }

    /// Hands the message back when verbose output is on, and drops it
    /// otherwise.
    pub fn keep(&self, message: String) -> (shown: Option<String>)
        ensures
            shown == self.kept(message),
    {
        if self.verbose {
            Some(message)
        } else {
            None
        }
    }

    /// Keeps the message, as a string, when verbose output is on. The caller
    /// shows what is kept.
    pub fn log<S: Into<String>>(&self, s: S) -> (shown: Option<String>)
        ensures
            shown is Some <==> self.verbose,
            S::obeys_into_spec() ==> shown == self.kept(s.into_spec()),
    {
        if self.verbose {
            Some(s.into())
        } else {
            None
        }
    }
}

} // verus!
