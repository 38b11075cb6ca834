//! The capability contract every rule implements.

use vstd::prelude::*;

use crate::check_error::result_view;
use crate::check_error::CheckError;
use crate::check_error::CheckErrorView;
use crate::check_error::CheckViolation;
use crate::contexts::CheckContext;
use crate::filters::CheckFilter;

verus! {

/// A self-contained rule: it inspects an analysis context under a set of
/// suppression filters and yields an ordered sequence of diagnostics, or the
/// contract violation that aborted the run.  A context variant the rule does
/// not understand yields an empty sequence, never an error.  The rule never
/// mutates its context or its filters.
pub trait Check {
    /// What this rule's run means: each implementation pins the result it
    /// must return for the given context and filters.
    spec fn check_spec(
        &self,
        context: &CheckContext,
        filters: &Vec<CheckFilter>,
        result: Result<Seq<CheckErrorView>, CheckViolation>,
    ) -> bool;

    /// Run the rule against `context`, suppressing findings as `filters`
    /// direct.
    fn execute_check(&self, context: &CheckContext, filters: &Vec<CheckFilter>) -> (result: Result<
        Vec<CheckError>,
        CheckViolation,
    >)
        ensures
            self.check_spec(context, filters, result_view(result)),
    ;
}

} // verus!
