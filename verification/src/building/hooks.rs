//! What runs before a commit is made or pushed.

use vstd::prelude::*;
use crate::building::actions::{
    check_well_format, check_well_format_spec, run_lint, run_lint_spec, run_tests, run_tests_spec,
};
use crate::building::run::{plan_view, Invocation};

verus! {

/// What runs before a commit is made.
#[derive(Debug, Clone, Copy, PartialEq, Eq, Structural)]
pub struct PreCommit {}

/// What runs before commits are pushed.
#[derive(Debug, Clone, Copy, PartialEq, Eq, Structural)]
pub struct PrePush {}

impl PreCommit {
    /// What to run before a commit is made, in order: the check that
    /// everything is formatted.
    pub fn invoke(self) -> (plan: Vec<Invocation>)
        ensures
            plan_view(plan@) == check_well_format_spec(),
    {
        check_well_format()
    }
}

impl PrePush {
    /// What to run before commits are pushed, in order: the look for
    /// questionable code, then every test.
    pub fn invoke(self) -> (plan: Vec<Invocation>)
        ensures
            plan_view(plan@) == run_lint_spec() + run_tests_spec(),
    {
        let mut plan = run_lint();
        let mut tests = run_tests();
        let ghost lint = plan@;
        let ghost rest = tests@;
        plan.append(&mut tests);
        proof {
            assert(plan@ =~= lint + rest);
            assert(plan_view(plan@) =~= plan_view(lint) + plan_view(rest));
        }
        plan
    }
}

} // verus!
