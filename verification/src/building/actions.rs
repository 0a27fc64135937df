//! What the tool's actions run.

use vstd::prelude::*;
use crate::building::run::{
    plan_view, run_cargo, run_cargo_spec, run_dotnet, run_dotnet_spec, Invocation, InvocationView,
};

verus! {

/// What checks that everything is formatted, in order.
pub open spec fn check_well_format_spec() -> Seq<InvocationView> {
    seq![
        run_dotnet_spec(seq!["format"@, "--verify-no-changes"@]),
        run_cargo_spec(seq!["xtask"@, "update-version"@, "--verify-no-changes"@]),
        run_cargo_spec(seq!["fmt"@, "--all"@, "--"@, "--check"@]),
    ]
}

/// What to run to check that everything is formatted, in order: nothing
/// is changed.
pub fn check_well_format() -> (plan: Vec<Invocation>)
    ensures
        plan_view(plan@) == check_well_format_spec(),
{
    let mut plan: Vec<Invocation> = Vec::new();
    let first: [&str; 2] = ["format", "--verify-no-changes"];
    let second: [&str; 3] = ["xtask", "update-version", "--verify-no-changes"];
    let third: [&str; 4] = ["fmt", "--all", "--", "--check"];
    plan.push(run_dotnet(first.as_slice()));
    plan.push(run_cargo(second.as_slice()));
    plan.push(run_cargo(third.as_slice()));
    proof {
        assert(plan@[0]@.args =~= seq!["format"@, "--verify-no-changes"@]);
        assert(plan@[1]@.args =~= seq!["xtask"@, "update-version"@, "--verify-no-changes"@]);
        assert(plan@[2]@.args =~= seq!["fmt"@, "--all"@, "--"@, "--check"@]);
        assert(plan_view(plan@) =~= check_well_format_spec());
    }
    plan
}

/// What formats everything, in order.
pub open spec fn format_spec() -> Seq<InvocationView> {
    seq![
        run_cargo_spec(seq!["xtask"@, "update-version"@]),
        run_dotnet_spec(seq!["format"@]),
        run_cargo_spec(seq!["fmt"@, "--all"@]),
    ]
}

/// What to run to format everything, in order.
pub fn format() -> (plan: Vec<Invocation>)
    ensures
        plan_view(plan@) == format_spec(),
{
    let mut plan: Vec<Invocation> = Vec::new();
    let first: [&str; 2] = ["xtask", "update-version"];
    let second: [&str; 1] = ["format"];
    let third: [&str; 2] = ["fmt", "--all"];
    plan.push(run_cargo(first.as_slice()));
    plan.push(run_dotnet(second.as_slice()));
    plan.push(run_cargo(third.as_slice()));
    proof {
        assert(plan@[0]@.args =~= seq!["xtask"@, "update-version"@]);
        assert(plan@[1]@.args =~= seq!["format"@]);
        assert(plan@[2]@.args =~= seq!["fmt"@, "--all"@]);
        assert(plan_view(plan@) =~= format_spec());
    }
    plan
}

/// What runs every test, in order.
pub open spec fn run_tests_spec() -> Seq<InvocationView> {
    seq![run_cargo_spec(seq!["test"@, "--workspace"@]), run_dotnet_spec(seq!["test"@])]
}

/// What to run to run every test, in order.
pub fn run_tests() -> (plan: Vec<Invocation>)
    ensures
        plan_view(plan@) == run_tests_spec(),
{
    let mut plan: Vec<Invocation> = Vec::new();
    let first: [&str; 2] = ["test", "--workspace"];
    let second: [&str; 1] = ["test"];
    plan.push(run_cargo(first.as_slice()));
    plan.push(run_dotnet(second.as_slice()));
    proof {
        assert(plan@[0]@.args =~= seq!["test"@, "--workspace"@]);
        assert(plan@[1]@.args =~= seq!["test"@]);
        assert(plan_view(plan@) =~= run_tests_spec());
    }
    plan
}

/// What looks for questionable code, in order; a warning counts as an
/// error.
pub open spec fn run_lint_spec() -> Seq<InvocationView> {
    seq![
        run_cargo_spec(
            seq!["clippy"@, "--workspace"@, "--all-targets"@, "--"@, "-D"@, "warnings"@],
        ),
        run_dotnet_spec(seq!["build"@, "-warnaserror"@]),
    ]
}

/// What to run to look for questionable code, in order.
pub fn run_lint() -> (plan: Vec<Invocation>)
    ensures
        plan_view(plan@) == run_lint_spec(),
{
    let mut plan: Vec<Invocation> = Vec::new();
    let first: [&str; 6] = ["clippy", "--workspace", "--all-targets", "--", "-D", "warnings"];
    let second: [&str; 2] = ["build", "-warnaserror"];
    plan.push(run_cargo(first.as_slice()));
    plan.push(run_dotnet(second.as_slice()));
    proof {
        assert(plan@[0]@.args =~= seq![
            "clippy"@,
            "--workspace"@,
            "--all-targets"@,
            "--"@,
            "-D"@,
            "warnings"@,
        ]);
        assert(plan@[1]@.args =~= seq!["build"@, "-warnaserror"@]);
        assert(plan_view(plan@) =~= run_lint_spec());
    }
    plan
}

} // verus!
