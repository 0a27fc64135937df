//! Programs to run, and what their end means.

use vstd::prelude::*;

verus! {

/// Where a program is run.
#[derive(Debug, Clone, Copy, PartialEq, Eq, Structural)]
pub enum Directory {
    /// The root of the project.
    Root,
    /// The directory of the managed sources.
    ManagedSource,
    /// The directory of the native sources in Rust.
    RustSource,
    /// The directory that the first argument after `--path` names.
    Given,
}

/// A program to run: which one, where, and with which arguments.
#[derive(Debug, Clone, PartialEq, Eq)]
pub struct Invocation {
    /// The name under which the program is looked up.
    pub program: String,
    pub directory: Directory,
    pub args: Vec<String>,
    /// Whether an exit code other than 0 is an error.
    pub check: bool,
}

/// A program to run, with every text as its characters.
pub struct InvocationView {
    pub program: Seq<char>,
    pub directory: Directory,
    pub args: Seq<Seq<char>>,
    pub check: bool,
}

impl View for Invocation {
    type V = InvocationView;

    open spec fn view(&self) -> InvocationView {
        InvocationView {
            program: self.program@,
            directory: self.directory,
            args: owned_texts(self.args@),
            check: self.check,
        }
    }
}

/// The characters of each of the texts `args`.
pub open spec fn owned_texts(args: Seq<String>) -> Seq<Seq<char>> {
    args.map_values(|arg: String| arg@)
}

/// Adds the text `text` to the end of `args`.
pub fn push_text(args: &mut Vec<String>, text: &str)
    ensures
        owned_texts(final(args)@) == owned_texts(old(args)@).push(text@),
{
    args.push(text.to_owned());
    proof {
        assert(owned_texts(args@) =~= owned_texts(old(args)@).push(text@));
    }
}

/// The programs of a plan, each with every text as its characters.
pub open spec fn plan_view(plan: Seq<Invocation>) -> Seq<InvocationView> {
    plan.map_values(|invocation: Invocation| invocation@)
}

/// The characters of each of the texts `args`.
pub open spec fn texts(args: Seq<&str>) -> Seq<Seq<char>> {
    args.map_values(|arg: &str| arg@)
}

/// Why a run counts as failed.
#[derive(Debug, Clone, Copy, PartialEq, Eq, Structural)]
pub enum RunError {
    /// The program ended without an exit code.
    NoExitCode,
    /// The program ended with this exit code, which is not 0.
    Failed { code: i32 },
}

/// What the end of a program means: without an exit code it has failed;
/// with an exit code other than 0 it has failed where that is checked.
pub fn run(exit_code: Option<i32>, check: bool) -> (outcome: Result<(), RunError>)
    ensures
        outcome == match exit_code {
            None => Err::<(), RunError>(RunError::NoExitCode),
            Some(code) => if code != 0 && check {
                Err::<(), RunError>(RunError::Failed { code })
            } else {
                Ok::<(), RunError>(())
            },
        },
{
    match exit_code {
        None => Err(RunError::NoExitCode),
        Some(code) => if code != 0 && check {
            Err(RunError::Failed { code })
        } else {
            Ok(())
        },
    }
}

/// The run of `program` in `directory` with the arguments `args`, an
/// exit code other than 0 being an error.
pub open spec fn run_command_spec(program: Seq<char>, directory: Directory, args: Seq<Seq<char>>) -> InvocationView {
    InvocationView { program, directory, args, check: true }
}

/// The run of `program` in `directory` with the arguments `args`, an
/// exit code other than 0 being an error.
pub fn run_command(program: &str, directory: Directory, args: &[&str]) -> (invocation: Invocation)
    ensures
        invocation@ == run_command_spec(program@, directory, texts(args@)),
{
    let mut owned: Vec<String> = Vec::new();
    let mut i: usize = 0;
    while i < args.len()
        invariant
            i <= args.len(),
            owned@.len() == i,
            forall|j: int| 0 <= j < i ==> owned@[j]@ == args@[j]@,
        decreases args.len() - i,
    {
        owned.push(args[i].to_owned());
        i += 1;
    }
    let invocation = Invocation { program: program.to_owned(), directory, args: owned, check: true };
    proof {
        assert(invocation@.args =~= texts(args@));
    }
    invocation
}

/// The run of the Rust build tool at the root of the project.
pub open spec fn run_cargo_spec(args: Seq<Seq<char>>) -> InvocationView {
    run_command_spec("cargo"@, Directory::Root, args)
}

/// The run of the Rust build tool at the root of the project with the
/// arguments `args`.
pub fn run_cargo(args: &[&str]) -> (invocation: Invocation)
    ensures
        invocation@ == run_cargo_spec(texts(args@)),
{
    run_command("cargo", Directory::Root, args)
}

/// The run of the managed build tool in the managed sources.
pub open spec fn run_dotnet_spec(args: Seq<Seq<char>>) -> InvocationView {
    run_command_spec("dotnet"@, Directory::ManagedSource, args)
}

/// The run of the managed build tool in the managed sources with the
/// arguments `args`.
pub fn run_dotnet(args: &[&str]) -> (invocation: Invocation)
    ensures
        invocation@ == run_dotnet_spec(texts(args@)),
{
    run_command("dotnet", Directory::ManagedSource, args)
}

/// How a plan goes on.
#[derive(Debug, Clone, Copy, PartialEq, Eq, Structural)]
pub enum PlanStep {
    /// The program at this place of the plan is run next.
    Run { index: usize },
    /// Every program of the plan has run and none has failed.
    Done,
    /// The program at this place of the plan has failed; none after it
    /// is run.
    Failed { index: usize },
}

/// How a plan of `total` programs goes on when `done` of them have run
/// and the last of these has failed or not (`failed`; of no account
/// before the first): the programs run in order, and the first that
/// fails ends the plan.
pub fn next_step(total: usize, done: usize, failed: bool) -> (step: PlanStep)
    ensures
        step == if done > 0 && failed {
            PlanStep::Failed { index: (done - 1) as usize }
        } else if done >= total {
            PlanStep::Done
        } else {
            PlanStep::Run { index: done }
        },
{
    if done > 0 && failed {
        PlanStep::Failed { index: done - 1 }
    } else if done >= total {
        PlanStep::Done
    } else {
        PlanStep::Run { index: done }
    }
}

/// A file that a search for a program has found.
#[derive(Debug, Clone, PartialEq, Eq)]
pub struct Candidate {
    pub path: String,
    /// The place of the file in the order that the search goes by.
    pub rank: u64,
}

/// The rank of the candidate at `at`.
pub open spec fn rank_at(found: Seq<Candidate>, at: usize) -> u64 {
    found[at as int].rank
}

/// The path of the candidate at `at`.
pub open spec fn path_at(found: Seq<Candidate>, at: usize) -> Seq<char> {
    found[at as int].path@
}

/// Whether a search among `found` settles on the candidate at `at`: it
/// has the greatest rank, and it is the last of those that have it.
pub open spec fn settles_on(found: Seq<Candidate>, at: usize) -> bool {
    &&& at < found.len()
    &&& forall|i: int| 0 <= i < found.len() ==> found[i].rank <= found[at as int].rank
    &&& forall|i: int| at < i < found.len() ==> found[i].rank < found[at as int].rank
}

} // verus!
