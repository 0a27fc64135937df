//! What the tool's build commands run.

use vstd::prelude::*;
use crate::building::configuration::Configuration;
use crate::building::platform::{target_triple_spec, Architecture, Os, Platform};
use crate::building::run::{
    owned_texts, plan_view, push_text, run_command_spec, Directory, Invocation, InvocationView,
};

verus! {

/// What a build goes by.
#[derive(Debug, Clone, PartialEq, Eq)]
pub struct BuildingOpts {
    /// The root of the project.
    pub root: String,
    pub platform: Platform,
    pub configuration: Configuration,
}

/// Builds the glue between the native and the managed side.
#[derive(Debug, Clone, Copy, PartialEq, Eq, Structural)]
pub struct BuildGlue {}

/// Builds the native side.
#[derive(Debug, Clone, Copy, PartialEq, Eq, Structural)]
pub struct BuildRust {}

/// Builds the managed side.
#[derive(Debug, Clone, PartialEq, Eq)]
pub struct BuildManaged {
    /// The framework to build for.
    pub framework: String,
}

/// What the tool can be told to do.
#[derive(Debug, Clone, PartialEq, Eq)]
pub enum Commands {
    BuildGlue(BuildGlue),
    BuildRust(BuildRust),
    BuildManaged(BuildManaged),
    /// All three, in this order.
    BuildAll { glue: BuildGlue, rust: BuildRust, managed: BuildManaged },
}

impl BuildGlue {
    /// What to run to build the glue: nothing so far.
    pub fn invoke(self, opts: &BuildingOpts) -> (plan: Vec<Invocation>)
        ensures
            plan@.len() == 0,
    {
        Vec::new()
    }
}

impl BuildRust {
    /// The arguments of the build of the native side: the whole
    /// workspace, with the profile of the configuration, into the
    /// directory `build_dir`, and for the target where one is named.
    pub open spec fn args_spec(opts: BuildingOpts, build_dir: Seq<char>, target: Option<Seq<char>>) -> Seq<
        Seq<char>,
    > {
        let args = seq![
            "build"@,
            "--workspace"@,
            "--profile"@,
            opts.configuration.profile_spec(),
            "--target-dir"@,
            build_dir,
        ];
        match target {
            Some(target) => args + seq!["--target"@, target],
            None => args,
        }
    }

    /// The target that is named to the compiler, if one is.
    pub open spec fn target_spec(opts: BuildingOpts, host_os: Os, host_architecture: Architecture) -> Option<
        Seq<char>,
    > {
        if opts.platform.os is None && opts.platform.architecture is None {
            None
        } else {
            Some(
                target_triple_spec(
                    opts.platform.os_or(host_os),
                    opts.platform.architecture_or(host_architecture),
                ),
            )
        }
    }

    /// What to run to build the native side: the Rust build tool in the
    /// Rust sources. `build_dir` is the directory that the build works
    /// in; `host_os` and `host_architecture` are those of the machine
    /// that builds.
    pub fn invoke(
        self,
        opts: &BuildingOpts,
        build_dir: &str,
        host_os: Os,
        host_architecture: Architecture,
    ) -> (plan: Vec<Invocation>)
        ensures
            plan_view(plan@) == seq![
                run_command_spec(
                    "cargo"@,
                    Directory::RustSource,
                    BuildRust::args_spec(
                        *opts,
                        build_dir@,
                        BuildRust::target_spec(*opts, host_os, host_architecture),
                    ),
                ),
            ],
    {
        let mut args: Vec<String> = Vec::new();
        proof {
            assert(owned_texts(args@) =~= Seq::<Seq<char>>::empty());
        }
        push_text(&mut args, "build");
        push_text(&mut args, "--workspace");
        push_text(&mut args, "--profile");
        push_text(&mut args, opts.configuration.profile());
        push_text(&mut args, "--target-dir");
        push_text(&mut args, build_dir);
        match opts.platform.rust_target_triple(host_os, host_architecture) {
            Some(target) => {
                push_text(&mut args, "--target");
                push_text(&mut args, target);
            },
            None => {},
        }
        proof {
            assert(owned_texts(args@) =~= BuildRust::args_spec(
                *opts,
                build_dir@,
                BuildRust::target_spec(*opts, host_os, host_architecture),
            ));
        }
        let invocation = Invocation {
            program: "cargo".to_owned(),
            directory: Directory::RustSource,
            args,
            check: true,
        };
        let mut plan: Vec<Invocation> = Vec::new();
        plan.push(invocation);
        proof {
            assert(plan_view(plan@) =~= seq![invocation@]);
        }
        plan
    }
}

impl BuildManaged {
    /// The arguments of the build of the managed side: the sources in
    /// `source`, for the framework and with the configuration.
    pub open spec fn args_spec(self, opts: BuildingOpts, source: Seq<char>) -> Seq<Seq<char>> {
        seq![
            "build"@,
            source,
            "--framework"@,
            self.framework@,
            "--configuration"@,
            opts.configuration.name_spec(),
        ]
    }

    /// What to run to build the managed side: the managed build tool in
    /// the managed sources, whose directory is `source`.
    pub fn invoke(self, opts: &BuildingOpts, source: &str) -> (plan: Vec<Invocation>)
        ensures
            plan_view(plan@) == seq![
                run_command_spec(
                    "dotnet"@,
                    Directory::ManagedSource,
                    self.args_spec(*opts, source@),
                ),
            ],
    {
        let mut args: Vec<String> = Vec::new();
        proof {
            assert(owned_texts(args@) =~= Seq::<Seq<char>>::empty());
        }
        push_text(&mut args, "build");
        push_text(&mut args, source);
        push_text(&mut args, "--framework");
        push_text(&mut args, self.framework.as_str());
        push_text(&mut args, "--configuration");
        push_text(&mut args, opts.configuration.name());
        proof {
            assert(owned_texts(args@) =~= self.args_spec(*opts, source@));
        }
        let invocation = Invocation {
            program: "dotnet".to_owned(),
            directory: Directory::ManagedSource,
            args,
            check: true,
        };
        let mut plan: Vec<Invocation> = Vec::new();
        plan.push(invocation);
        proof {
            assert(plan_view(plan@) =~= seq![invocation@]);
        }
        plan
    }
}

impl Commands {
    /// What the command runs, in order.
    pub open spec fn plan_spec(
        self,
        opts: BuildingOpts,
        build_dir: Seq<char>,
        source: Seq<char>,
        host_os: Os,
        host_architecture: Architecture,
    ) -> Seq<InvocationView> {
        let rust = seq![
            run_command_spec(
                "cargo"@,
                Directory::RustSource,
                BuildRust::args_spec(
                    opts,
                    build_dir,
                    BuildRust::target_spec(opts, host_os, host_architecture),
                ),
            ),
        ];
        match self {
            Commands::BuildGlue(_) => Seq::empty(),
            Commands::BuildRust(_) => rust,
            Commands::BuildManaged(managed) => seq![
                run_command_spec(
                    "dotnet"@,
                    Directory::ManagedSource,
                    managed.args_spec(opts, source),
                ),
            ],
            Commands::BuildAll { glue, rust: _, managed } => rust + seq![
                run_command_spec(
                    "dotnet"@,
                    Directory::ManagedSource,
                    managed.args_spec(opts, source),
                ),
            ],
        }
    }

    /// What to run for the command, in order: for all three builds, the
    /// glue first, then the native side, then the managed side.
    pub fn plan(
        self,
        opts: &BuildingOpts,
        build_dir: &str,
        source: &str,
        host_os: Os,
        host_architecture: Architecture,
    ) -> (plan: Vec<Invocation>)
        ensures
            plan_view(plan@) == self.plan_spec(
                *opts,
                build_dir@,
                source@,
                host_os,
                host_architecture,
            ),
    {
        match self {
            Commands::BuildGlue(glue) => {
                let plan = glue.invoke(opts);
                proof {
                    assert(plan_view(plan@) =~= Seq::<InvocationView>::empty());
                }
                plan
            },
            Commands::BuildRust(rust) => rust.invoke(opts, build_dir, host_os, host_architecture),
            Commands::BuildManaged(managed) => managed.invoke(opts, source),
            Commands::BuildAll { glue, rust, managed } => {
                let mut plan = glue.invoke(opts);
                let mut native = rust.invoke(opts, build_dir, host_os, host_architecture);
                let mut rest = managed.invoke(opts, source);
                let ghost first = native@;
                let ghost second = rest@;
                plan.append(&mut native);
                plan.append(&mut rest);
                proof {
                    assert(plan@ =~= first + second);
                    assert(plan_view(plan@) =~= plan_view(first) + plan_view(second));
                }
                plan
            },
        }
    }
}

} // verus!
