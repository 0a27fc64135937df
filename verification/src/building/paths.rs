//! Where the tool finds and puts things.

use vstd::prelude::*;
use crate::building::commands::BuildingOpts;
use crate::building::platform::{Architecture, Os};
use crate::building::run::{owned_texts, push_text, run_command, run_command_spec, texts, Directory, Invocation};

verus! {

/// The name of the file that marks the root of the tool's own project.
pub fn version_file_name() -> (name: &'static str)
    ensures
        name@ == "staccato.version"@,
{
    "staccato.version"
}

/// The name of the file that marks the root of a user's project.
pub fn project_file_name() -> (name: &'static str)
    ensures
        name@ == "staccato.project.toml"@,
{
    "staccato.project.toml"
}

/// The first place at which `marked` holds, if it holds anywhere.
pub open spec fn first_marked(marked: Seq<bool>, at: int) -> bool {
    &&& 0 <= at < marked.len()
    &&& marked[at]
    &&& forall|i: int| 0 <= i < at ==> !marked[i]
}

/// Finds the root of the user's project: the nearest of the directory
/// searched from and its ancestors that holds the project file.
/// `has_project_file` says of each of them, the nearest first, whether it
/// does. Where none does, the tool's own samples are built instead, which
/// `building_internal_samples` is set to say, and there is no root.
pub fn get_user_project_root(has_project_file: &[bool], building_internal_samples: &mut bool) -> (root:
    Option<usize>)
    ensures
        match root {
            Some(at) => first_marked(has_project_file@, at as int)
                && *final(building_internal_samples) == *old(building_internal_samples),
            None => (forall|i: int| 0 <= i < has_project_file@.len() ==> !has_project_file@[i])
                && *final(building_internal_samples),
        },
{
    let mut i: usize = 0;
    while i < has_project_file.len()
        invariant
            i <= has_project_file.len(),
            forall|j: int| 0 <= j < i ==> !has_project_file@[j],
            *building_internal_samples == *old(building_internal_samples),
        decreases has_project_file.len() - i,
    {
        if has_project_file[i] {
            return Some(i);
        }
        i += 1;
    }
    *building_internal_samples = true;
    None
}

/// Finds the root of the tool's own project: the nearest of the
/// directory searched from and its ancestors that holds the version file.
/// `has_version_file` says of each of them, the nearest first, whether it
/// does. Where none does, there is no root.
pub fn get_root_dir(has_version_file: &[bool]) -> (root: Option<usize>)
    ensures
        match root {
            Some(at) => first_marked(has_version_file@, at as int),
            None => forall|i: int| 0 <= i < has_version_file@.len() ==> !has_version_file@[i],
        },
{
    let mut i: usize = 0;
    while i < has_version_file.len()
        invariant
            i <= has_version_file.len(),
            forall|j: int| 0 <= j < i ==> !has_version_file@[j],
        decreases has_version_file.len() - i,
    {
        if has_version_file[i] {
            return Some(i);
        }
        i += 1;
    }
    None
}

/// The parts of the path, below the root, of the directory named `name`
/// for what is built: the name, then the architecture, the operating
/// system and the configuration that are built for.
pub open spec fn get_opts_dir_spec(
    opts: BuildingOpts,
    name: Seq<char>,
    host_os: Os,
    host_architecture: Architecture,
) -> Seq<Seq<char>> {
    seq![
        name,
        opts.platform.architecture_or(host_architecture).name_spec(),
        opts.platform.os_or(host_os).name_spec(),
        opts.configuration.name_spec(),
    ]
}

/// The parts of the path, below the root, of the directory named `name`
/// for what is built. A part of the platform that is not given is that
/// of the machine that builds.
pub fn get_opts_dir(opts: &BuildingOpts, name: &str, host_os: Os, host_architecture: Architecture) -> (parts:
    Vec<String>)
    ensures
        owned_texts(parts@) == get_opts_dir_spec(*opts, name@, host_os, host_architecture),
{
    let architecture = match opts.platform.architecture {
        Some(architecture) => architecture,
        None => host_architecture,
    };
    let os = match opts.platform.os {
        Some(os) => os,
        None => host_os,
    };
    let mut parts: Vec<String> = Vec::new();
    proof {
        assert(owned_texts(parts@) =~= Seq::<Seq<char>>::empty());
    }
    push_text(&mut parts, name);
    push_text(&mut parts, architecture.name());
    push_text(&mut parts, os.name());
    push_text(&mut parts, opts.configuration.name());
    proof {
        assert(owned_texts(parts@) =~= get_opts_dir_spec(
            *opts,
            name@,
            host_os,
            host_architecture,
        ));
    }
    parts
}

/// The parts of the path of the directory that the build works in.
pub fn get_build_dir(opts: &BuildingOpts, host_os: Os, host_architecture: Architecture) -> (parts: Vec<
    String,
>)
    ensures
        owned_texts(parts@) == get_opts_dir_spec(*opts, "build"@, host_os, host_architecture),
{
    get_opts_dir(opts, "build", host_os, host_architecture)
}

/// The parts of the path of the directory that the build installs to.
pub fn get_install_dir(opts: &BuildingOpts, host_os: Os, host_architecture: Architecture) -> (parts:
    Vec<String>)
    ensures
        owned_texts(parts@) == get_opts_dir_spec(*opts, "install"@, host_os, host_architecture),
{
    get_opts_dir(opts, "install", host_os, host_architecture)
}

/// The parts of the path of the directory that holds what the build
/// hands out.
pub fn get_artifact_dir(opts: &BuildingOpts, host_os: Os, host_architecture: Architecture) -> (parts:
    Vec<String>)
    ensures
        owned_texts(parts@) == get_opts_dir_spec(*opts, "artifact"@, host_os, host_architecture),
{
    get_opts_dir(opts, "artifact", host_os, host_architecture)
}

/// The run that installs the build tool from its sources in `source`.
pub fn install_sb(source: &str) -> (invocation: Invocation)
    ensures
        invocation@ == run_command_spec(
            "cargo"@,
            Directory::Given,
            seq!["install"@, "--path"@, source@],
        ),
{
    let args: [&str; 3] = ["install", "--path", source];
    let invocation = run_command("cargo", Directory::Given, args.as_slice());
    proof {
        assert(texts(args@) =~= seq!["install"@, "--path"@, source@]);
    }
    invocation
}

/// Whether the sources are newer than what was built from them: whether
/// nothing was built yet (`binary_mtime` is `None`) or some source file
/// was changed after the time `binary_mtime`. `source_mtimes` holds the
/// time of the last change of each source file.
pub fn is_source_updated(binary_mtime: Option<u64>, source_mtimes: &[u64]) -> (updated: bool)
    ensures
        updated == match binary_mtime {
            None => true,
            Some(built) => exists|i: int|
                0 <= i < source_mtimes@.len() && #[trigger] source_mtimes@[i] > built,
        },
{
    let built = match binary_mtime {
        Some(built) => built,
        None => {
            return true;
        },
    };
    let mut i: usize = 0;
    while i < source_mtimes.len()
        invariant
            i <= source_mtimes.len(),
            binary_mtime == Some(built),
            forall|j: int| 0 <= j < i ==> source_mtimes@[j] <= built,
        decreases source_mtimes.len() - i,
    {
        if source_mtimes[i] > built {
            proof {
                assert(source_mtimes@[i as int] > built);
            }
            return true;
        }
        i += 1;
    }
    false
}

} // verus!
