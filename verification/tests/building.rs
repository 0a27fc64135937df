use staccato::building::actions::{check_well_format, run_lint, run_tests};
use staccato::building::commands::{BuildGlue, BuildManaged, BuildRust, BuildingOpts, Commands};
use staccato::building::configuration::Configuration;
use staccato::building::hooks::{PreCommit, PrePush};
use staccato::building::paths::{
    get_artifact_dir, get_build_dir, get_install_dir, get_opts_dir, get_root_dir,
    get_user_project_root, install_sb, is_source_updated, project_file_name, version_file_name,
};
use staccato::building::platform::{
    get_architecture, get_os, is_architecture, is_os, str_eq, Architecture, Os, Platform,
};
use staccato::building::run::{
    next_step, push_text, run, run_cargo, run_command, run_dotnet, Candidate, Directory,
    Invocation, PlanStep, RunError,
};
use staccato::building::search::{executable_suffixes, split, upper, SEPARATOR};
use staccato::building::which::{which, which_cmp};

fn invocation(program: &str, directory: Directory, args: &[&str]) -> Invocation {
    Invocation {
        program: program.to_string(),
        directory,
        args: args.iter().map(|arg| arg.to_string()).collect(),
        check: true,
    }
}

fn cargo(args: &[&str]) -> Invocation {
    invocation("cargo", Directory::Root, args)
}

fn dotnet(args: &[&str]) -> Invocation {
    invocation("dotnet", Directory::ManagedSource, args)
}

fn opts(os: Option<Os>, architecture: Option<Architecture>, configuration: Configuration) -> BuildingOpts {
    BuildingOpts { root: "/project".to_string(), platform: Platform { os, architecture }, configuration }
}

#[test]
fn target_triples() {
    let host = (Os::Linux, Architecture::X64);
    let triple = |os, architecture| Platform { os, architecture }.rust_target_triple(host.0, host.1);
    assert_eq!(triple(None, None), None);
    assert_eq!(triple(Some(Os::MacOS), Some(Architecture::X64)), Some("x86_64-apple-darwin"));
    assert_eq!(triple(Some(Os::MacOS), Some(Architecture::Arm64)), Some("aarch64-apple-darwin"));
    assert_eq!(triple(Some(Os::Linux), Some(Architecture::X64)), Some("x86_64-unknown-linux-gnu"));
    assert_eq!(triple(Some(Os::Linux), Some(Architecture::Arm64)), Some("aarch64-unknown-linux-gnu"));
    assert_eq!(triple(Some(Os::Windows), Some(Architecture::X64)), Some("x86_64-pc-windows-msvc"));
    assert_eq!(triple(Some(Os::Windows), Some(Architecture::Arm64)), Some("aarch64-pc-windows-msvc"));
    assert_eq!(triple(Some(Os::Windows), None), Some("x86_64-pc-windows-msvc"));
    assert_eq!(triple(None, Some(Architecture::Arm64)), Some("aarch64-unknown-linux-gnu"));
}

#[test]
fn platform_names() {
    assert_eq!(Os::Windows.name(), "windows");
    assert_eq!(Os::Linux.name(), "linux");
    assert_eq!(Os::MacOS.name(), "macos");
    assert_eq!(Architecture::X64.name(), "x64");
    assert_eq!(Architecture::Arm64.name(), "arm64");
    assert_eq!(Configuration::Debug.name(), "debug");
    assert_eq!(Configuration::Release.name(), "release");
    assert_eq!(Configuration::Debug.profile(), "dev");
    assert_eq!(Configuration::Release.profile(), "release");
    assert_eq!(get_os("windows"), Some(Os::Windows));
    assert_eq!(get_os("linux"), Some(Os::Linux));
    assert_eq!(get_os("macos"), Some(Os::MacOS));
    assert_eq!(get_os("freebsd"), None);
    assert_eq!(get_architecture("x86_64"), Some(Architecture::X64));
    assert_eq!(get_architecture("aarch64"), Some(Architecture::Arm64));
    assert_eq!(get_architecture("x64"), None);
    assert!(is_os(Os::Linux, "linux"));
    assert!(!is_os(Os::Linux, "macos"));
    assert!(is_architecture(Architecture::X64, "x86_64"));
    assert!(!is_architecture(Architecture::X64, "aarch64"));
    assert!(is_architecture(Architecture::Arm64, "aarch64"));
    assert!(str_eq("", ""));
    assert!(str_eq("abc", "abc"));
    assert!(!str_eq("abc", "abd"));
    assert!(!str_eq("abc", "ab"));
}

#[test]
fn plans_of_the_actions() {
    assert_eq!(
        check_well_format(),
        vec![
            dotnet(&["format", "--verify-no-changes"]),
            cargo(&["xtask", "update-version", "--verify-no-changes"]),
            cargo(&["fmt", "--all", "--", "--check"]),
        ]
    );
    assert_eq!(
        staccato::building::actions::format(),
        vec![cargo(&["xtask", "update-version"]), dotnet(&["format"]), cargo(&["fmt", "--all"])]
    );
    assert_eq!(run_tests(), vec![cargo(&["test", "--workspace"]), dotnet(&["test"])]);
    assert_eq!(
        run_lint(),
        vec![
            cargo(&["clippy", "--workspace", "--all-targets", "--", "-D", "warnings"]),
            dotnet(&["build", "-warnaserror"]),
        ]
    );
}

#[test]
fn plans_of_the_hooks() {
    assert_eq!(PreCommit {}.invoke(), check_well_format());
    let mut wanted = run_lint();
    wanted.extend(run_tests());
    assert_eq!(PrePush {}.invoke(), wanted);
    assert_eq!(PrePush {}.invoke().len(), 4);
}

#[test]
fn runs_are_described() {
    assert_eq!(run_cargo(&["a", "b"]), cargo(&["a", "b"]));
    assert_eq!(run_dotnet(&[]), dotnet(&[]));
    assert_eq!(
        run_command("sb", Directory::Given, &["x"]),
        invocation("sb", Directory::Given, &["x"])
    );
    assert_eq!(
        install_sb("/project/building"),
        invocation("cargo", Directory::Given, &["install", "--path", "/project/building"])
    );
    let mut args = vec!["a".to_string()];
    push_text(&mut args, "b");
    assert_eq!(args, vec!["a".to_string(), "b".to_string()]);
}

#[test]
fn exit_codes_are_judged() {
    assert_eq!(run(Some(0), true), Ok(()));
    assert_eq!(run(Some(0), false), Ok(()));
    assert_eq!(run(Some(1), true), Err(RunError::Failed { code: 1 }));
    assert_eq!(run(Some(-7), true), Err(RunError::Failed { code: -7 }));
    assert_eq!(run(Some(1), false), Ok(()));
    assert_eq!(run(None, true), Err(RunError::NoExitCode));
    assert_eq!(run(None, false), Err(RunError::NoExitCode));
}

#[test]
fn plans_stop_at_the_first_failure() {
    assert_eq!(next_step(3, 0, false), PlanStep::Run { index: 0 });
    assert_eq!(next_step(3, 0, true), PlanStep::Run { index: 0 });
    assert_eq!(next_step(3, 1, false), PlanStep::Run { index: 1 });
    assert_eq!(next_step(3, 2, true), PlanStep::Failed { index: 1 });
    assert_eq!(next_step(3, 3, false), PlanStep::Done);
    assert_eq!(next_step(3, 3, true), PlanStep::Failed { index: 2 });
    assert_eq!(next_step(0, 0, false), PlanStep::Done);
}

#[test]
fn build_of_the_native_side() {
    let plan = BuildRust {}.invoke(
        &opts(None, None, Configuration::Debug),
        "/project/build",
        Os::Linux,
        Architecture::X64,
    );
    assert_eq!(
        plan,
        vec![invocation(
            "cargo",
            Directory::RustSource,
            &["build", "--workspace", "--profile", "dev", "--target-dir", "/project/build"]
        )]
    );
    let plan = BuildRust {}.invoke(
        &opts(Some(Os::MacOS), None, Configuration::Release),
        "out",
        Os::Linux,
        Architecture::Arm64,
    );
    assert_eq!(
        plan,
        vec![invocation(
            "cargo",
            Directory::RustSource,
            &[
                "build",
                "--workspace",
                "--profile",
                "release",
                "--target-dir",
                "out",
                "--target",
                "aarch64-apple-darwin"
            ]
        )]
    );
}

#[test]
fn build_of_the_managed_side_and_of_everything() {
    let managed = BuildManaged { framework: "net10.0".to_string() };
    let options = opts(None, None, Configuration::Release);
    let wanted = invocation(
        "dotnet",
        Directory::ManagedSource,
        &["build", "/project/source/managed", "--framework", "net10.0", "--configuration", "release"],
    );
    assert_eq!(managed.clone().invoke(&options, "/project/source/managed"), vec![wanted.clone()]);
    assert!(BuildGlue {}.invoke(&options).is_empty());
    let all = Commands::BuildAll { glue: BuildGlue {}, rust: BuildRust {}, managed: managed.clone() };
    let plan = all.plan(&options, "b", "/project/source/managed", Os::Linux, Architecture::X64);
    assert_eq!(plan.len(), 2);
    assert_eq!(plan[0].program, "cargo");
    assert_eq!(plan[1], wanted);
    let glue = Commands::BuildGlue(BuildGlue {});
    assert!(glue.plan(&options, "b", "s", Os::Linux, Architecture::X64).is_empty());
    let rust = Commands::BuildRust(BuildRust {});
    assert_eq!(rust.plan(&options, "b", "s", Os::Linux, Architecture::X64).len(), 1);
    let only = Commands::BuildManaged(managed);
    assert_eq!(only.plan(&options, "b", "/project/source/managed", Os::Linux, Architecture::X64), vec![wanted]);
}

#[test]
fn directories_of_a_build() {
    let options = opts(Some(Os::Windows), None, Configuration::Debug);
    assert_eq!(
        get_build_dir(&options, Os::Linux, Architecture::Arm64),
        vec!["build", "arm64", "windows", "debug"]
    );
    assert_eq!(
        get_install_dir(&options, Os::Linux, Architecture::X64),
        vec!["install", "x64", "windows", "debug"]
    );
    let options = opts(None, Some(Architecture::X64), Configuration::Release);
    assert_eq!(
        get_artifact_dir(&options, Os::MacOS, Architecture::Arm64),
        vec!["artifact", "x64", "macos", "release"]
    );
    assert_eq!(
        get_opts_dir(&options, "dist", Os::Linux, Architecture::Arm64),
        vec!["dist", "x64", "linux", "release"]
    );
}

#[test]
fn roots_are_the_nearest_marked_directory() {
    let mut samples = false;
    assert_eq!(get_user_project_root(&[false, true, true], &mut samples), Some(1));
    assert!(!samples);
    assert_eq!(get_user_project_root(&[true], &mut samples), Some(0));
    assert!(!samples);
    assert_eq!(get_user_project_root(&[false, false], &mut samples), None);
    assert!(samples);
    let mut samples = false;
    assert_eq!(get_user_project_root(&[], &mut samples), None);
    assert!(samples);
    let mut samples = true;
    assert_eq!(get_user_project_root(&[true], &mut samples), Some(0));
    assert!(samples);
    assert_eq!(get_root_dir(&[false, false, true]), Some(2));
    assert_eq!(get_root_dir(&[false, false]), None);
    assert_eq!(get_root_dir(&[]), None);
    assert_eq!(version_file_name(), "staccato.version");
    assert_eq!(project_file_name(), "staccato.project.toml");
}

#[test]
fn sources_are_newer_than_the_binary() {
    assert!(is_source_updated(None, &[]));
    assert!(is_source_updated(None, &[1, 2]));
    assert!(!is_source_updated(Some(10), &[]));
    assert!(!is_source_updated(Some(10), &[1, 10, 9]));
    assert!(is_source_updated(Some(10), &[1, 11, 9]));
    assert!(is_source_updated(Some(0), &[1]));
    assert!(!is_source_updated(Some(u64::MAX), &[u64::MAX]));
}

#[test]
fn search_settles_on_the_greatest_rank() {
    let candidate = |path: &str, rank| Candidate { path: path.to_string(), rank };
    assert_eq!(which_cmp(&[]), None);
    assert_eq!(which("cargo", &[]), "cargo");
    let found = [candidate("/a/cargo", 1), candidate("/c/cargo", 3), candidate("/b/cargo", 2)];
    assert_eq!(which_cmp(&found), Some(1));
    assert_eq!(which("cargo", &found), "/c/cargo");
    let ties = [candidate("/a/sb", 5), candidate("/b/sb", 5), candidate("/c/sb", 1)];
    assert_eq!(which_cmp(&ties), Some(1));
    assert_eq!(which("sb", &ties), "/b/sb");
    assert_eq!(which("sb", &[candidate("/only", 0)]), "/only");
}

#[test]
fn lists_are_split_at_every_separator() {
    let pieces = |text: &str| -> Vec<String> {
        split(text.as_bytes(), SEPARATOR, false)
            .into_iter()
            .map(|piece| String::from_utf8(piece).unwrap())
            .collect()
    };
    assert_eq!(pieces(""), vec![""]);
    assert_eq!(pieces("abc"), vec!["abc"]);
    assert_eq!(pieces(".com;.exe"), vec![".com", ".exe"]);
    assert_eq!(pieces(";a;;b;"), vec!["", "a", "", "b", ""]);
    assert_eq!(pieces(";"), vec!["", ""]);
    for text in ["", "a", ";", "a;b", ";;", ".COM;.EXE;.BAT;.CMD", "x;"] {
        let wanted: Vec<&str> = text.split(';').collect();
        assert_eq!(pieces(text), wanted);
    }
    assert_eq!(split(b"a,b", b',', true), vec![b"A".to_vec(), b"B".to_vec()]);
    assert_eq!(SEPARATOR, b';');
}

#[test]
fn letters_are_raised() {
    assert_eq!(upper(b'a'), b'A');
    assert_eq!(upper(b'z'), b'Z');
    assert_eq!(upper(b'A'), b'A');
    assert_eq!(upper(b'`'), b'`');
    assert_eq!(upper(b'{'), b'{');
    assert_eq!(upper(b'.'), b'.');
    assert_eq!(upper(0xe9), 0xe9);
    for byte in 0..=255u8 {
        assert_eq!(upper(byte), byte.to_ascii_uppercase());
    }
}

#[test]
fn endings_of_programs() {
    assert_eq!(executable_suffixes(false, None), Some(vec![vec![]]));
    assert_eq!(executable_suffixes(false, Some(b".exe")), Some(vec![vec![]]));
    assert_eq!(executable_suffixes(true, None), None);
    assert_eq!(
        executable_suffixes(true, Some(b".com;.Exe")),
        Some(vec![
            b"".to_vec(),
            b".COM".to_vec(),
            b".EXE".to_vec(),
            b".COM".to_vec(),
            b".EXE".to_vec(),
        ])
    );
    assert_eq!(
        executable_suffixes(true, Some(b"")),
        Some(vec![b"".to_vec(), b"".to_vec(), b"".to_vec()])
    );
}
