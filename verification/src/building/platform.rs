//! What is built for.

use vstd::prelude::*;

verus! {

/// A processor architecture that can be built for.
#[derive(Debug, Clone, Copy, PartialEq, Eq, Structural)]
pub enum Architecture {
    X64,
    Arm64,
}

/// An operating system that can be built for.
#[derive(Debug, Clone, Copy, PartialEq, Eq, Structural)]
pub enum Os {
    Windows,
    Linux,
    MacOS,
}

/// What to build for; a part that is not given is that of the machine
/// that builds.
#[derive(Debug, Clone, Copy, PartialEq, Eq, Structural)]
pub struct Platform {
    pub os: Option<Os>,
    pub architecture: Option<Architecture>,
}

impl Architecture {
    /// The name of the architecture in directory names.
    pub open spec fn name_spec(self) -> Seq<char> {
        match self {
            Architecture::X64 => "x64"@,
            Architecture::Arm64 => "arm64"@,
        }
    }

    /// The name of the architecture in directory names.
    pub fn name(self) -> (name: &'static str)
        ensures
            name@ == self.name_spec(),
    {
        match self {
            Architecture::X64 => "x64",
            Architecture::Arm64 => "arm64",
        }
    }

    /// What the compiler calls the architecture.
    pub open spec fn rust_name_spec(self) -> Seq<char> {
        match self {
            Architecture::X64 => "x86_64"@,
            Architecture::Arm64 => "aarch64"@,
        }
    }
}

impl Os {
    /// The name of the operating system in directory names, which is
    /// also what the compiler calls it.
    pub open spec fn name_spec(self) -> Seq<char> {
        match self {
            Os::Windows => "windows"@,
            Os::Linux => "linux"@,
            Os::MacOS => "macos"@,
        }
    }

    /// The name of the operating system in directory names.
    pub fn name(self) -> (name: &'static str)
        ensures
            name@ == self.name_spec(),
    {
        match self {
            Os::Windows => "windows",
            Os::Linux => "linux",
            Os::MacOS => "macos",
        }
    }

}

/// Whether `current`, the compiler's name of the operating system that
/// the tool runs on, names `os`.
pub fn is_os(os: Os, current: &str) -> (b: bool)
    ensures
        b == (current@ == os.name_spec()),
{
    str_eq(current, os.name())
}

/// Whether `current`, the compiler's name of the architecture that the
/// tool runs on, names `architecture`.
pub fn is_architecture(architecture: Architecture, current: &str) -> (b: bool)
    ensures
        b == (current@ == architecture.rust_name_spec()),
{
    match architecture {
        Architecture::X64 => str_eq(current, "x86_64"),
        Architecture::Arm64 => str_eq(current, "aarch64"),
    }
}

/// The operating system that the compiler calls `current`, if it is one
/// that can be built for.
pub fn get_os(current: &str) -> (os: Option<Os>)
    ensures
        match os {
            Some(os) => current@ == os.name_spec(),
            None => forall|os: Os| current@ != os.name_spec(),
        },
{
    if str_eq(current, "windows") {
        Some(Os::Windows)
    } else if str_eq(current, "linux") {
        Some(Os::Linux)
    } else if str_eq(current, "macos") {
        Some(Os::MacOS)
    } else {
        None
    }
}

/// The architecture that the compiler calls `current`, if it is one
/// that can be built for.
pub fn get_architecture(current: &str) -> (architecture: Option<Architecture>)
    ensures
        match architecture {
            Some(architecture) => current@ == architecture.rust_name_spec(),
            None => forall|architecture: Architecture| current@ != architecture.rust_name_spec(),
        },
{
    if str_eq(current, "x86_64") {
        Some(Architecture::X64)
    } else if str_eq(current, "aarch64") {
        Some(Architecture::Arm64)
    } else {
        None
    }
}

/// Whether two texts hold the same characters.
pub fn str_eq(a: &str, b: &str) -> (same: bool)
    ensures
        same == (a@ == b@),
{
    let n = a.unicode_len();
    if b.unicode_len() != n {
        return false;
    }
    let mut i: usize = 0;
    while i < n
        invariant
            i <= n,
            n == a@.len(),
            n == b@.len(),
            forall|j: int| 0 <= j < i ==> a@[j] == b@[j],
        decreases n - i,
    {
        if a.get_char(i) != b.get_char(i) {
            return false;
        }
        i += 1;
    }
    proof {
        assert(a@ =~= b@);
    }
    true
}

/// The compiler's name for the target made of an operating system and an
/// architecture.
pub open spec fn target_triple_spec(os: Os, architecture: Architecture) -> Seq<char> {
    match (os, architecture) {
        (Os::MacOS, Architecture::X64) => "x86_64-apple-darwin"@,
        (Os::MacOS, Architecture::Arm64) => "aarch64-apple-darwin"@,
        (Os::Linux, Architecture::X64) => "x86_64-unknown-linux-gnu"@,
        (Os::Linux, Architecture::Arm64) => "aarch64-unknown-linux-gnu"@,
        (Os::Windows, Architecture::X64) => "x86_64-pc-windows-msvc"@,
        (Os::Windows, Architecture::Arm64) => "aarch64-pc-windows-msvc"@,
    }
}

impl Platform {
    /// The operating system to build for, given that of the machine that
    /// builds.
    pub open spec fn os_or(self, host: Os) -> Os {
        match self.os {
            Some(os) => os,
            None => host,
        }
    }

    /// The architecture to build for, given that of the machine that
    /// builds.
    pub open spec fn architecture_or(self, host: Architecture) -> Architecture {
        match self.architecture {
            Some(architecture) => architecture,
            None => host,
        }
    }

    /// The compiler's name for the target, or `None` where neither part
    /// is given, so that the compiler's own default applies. A part that
    /// is not given is taken from `host_os` and `host_architecture`,
    /// those of the machine that builds.
    pub fn rust_target_triple(&self, host_os: Os, host_architecture: Architecture) -> (triple:
        Option<&'static str>)
        ensures
            self.os is None && self.architecture is None ==> triple is None,
            self.os is Some || self.architecture is Some ==> triple is Some && triple.unwrap()@
                == target_triple_spec(
                self.os_or(host_os),
                self.architecture_or(host_architecture),
            ),
    {
        if self.os.is_none() && self.architecture.is_none() {
            return None;
        }
        let os = match self.os {
            Some(os) => os,
            None => host_os,
        };
        let architecture = match self.architecture {
            Some(architecture) => architecture,
            None => host_architecture,
        };
        Some(
            match (os, architecture) {
                (Os::MacOS, Architecture::X64) => "x86_64-apple-darwin",
                (Os::MacOS, Architecture::Arm64) => "aarch64-apple-darwin",
                (Os::Linux, Architecture::X64) => "x86_64-unknown-linux-gnu",
                (Os::Linux, Architecture::Arm64) => "aarch64-unknown-linux-gnu",
                (Os::Windows, Architecture::X64) => "x86_64-pc-windows-msvc",
                (Os::Windows, Architecture::Arm64) => "aarch64-pc-windows-msvc",
            },
        )
    }
}

} // verus!
