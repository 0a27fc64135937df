//! How much the compiler optimises.

use vstd::prelude::*;

verus! {

/// How much the compiler optimises.
#[derive(Debug, Clone, Copy, PartialEq, Eq, Structural)]
pub enum Configuration {
    Debug,
    Release,
}

impl Configuration {
    /// The name of the configuration in directory names and for the
    /// managed build.
    pub open spec fn name_spec(self) -> Seq<char> {
        match self {
            Configuration::Debug => "debug"@,
            Configuration::Release => "release"@,
        }
    }

    /// The name of the configuration in directory names and for the
    /// managed build.
    pub fn name(self) -> (name: &'static str)
        ensures
            name@ == self.name_spec(),
    {
        match self {
            Configuration::Debug => "debug",
            Configuration::Release => "release",
        }
    }

    /// The name of the compiler's profile for the configuration.
    pub open spec fn profile_spec(self) -> Seq<char> {
        match self {
            Configuration::Debug => "dev"@,
            Configuration::Release => "release"@,
        }
    }

    /// The name of the compiler's profile for the configuration.
    pub fn profile(self) -> (name: &'static str)
        ensures
            name@ == self.profile_spec(),
    {
        match self {
            Configuration::Debug => "dev",
            Configuration::Release => "release",
        }
    }
}

} // verus!
