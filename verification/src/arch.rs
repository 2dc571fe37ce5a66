//! The processor architectures that Scoop manifests distinguish.

use vstd::prelude::*;
use vstd::string::*;

use crate::text::str_eq;

verus! {

/// Supported architectures
#[derive(Debug, Copy, Clone, PartialEq, Eq, Hash, Structural)]
pub enum Architecture {
    /// 64 bit Arm
    Arm64,
    /// 64 bit
    X64,
    /// 32 bit
    X86,
}

/// The error for a name that names no supported architecture.
#[derive(Debug, Copy, Clone, PartialEq, Eq, Structural)]
pub struct UnsupportedArchitecture;

impl Architecture {
    /// The architecture that sfsu assumes by default
    pub const ARCH: Architecture = Architecture::X64;

    /// The name Scoop uses for the architecture ("arm64", "64bit", "32bit").
    pub open spec fn scoop_name(self) -> Seq<char> {
        match self {
            Architecture::Arm64 => "arm64"@,
            Architecture::X64 => "64bit"@,
            Architecture::X86 => "32bit"@,
        }
    }

    /// The architecture a Scoop name stands for, if any.
    pub open spec fn from_scoop_name(s: Seq<char>) -> Option<Architecture> {
        if s == "64bit"@ {
            Some(Architecture::X64)
        } else if s == "32bit"@ {
            Some(Architecture::X86)
        } else if s == "arm64"@ {
            Some(Architecture::Arm64)
        } else {
            None
        }
    }

    /// The architecture a compilation target ("x86_64", "x86", "aarch64") runs on, if supported.
    pub open spec fn from_target_name(s: Seq<char>) -> Option<Architecture> {
        if s == "x86_64"@ {
            Some(Architecture::X64)
        } else if s == "x86"@ {
            Some(Architecture::X86)
        } else if s == "aarch64"@ {
            Some(Architecture::Arm64)
        } else {
            None
        }
    }

    /// Parse a Scoop architecture name
    pub fn parse(s: &str) -> (r: Result<Architecture, UnsupportedArchitecture>)
        ensures
            match Self::from_scoop_name(s@) {
                Some(a) => r == Ok::<Architecture, UnsupportedArchitecture>(a),
                None => r == Err::<Architecture, UnsupportedArchitecture>(UnsupportedArchitecture),
            },
    {
        if str_eq(s, "64bit") {
            Ok(Architecture::X64)
        } else if str_eq(s, "32bit") {
            Ok(Architecture::X86)
        } else if str_eq(s, "arm64") {
            Ok(Architecture::Arm64)
        } else {
            Err(UnsupportedArchitecture)
        }
    }

    /// Get the architecture of the environment the program was compiled for,
    /// given the name of the compilation target's architecture
    pub fn from_env(target_arch: &str) -> (a: Architecture)
        requires
            Self::from_target_name(target_arch@) is Some,
        ensures
            Self::from_target_name(target_arch@) == Some(a),
    {
        if str_eq(target_arch, "x86_64") {
            Architecture::X64
        } else if str_eq(target_arch, "x86") {
            Architecture::X86
        } else {
            Architecture::Arm64
        }
    }

    /// Get the architecture of a given Scoop string
    pub fn from_scoop_string(string: &str) -> (a: Architecture)
        requires
            Self::from_scoop_name(string@) is Some,
        ensures
            Self::from_scoop_name(string@) == Some(a),
    {
        if str_eq(string, "64bit") {
            Architecture::X64
        } else if str_eq(string, "32bit") {
            Architecture::X86
        } else {
            Architecture::Arm64
        }
    }

    /// The Scoop name of the architecture
    pub fn as_str(&self) -> (s: &'static str)
        ensures
            s@ == self.scoop_name(),
    {
        match self {
            Architecture::Arm64 => "arm64",
            Architecture::X64 => "64bit",
            Architecture::X86 => "32bit",
        }
    }

    /// The Scoop name of the architecture, as its `Display` writes it
    pub fn to_string(&self) -> (s: String)
        ensures
            s@ == self.scoop_name(),
    {
        String::from_str(self.as_str())
    }
}

impl core::str::FromStr for Architecture {
    type Err = UnsupportedArchitecture;

    fn from_str(s: &str) -> (r: Result<Architecture, UnsupportedArchitecture>)
        ensures
            match Architecture::from_scoop_name(s@) {
                Some(a) => r == Ok::<Architecture, UnsupportedArchitecture>(a),
                None => r == Err::<Architecture, UnsupportedArchitecture>(UnsupportedArchitecture),
            },
    {
        Architecture::parse(s)
    }
}

/// Each architecture's Scoop name reads back as that architecture.
pub proof fn lemma_scoop_name_round_trip(a: Architecture)
    ensures
        Architecture::from_scoop_name(a.scoop_name()) == Some(a),
{
    reveal_strlit("64bit");
    reveal_strlit("32bit");
    reveal_strlit("arm64");
    assert("64bit"@[0] != "32bit"@[0]);
    assert("64bit"@[0] != "arm64"@[0]);
    assert("32bit"@[0] != "arm64"@[0]);
}

} // verus!
