use sfsu::arch::{Architecture, UnsupportedArchitecture};
use std::str::FromStr;

#[test]
fn parse_accepts_scoop_names() {
    assert_eq!(Architecture::parse("64bit"), Ok(Architecture::X64));
    assert_eq!(Architecture::parse("32bit"), Ok(Architecture::X86));
    assert_eq!(Architecture::parse("arm64"), Ok(Architecture::Arm64));
}

#[test]
fn parse_rejects_other_names() {
    assert_eq!(Architecture::parse("x86_64"), Err(UnsupportedArchitecture));
    assert_eq!(Architecture::parse("ARM64"), Err(UnsupportedArchitecture));
    assert_eq!(Architecture::parse(""), Err(UnsupportedArchitecture));
    assert_eq!(Architecture::parse("64bit "), Err(UnsupportedArchitecture));
}

#[test]
fn from_str_agrees_with_parse() {
    assert_eq!(Architecture::from_str("32bit"), Ok(Architecture::X86));
    assert_eq!("arm64".parse::<Architecture>(), Ok(Architecture::Arm64));
    assert_eq!("amd64".parse::<Architecture>(), Err(UnsupportedArchitecture));
}

#[test]
fn from_scoop_string_reads_names() {
    assert_eq!(Architecture::from_scoop_string("64bit"), Architecture::X64);
    assert_eq!(Architecture::from_scoop_string("32bit"), Architecture::X86);
    assert_eq!(Architecture::from_scoop_string("arm64"), Architecture::Arm64);
}

#[test]
fn from_env_reads_targets() {
    assert_eq!(Architecture::from_env("x86_64"), Architecture::X64);
    assert_eq!(Architecture::from_env("x86"), Architecture::X86);
    assert_eq!(Architecture::from_env("aarch64"), Architecture::Arm64);
}

#[test]
fn display_names() {
    assert_eq!(Architecture::Arm64.to_string(), "arm64");
    assert_eq!(Architecture::X64.to_string(), "64bit");
    assert_eq!(Architecture::X86.as_str(), "32bit");
}

#[test]
fn display_name_reads_back() {
    for arch in [Architecture::Arm64, Architecture::X64, Architecture::X86] {
        assert_eq!(Architecture::parse(&arch.to_string()), Ok(arch));
        assert_eq!(Architecture::from_scoop_string(arch.as_str()), arch);
    }
}

#[test]
fn default_architecture_is_x64() {
    assert_eq!(Architecture::ARCH, Architecture::X64);
}
