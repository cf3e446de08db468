use vstd::prelude::*;
use vstd::string::*;

verus! {

/// The architecture names that `target_info` reports.
pub open spec fn known_archs() -> Seq<Seq<char>> {
    seq!["x86"@, "x86_64"@, "mips"@, "powerpc"@, "arm"@, "aarch64"@, "unknown"@]
}

/// The operating-system names that `target_info` reports.
pub open spec fn known_oses() -> Seq<Seq<char>> {
    seq![
        "windows"@,
        "macos"@,
        "ios"@,
        "linux"@,
        "android"@,
        "freebsd"@,
        "dragonfly"@,
        "bitrig"@,
        "openbsd"@,
        "netbsd"@,
        "unknown"@,
    ]
}

/// `target_info::Target::arch`: the `target_arch` of the build, one of the
/// names it knows or `unknown`. Which one depends on the build target.
#[verifier::external_body]
fn target_arch() -> (arch: &'static str)
    ensures
        known_archs().contains(arch@),
{
    target_info::Target::arch()
}

/// `target_info::Target::os`: the `target_os` of the build, one of the
/// names it knows or `unknown`. Which one depends on the build target.
#[verifier::external_body]
fn target_os() -> (os: &'static str)
    ensures
        known_oses().contains(os@),
{
    target_info::Target::os()
}

/// A version text with the platform appended: `version/arch-os`.
pub open spec fn spec_version_string(version: Seq<char>, arch: Seq<char>, os: Seq<char>) -> Seq<
    char,
> {
    version + "/"@ + arch + "-"@ + os
}

/// `version/arch-os`, for example `ConTower/v0.1.0-67da032*/x86_64-linux`.
pub fn version_string(version: &str, arch: &str, os: &str) -> (s: String)
    ensures
        s@ == spec_version_string(version@, arch@, os@),
{
    let mut s = version.to_owned();
    s.append("/");
    s.append(arch);
    s.append("-");
    s.append(os);
    s
}

/// The build's version with the platform it was built for appended:
/// `version/arch-os`, where arch and os are the build target's.
pub fn version_with_platform(version: &str) -> (s: String)
    ensures
        exists|arch: Seq<char>, os: Seq<char>|
            known_archs().contains(arch) && known_oses().contains(os) && s@
                == spec_version_string(version@, arch, os),
{
    let arch = target_arch();
    let os = target_os();
    version_string(version, arch, os)
}

} // verus!
