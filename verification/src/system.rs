//! What the running version of Windows can do.
use vstd::prelude::*;
use vstd::string::*;

use crate::text::push_decimal;

verus! {

/// A version of Windows.
#[derive(Debug, Clone, Copy, PartialEq, Eq, Structural)]
pub struct OsVersion {
    pub major: u32,
    pub minor: u32,
    pub build: u32,
}

/// The first build that can record a single process.
pub const PROCESS_LOOPBACK_BUILD: u32 = 20348;

impl OsVersion {
    /// Recording a single process takes Windows 10, build 20348, or later.
    pub open spec fn records_processes(self) -> bool {
        self.major >= 10 && self.build >= PROCESS_LOOPBACK_BUILD
    }

    /// The version in words.
    pub open spec fn words(self) -> Seq<char> {
        "Windows "@ + crate::text::decimal(self.major as nat) + "."@ + crate::text::decimal(
            self.minor as nat,
        ) + "."@ + crate::text::decimal(self.build as nat) + " (build "@ + crate::text::decimal(
            self.build as nat,
        ) + ")"@
    }
}

/// Whether this version can record a single process.
pub fn supports_process_loopback(v: &OsVersion) -> (b: bool)
    ensures
        b == v.records_processes(),
{
    v.major >= 10 && v.build >= PROCESS_LOOPBACK_BUILD
}

/// The version in words.
pub fn os_version_string(v: &OsVersion) -> (s: String)
    ensures
        s@ == v.words(),
{
    let mut s = "Windows ".to_string();
    push_decimal(&mut s, v.major as u64);
    s.append(".");
    push_decimal(&mut s, v.minor as u64);
    s.append(".");
    push_decimal(&mut s, v.build as u64);
    s.append(" (build ");
    push_decimal(&mut s, v.build as u64);
    s.append(")");
    s
}

/// What a version can do, every later one can.
pub proof fn law_later_versions_keep_process_loopback(v: OsVersion, w: OsVersion)
    requires
        v.records_processes(),
        v.major <= w.major,
        v.build <= w.build,
    ensures
        w.records_processes(),
{
}

/// Which versions record a single process: major version 10 and build 20348, each
/// or later, whatever the minor version is.
pub proof fn law_process_loopback_versions(v: OsVersion)
    ensures
        v.records_processes() <==> v.major >= 10 && v.build >= 20_348,
{
}

/// A version in words gives its three numbers, the build twice.
pub proof fn law_version_in_words(v: OsVersion)
    ensures
        v.words() == "Windows "@ + crate::text::decimal(v.major as nat) + "."@
            + crate::text::decimal(v.minor as nat) + "."@ + crate::text::decimal(v.build as nat)
            + " (build "@ + crate::text::decimal(v.build as nat) + ")"@,
{
}

} // verus!
