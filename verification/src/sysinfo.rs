//! Static description of the executing environment.
//!
//! The triple is read once at startup by the surrounding application and held
//! unchanged for the life of the process, so every query returns the same
//! values.

use vstd::prelude::*;

verus! {

/// The `{platform, arch, family}` triple describing the executing environment.
#[derive(Debug, Clone, PartialEq, Eq)]
pub struct SystemInfo {
    pub platform: String,
    pub arch: String,
    pub family: String,
}

impl SystemInfo {
    /// The triple as sequences of characters.
    pub open spec fn triple(self) -> (Seq<char>, Seq<char>, Seq<char>) {
        (self.platform@, self.arch@, self.family@)
    }

    /// Captures the environment description handed in at startup.
    pub fn new(platform: String, arch: String, family: String) -> (r: SystemInfo)
        ensures
            r.triple() == (platform@, arch@, family@),
    {
        SystemInfo { platform, arch, family }
    }

    /// Reports the stored triple. The receiver is not changed, so repeated
    /// calls within a process lifetime all return the same triple.
    pub fn get_system_info(&self) -> (r: SystemInfo)
        ensures
            r.triple() == self.triple(),
    {
        SystemInfo {
            platform: self.platform.clone(),
            arch: self.arch.clone(),
            family: self.family.clone(),
        }
    }
}

/// Any two results of `get_system_info` on the same stored description carry
/// the same `{platform, arch, family}` triple.
pub proof fn lemma_system_info_stable(info: SystemInfo, a: SystemInfo, b: SystemInfo)
    requires
        a.triple() == info.triple(),
        b.triple() == info.triple(),
    ensures
        a.triple() == b.triple(),
{
}

} // verus!
