//! The supported device architectures: each has a canonical display name,
//! used to name the per-architecture output subdirectories, and a derived
//! compiler triple, used to select toolchain binaries and to name the build
//! tool's per-target output directory.

use vstd::prelude::*;
use vstd::string::*;
use crate::text::str_eq;

verus! {

/// A supported Android device architecture. The set of legal variants is
/// fixed and known at build time.
#[derive(Clone, Copy, PartialEq, Eq, Structural, Debug)]
pub enum Target {
    ArmeabiV7a,
    Arm64V8a,
    X86,
    X86_64,
}

impl Target {
    /// The canonical display form of the architecture.
    pub open spec fn name_spec(self) -> Seq<char> {
        match self {
            Target::ArmeabiV7a => "armeabi-v7a"@,
            Target::Arm64V8a => "arm64-v8a"@,
            Target::X86 => "x86"@,
            Target::X86_64 => "x86_64"@,
        }
    }

    /// The compiler triple derived from the architecture.
    pub open spec fn triple_spec(self) -> Seq<char> {
        match self {
            Target::ArmeabiV7a => "armv7-linux-androideabi"@,
            Target::Arm64V8a => "aarch64-linux-android"@,
            Target::X86 => "i686-linux-android"@,
            Target::X86_64 => "x86_64-linux-android"@,
        }
    }

    /// The canonical display name, e.g. the name of the per-architecture
    /// subdirectory in the output tree.
    pub fn name(&self) -> (r: &'static str)
        ensures
            r@ == self.name_spec(),
    {
        match self {
            Target::ArmeabiV7a => "armeabi-v7a",
            Target::Arm64V8a => "arm64-v8a",
            Target::X86 => "x86",
            Target::X86_64 => "x86_64",
        }
    }

    /// The compiler triple for the architecture.
    pub fn triple(&self) -> (r: &'static str)
        ensures
            r@ == self.triple_spec(),
    {
        match self {
            Target::ArmeabiV7a => "armv7-linux-androideabi",
            Target::Arm64V8a => "aarch64-linux-android",
            Target::X86 => "i686-linux-android",
            Target::X86_64 => "x86_64-linux-android",
        }
    }

    /// What parsing accepts: either the display name or the triple of each
    /// architecture; anything else is rejected.
    pub open spec fn parse_spec(s: Seq<char>) -> Option<Target> {
        if s == Target::ArmeabiV7a.name_spec() || s == Target::ArmeabiV7a.triple_spec() {
            Some(Target::ArmeabiV7a)
        } else if s == Target::Arm64V8a.name_spec() || s == Target::Arm64V8a.triple_spec() {
            Some(Target::Arm64V8a)
        } else if s == Target::X86.name_spec() || s == Target::X86.triple_spec() {
            Some(Target::X86)
        } else if s == Target::X86_64.name_spec() || s == Target::X86_64.triple_spec() {
            Some(Target::X86_64)
        } else {
            None
        }
    }

    /// Parses an architecture from either its display name or its triple.
    pub fn parse(s: &str) -> (r: Option<Target>)
        ensures
            r == Target::parse_spec(s@),
    {
        if str_eq(s, "armeabi-v7a") || str_eq(s, "armv7-linux-androideabi") {
            Some(Target::ArmeabiV7a)
        } else if str_eq(s, "arm64-v8a") || str_eq(s, "aarch64-linux-android") {
            Some(Target::Arm64V8a)
        } else if str_eq(s, "x86") || str_eq(s, "i686-linux-android") {
            Some(Target::X86)
        } else if str_eq(s, "x86_64") || str_eq(s, "x86_64-linux-android") {
            Some(Target::X86_64)
        } else {
            None
        }
    }
}

/// Copies a target list; targets are plain enum values.
pub fn copy_targets(v: &Vec<Target>) -> (r: Vec<Target>)
    ensures
        r@ == v@,
{
    let mut out: Vec<Target> = Vec::new();
    let mut i: usize = 0;
    while i < v.len()
        invariant
            i <= v@.len(),
            out@ == v@.take(i as int),
        decreases v@.len() - i,
    {
        out.push(v[i]);
        proof {
            assert(v@.take(i + 1 as int) =~= v@.take(i as int).push(v@[i as int]));
        }
        i = i + 1;
    }
    proof {
        assert(v@.take(v@.len() as int) =~= v@);
    }
    out
}

} // verus!
