//! Kit discovery: a prioritized probe of the host environment for an NDK
//! installation. The host state is handed in as an explicit snapshot, so
//! discovery is a pure function of plain values.
//!
//! The four strategies, in strict priority order — the first one whose
//! precondition holds wins, and the later ones are never consulted:
//! 1. the primary environment variable naming the kit root, used verbatim;
//! 2. the legacy alias of that variable, used verbatim;
//! 3. the SDK root variable with a conventional subdirectory appended, used
//!    only if that path exists on the filesystem;
//! 4. the platform default installation root, picking the lexicographically
//!    greatest installed version (a documented limitation: version strings
//!    that are not zero-padded may not sort by age).

use vstd::prelude::*;
use vstd::string::*;
use crate::text::{chars_lt, join_spec, lemma_chars_lt_irrefl, lemma_chars_lt_total,
    lemma_chars_lt_trans, path_join, str_lt};

verus! {

/// A read-only snapshot of the host state that kit discovery consults.
/// The surrounding binary fills it from the process environment and the
/// filesystem; discovery itself performs no probing.
pub struct HostProbe {
    /// Value of the primary environment variable naming the kit root
    /// (`ANDROID_NDK_HOME`), if set.
    pub android_ndk_home: Option<String>,
    /// Value of the legacy alias (`NDK_HOME`), if set.
    pub ndk_home: Option<String>,
    /// Value of the SDK root variable (`ANDROID_SDK_HOME`), if set.
    pub android_sdk_home: Option<String>,
    /// Whether `<sdk root>/ndk-bundle` exists on the filesystem; consulted
    /// only when the SDK root variable is set.
    pub sdk_ndk_bundle_exists: bool,
    /// The platform-appropriate default installation base (the user's data
    /// directory on Unix-like hosts, the local app-data directory on
    /// Windows-like hosts).
    pub install_base: String,
    /// The names of the immediate children of the default kit directory
    /// under `install_base`, or `None` if that directory does not exist or
    /// could not be read.
    pub installed_versions: Option<Vec<String>>,
}

/// The fixed vendor subdirectory under the default installation base where
/// kit versions are installed.
pub open spec fn default_kit_dir_spec(base: Seq<char>) -> Seq<char> {
    join_spec(join_spec(join_spec(base, "Android"@), "sdk"@), "ndk"@)
}

/// The directory the fourth strategy lists: `<base>/Android/sdk/ndk`.
pub fn default_kit_dir(base: &str) -> (r: String)
    ensures
        r@ == default_kit_dir_spec(base@),
{
    let s = path_join(base, "Android");
    let s = path_join(s.as_str(), "sdk");
    path_join(s.as_str(), "ndk")
}

/// The lexicographically greatest entry of a non-empty list (of an empty
/// list: the empty sequence).
pub open spec fn greatest_entry(entries: Seq<String>) -> Seq<char>
    decreases entries.len(),
{
    if entries.len() == 0 {
        Seq::empty()
    } else if entries.len() == 1 {
        entries[0]@
    } else {
        let rest = greatest_entry(entries.skip(1));
        if chars_lt(entries[0]@, rest) {
            rest
        } else {
            entries[0]@
        }
    }
}

/// Law: of a non-empty list, `greatest_entry` is one of the entries, and no
/// entry is lexicographically greater.
pub proof fn lemma_greatest_entry_is_max(entries: Seq<String>)
    requires
        entries.len() > 0,
    ensures
        exists|k: int| 0 <= k < entries.len() && greatest_entry(entries) == entries[k]@,
        forall|j: int| 0 <= j < entries.len() ==> !chars_lt(greatest_entry(entries), entries[j]@),
    decreases entries.len(),
{
    let g = greatest_entry(entries);
    if entries.len() == 1 {
        assert(g == entries[0]@);
        lemma_chars_lt_irrefl(g);
    } else {
        let tail = entries.skip(1);
        let rest = greatest_entry(tail);
        lemma_greatest_entry_is_max(tail);
        let k0 = choose|k: int| 0 <= k < tail.len() && rest == tail[k]@;
        assert(tail[k0] == entries[k0 + 1]);
        if chars_lt(entries[0]@, rest) {
            assert(g == rest);
            assert forall|j: int| 0 <= j < entries.len() implies !chars_lt(g, entries[j]@) by {
                if j == 0 {
                    if chars_lt(g, entries[0]@) {
                        lemma_chars_lt_trans(entries[0]@, g, entries[0]@);
                        lemma_chars_lt_irrefl(entries[0]@);
                    }
                } else {
                    assert(entries[j] == tail[j - 1]);
                }
            }
        } else {
            assert(g == entries[0]@);
            assert forall|j: int| 0 <= j < entries.len() implies !chars_lt(g, entries[j]@) by {
                if j == 0 {
                    lemma_chars_lt_irrefl(g);
                } else {
                    assert(entries[j] == tail[j - 1]);
                    if chars_lt(g, entries[j]@) {
                        lemma_chars_lt_total(entries[0]@, rest);
                        if chars_lt(rest, entries[0]@) {
                            lemma_chars_lt_trans(rest, entries[0]@, entries[j]@);
                        }
                    }
                }
            }
        }
    }
}

/// Picks the lexicographically greatest entry from position `i` on.
fn greatest_from(entries: &Vec<String>, i: usize) -> (r: String)
    requires
        i < entries@.len(),
    ensures
        r@ == greatest_entry(entries@.skip(i as int)),
    decreases entries@.len() - i,
{
    let part = Ghost(entries@.skip(i as int));
    let n = entries.len();
    if i + 1 == n {
        proof {
            assert(part@.len() == 1);
            assert(part@[0] == entries@[i as int]);
        }
        entries[i].clone()
    } else {
        let rest = greatest_from(entries, i + 1);
        proof {
            assert(part@.skip(1) =~= entries@.skip(i + 1));
            assert(part@[0] == entries@[i as int]);
        }
        if str_lt(entries[i].as_str(), rest.as_str()) {
            rest
        } else {
            entries[i].clone()
        }
    }
}

/// The newest-looking installed version: the lexicographically greatest
/// directory entry, or `None` if there are no entries.
pub fn latest_version(entries: &Vec<String>) -> (r: Option<String>)
    ensures
        (match r {
            None => entries@.len() == 0,
            Some(s) => entries@.len() > 0 && s@ == greatest_entry(entries@),
        }),
{
    if entries.len() == 0 {
        None
    } else {
        proof {
            assert(entries@.skip(0) =~= entries@);
        }
        Some(greatest_from(entries, 0))
    }
}

/// Where discovery finds the kit, as a pure function of the snapshot: the
/// first applicable strategy decides.
pub open spec fn locate_spec(p: HostProbe) -> Option<Seq<char>> {
    if p.android_ndk_home is Some {
        Some(p.android_ndk_home->0@)
    } else if p.ndk_home is Some {
        Some(p.ndk_home->0@)
    } else if p.android_sdk_home is Some && p.sdk_ndk_bundle_exists {
        Some(join_spec(p.android_sdk_home->0@, "ndk-bundle"@))
    } else if p.installed_versions is Some && p.installed_versions->0@.len() > 0 {
        Some(join_spec(default_kit_dir_spec(p.install_base@), greatest_entry(
            p.installed_versions->0@,
        )))
    } else {
        None
    }
}

/// Locates a kit installation in the snapshot, by the four strategies in
/// priority order; returns `None` if no strategy yields a usable path.
pub fn locate(probe: &HostProbe) -> (r: Option<String>)
    ensures
        (r is Some) == (locate_spec(*probe) is Some),
        r matches Some(path) ==> path@ == locate_spec(*probe)->0,
{
    if let Some(path) = &probe.android_ndk_home {
        return Some(path.clone());
    }
    if let Some(path) = &probe.ndk_home {
        return Some(path.clone());
    }
    if let Some(sdk) = &probe.android_sdk_home {
        if probe.sdk_ndk_bundle_exists {
            return Some(path_join(sdk.as_str(), "ndk-bundle"));
        }
    }
    if let Some(entries) = &probe.installed_versions {
        if let Some(version) = latest_version(entries) {
            let dir = default_kit_dir(probe.install_base.as_str());
            return Some(path_join(dir.as_str(), version.as_str()));
        }
    }
    None
}

/// Law: if the primary environment variable is set, it decides the result
/// verbatim; no other part of the snapshot is consulted.
pub proof fn lemma_priority_primary(p: HostProbe, q: HostProbe)
    requires
        p.android_ndk_home is Some,
        q.android_ndk_home == p.android_ndk_home,
    ensures
        locate_spec(p) == Some(p.android_ndk_home->0@),
        locate_spec(p) == locate_spec(q),
{
}

/// Law: with the primary variable unset, the legacy alias decides the
/// result verbatim; the remaining strategies are never consulted.
pub proof fn lemma_priority_legacy(p: HostProbe, q: HostProbe)
    requires
        p.android_ndk_home is None,
        q.android_ndk_home is None,
        p.ndk_home is Some,
        q.ndk_home == p.ndk_home,
    ensures
        locate_spec(p) == Some(p.ndk_home->0@),
        locate_spec(p) == locate_spec(q),
{
}

/// Law: with both kit variables unset, a set SDK root whose conventional
/// subdirectory exists decides the result; the default installation
/// directory is never consulted.
pub proof fn lemma_priority_sdk(p: HostProbe, q: HostProbe)
    requires
        p.android_ndk_home is None,
        q.android_ndk_home is None,
        p.ndk_home is None,
        q.ndk_home is None,
        p.android_sdk_home is Some,
        p.sdk_ndk_bundle_exists,
        q.android_sdk_home == p.android_sdk_home,
        q.sdk_ndk_bundle_exists == p.sdk_ndk_bundle_exists,
    ensures
        locate_spec(p) == Some(join_spec(p.android_sdk_home->0@, "ndk-bundle"@)),
        locate_spec(p) == locate_spec(q),
{
}

/// Law: with no environment variable applicable, the default installation
/// directory decides: the lexicographically greatest installed version is
/// picked, and an empty or unreadable directory yields absence.
pub proof fn lemma_priority_default(p: HostProbe)
    requires
        p.android_ndk_home is None,
        p.ndk_home is None,
        p.android_sdk_home is None || !p.sdk_ndk_bundle_exists,
    ensures
        p.installed_versions is Some && p.installed_versions->0@.len() > 0 ==> locate_spec(p)
            == Some(join_spec(default_kit_dir_spec(p.install_base@), greatest_entry(
            p.installed_versions->0@,
        ))),
        (p.installed_versions is None || p.installed_versions->0@.len() == 0) ==> locate_spec(p)
            is None,
{
}

} // verus!
