//! Artifact collection: turning the per-target build outputs into an
//! explicit, ordered plan of filesystem actions that assembles the
//! deployment tree `<dest root>/<target name>/<artifact>`. Each action
//! carries an explicit failure policy: copies are fatal when they fail,
//! stripping is best-effort and never fails the run.

use vstd::prelude::*;
use vstd::string::*;
use crate::target::Target;
use crate::text::{join_spec, path_join};

verus! {

/// Whether a directory entry name carries the shared-library suffix: a
/// non-empty stem followed by the `.so` extension.
pub open spec fn is_shared_library_name(name: Seq<char>) -> bool {
    &&& name.len() >= 4
    &&& name[name.len() - 3] == '.'
    &&& name[name.len() - 2] == 's'
    &&& name[name.len() - 1] == 'o'
}

/// Decides whether a directory entry name is a shared-library artifact.
pub fn has_shared_library_suffix(name: &str) -> (r: bool)
    ensures
        r == is_shared_library_name(name@),
{
    let n = name.unicode_len();
    if n < 4 {
        return false;
    }
    name.get_char(n - 3) == '.' && name.get_char(n - 2) == 's' && name.get_char(n - 1) == 'o'
}

/// One planned filesystem action of the collection pass.
#[derive(Clone, PartialEq, Eq, Debug)]
pub enum FsAction {
    /// Create a directory (and its missing parents), idempotently.
    CreateDir { path: String },
    /// Copy a discovered artifact into the deployment tree.
    CopyFile { from: String, to: String },
    /// Run the kit's stripping utility on a delivered artifact, in place.
    StripArtifact { kit: String, triple: String, path: String },
}

/// The mathematical image of a planned action.
pub enum ActionModel {
    CreateDir(Seq<char>),
    CopyFile(Seq<char>, Seq<char>),
    StripArtifact(Seq<char>, Seq<char>, Seq<char>),
}

impl View for FsAction {
    type V = ActionModel;

    open spec fn view(&self) -> ActionModel {
        match self {
            FsAction::CreateDir { path } => ActionModel::CreateDir(path@),
            FsAction::CopyFile { from, to } => ActionModel::CopyFile(from@, to@),
            FsAction::StripArtifact { kit, triple, path } => ActionModel::StripArtifact(
                kit@,
                triple@,
                path@,
            ),
        }
    }
}

impl DeepView for FsAction {
    type V = ActionModel;

    open spec fn deep_view(&self) -> ActionModel {
        self.view()
    }
}

/// What a failure of an action means for the run.
#[derive(Clone, Copy, PartialEq, Eq, Structural, Debug)]
pub enum FailurePolicy {
    /// The run terminates abnormally if this action fails.
    Fatal,
    /// A failure is tolerated and silently ignored.
    BestEffort,
}

/// The failure policy of each action: stripping is best-effort
/// post-processing, everything else is fatal when it fails.
pub open spec fn policy_spec(a: ActionModel) -> FailurePolicy {
    match a {
        ActionModel::StripArtifact(..) => FailurePolicy::BestEffort,
        _ => FailurePolicy::Fatal,
    }
}

impl FsAction {
    /// What a failure of this action means for the run.
    pub fn policy(&self) -> (r: FailurePolicy)
        ensures
            r == policy_spec(self@),
    {
        match self {
            FsAction::StripArtifact { .. } => FailurePolicy::BestEffort,
            _ => FailurePolicy::Fatal,
        }
    }
}

/// Law: no strip action is ever fatal — a failing strip cannot fail a run
/// that executes the plan by its policies.
pub proof fn lemma_strip_is_best_effort(a: ActionModel)
    requires
        a is StripArtifact,
    ensures
        policy_spec(a) == FailurePolicy::BestEffort,
{
}

/// The per-architecture destination directory: `<dest root>/<target name>`.
pub open spec fn arch_dir_spec(dest_root: Seq<char>, t: Target) -> Seq<char> {
    join_spec(dest_root, t.name_spec())
}

/// The build tool's per-target, per-profile output directory:
/// `<out root>/<triple>/<release|debug>`.
pub open spec fn profile_dir_spec(out_root: Seq<char>, t: Target, release: bool) -> Seq<char> {
    join_spec(join_spec(out_root, t.triple_spec()), if release {
        "release"@
    } else {
        "debug"@
    })
}

/// The planned actions for the listed entries of one target's output
/// directory, in listing order: each matching artifact is copied and then
/// stripped; other entries are ignored.
pub open spec fn file_actions_spec(
    listing: Seq<Seq<char>>,
    src_dir: Seq<char>,
    arch_dir: Seq<char>,
    kit: Seq<char>,
    triple: Seq<char>,
) -> Seq<ActionModel>
    decreases listing.len(),
{
    if listing.len() == 0 {
        Seq::empty()
    } else {
        let head = if is_shared_library_name(listing[0]) {
            seq![
                ActionModel::CopyFile(join_spec(src_dir, listing[0]), join_spec(arch_dir, listing[0])),
                ActionModel::StripArtifact(kit, triple, join_spec(arch_dir, listing[0])),
            ]
        } else {
            Seq::empty()
        };
        head + file_actions_spec(listing.skip(1), src_dir, arch_dir, kit, triple)
    }
}

/// The planned actions for one target: its destination subdirectory is
/// created first — even when no artifact matches — then its artifacts are
/// copied and stripped.
pub open spec fn target_actions_spec(
    t: Target,
    listing: Seq<Seq<char>>,
    kit: Seq<char>,
    out_root: Seq<char>,
    release: bool,
    dest_root: Seq<char>,
) -> Seq<ActionModel> {
    seq![ActionModel::CreateDir(arch_dir_spec(dest_root, t))] + file_actions_spec(
        listing,
        profile_dir_spec(out_root, t, release),
        arch_dir_spec(dest_root, t),
        kit,
        t.triple_spec(),
    )
}

/// The whole collection plan, target by target in build order.
pub open spec fn plan_spec(
    targets: Seq<Target>,
    listings: Seq<Seq<Seq<char>>>,
    kit: Seq<char>,
    out_root: Seq<char>,
    release: bool,
    dest_root: Seq<char>,
) -> Seq<ActionModel>
    decreases targets.len(),
{
    if targets.len() == 0 {
        Seq::empty()
    } else {
        target_actions_spec(targets[0], listings[0], kit, out_root, release, dest_root)
            + plan_spec(targets.skip(1), listings.skip(1), kit, out_root, release, dest_root)
    }
}

/// The per-architecture destination directory for one target.
pub fn arch_dir(dest_root: &str, t: Target) -> (r: String)
    ensures
        r@ == arch_dir_spec(dest_root@, t),
{
    path_join(dest_root, t.name())
}

/// The build tool's output directory for one target and profile.
pub fn profile_dir(out_root: &str, t: Target, release: bool) -> (r: String)
    ensures
        r@ == profile_dir_spec(out_root@, t, release),
{
    let base = path_join(out_root, t.triple());
    path_join(base.as_str(), if release { "release" } else { "debug" })
}

/// Plans the actions for one listed directory, from entry `i` on.
fn file_actions_from(
    listing: &Vec<String>,
    i: usize,
    src_dir: &str,
    arch_dir_path: &str,
    kit: &str,
    triple: &str,
) -> (r: Vec<FsAction>)
    requires
        i <= listing@.len(),
    ensures
        r.deep_view() == file_actions_spec(
            listing.deep_view().skip(i as int),
            src_dir@,
            arch_dir_path@,
            kit@,
            triple@,
        ),
    decreases listing@.len() - i,
{
    let ghost part = listing.deep_view().skip(i as int);
    let n = listing.len();
    let mut out: Vec<FsAction> = Vec::new();
    if i == n {
        proof {
            assert(listing.deep_view().len() == listing@.len());
            assert(part.len() == 0);
            assert(out.deep_view() =~= file_actions_spec(part, src_dir@, arch_dir_path@, kit@, triple@));
        }
        return out;
    }
    proof {
        assert(listing.deep_view().len() == listing@.len());
        assert(part[0] == listing.deep_view()[i as int]);
        assert(part.skip(1) =~= listing.deep_view().skip(i + 1));
    }
    let name = &listing[i];
    if has_shared_library_suffix(name.as_str()) {
        let dest = path_join(arch_dir_path, name.as_str());
        out.push(FsAction::CopyFile { from: path_join(src_dir, name.as_str()), to: dest.clone() });
        out.push(
            FsAction::StripArtifact {
                kit: String::from_str(kit),
                triple: String::from_str(triple),
                path: dest,
            },
        );
    }
    let mut rest = file_actions_from(listing, i + 1, src_dir, arch_dir_path, kit, triple);
    let ghost rest_view = rest.deep_view();
    out.append(&mut rest);
    proof {
        assert(out.deep_view() =~= file_actions_spec(part, src_dir@, arch_dir_path@, kit@, triple@));
    }
    out
}

/// Plans the whole collection pass, from target `i` on.
fn plan_from(
    targets: &Vec<Target>,
    listings: &Vec<Vec<String>>,
    i: usize,
    kit: &str,
    out_root: &str,
    release: bool,
    dest_root: &str,
) -> (r: Vec<FsAction>)
    requires
        i <= targets@.len(),
        listings@.len() == targets@.len(),
    ensures
        r.deep_view() == plan_spec(
            targets@.skip(i as int),
            listings.deep_view().skip(i as int),
            kit@,
            out_root@,
            release,
            dest_root@,
        ),
    decreases targets@.len() - i,
{
    let ghost part_targets = targets@.skip(i as int);
    let ghost part_listings = listings.deep_view().skip(i as int);
    let n = targets.len();
    let mut out: Vec<FsAction> = Vec::new();
    if i == n {
        proof {
            assert(listings.deep_view().len() == listings@.len());
            assert(out.deep_view() =~= plan_spec(part_targets, part_listings, kit@, out_root@, release, dest_root@));
        }
        return out;
    }
    proof {
        assert(listings.deep_view().len() == listings@.len());
        assert(part_targets[0] == targets@[i as int]);
        assert(part_listings[0] == listings.deep_view()[i as int]);
        assert(part_targets.skip(1) =~= targets@.skip(i + 1));
        assert(part_listings.skip(1) =~= listings.deep_view().skip(i + 1));
        assert(listings.deep_view()[i as int] == listings@[i as int].deep_view());
    }
    let t = targets[i];
    let arch = arch_dir(dest_root, t);
    out.push(FsAction::CreateDir { path: arch.clone() });
    let src = profile_dir(out_root, t, release);
    let mut files = file_actions_from(&listings[i], 0, src.as_str(), arch.as_str(), kit, t.triple());
    proof {
        assert(listings@[i as int].deep_view().skip(0) =~= listings@[i as int].deep_view());
    }
    out.append(&mut files);
    let mut rest = plan_from(targets, listings, i + 1, kit, out_root, release, dest_root);
    out.append(&mut rest);
    proof {
        assert(out.deep_view() =~= plan_spec(part_targets, part_listings, kit@, out_root@, release, dest_root@));
    }
    out
}

/// Plans the collection pass: for each target, in order, create its
/// destination subdirectory, then copy each matching artifact from the
/// build tool's output directory and strip the copy. `listings[i]` holds
/// the directory entry names of target `i`'s output directory.
pub fn collect_plan(
    targets: &Vec<Target>,
    listings: &Vec<Vec<String>>,
    kit: &str,
    out_root: &str,
    release: bool,
    dest_root: &str,
) -> (r: Vec<FsAction>)
    requires
        listings@.len() == targets@.len(),
    ensures
        r.deep_view() == plan_spec(
            targets@,
            listings.deep_view(),
            kit@,
            out_root@,
            release,
            dest_root@,
        ),
{
    let r = plan_from(targets, listings, 0, kit, out_root, release, dest_root);
    proof {
        assert(targets@.skip(0) =~= targets@);
        assert(listings.deep_view().skip(0) =~= listings.deep_view());
    }
    r
}

/// Law: the plan creates the destination subdirectory of every target,
/// even one with no matching artifacts at all.
pub proof fn lemma_plan_creates_arch_dirs(
    targets: Seq<Target>,
    listings: Seq<Seq<Seq<char>>>,
    kit: Seq<char>,
    out_root: Seq<char>,
    release: bool,
    dest_root: Seq<char>,
    i: int,
)
    requires
        listings.len() == targets.len(),
        0 <= i < targets.len(),
    ensures
        plan_spec(targets, listings, kit, out_root, release, dest_root).contains(
            ActionModel::CreateDir(arch_dir_spec(dest_root, targets[i])),
        ),
    decreases i,
{
    let plan = plan_spec(targets, listings, kit, out_root, release, dest_root);
    if i == 0 {
        assert(plan[0] == ActionModel::CreateDir(arch_dir_spec(dest_root, targets[0])));
    } else {
        lemma_plan_creates_arch_dirs(
            targets.skip(1),
            listings.skip(1),
            kit,
            out_root,
            release,
            dest_root,
            i - 1,
        );
        let rest = plan_spec(targets.skip(1), listings.skip(1), kit, out_root, release, dest_root);
        let head = target_actions_spec(targets[0], listings[0], kit, out_root, release, dest_root);
        let a = ActionModel::CreateDir(arch_dir_spec(dest_root, targets.skip(1)[i - 1]));
        let k = choose|k: int| 0 <= k < rest.len() && rest[k] == a;
        assert(plan[head.len() + k] == a);
        assert(targets.skip(1)[i - 1] == targets[i]);
    }
}

} // verus!
