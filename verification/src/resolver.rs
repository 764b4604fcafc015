//! Resolution of the target set and the API level for a run. An explicit
//! selection on the command line wins outright over the project
//! configuration's defaults: the two sources are never merged.

use vstd::prelude::*;
use crate::target::{copy_targets, Target};

verus! {

/// The defaults exposed by the project configuration collaborator. The
/// collaborator folds built-in fallbacks into these, so its target list is
/// never empty.
pub struct ProjectConfig {
    /// The default target set of the project.
    pub targets: Vec<Target>,
    /// The default API level of the project.
    pub platform: u8,
}

/// A resolved (target set, API level) pair, ready for the build loop.
pub struct Resolution {
    pub targets: Vec<Target>,
    pub platform: u8,
}

/// The target set a run builds for: the explicit selection if there is one,
/// else the configuration's defaults — never a merge of both.
pub open spec fn resolved_targets_spec(cli: Seq<Target>, config: Seq<Target>) -> Seq<Target> {
    if cli.len() > 0 {
        cli
    } else {
        config
    }
}

/// The API level a run builds with: the explicit flag if present, else the
/// configuration's resolved default.
pub open spec fn resolved_platform_spec(cli: Option<u8>, config: u8) -> u8 {
    match cli {
        Some(p) => p,
        None => config,
    }
}

/// Merges the explicit command-line selection with the project defaults.
pub fn resolve(cli_targets: Vec<Target>, cli_platform: Option<u8>, config: &ProjectConfig) -> (r:
    Resolution)
    ensures
        r.targets@ == resolved_targets_spec(cli_targets@, config.targets@),
        r.platform == resolved_platform_spec(cli_platform, config.platform),
{
    let targets = if cli_targets.len() > 0 {
        cli_targets
    } else {
        copy_targets(&config.targets)
    };
    let platform = match cli_platform {
        Some(p) => p,
        None => config.platform,
    };
    Resolution { targets, platform }
}

/// Law: a non-empty explicit selection is used exactly as given, whatever
/// the project configuration's defaults are.
pub proof fn lemma_explicit_selection_wins(cli: Seq<Target>, c1: Seq<Target>, c2: Seq<Target>)
    requires
        cli.len() > 0,
    ensures
        resolved_targets_spec(cli, c1) == cli,
        resolved_targets_spec(cli, c1) == resolved_targets_spec(cli, c2),
{
}

/// Law: the resolved target set is never empty when either source offers
/// targets — in particular, never empty under a configuration that folds in
/// built-in defaults.
pub proof fn lemma_resolution_nonempty(cli: Seq<Target>, config: Seq<Target>)
    requires
        config.len() > 0,
    ensures
        resolved_targets_spec(cli, config).len() > 0,
{
}

} // verus!
