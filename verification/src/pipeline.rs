//! The preflight of a run: kit discovery and target resolution, combined
//! into one decision. A run that finds no kit aborts with a distinct,
//! documented failure — it is never mistaken for a successful run — and no
//! build is ever attempted for it.

use vstd::prelude::*;
use crate::error::NdkError;
use crate::locator::{locate, locate_spec, HostProbe};
use crate::resolver::{resolve, resolved_platform_spec, resolved_targets_spec, ProjectConfig};
use crate::target::Target;

verus! {

/// Everything the build loop needs: the kit root, the target set and the
/// API level.
#[derive(Debug)]
pub struct RunPlan {
    pub kit: String,
    pub targets: Vec<Target>,
    pub platform: u8,
}

/// Runs discovery and resolution. Returns the plan of the run, or the
/// kit-not-found failure when no discovery strategy succeeded; in that case
/// no build must be attempted.
pub fn prepare(
    probe: &HostProbe,
    cli_targets: Vec<Target>,
    cli_platform: Option<u8>,
    config: &ProjectConfig,
) -> (r: Result<RunPlan, NdkError>)
    requires
        config.targets@.len() > 0,
    ensures
        (match r {
            Ok(plan) => {
                &&& locate_spec(*probe) is Some
                &&& plan.kit@ == locate_spec(*probe)->0
                &&& plan.targets@ == resolved_targets_spec(cli_targets@, config.targets@)
                &&& plan.targets@.len() > 0
                &&& plan.platform == resolved_platform_spec(cli_platform, config.platform)
            },
            Err(e) => e == NdkError::KitNotFound && locate_spec(*probe) is None,
        }),
{
    let kit = match locate(probe) {
        Some(kit) => kit,
        None => {
            return Err(NdkError::KitNotFound);
        },
    };
    let resolution = resolve(cli_targets, cli_platform, config);
    Ok(RunPlan { kit, targets: resolution.targets, platform: resolution.platform })
}

} // verus!
