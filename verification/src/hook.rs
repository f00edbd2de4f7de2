//! Configuration of the secondary diagnostic channel.
//!
//! Besides being captured into the diagnostic store, an intercepted fault's
//! diagnostics can additionally be rendered to a secondary channel (a
//! console). One process-wide setting controls this; the default renders.
//! Once rendering is disabled, an environment-style override — read at fault
//! time, not at configuration time — still forces full rendering when it is
//! set to anything but `"0"`, so low-level diagnostics stay reachable without
//! recompiling.

use vstd::prelude::*;

use crate::wrapper::spec_diagnostic;
use crate::wrapper::spec_status;
use crate::wrapper::CallOutcome;

verus! {

/// The process-wide configuration of the secondary diagnostic channel.
/// The last configuration written wins; there is no teardown.
pub struct HookConfig {
    /// True once the boundary was told to stop rendering fault diagnostics
    /// to the secondary channel.
    pub printing_disabled: bool,
}

/// The view of an optional override value as an optional character sequence.
pub open spec fn spec_override_view(value: Option<String>) -> Option<Seq<char>> {
    match value {
        Some(v) => Some(v@),
        None => None,
    }
}

/// Whether a fault's diagnostics are rendered to the secondary channel:
/// always while rendering is enabled (the default), and otherwise exactly
/// when the override is set to something other than `"0"`.
pub open spec fn spec_should_render(config: HookConfig, override_value: Option<Seq<char>>) -> bool {
    if !config.printing_disabled {
        true
    } else {
        match override_value {
            Some(v) => v != "0"@,
            None => false,
        }
    }
}

/// Everything the boundary does with one call's outcome: the status code
/// returned to the caller, the diagnostic recorded for a failure, and whether
/// the secondary channel renders it.
pub open spec fn spec_fault_response(
    config: HookConfig,
    override_value: Option<Seq<char>>,
    outcome: CallOutcome,
) -> (i32, Seq<char>, bool) {
    (
        spec_status(outcome),
        spec_diagnostic(outcome),
        spec_should_render(config, override_value),
    )
}

/// However the secondary channel is configured — toggled on, off, or back
/// again, under any override — the status protocol is unaffected: the status
/// code and the recorded diagnostic of an outcome are the same under any two
/// configurations. Only the rendering decision can differ.
pub proof fn lemma_hook_config_cannot_mask_errors(
    c1: HookConfig,
    c2: HookConfig,
    ov1: Option<Seq<char>>,
    ov2: Option<Seq<char>>,
    outcome: CallOutcome,
)
    ensures
        spec_fault_response(c1, ov1, outcome).0 == spec_fault_response(c2, ov2, outcome).0,
        spec_fault_response(c1, ov1, outcome).1 == spec_fault_response(c2, ov2, outcome).1,
{
}

impl HookConfig {
    /// The configuration before any call to the controller: faults are
    /// rendered to the secondary channel.
    pub fn new() -> (config: Self)
        ensures
            !config.printing_disabled,
    {
        HookConfig { printing_disabled: false }
    }

    /// Decides, at fault time, whether this fault's diagnostics go to the
    /// secondary channel, from the override value read at that moment.
    pub fn should_render(&self, override_value: &Option<String>) -> (render: bool)
        ensures
            render == spec_should_render(*self, spec_override_view(*override_value)),
    {
        if !self.printing_disabled {
            true
        } else {
            match override_value {
                Some(v) => {
                    let zero = "0".to_owned();
                    *v != zero
                }
                None => false,
            }
        }
    }
}

} // verus!
