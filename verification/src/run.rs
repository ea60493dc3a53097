//! The entry of the host: it loads the configuration, chooses between the
//! two ways to run, and hands out a host and a bridge that have not begun.

use vstd::prelude::*;
use crate::config::LaunchConfigView;
use crate::control::ControlBridge;
use crate::host::ServiceHost;
use crate::store::{
    load_service_config, optional_record_view, spec_load, ConfigError, StoreRecord,
};
use crate::supervisor::SupervisionState;

verus! {

/// The name of the environment toggle that selects the debug mode.
pub const DEBUG_TOGGLE: &'static str = "RUST_NSSM_DEBUG";

/// How the host runs.
#[derive(Clone, Copy, Debug, PartialEq, Eq, Structural)]
pub enum ExecutionMode {
    /// Under the platform's service dispatcher.
    Service,
    /// Alone, for debugging: an interrupt from the user stands for the
    /// platform's stop request.
    Debug,
}

/// The mode for a value of the toggle: debug where the toggle is set to
/// the text `1`, service in every other case.
pub open spec fn spec_select_mode(toggle: Option<Seq<char>>) -> ExecutionMode {
    if toggle == Some(seq!['1']) {
        ExecutionMode::Debug
    } else {
        ExecutionMode::Service
    }
}

/// The view of a toggle that may be unset.
pub open spec fn toggle_view(toggle: Option<&str>) -> Option<Seq<char>> {
    match toggle {
        Some(text) => Some(text@),
        None => None,
    }
}

/// Chooses the mode from the value of the toggle, `None` where it is unset.
pub fn select_mode(toggle: Option<&str>) -> (mode: ExecutionMode)
    ensures
        mode == spec_select_mode(toggle_view(toggle)),
{
    match toggle {
        Some(text) => {
            if text.unicode_len() == 1 && text.get_char(0) == '1' {
                assert(text@ =~= seq!['1']);
                ExecutionMode::Debug
            } else {
                ExecutionMode::Service
            }
        },
        None => ExecutionMode::Service,
    }
}

/// What a run consists of: the mode, and a host and a bridge that have not
/// begun.
pub struct RunPlan {
    pub mode: ExecutionMode,
    pub host: ServiceHost,
    pub bridge: ControlBridge,
}

/// Prepares the run of `service_name`: loads its configuration from what
/// the platform knows of the service and what the store holds, and chooses
/// the mode by the toggle. Both modes run the same host and the same
/// bridge. It fails, with the error of the load, exactly where the
/// configuration cannot be loaded.
pub fn run_service(
    service_name: &str,
    registered: bool,
    record: Option<&StoreRecord>,
    executable_on_disk: bool,
    toggle: Option<&str>,
) -> (r: Result<RunPlan, ConfigError>)
    ensures
        match r {
            Ok(plan) => {
                &&& spec_load(
                    service_name@,
                    registered,
                    optional_record_view(record),
                    executable_on_disk,
                ) == Ok::<LaunchConfigView, ConfigError>(plan.host.config())
                &&& plan.host.state() == SupervisionState::initial()
                &&& plan.bridge == ControlBridge::initial()
                &&& plan.mode == spec_select_mode(toggle_view(toggle))
            },
            Err(e) => spec_load(
                service_name@,
                registered,
                optional_record_view(record),
                executable_on_disk,
            ) == Err::<LaunchConfigView, ConfigError>(e),
        },
{
    match load_service_config(service_name, registered, record, executable_on_disk) {
        Ok(config) => Ok(
            RunPlan {
                mode: select_mode(toggle),
                host: ServiceHost::from_config(config),
                bridge: ControlBridge::new(),
            },
        ),
        Err(e) => Err(e),
    }
}

} // verus!
