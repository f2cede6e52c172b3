//! Displays through whatever controller the platform offers.

use crate::domain::{
    DisplayInput, DisplayMuxProfile, FingerprintView, MonitorDescriptor, MonitorFingerprint,
    MonitorId, SwitchMode, SwitchOutcome,
};
use crate::error::{DisplayMuxError, ErrorView};
use crate::port::MonitorControl;
use crate::selection::{is_inventory, monitor_inventory, MonitorInventory};
use crate::service::{grants_switch, is_switch, DisplayMuxService};
use crate::settings::AppSettings;
use vstd::prelude::*;

verus! {

/// The controller of a platform on which displays cannot be controlled.
pub struct UnsupportedController;

impl MonitorControl for UnsupportedController {
    fn enumerate(&self) -> (listed: Result<Vec<MonitorDescriptor>, DisplayMuxError>)
        ensures
            listed matches Err(error) && error@ == ErrorView::UnsupportedPlatform,
    {
        Err(DisplayMuxError::UnsupportedPlatform)
    }

    fn read_input(&self, _monitor: &MonitorId) -> (read: Result<DisplayInput, DisplayMuxError>)
        ensures
            read matches Err(error) && error@ == ErrorView::UnsupportedPlatform,
    {
        Err(DisplayMuxError::UnsupportedPlatform)
    }

    fn supported_inputs(&self, _monitor: &MonitorId) -> (supported: Result<
        Vec<DisplayInput>,
        DisplayMuxError,
    >)
        ensures
            supported matches Err(error) && error@ == ErrorView::UnsupportedPlatform,
    {
        Err(DisplayMuxError::UnsupportedPlatform)
    }

    fn write_input(&self, _monitor: &MonitorId, _input: DisplayInput) -> (written: Result<
        (),
        DisplayMuxError,
    >)
        ensures
            written matches Err(error) && error@ == ErrorView::UnsupportedPlatform,
    {
        Err(DisplayMuxError::UnsupportedPlatform)
    }
}

/// Lists the displays of the platform, if it has a controller.
pub fn enumerate_monitor_inventory<C: MonitorControl>(
    controller: Result<C, DisplayMuxError>,
) -> (inventory: Result<MonitorInventory, DisplayMuxError>)
    ensures
        match controller {
            Ok(controller) => is_inventory(controller, inventory),
            Err(error) => inventory == Err::<MonitorInventory, _>(error),
        },
{
    match controller {
        Ok(controller) => monitor_inventory(&controller),
        Err(error) => Err(error),
    }
}

/// How a switch through the controller of the platform may end.
pub open spec fn is_platform_switch<C: MonitorControl>(
    controller: Result<C, DisplayMuxError>,
    shared: FingerprintView,
    input: DisplayInput,
    result: Result<SwitchOutcome, DisplayMuxError>,
) -> bool {
    match controller {
        Ok(controller) => is_switch(controller, shared, input, SwitchMode::Apply, result),
        Err(error) => result == Err::<SwitchOutcome, _>(error),
    }
}

/// Leave to write what a switch through the controller of the platform may write.
pub open spec fn grants_platform_switch<C: MonitorControl>(
    controller: Result<C, DisplayMuxError>,
    shared: FingerprintView,
    input: DisplayInput,
) -> bool {
    controller matches Ok(controller) ==> grants_switch(controller, shared, input, SwitchMode::Apply)
}

/// Makes the display with a given fingerprint show `input`.
pub fn run_switch<C: MonitorControl>(
    controller: Result<C, DisplayMuxError>,
    fingerprint: MonitorFingerprint,
    input: DisplayInput,
) -> (result: Result<SwitchOutcome, DisplayMuxError>)
    requires
        grants_platform_switch(controller, fingerprint@, input),
    ensures
        is_platform_switch(controller, fingerprint@, input, result),
{
    match controller {
        Ok(controller) => {
            let service = DisplayMuxService::new(
                controller,
                DisplayMuxProfile { shared_monitor: fingerprint },
            );
            service.switch_to_input(input, SwitchMode::Apply)
        },
        Err(error) => Err(error),
    }
}

/// Makes the shared display of the settings show `input`. Without one nothing is switched.
pub fn run_local_switch<C: MonitorControl>(
    controller: Result<C, DisplayMuxError>,
    settings: &AppSettings,
    input: DisplayInput,
) -> (result: Result<SwitchOutcome, DisplayMuxError>)
    requires
        settings.shared_monitor matches Some(selected) ==> grants_platform_switch(
            controller,
            selected.fingerprint@,
            input,
        ),
    ensures
        match settings.shared_monitor {
            Some(selected) => is_platform_switch(controller, selected.fingerprint@, input, result),
            None => result matches Err(error) && error@ == ErrorView::TargetNotFound,
        },
{
    match &settings.shared_monitor {
        Some(selected) => run_switch(controller, selected.fingerprint.clone(), input),
        None => Err(DisplayMuxError::TargetNotFound),
    }
}

/// On a platform without display control every switch of a selected display fails for that
/// reason.
pub proof fn unsupported_platform_switches_nothing(
    shared: FingerprintView,
    input: DisplayInput,
    result: Result<SwitchOutcome, DisplayMuxError>,
)
    requires
        is_switch(UnsupportedController, shared, input, SwitchMode::Apply, result),
    ensures
        result matches Err(error) && error@ == ErrorView::UnsupportedPlatform,
{
}

} // verus!
