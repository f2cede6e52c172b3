//! The way to a write.
//!
//! A guard owns the controller of the displays and keeps it to itself. Displays can be listed and
//! read through it at will. A write is let through only for the single connected display that has
//! the shared fingerprint, only where that display shows another input, and only once.

use crate::domain::{DisplayInput, FingerprintView, MonitorDescriptor, MonitorFingerprint, MonitorId};
use crate::error::DisplayMuxError;
use crate::port::MonitorControl;
use crate::service::{is_target, resolve_target, target_fault};
use vstd::prelude::*;

verus! {

/// A controller of displays, and the fingerprint of the display that may be written.
pub struct TargetGuard<C: MonitorControl> {
    control: C,
    shared: MonitorFingerprint,
}

impl<C: MonitorControl> TargetGuard<C> {
    pub closed spec fn control(&self) -> C {
        self.control
    }

    pub closed spec fn shared(&self) -> FingerprintView {
        self.shared@
    }

    pub fn new(control: C, shared: MonitorFingerprint) -> (guard: Self)
        ensures
            guard.control() == control,
            guard.shared() == shared@,
    {
        TargetGuard { control, shared }
    }

    /// Lists the connected displays.
    pub fn enumerate(&self) -> (listed: Result<Vec<MonitorDescriptor>, DisplayMuxError>)
        ensures
            call_ensures(C::enumerate, (&self.control(),), listed),
    {
        self.control.enumerate()
    }

    /// Picks the display that may be written.
    pub fn target(&self, monitors: &[MonitorDescriptor]) -> (target: Result<
        MonitorDescriptor,
        DisplayMuxError,
    >)
        ensures
            match target {
                Ok(target) => is_target(monitors@, self.shared(), target),
                Err(error) => target_fault(monitors@, self.shared()) == Some(error@),
            },
    {
        resolve_target(monitors, &self.shared)
    }

    /// Reads the input that a display shows.
    pub fn read_input(&self, monitor: &MonitorId) -> (read: Result<DisplayInput, DisplayMuxError>)
        ensures
            call_ensures(C::read_input, (&self.control(), monitor), read),
    {
        self.control.read_input(monitor)
    }

    /// Makes the shared display show `input`. The caller has listed the displays, found the one
    /// that matches among them, and seen that it shows another input. The guard is used up: there
    /// is no second write.
    pub fn write_target(
        self,
        monitors: &Vec<MonitorDescriptor>,
        target: &MonitorDescriptor,
        shown: DisplayInput,
        input: DisplayInput,
    ) -> (written: Result<(), DisplayMuxError>)
        requires
            call_ensures(C::enumerate, (&self.control(),), Ok(*monitors)),
            is_target(monitors@, self.shared(), *target),
            call_ensures(C::read_input, (&self.control(), &target.id), Ok(shown)),
            shown != input,
            self.control().may_write(target.id, input),
        ensures
            call_ensures(C::write_input, (&self.control(), &target.id, input), written),
    {
        self.control.write_input(&target.id, input)
    }
}

} // verus!
