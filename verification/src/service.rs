//! Switching the shared display, and no other.

use crate::domain::{
    DisplayInput, DisplayMuxProfile, FingerprintView, MonitorDescriptor, MonitorFingerprint,
    SwitchMode, SwitchOutcome,
};
use crate::error::{DisplayMuxError, ErrorView};
use crate::guard::TargetGuard;
use crate::port::MonitorControl;
use vstd::prelude::*;

verus! {

/// The displays in `monitors` that have exactly the fingerprint `shared`.
pub open spec fn matching(monitors: Seq<MonitorDescriptor>, shared: FingerprintView) -> Seq<
    MonitorDescriptor,
> {
    monitors.filter(|monitor: MonitorDescriptor| shared.matches_exactly(monitor.fingerprint@))
}

/// The display to control: the one that matches, provided that no second one does.
pub open spec fn is_target(
    monitors: Seq<MonitorDescriptor>,
    shared: FingerprintView,
    target: MonitorDescriptor,
) -> bool {
    matching(monitors, shared) == seq![target]
}

/// Why there is no display to control, if there is none: no display matches, or several do.
pub open spec fn target_fault(monitors: Seq<MonitorDescriptor>, shared: FingerprintView) -> Option<
    ErrorView,
> {
    let count = matching(monitors, shared).len();
    if count == 0 {
        Some(ErrorView::TargetNotFound)
    } else if count == 1 {
        None
    } else {
        Some(ErrorView::AmbiguousTarget { count })
    }
}

/// Picks the display to control. Anything but a single match stops the operation.
pub fn resolve_target(monitors: &[MonitorDescriptor], shared: &MonitorFingerprint) -> (target:
    Result<MonitorDescriptor, DisplayMuxError>)
    ensures
        match target {
            Ok(target) => is_target(monitors@, shared@, target),
            Err(error) => target_fault(monitors@, shared@) == Some(error@),
        },
{
    let mut found: Option<MonitorDescriptor> = None;
    let mut count: usize = 0;
    let mut i: usize = 0;
    let ghost pred = |monitor: MonitorDescriptor| shared@.matches_exactly(monitor.fingerprint@);
    while i < monitors.len()
        invariant
            i <= monitors@.len(),
            count <= i,
            pred == (|monitor: MonitorDescriptor| shared@.matches_exactly(monitor.fingerprint@)),
            count == monitors@.take(i as int).filter(pred).len(),
            match found {
                Some(target) => monitors@.take(i as int).filter(pred).len() > 0
                    && monitors@.take(i as int).filter(pred)[0] == target,
                None => monitors@.take(i as int).filter(pred).len() == 0,
            },
        decreases monitors@.len() - i,
    {
        assert(monitors@.take(i + 1).drop_last() == monitors@.take(i as int));
        assert(monitors@.take(i + 1).last() == monitors@[i as int]);
        proof {
            reveal(Seq::filter);
        }
        if shared.matches_exactly(&monitors[i].fingerprint) {
            count += 1;
            if found.is_none() {
                found = Some(monitors[i].clone());
            }
        }
        i += 1;
    }
    assert(monitors@.take(i as int) == monitors@);
    match found {
        None => Err(DisplayMuxError::TargetNotFound),
        Some(target) => {
            if count == 1 {
                assert(matching(monitors@, shared@) == seq![target]);
                Ok(target)
            } else {
                Err(DisplayMuxError::AmbiguousTarget { count })
            }
        },
    }
}

/// How a switch of `target` to `input` ends, for each answer of the display.
pub open spec fn target_switched<C: MonitorControl>(
    control: C,
    target: MonitorDescriptor,
    input: DisplayInput,
    mode: SwitchMode,
    result: Result<SwitchOutcome, DisplayMuxError>,
) -> bool {
    if mode == SwitchMode::DryRun {
        result == Ok::<_, DisplayMuxError>(SwitchOutcome::DryRun { target, input })
    } else {
        exists|read: Result<DisplayInput, DisplayMuxError>|
            {
                &&& #[trigger] call_ensures(C::read_input, (&control, &target.id), read)
                &&& match read {
                    Err(error) => result == Err::<SwitchOutcome, _>(error),
                    Ok(current) => if current == input {
                        result == Ok::<_, DisplayMuxError>(
                            SwitchOutcome::AlreadySelected { target, input },
                        )
                    } else {
                        exists|written: Result<(), DisplayMuxError>|
                            {
                                &&& #[trigger] call_ensures(
                                    C::write_input,
                                    (&control, &target.id, input),
                                    written,
                                )
                                &&& match written {
                                    Err(error) => result == Err::<SwitchOutcome, _>(error),
                                    Ok(()) => result == Ok::<_, DisplayMuxError>(
                                        SwitchOutcome::Switched {
                                            target,
                                            previous: current,
                                            selected: input,
                                        },
                                    ),
                                }
                            }
                    },
                }
            }
    }
}

/// How a switch of the display with fingerprint `shared` to `input` may end. Only a single match
/// is switched; none, or several, stop the operation.
pub open spec fn is_switch<C: MonitorControl>(
    control: C,
    shared: FingerprintView,
    input: DisplayInput,
    mode: SwitchMode,
    result: Result<SwitchOutcome, DisplayMuxError>,
) -> bool {
    exists|listed: Result<Vec<MonitorDescriptor>, DisplayMuxError>|
        {
            &&& #[trigger] call_ensures(C::enumerate, (&control,), listed)
            &&& match listed {
                Err(error) => result == Err::<SwitchOutcome, _>(error),
                Ok(monitors) => match target_fault(monitors@, shared) {
                    Some(fault) => result matches Err(error) && error@ == fault,
                    None => target_switched(
                        control,
                        matching(monitors@, shared)[0],
                        input,
                        mode,
                        result,
                    ),
                },
            }
        }
}

/// Leave to write what a switch may write, and nothing else: the shared display, where it is the
/// single match among the connected displays and shows another input. A dry run needs none.
pub open spec fn grants_switch<C: MonitorControl>(
    control: C,
    shared: FingerprintView,
    input: DisplayInput,
    mode: SwitchMode,
) -> bool {
    mode == SwitchMode::Apply ==> forall|
        listed: Vec<MonitorDescriptor>,
        target: MonitorDescriptor,
        shown: DisplayInput,
    |
        {
            &&& #[trigger] call_ensures(C::enumerate, (&control,), Ok(listed))
            &&& #[trigger] is_target(listed@, shared, target)
            &&& #[trigger] call_ensures(C::read_input, (&control, &target.id), Ok(shown))
            &&& shown != input
        } ==> control.may_write(target.id, input)
}

/// Control of the shared display. The guard lets no other display be written.
pub struct DisplayMuxService<C: MonitorControl> {
    guard: TargetGuard<C>,
}

impl<C: MonitorControl> DisplayMuxService<C> {
    pub closed spec fn control(&self) -> C {
        self.guard.control()
    }

    pub closed spec fn shared_monitor(&self) -> FingerprintView {
        self.guard.shared()
    }

    pub fn new(control: C, profile: DisplayMuxProfile) -> (service: Self)
        ensures
            service.control() == control,
            service.shared_monitor() == profile.shared_monitor@,
    {
        DisplayMuxService { guard: TargetGuard::new(control, profile.shared_monitor) }
    }

    /// Makes the shared display show `input`. A service makes one switch and is used up by it, so
    /// the display is written at most once.
    pub fn switch_to_input(self, input: DisplayInput, mode: SwitchMode) -> (result: Result<
        SwitchOutcome,
        DisplayMuxError,
    >)
        requires
            grants_switch(self.control(), self.shared_monitor(), input, mode),
        ensures
            is_switch(self.control(), self.shared_monitor(), input, mode, result),
    {
        let listed = self.guard.enumerate();
        let ghost answer = listed;
        assert(call_ensures(C::enumerate, (&self.control(),), answer));
        let monitors = match listed {
            Ok(monitors) => monitors,
            Err(error) => return Err(error),
        };
        let target = match self.guard.target(&monitors) {
            Ok(target) => target,
            Err(error) => return Err(error),
        };
        match mode {
            SwitchMode::DryRun => Ok(SwitchOutcome::DryRun { target, input }),
            SwitchMode::Apply => {
                let read = self.guard.read_input(&target.id);
                let ghost read_answer = read;
                assert(call_ensures(C::read_input, (&self.control(), &target.id), read_answer));
                let previous = match read {
                    Ok(current) => current,
                    Err(error) => return Err(error),
                };
                if previous == input {
                    return Ok(SwitchOutcome::AlreadySelected { target, input });
                }
                assert(call_ensures(C::enumerate, (&self.control(),), Ok(monitors)));
                assert(call_ensures(C::read_input, (&self.control(), &target.id), Ok(previous)));
                let written = self.guard.write_target(&monitors, &target, previous, input);
                match written {
                    Ok(()) => Ok(SwitchOutcome::Switched { target, previous, selected: input }),
                    Err(error) => Err(error),
                }
            },
        }
    }
}

/// The display that is controlled is connected, has the shared fingerprint, and is the only
/// one that has it: no display with another fingerprint is ever the target.
pub proof fn only_the_shared_display_is_controlled(
    monitors: Seq<MonitorDescriptor>,
    shared: FingerprintView,
    target: MonitorDescriptor,
    other: MonitorDescriptor,
)
    requires
        is_target(monitors, shared, target),
        monitors.contains(other),
    ensures
        monitors.contains(target),
        shared.matches_exactly(target.fingerprint@),
        shared.matches_exactly(other.fingerprint@) ==> other == target,
{
    let pred = |monitor: MonitorDescriptor| shared.matches_exactly(monitor.fingerprint@);
    monitors.lemma_filter_contains_rev(pred, target);
    assert(matching(monitors, shared)[0] == target);
    assert(matching(monitors, shared).contains(target));
    broadcast use vstd::seq_lib::group_filter_ensures;

    if shared.matches_exactly(other.fingerprint@) {
        let i = choose|i: int| 0 <= i < monitors.len() && monitors[i] == other;
        assert(pred(monitors[i]));
        assert(matching(monitors, shared).contains(other));
    }
}

/// What a successful switch reports is the one connected display that has the shared fingerprint,
/// and the input that was asked for.
pub proof fn switch_reports_the_shared_display<C: MonitorControl>(
    control: C,
    shared: FingerprintView,
    input: DisplayInput,
    mode: SwitchMode,
    outcome: SwitchOutcome,
)
    requires
        is_switch(control, shared, input, mode, Ok(outcome)),
    ensures
        match outcome {
            SwitchOutcome::DryRun { target, input: asked } => {
                &&& mode == SwitchMode::DryRun
                &&& asked == input
                &&& shared.matches_exactly(target.fingerprint@)
            },
            SwitchOutcome::AlreadySelected { target, input: asked } => {
                &&& mode == SwitchMode::Apply
                &&& asked == input
                &&& shared.matches_exactly(target.fingerprint@)
            },
            SwitchOutcome::Switched { target, previous, selected } => {
                &&& mode == SwitchMode::Apply
                &&& selected == input
                &&& previous != input
                &&& shared.matches_exactly(target.fingerprint@)
            },
        },
{
    let result = Ok::<_, DisplayMuxError>(outcome);
    let listed = choose|listed: Result<Vec<MonitorDescriptor>, DisplayMuxError>|
        {
            &&& #[trigger] call_ensures(C::enumerate, (&control,), listed)
            &&& listed is Ok
            &&& matching(listed->Ok_0@, shared).len() == 1
            &&& target_switched(control, matching(listed->Ok_0@, shared)[0], input, mode, result)
        };
    let monitors = listed->Ok_0@;
    let target = matching(monitors, shared)[0];
    assert(matching(monitors, shared) =~= seq![target]);
    monitors.lemma_filter_contains_rev(
        |monitor: MonitorDescriptor| shared.matches_exactly(monitor.fingerprint@),
        target,
    );
    only_the_shared_display_is_controlled(monitors, shared, target, target);
}

/// Two connected displays with the shared fingerprint stop every switch.
pub proof fn two_matches_stop_the_switch(
    monitors: Seq<MonitorDescriptor>,
    shared: FingerprintView,
    i: int,
    j: int,
)
    requires
        0 <= i < j < monitors.len(),
        shared.matches_exactly(monitors[i].fingerprint@),
        shared.matches_exactly(monitors[j].fingerprint@),
    ensures
        matching(monitors, shared).len() >= 2,
        forall|target: MonitorDescriptor| !is_target(monitors, shared, target),
    decreases monitors.len(),
{
    let pred = |monitor: MonitorDescriptor| shared.matches_exactly(monitor.fingerprint@);
    reveal(Seq::filter);
    if j == monitors.len() - 1 {
        broadcast use vstd::seq_lib::group_filter_ensures;

        assert(pred(monitors.drop_last()[i]));
        assert(monitors.drop_last().filter(pred).contains(monitors[i]));
    } else {
        two_matches_stop_the_switch(monitors.drop_last(), shared, i, j);
    }
    assert forall|target: MonitorDescriptor| !is_target(monitors, shared, target) by {
        if is_target(monitors, shared, target) {
            assert(seq![target].len() == 1);
        }
    }
}

/// A fingerprint without a serial number selects no display.
pub proof fn without_a_serial_number_nothing_is_controlled(
    monitors: Seq<MonitorDescriptor>,
    shared: FingerprintView,
)
    requires
        shared.serial_number is None,
    ensures
        matching(monitors, shared).len() == 0,
    decreases monitors.len(),
{
    reveal(Seq::filter);
    if monitors.len() > 0 {
        without_a_serial_number_nothing_is_controlled(monitors.drop_last(), shared);
    }
}

} // verus!
