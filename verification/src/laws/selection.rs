//! Laws of choosing the shared display and following the connected ones.

use crate::dashboard::follow_monitors;
use crate::domain::{DisplayInput, MonitorDescriptor, MonitorId};
use crate::error::DisplayMuxError;
use crate::laws::hosts::same_route;
use crate::laws::service::{lemma_first_match, lemma_no_match, same_unit};
use crate::locale::UiLocale;
use crate::port::MonitorControl;
use crate::selection::{
    adopt_monitor, adopts_monitor, candidates, choose_monitor, find_controllable,
    finds_controllable, input_answers, is_chosen, is_inventory, lemma_first_with_id, lemma_single,
    monitor_inventory, readable, reconcile_monitor_selection, refresh_selected_input_data,
    select_monitor, MonitorInventory, MonitorSelectionChange,
};
use crate::settings::{AppSettings, HostRoute, SelectedMonitor};
use vstd::prelude::*;

verus! {

// ---------------------------------------------------------------------------
// The connected displays

/// The displays that a test picks, in their order.
pub open spec fn picked(displays: Seq<MonitorDescriptor>, flags: Seq<bool>) -> Seq<MonitorDescriptor>
    decreases displays.len(),
{
    if displays.len() == 0 || flags.len() == 0 {
        Seq::empty()
    } else if flags[0] {
        seq![displays[0]] + picked(displays.skip(1), flags.skip(1))
    } else {
        picked(displays.skip(1), flags.skip(1))
    }
}

/// What the displays answer when they are listed and each is asked for its input: `flags` tells
/// which of them answer with one.
pub open spec fn listing<C: MonitorControl>(
    control: C,
    detected: Vec<MonitorDescriptor>,
    flags: Seq<bool>,
) -> bool {
    &&& flags.len() == detected@.len()
    &&& forall|listed: Result<Vec<MonitorDescriptor>, DisplayMuxError>|
        #[trigger] call_ensures(C::enumerate, (&control,), listed) ==> listed == Ok::<
            _,
            DisplayMuxError,
        >(detected)
    &&& forall|i: int, answer: Result<DisplayInput, DisplayMuxError>|
        0 <= i < detected@.len() && #[trigger] call_ensures(
            C::read_input,
            (&control, &detected@[i].id),
            answer,
        ) ==> answer is Ok == flags[i]
}

proof fn lemma_picked_end(displays: Seq<MonitorDescriptor>, flags: Seq<bool>)
    requires
        displays.len() == flags.len(),
        displays.len() > 0,
    ensures
        picked(displays, flags) == if flags.last() {
            picked(displays.drop_last(), flags.drop_last()).push(displays.last())
        } else {
            picked(displays.drop_last(), flags.drop_last())
        },
    decreases displays.len(),
{
    let rest = displays.skip(1);
    let rest_flags = flags.skip(1);
    let front = displays.drop_last();
    let front_flags = flags.drop_last();
    if displays.len() == 1 {
        assert(picked(rest, rest_flags).len() == 0);
        assert(picked(front, front_flags).len() == 0);
        if flags[0] {
            assert(picked(displays, flags) =~= seq![displays[0]]);
            assert(picked(front, front_flags).push(displays.last()) =~= seq![displays[0]]);
        } else {
            assert(picked(displays, flags) =~= picked(front, front_flags));
        }
    } else {
        lemma_picked_end(rest, rest_flags);
        assert(rest.drop_last() =~= front.skip(1));
        assert(rest_flags.drop_last() =~= front_flags.skip(1));
        assert(rest.last() == displays.last());
        assert(rest_flags.last() == flags.last());
        assert(front[0] == displays[0] && front_flags[0] == flags[0]);
        if flags[0] && flags.last() {
            assert(seq![displays[0]] + picked(front.skip(1), front_flags.skip(1)).push(
                displays.last(),
            ) =~= (seq![displays[0]] + picked(front.skip(1), front_flags.skip(1))).push(
                displays.last(),
            ));
        }
    }
}

proof fn lemma_readable(
    displays: Seq<MonitorDescriptor>,
    given: Seq<Result<DisplayInput, DisplayMuxError>>,
    flags: Seq<bool>,
)
    requires
        given.len() == displays.len(),
        flags.len() == displays.len(),
        forall|i: int| 0 <= i < displays.len() ==> (#[trigger] given[i]) is Ok == flags[i],
    ensures
        readable(displays, given) == picked(displays, flags),
    decreases displays.len(),
{
    if displays.len() > 0 {
        let last = displays.len() - 1;
        assert forall|i: int| 0 <= i < last implies (#[trigger] given.drop_last()[i]) is Ok
            == flags.drop_last()[i] by {
            assert(given[i] is Ok == flags[i]);
        }
        lemma_readable(displays.drop_last(), given.drop_last(), flags.drop_last());
        lemma_picked_end(displays, flags);
        assert(given[last] is Ok == flags[last]);
    }
}

/// The inventory of displays whose answers are known.
pub proof fn lemma_inventory<C: MonitorControl>(
    control: C,
    inventory: Result<MonitorInventory, DisplayMuxError>,
    detected: Vec<MonitorDescriptor>,
    flags: Seq<bool>,
)
    requires
        is_inventory(control, inventory),
        listing(control, detected, flags),
    ensures
        inventory matches Ok(inventory) && inventory.detected == detected
            && inventory.controllable@ == picked(detected@, flags),
{
    let inventory = inventory->Ok_0;
    let given = choose|given: Seq<Result<DisplayInput, DisplayMuxError>>|
        #[trigger] input_answers(control, detected@, given) && inventory.controllable@ == readable(
            detected@,
            given,
        );
    assert forall|i: int| 0 <= i < detected@.len() implies (#[trigger] given[i]) is Ok == flags[i] by {
        assert(call_ensures(C::read_input, (&control, &detected@[i].id), given[i]));
    }
    lemma_readable(detected@, given, flags);
}

/// The inventory holds every connected display, and as controllable those that answer with an
/// input, in the same order. Where the displays cannot be listed, there is no inventory.
pub proof fn answering_displays_are_controllable<C: MonitorControl>(
    control: C,
    inventory: Result<MonitorInventory, DisplayMuxError>,
    detected: Vec<MonitorDescriptor>,
    flags: Seq<bool>,
    failure: DisplayMuxError,
)
    requires
        call_ensures(monitor_inventory::<C>, (&control,), inventory),
    ensures
        listing(control, detected, flags) ==> (inventory matches Ok(inventory)
            && inventory.detected == detected && inventory.controllable@ == picked(
            detected@,
            flags,
        )),
        (forall|listed: Result<Vec<MonitorDescriptor>, DisplayMuxError>|
            #[trigger] call_ensures(C::enumerate, (&control,), listed) ==> listed == Err::<
                Vec<MonitorDescriptor>,
                _,
            >(failure)) ==> inventory == Err::<MonitorInventory, _>(failure),
{
    if listing(control, detected, flags) {
        lemma_inventory(control, inventory, detected, flags);
    }
}

/// The controllable display that is listed first under an id is found by it.
pub proof fn controllable_display_is_found_by_its_id<C: MonitorControl>(
    locale: UiLocale,
    control: C,
    monitor_id: &str,
    found: Result<MonitorDescriptor, String>,
    detected: Vec<MonitorDescriptor>,
    flags: Seq<bool>,
    position: int,
)
    requires
        call_ensures(find_controllable::<C>, (locale, &control, monitor_id), found),
        listing(control, detected, flags),
    ensures
        ({
            let controllable = picked(detected@, flags);
            &&& (0 <= position < controllable.len() && controllable[position].id@ == monitor_id@
                && forall|i: int|
                0 <= i < position ==> (#[trigger] controllable[i]).id@ != monitor_id@) ==> found
                == Ok::<_, String>(controllable[position])
            &&& (forall|i: int|
                0 <= i < controllable.len() ==> (#[trigger] controllable[i]).id@ != monitor_id@)
                ==> found is Err
        }),
{
    let inventory = choose|inventory: Result<MonitorInventory, DisplayMuxError>|
        #[trigger] is_inventory(control, inventory) && finds_controllable(
            locale,
            inventory,
            monitor_id@,
            found,
        );
    lemma_inventory(control, inventory, detected, flags);
    let controllable = picked(detected@, flags);
    if 0 <= position < controllable.len() && controllable[position].id@ == monitor_id@ && forall|
        i: int,
    |
        0 <= i < position ==> (#[trigger] controllable[i]).id@ != monitor_id@ {
        lemma_first_with_id(controllable, monitor_id@, position);
    }
    if forall|i: int|
        0 <= i < controllable.len() ==> (#[trigger] controllable[i]).id@ != monitor_id@ {
        lemma_first_with_id(controllable, monitor_id@, controllable.len() as int);
    }
}

// ---------------------------------------------------------------------------
// Recording inputs

/// Whether two settings agree in everything but what is recorded of the shared display.
pub open spec fn only_inputs_differ(a: AppSettings, b: AppSettings) -> bool {
    &&& a.local_host == b.local_host
    &&& a.shared_monitor == b.shared_monitor
    &&& a.peers == b.peers
    &&& a.broadcast_ip == b.broadcast_ip
    &&& a.wake_port == b.wake_port
    &&& a.shared_key == b.shared_key
    &&& a.wait_seconds == b.wait_seconds
    &&& a.autostart == b.autostart
    &&& a.check_updates == b.check_updates
}

/// What a display answers when it is asked for its input and for the inputs that it has.
pub open spec fn input_data<C: MonitorControl>(
    control: C,
    monitor: MonitorId,
    read: Result<DisplayInput, DisplayMuxError>,
    supported: Result<Vec<DisplayInput>, DisplayMuxError>,
) -> bool {
    &&& forall|answer: Result<DisplayInput, DisplayMuxError>|
        #[trigger] call_ensures(C::read_input, (&control, &monitor), answer) ==> answer == read
    &&& forall|answer: Result<Vec<DisplayInput>, DisplayMuxError>|
        #[trigger] call_ensures(C::supported_inputs, (&control, &monitor), answer) ==> answer
            == supported
}

/// What is recorded of a display is the input that it shows and the inputs that it names, if it
/// names any. Of a display that cannot be read nothing is recorded, and nothing old is kept.
pub proof fn display_is_recorded_as_it_answers<C: MonitorControl>(
    control: C,
    monitor: MonitorDescriptor,
    settings: &mut AppSettings,
    done: Result<(), DisplayMuxError>,
    read: Result<DisplayInput, DisplayMuxError>,
    supported: Result<Vec<DisplayInput>, DisplayMuxError>,
)
    requires
        call_ensures(refresh_selected_input_data::<C>, (&control, &monitor, settings), done),
        input_data(control, monitor.id, read, supported),
    ensures
        only_inputs_differ(*old(settings), *final(settings)),
        match read {
            Err(error) => {
                &&& done == Err::<(), _>(error)
                &&& final(settings).local_input is None
                &&& final(settings).supported_inputs is None
            },
            Ok(input) => {
                &&& done is Ok
                &&& final(settings).local_input == Some(input)
                &&& final(settings).supported_inputs is Some <==> (supported matches Ok(inputs)
                    && inputs@.len() > 0)
                &&& final(settings).supported_inputs matches Some(inputs) ==> supported == Ok::<
                    _,
                    DisplayMuxError,
                >(inputs)
            },
        },
{
}

// ---------------------------------------------------------------------------
// The selection

/// Whether a selection says of a display what is known of it.
pub open spec fn describes_display(selected: SelectedMonitor, monitor: MonitorDescriptor) -> bool {
    &&& selected.name@ == monitor.name@
    &&& selected.fingerprint@ == monitor.fingerprint@
    &&& selected.max_resolution == monitor.max_resolution
    &&& selected.resolution_source == monitor.resolution_source
}

/// Whether two settings agree in everything but the selection.
pub open spec fn only_selection_differs(a: AppSettings, b: AppSettings) -> bool {
    &&& a.local_host == b.local_host
    &&& a.local_input == b.local_input
    &&& a.supported_inputs == b.supported_inputs
    &&& a.peers == b.peers
    &&& a.broadcast_ip == b.broadcast_ip
    &&& a.wake_port == b.wake_port
    &&& a.shared_key == b.shared_key
    &&& a.wait_seconds == b.wait_seconds
    &&& a.autostart == b.autostart
    &&& a.check_updates == b.check_updates
}

/// Whether the selected display is among some displays.
pub open spec fn is_among(selected: Option<SelectedMonitor>, monitors: Seq<MonitorDescriptor>) -> bool {
    selected matches Some(selected) && exists|i: int|
        0 <= i < monitors.len() && same_unit(
            selected.fingerprint,
            (#[trigger] monitors[i]).fingerprint,
        )
}

/// Whether the display at `position` is the only one that is not built into a computer.
pub open spec fn is_only_external(monitors: Seq<MonitorDescriptor>, position: int) -> bool {
    &&& 0 <= position < monitors.len()
    &&& !monitors[position].built_in
    &&& forall|i: int|
        0 <= i < monitors.len() && i != position ==> (#[trigger] monitors[i]).built_in
}

/// A selected display that is not among some displays matches none of them.
pub proof fn lemma_not_among(selected: SelectedMonitor, monitors: Seq<MonitorDescriptor>)
    requires
        !is_among(Some(selected), monitors),
    ensures
        crate::selection::first_matching(monitors, selected.fingerprint@) is None,
{
    lemma_no_match(monitors, selected.fingerprint);
}

/// A selected display that is among some displays matches one of them.
pub proof fn lemma_among(selected: SelectedMonitor, monitors: Seq<MonitorDescriptor>)
    requires
        is_among(Some(selected), monitors),
    ensures
        crate::selection::first_matching(monitors, selected.fingerprint@) is Some,
    decreases monitors.len(),
{
    let i = choose|i: int|
        0 <= i < monitors.len() && same_unit(
            selected.fingerprint,
            (#[trigger] monitors[i]).fingerprint,
        );
    let first = lemma_first(selected, monitors, i);
    lemma_first_match(monitors, selected.fingerprint, first);
}

proof fn lemma_first(selected: SelectedMonitor, monitors: Seq<MonitorDescriptor>, i: int) -> (first:
    int)
    requires
        0 <= i < monitors.len(),
        same_unit(selected.fingerprint, monitors[i].fingerprint),
    ensures
        0 <= first <= i,
        same_unit(selected.fingerprint, monitors[first].fingerprint),
        forall|k: int|
            0 <= k < first ==> !same_unit(
                selected.fingerprint,
                (#[trigger] monitors[k]).fingerprint,
            ),
    decreases i,
{
    if exists|k: int|
        0 <= k < i && same_unit(selected.fingerprint, (#[trigger] monitors[k]).fingerprint) {
        let k = choose|k: int|
            0 <= k < i && same_unit(selected.fingerprint, (#[trigger] monitors[k]).fingerprint);
        lemma_first(selected, monitors, k)
    } else {
        i
    }
}

/// A selected display that can be controlled stays selected, described as it is now. This counts
/// as a change exactly where the description says something else than before.
pub proof fn controllable_selection_is_described_anew(
    settings: &mut AppSettings,
    detected: &[MonitorDescriptor],
    controllable: &[MonitorDescriptor],
    change: Option<MonitorSelectionChange>,
    selected: SelectedMonitor,
    position: int,
)
    requires
        call_ensures(
            reconcile_monitor_selection,
            (settings, detected, controllable),
            change,
        ),
        old(settings).shared_monitor == Some(selected),
        0 <= position < controllable@.len(),
        same_unit(selected.fingerprint, controllable@[position].fingerprint),
        forall|i: int|
            0 <= i < position ==> !same_unit(
                selected.fingerprint,
                (#[trigger] controllable@[i]).fingerprint,
            ),
    ensures
        only_selection_differs(*old(settings), *final(settings)),
        final(settings).shared_monitor matches Some(kept) && describes_display(
            kept,
            controllable@[position],
        ),
        change is None <==> describes_display(selected, controllable@[position]),
        change is None || change == Some(MonitorSelectionChange::RefreshedMetadata),
{
    lemma_first_match(controllable@, selected.fingerprint, position);
}

/// A selected display that is connected but cannot be controlled stays selected as it is.
pub proof fn silent_selection_is_kept(
    settings: &mut AppSettings,
    detected: &[MonitorDescriptor],
    controllable: &[MonitorDescriptor],
    change: Option<MonitorSelectionChange>,
)
    requires
        call_ensures(
            reconcile_monitor_selection,
            (settings, detected, controllable),
            change,
        ),
        !is_among(old(settings).shared_monitor, controllable@),
        is_among(old(settings).shared_monitor, detected@),
    ensures
        *final(settings) == *old(settings),
        change is None,
{
    let selected = old(settings).shared_monitor->Some_0;
    lemma_not_among(selected, controllable@);
    lemma_among(selected, detected@);
}

/// Where the selected display is gone, or none is selected, the only external display that can be
/// controlled is selected, and the change names it and the one before. With no or several such
/// displays nothing changes.
pub proof fn only_external_display_is_selected(
    settings: &mut AppSettings,
    detected: &[MonitorDescriptor],
    controllable: &[MonitorDescriptor],
    change: Option<MonitorSelectionChange>,
    position: int,
)
    requires
        call_ensures(
            reconcile_monitor_selection,
            (settings, detected, controllable),
            change,
        ),
        !is_among(old(settings).shared_monitor, controllable@),
        !is_among(old(settings).shared_monitor, detected@),
    ensures
        is_only_external(controllable@, position) ==> {
            let monitor = controllable@[position];
            &&& only_selection_differs(*old(settings), *final(settings))
            &&& final(settings).shared_monitor matches Some(selected) && describes_display(
                selected,
                monitor,
            )
            &&& match (old(settings).shared_monitor, change) {
                (
                    None,
                    Some(MonitorSelectionChange::SelectedOnlyMonitor { name }),
                ) => name@ == monitor.name@,
                (
                    Some(gone),
                    Some(MonitorSelectionChange::ReplacedMissingMonitor { previous, replacement }),
                ) => previous@ == gone.name@ && replacement@ == monitor.name@,
                _ => false,
            }
        },
        (forall|i: int| !is_only_external(controllable@, i)) ==> *final(settings) == *old(settings)
            && change is None,
{
    let pred = |monitor: MonitorDescriptor| !monitor.built_in;
    if let Some(selected) = old(settings).shared_monitor {
        lemma_not_among(selected, controllable@);
        lemma_not_among(selected, detected@);
    }
    if is_only_external(controllable@, position) {
        lemma_one_external(controllable@, position);
    } else if candidates(controllable@).len() == 1 {
        let found = lemma_single(controllable@, pred);
        assert forall|i: int| 0 <= i < controllable@.len() && i != found implies (
        #[trigger] controllable@[i]).built_in by {
            assert(!pred(controllable@[i]));
        }
        assert(is_only_external(controllable@, found));
    }
}

proof fn lemma_one_external(monitors: Seq<MonitorDescriptor>, position: int)
    requires
        is_only_external(monitors, position),
    ensures
        candidates(monitors) == seq![monitors[position]],
    decreases monitors.len(),
{
    let pred = |monitor: MonitorDescriptor| !monitor.built_in;
    reveal(Seq::filter);
    let rest = monitors.drop_last();
    let last = monitors.len() - 1;
    if position == last {
        lemma_no_external(rest);
        assert(candidates(monitors) =~= seq![monitors[position]]);
    } else {
        assert(monitors[last].built_in);
        assert forall|i: int| 0 <= i < rest.len() && i != position implies (
        #[trigger] rest[i]).built_in by {
            assert(rest[i] == monitors[i]);
        }
        lemma_one_external(rest, position);
    }
}

proof fn lemma_no_external(monitors: Seq<MonitorDescriptor>)
    requires
        forall|i: int| 0 <= i < monitors.len() ==> (#[trigger] monitors[i]).built_in,
    ensures
        candidates(monitors).len() == 0,
    decreases monitors.len(),
{
    reveal(Seq::filter);
    if monitors.len() > 0 {
        let rest = monitors.drop_last();
        assert forall|i: int| 0 <= i < rest.len() implies (#[trigger] rest[i]).built_in by {
            assert(rest[i] == monitors[i]);
        }
        assert(monitors[monitors.len() - 1].built_in);
        lemma_no_external(rest);
    }
}

/// A host as it was, but for its input, which is forgotten where another display was chosen.
pub open spec fn host_after_choice(before: HostRoute, after: HostRoute, another: bool) -> bool {
    if another {
        after.input is None && same_route(HostRoute { input: None, ..before }, after)
    } else {
        same_route(before, after)
    }
}

/// Choosing a display selects it as it is. The inputs of the paired hosts are kept exactly where
/// the same unit was selected before; hosts and all other settings stay.
pub proof fn chosen_display_is_selected(
    settings: &mut AppSettings,
    monitor: MonitorDescriptor,
    i: int,
)
    requires
        call_ensures(choose_monitor, (settings, &monitor), ()),
    ensures
        final(settings).shared_monitor matches Some(selected) && describes_display(
            selected,
            monitor,
        ),
        final(settings).local_host == old(settings).local_host,
        final(settings).local_input == old(settings).local_input,
        final(settings).supported_inputs == old(settings).supported_inputs,
        final(settings).shared_key == old(settings).shared_key,
        final(settings).broadcast_ip == old(settings).broadcast_ip,
        final(settings).wake_port == old(settings).wake_port,
        final(settings).wait_seconds == old(settings).wait_seconds,
        final(settings).autostart == old(settings).autostart,
        final(settings).check_updates == old(settings).check_updates,
        final(settings).peers@.len() == old(settings).peers@.len(),
        0 <= i < old(settings).peers@.len() ==> host_after_choice(
            old(settings).peers@[i],
            final(settings).peers@[i],
            !(old(settings).shared_monitor matches Some(selected) && same_unit(
                selected.fingerprint,
                monitor.fingerprint,
            )),
        ),
{
}

/// A display that is made the shared one is selected, its inputs are recorded as it answers, and
/// the inputs of paired hosts are forgotten where it is another unit than before. A display that
/// cannot be read is not made the shared one.
pub proof fn adopted_display_is_selected_and_recorded<C: MonitorControl>(
    locale: UiLocale,
    control: C,
    monitor: MonitorDescriptor,
    settings: AppSettings,
    adopted: Result<AppSettings, String>,
    read: Result<DisplayInput, DisplayMuxError>,
    supported: Result<Vec<DisplayInput>, DisplayMuxError>,
    i: int,
)
    requires
        call_ensures(adopt_monitor::<C>, (locale, &control, &monitor, settings), adopted),
        input_data(control, monitor.id, read, supported),
    ensures
        adopted is Ok <==> read is Ok,
        adopted matches Ok(after) ==> {
            &&& after.shared_monitor matches Some(selected) && describes_display(selected, monitor)
            &&& after.local_input == Some(read->Ok_0)
            &&& after.supported_inputs is Some <==> (supported matches Ok(inputs) && inputs@.len()
                > 0)
            &&& after.supported_inputs matches Some(inputs) ==> supported == Ok::<
                _,
                DisplayMuxError,
            >(inputs)
            &&& after.peers@.len() == settings.peers@.len()
            &&& 0 <= i < settings.peers@.len() ==> host_after_choice(
                settings.peers@[i],
                after.peers@[i],
                !(settings.shared_monitor matches Some(selected) && same_unit(
                    selected.fingerprint,
                    monitor.fingerprint,
                )),
            )
        },
{
    let (chosen, after, done) = choose|
        chosen: AppSettings,
        after: AppSettings,
        done: Result<(), DisplayMuxError>,
    |
        {
            &&& is_chosen(settings, monitor, chosen)
            &&& #[trigger] crate::selection::records_input_data(
                control,
                monitor.id,
                chosen,
                after,
                done,
            )
            &&& match done {
                Ok(()) => adopted == Ok::<_, String>(after),
                Err(error) => adopted matches Err(text) && text@ == crate::error::error_message(
                    error@,
                    locale == UiLocale::TraditionalChinese,
                ),
            }
        };
    assert(after.peers == chosen.peers);
}

/// Following the displays selects what a look at them selects. The inputs of paired hosts are
/// forgotten exactly where another display was selected; without a change nothing changes.
pub proof fn following_selects_what_a_look_selects<C: MonitorControl>(
    control: C,
    inventory: MonitorInventory,
    settings: &mut AppSettings,
    change: Option<MonitorSelectionChange>,
    detected: &[MonitorDescriptor],
    controllable: &[MonitorDescriptor],
    looked: &mut AppSettings,
    seen: Option<MonitorSelectionChange>,
    i: int,
)
    requires
        call_ensures(follow_monitors::<C>, (Some(&control), &inventory, settings), change),
        detected@ == inventory.detected@,
        controllable@ == inventory.controllable@,
        call_ensures(reconcile_monitor_selection, (looked, detected, controllable), seen),
        *old(looked) == *old(settings),
    ensures
        change == seen,
        final(settings).shared_monitor == final(looked).shared_monitor,
        change is None ==> final(settings).peers@ == old(settings).peers@,
        change is None ==> final(settings).local_input == old(settings).local_input,
        change is None ==> final(settings).supported_inputs == old(settings).supported_inputs,
        final(settings).peers@.len() == old(settings).peers@.len(),
        0 <= i < old(settings).peers@.len() ==> host_after_choice(
            old(settings).peers@[i],
            final(settings).peers@[i],
            change matches Some(change) && !(change is RefreshedMetadata),
        ),
        final(settings).shared_key == old(settings).shared_key,
        final(settings).broadcast_ip == old(settings).broadcast_ip,
        final(settings).local_host == old(settings).local_host,
{
    let picked = choose|picked: AppSettings|
        {
            &&& #[trigger] crate::dashboard::is_reconciled(
                *old(settings),
                inventory,
                picked,
                change,
            )
            &&& match (change, Some(&control), crate::dashboard::selected_among(
                picked.shared_monitor,
                inventory.controllable@,
            )) {
                (Some(_), Some(controller), Some(monitor)) => exists|
                    done: Result<(), DisplayMuxError>,
                | #[trigger]
                    crate::selection::records_input_data(
                        *controller,
                        monitor.id,
                        picked,
                        *final(settings),
                        done,
                    ),
                _ => *final(settings) == picked,
            }
        };
    assert(final(settings).peers == picked.peers);
    assert(final(settings).shared_monitor == picked.shared_monitor);
}

/// After a change the inputs of the selected display are recorded as it answers, if it can be
/// controlled.
pub proof fn following_records_the_selected_display<C: MonitorControl>(
    control: C,
    inventory: MonitorInventory,
    settings: &mut AppSettings,
    change: MonitorSelectionChange,
    selected: SelectedMonitor,
    position: int,
    read: Result<DisplayInput, DisplayMuxError>,
    supported: Result<Vec<DisplayInput>, DisplayMuxError>,
)
    requires
        call_ensures(follow_monitors::<C>, (Some(&control), &inventory, settings), Some(change)),
        final(settings).shared_monitor == Some(selected),
        0 <= position < inventory.controllable@.len(),
        same_unit(selected.fingerprint, inventory.controllable@[position].fingerprint),
        forall|i: int|
            0 <= i < position ==> !same_unit(
                selected.fingerprint,
                (#[trigger] inventory.controllable@[i]).fingerprint,
            ),
        input_data(control, inventory.controllable@[position].id, read, supported),
    ensures
        match read {
            Ok(input) => {
                &&& final(settings).local_input == Some(input)
                &&& final(settings).supported_inputs is Some <==> (supported matches Ok(inputs)
                    && inputs@.len() > 0)
                &&& final(settings).supported_inputs matches Some(inputs) ==> supported == Ok::<
                    _,
                    DisplayMuxError,
                >(inputs)
            },
            Err(_) => final(settings).local_input is None && final(
                settings).supported_inputs is None,
        },
{
    lemma_first_match(inventory.controllable@, selected.fingerprint, position);
}

/// Selecting a display by its id finds it among the controllable ones, makes it the shared one and
/// records its inputs.
pub proof fn selected_display_is_found_and_recorded<C: MonitorControl>(
    locale: UiLocale,
    control: C,
    monitor_id: &str,
    settings: AppSettings,
    selected: Result<AppSettings, String>,
    detected: Vec<MonitorDescriptor>,
    flags: Seq<bool>,
    position: int,
    read: Result<DisplayInput, DisplayMuxError>,
    supported: Result<Vec<DisplayInput>, DisplayMuxError>,
)
    requires
        call_ensures(select_monitor::<C>, (locale, &control, monitor_id, settings), selected),
        listing(control, detected, flags),
        0 <= position < picked(detected@, flags).len(),
        picked(detected@, flags)[position].id@ == monitor_id@,
        forall|i: int|
            0 <= i < position ==> (#[trigger] picked(detected@, flags)[i]).id@ != monitor_id@,
        input_data(control, picked(detected@, flags)[position].id, read, supported),
    ensures
        selected is Ok <==> read is Ok,
        selected matches Ok(after) ==> {
            &&& after.shared_monitor matches Some(chosen) && describes_display(
                chosen,
                picked(detected@, flags)[position],
            )
            &&& after.local_input == Some(read->Ok_0)
            &&& after.supported_inputs is Some <==> (supported matches Ok(inputs) && inputs@.len()
                > 0)
        },
{
    let controllable = picked(detected@, flags);
    let (inventory, found) = choose|
        inventory: Result<MonitorInventory, DisplayMuxError>,
        found: Result<MonitorDescriptor, String>,
    |
        {
            &&& is_inventory(control, inventory)
            &&& #[trigger] finds_controllable(locale, inventory, monitor_id@, found)
            &&& match found {
                Ok(monitor) => adopts_monitor(locale, control, monitor, settings, selected),
                Err(text) => selected == Err::<AppSettings, _>(text),
            }
        };
    lemma_inventory(control, inventory, detected, flags);
    lemma_first_with_id(controllable, monitor_id@, position);
    assert(found == Ok::<_, String>(controllable[position]));
    assert(adopts_monitor(locale, control, controllable[position], settings, selected));
}

} // verus!
