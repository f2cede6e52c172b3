//! Which display is shared: choosing it, and following what is connected.

use crate::domain::{
    position_of, DisplayInput, FingerprintView, MonitorDescriptor, MonitorFingerprint, MonitorId,
};
use crate::error::{error_message, DisplayMuxError};
use crate::locale::{core_user_error, localized, ui_text, UiLocale};
use crate::port::MonitorControl;
use crate::service::matching;
use crate::settings::{
    only_peers_changed, selection_of, AppSettings, HostRoute, SelectedMonitor,
};
use vstd::prelude::*;

verus! {

// ---------------------------------------------------------------------------
// The connected displays

/// The connected displays, and those among them whose input can be read over DDC/CI.
#[derive(Debug)]
pub struct MonitorInventory {
    pub detected: Vec<MonitorDescriptor>,
    pub controllable: Vec<MonitorDescriptor>,
}

/// The displays whose input could be read, in their order.
pub open spec fn readable(
    detected: Seq<MonitorDescriptor>,
    answers: Seq<Result<DisplayInput, DisplayMuxError>>,
) -> Seq<MonitorDescriptor>
    decreases detected.len(),
{
    if detected.len() == 0 {
        Seq::empty()
    } else {
        let before = readable(detected.drop_last(), answers.drop_last());
        if answers.last() is Ok {
            before.push(detected.last())
        } else {
            before
        }
    }
}

/// What the displays may have answered when each was asked for its input.
pub open spec fn input_answers<C: MonitorControl>(
    controller: C,
    detected: Seq<MonitorDescriptor>,
    answers: Seq<Result<DisplayInput, DisplayMuxError>>,
) -> bool {
    &&& answers.len() == detected.len()
    &&& forall|i: int|
        0 <= i < detected.len() ==> call_ensures(
            C::read_input,
            (&controller, &detected[i].id),
            #[trigger] answers[i],
        )
}

/// What an inventory of the displays behind `controller` may be.
pub open spec fn is_inventory<C: MonitorControl>(
    controller: C,
    inventory: Result<MonitorInventory, DisplayMuxError>,
) -> bool {
    exists|listed: Result<Vec<MonitorDescriptor>, DisplayMuxError>|
        {
            &&& #[trigger] call_ensures(C::enumerate, (&controller,), listed)
            &&& match listed {
                Err(error) => inventory == Err::<MonitorInventory, _>(error),
                Ok(detected) => {
                    &&& inventory is Ok
                    &&& inventory->Ok_0.detected == detected
                    &&& exists|answers: Seq<Result<DisplayInput, DisplayMuxError>>|
                        #[trigger] input_answers(controller, detected@, answers)
                            && inventory->Ok_0.controllable@ == readable(detected@, answers)
                },
            }
        }
}

/// Lists the displays and asks each for its input.
pub fn monitor_inventory<C: MonitorControl>(controller: &C) -> (inventory: Result<
    MonitorInventory,
    DisplayMuxError,
>)
    ensures
        is_inventory(*controller, inventory),
{
    let listed = controller.enumerate();
    let ghost answer = listed;
    assert(call_ensures(C::enumerate, (controller,), answer));
    let detected = match listed {
        Ok(detected) => detected,
        Err(error) => return Err(error),
    };
    let ghost mut answers: Seq<Result<DisplayInput, DisplayMuxError>> = Seq::empty();
    let mut controllable: Vec<MonitorDescriptor> = Vec::new();
    let mut i: usize = 0;
    while i < detected.len()
        invariant
            i <= detected@.len(),
            input_answers(*controller, detected@.take(i as int), answers),
            controllable@ == readable(detected@.take(i as int), answers),
        decreases detected@.len() - i,
    {
        let read = controller.read_input(&detected[i].id);
        proof {
            let before = answers;
            answers = answers.push(read);
            assert(detected@.take(i + 1).drop_last() == detected@.take(i as int));
            assert(answers.drop_last() == before);
            assert forall|k: int| 0 <= k < i + 1 implies call_ensures(
                C::read_input,
                (controller, &detected@.take(i + 1)[k].id),
                #[trigger] answers[k],
            ) by {
                if k < i {
                    assert(answers[k] == before[k]);
                    assert(detected@.take(i + 1)[k] == detected@.take(i as int)[k]);
                }
            }
        }
        if read.is_ok() {
            controllable.push(detected[i].clone());
        }
        i += 1;
    }
    assert(detected@.take(i as int) == detected@);
    Ok(MonitorInventory { detected, controllable })
}

/// A display is controllable exactly where it was detected and answered with an input.
pub proof fn controllable_displays_answered(
    detected: Seq<MonitorDescriptor>,
    answers: Seq<Result<DisplayInput, DisplayMuxError>>,
    monitor: MonitorDescriptor,
)
    requires
        answers.len() == detected.len(),
    ensures
        readable(detected, answers).contains(monitor) <==> exists|i: int|
            0 <= i < detected.len() && detected[i] == monitor && #[trigger] answers[i] is Ok,
    decreases detected.len(),
{
    if detected.len() > 0 {
        let rest = detected.drop_last();
        let rest_answers = answers.drop_last();
        let before = readable(rest, rest_answers);
        let last = detected.len() - 1;
        controllable_displays_answered(rest, rest_answers, monitor);
        if readable(detected, answers).contains(monitor) {
            if before.contains(monitor) {
                let i = choose|i: int|
                    0 <= i < rest.len() && rest[i] == monitor && #[trigger] rest_answers[i] is Ok;
                assert(answers[i] is Ok && detected[i] == monitor);
            } else {
                assert(answers[last] is Ok && detected[last] == monitor);
            }
        }
        if exists|i: int|
            0 <= i < detected.len() && detected[i] == monitor && #[trigger] answers[i] is Ok {
            let i = choose|i: int|
                0 <= i < detected.len() && detected[i] == monitor && #[trigger] answers[i] is Ok;
            let all = readable(detected, answers);
            if i < last {
                assert(rest_answers[i] is Ok && rest[i] == monitor);
                let k = choose|k: int| 0 <= k < before.len() && before[k] == monitor;
                assert(all[k] == monitor);
            } else {
                assert(all[all.len() - 1] == monitor);
            }
        }
    }
}

// ---------------------------------------------------------------------------
// The inputs of the shared display

/// The inputs to record for a display: those that it names, if it names any.
pub open spec fn recorded(supported: Result<Vec<DisplayInput>, DisplayMuxError>) -> Option<
    Vec<DisplayInput>,
> {
    match supported {
        Ok(inputs) => if inputs@.len() > 0 {
            Some(inputs)
        } else {
            None
        },
        Err(_) => None,
    }
}

/// What recording the inputs of a display may make of settings, and how it may end.
pub open spec fn records_input_data<C: MonitorControl>(
    controller: C,
    monitor: MonitorId,
    before: AppSettings,
    after: AppSettings,
    done: Result<(), DisplayMuxError>,
) -> bool {
    exists|read: Result<DisplayInput, DisplayMuxError>|
        {
            &&& #[trigger] call_ensures(C::read_input, (&controller, &monitor), read)
            &&& match read {
                Err(error) => {
                    &&& done == Err::<(), _>(error)
                    &&& after == AppSettings { local_input: None, supported_inputs: None, ..before }
                },
                Ok(input) => {
                    &&& done is Ok
                    &&& exists|supported: Result<Vec<DisplayInput>, DisplayMuxError>|
                        {
                            &&& #[trigger] call_ensures(
                                C::supported_inputs,
                                (&controller, &monitor),
                                supported,
                            )
                            &&& after == AppSettings {
                                local_input: Some(input),
                                supported_inputs: recorded(supported),
                                ..before
                            }
                        }
                },
            }
        }
}

/// Records which input the display shows and which inputs it says it has. What was recorded
/// before is forgotten first. The display is only read, never written.
pub fn refresh_selected_input_data<C: MonitorControl>(
    controller: &C,
    monitor: &MonitorDescriptor,
    settings: &mut AppSettings,
) -> (done: Result<(), DisplayMuxError>)
    ensures
        records_input_data(*controller, monitor.id, *old(settings), *final(settings), done),
{
    settings.local_input = None;
    settings.supported_inputs = None;
    let read = controller.read_input(&monitor.id);
    let ghost read_answer = read;
    assert(call_ensures(C::read_input, (controller, &monitor.id), read_answer));
    let input = match read {
        Ok(input) => input,
        Err(error) => return Err(error),
    };
    settings.local_input = Some(input);
    let supported = controller.supported_inputs(&monitor.id);
    let ghost supported_answer = supported;
    assert(call_ensures(C::supported_inputs, (controller, &monitor.id), supported_answer));
    settings.supported_inputs = match supported {
        Ok(inputs) => if inputs.len() > 0 {
            Some(inputs)
        } else {
            None
        },
        Err(_) => None,
    };
    Ok(())
}

// ---------------------------------------------------------------------------
// Following the connected displays

/// How the selection of the shared display changed by itself.
#[derive(Clone, Debug, PartialEq, Eq)]
pub enum MonitorSelectionChange {
    SelectedOnlyMonitor { name: String },
    ReplacedMissingMonitor { previous: String, replacement: String },
    RefreshedMetadata,
}

/// The first display with a given fingerprint.
pub open spec fn first_matching(
    monitors: Seq<MonitorDescriptor>,
    fingerprint: FingerprintView,
) -> Option<MonitorDescriptor> {
    if matching(monitors, fingerprint).len() > 0 {
        Some(matching(monitors, fingerprint)[0])
    } else {
        None
    }
}

/// Finds the first display with a given fingerprint.
pub fn find_matching<'a>(
    monitors: &'a [MonitorDescriptor],
    fingerprint: &MonitorFingerprint,
) -> (found: Option<&'a MonitorDescriptor>)
    ensures
        match found {
            Some(monitor) => first_matching(monitors@, fingerprint@) == Some(*monitor),
            None => first_matching(monitors@, fingerprint@) is None,
        },
{
    let ghost pred = |monitor: MonitorDescriptor| fingerprint@.matches_exactly(monitor.fingerprint@);
    let mut i: usize = 0;
    assert(monitors@.take(0).filter(pred).len() == 0) by {
        reveal(Seq::filter);
    }
    while i < monitors.len()
        invariant
            i <= monitors@.len(),
            pred == (|monitor: MonitorDescriptor|
                fingerprint@.matches_exactly(monitor.fingerprint@)),
            monitors@.take(i as int).filter(pred).len() == 0,
        decreases monitors@.len() - i,
    {
        proof {
            assert(monitors@.take(i + 1).drop_last() == monitors@.take(i as int));
            reveal(Seq::filter);
        }
        if fingerprint.matches_exactly(&monitors[i].fingerprint) {
            proof {
                let head = monitors@.take(i + 1);
                let rest = monitors@.skip(i + 1);
                assert(head.filter(pred) == seq![monitors@[i as int]]);
                assert(monitors@ == head + rest);
                Seq::filter_distributes_over_add(head, rest, pred);
                assert(matching(monitors@, fingerprint@)[0] == monitors@[i as int]);
            }
            return Some(&monitors[i]);
        }
        i += 1;
    }
    assert(monitors@.take(i as int) == monitors@);
    None
}

/// The controllable displays that may be selected automatically: not those built into a computer.
pub open spec fn candidates(controllable: Seq<MonitorDescriptor>) -> Seq<MonitorDescriptor> {
    controllable.filter(|monitor: MonitorDescriptor| !monitor.built_in)
}

/// The display that may be selected automatically, if there is exactly one.
pub open spec fn only_candidate(controllable: Seq<MonitorDescriptor>) -> Option<MonitorDescriptor> {
    if candidates(controllable).len() == 1 {
        Some(candidates(controllable)[0])
    } else {
        None
    }
}

fn find_only_candidate<'a>(controllable: &'a [MonitorDescriptor]) -> (only: Option<
    &'a MonitorDescriptor,
>)
    ensures
        match only {
            Some(only) => only_candidate(controllable@) == Some(*only),
            None => only_candidate(controllable@) is None,
        },
{
    let ghost pred = |monitor: MonitorDescriptor| !monitor.built_in;
    let mut found: Option<&'a MonitorDescriptor> = None;
    let mut i: usize = 0;
    assert(controllable@.take(0).filter(pred).len() == 0) by {
        reveal(Seq::filter);
    }
    while i < controllable.len()
        invariant
            i <= controllable@.len(),
            pred == (|monitor: MonitorDescriptor| !monitor.built_in),
            match found {
                Some(only) => controllable@.take(i as int).filter(pred) == seq![*only],
                None => controllable@.take(i as int).filter(pred).len() == 0,
            },
        decreases controllable@.len() - i,
    {
        proof {
            assert(controllable@.take(i + 1).drop_last() == controllable@.take(i as int));
            reveal(Seq::filter);
        }
        if !controllable[i].built_in {
            if found.is_some() {
                proof {
                    let head = controllable@.take(i + 1);
                    let rest = controllable@.skip(i + 1);
                    assert(head.filter(pred).len() == 2);
                    assert(controllable@ == head + rest);
                    Seq::filter_distributes_over_add(head, rest, pred);
                }
                return None;
            }
            found = Some(&controllable[i]);
            assert(controllable@.take(i + 1).filter(pred) == seq![controllable@[i as int]]);
        }
        i += 1;
    }
    assert(controllable@.take(i as int) == controllable@);
    found
}

/// The selection after a look at the connected displays, and how it changed.
///
/// A selected display that can be controlled stays selected, with what is known of it brought
/// up to date. One that is connected but does not answer stays selected as it is. Otherwise a
/// display is selected only where there is exactly one candidate.
pub open spec fn reconciled(
    selected: Option<SelectedMonitor>,
    detected: Seq<MonitorDescriptor>,
    controllable: Seq<MonitorDescriptor>,
) -> (Option<SelectedMonitor>, Option<MonitorSelectionChange>) {
    let current = match selected {
        Some(previous) => first_matching(controllable, previous.fingerprint@),
        None => None,
    };
    let connected = selected matches Some(previous) && first_matching(
        detected,
        previous.fingerprint@,
    ) is Some;
    match (selected, current) {
        (Some(previous), Some(monitor)) => if previous@ == selection_of(monitor)@ {
            (selected, None)
        } else {
            (Some(selection_of(monitor)), Some(MonitorSelectionChange::RefreshedMetadata))
        },
        _ => if connected {
            (selected, None)
        } else {
            match (only_candidate(controllable), selected) {
                (None, _) => (selected, None),
                (Some(only), Some(previous)) => (
                    Some(selection_of(only)),
                    Some(
                        MonitorSelectionChange::ReplacedMissingMonitor {
                            previous: previous.name,
                            replacement: only.name,
                        },
                    ),
                ),
                (Some(only), None) => (
                    Some(selection_of(only)),
                    Some(MonitorSelectionChange::SelectedOnlyMonitor { name: only.name }),
                ),
            }
        },
    }
}

/// Brings the selection in line with the connected displays. Tells how it changed, if it did.
pub fn reconcile_monitor_selection(
    settings: &mut AppSettings,
    detected: &[MonitorDescriptor],
    controllable: &[MonitorDescriptor],
) -> (change: Option<MonitorSelectionChange>)
    ensures
        (final(settings).shared_monitor, change) == reconciled(
            old(settings).shared_monitor,
            detected@,
            controllable@,
        ),
        *final(settings) == (AppSettings {
            shared_monitor: final(settings).shared_monitor,
            ..*old(settings)
        }),
{
    if let Some(selected) = &settings.shared_monitor {
        if let Some(current) = find_matching(controllable, &selected.fingerprint) {
            let refreshed = SelectedMonitor::from(current);
            if !selected.same_as(&refreshed) {
                settings.shared_monitor = Some(refreshed);
                return Some(MonitorSelectionChange::RefreshedMetadata);
            }
            return None;
        }
        if find_matching(detected, &selected.fingerprint).is_some() {
            return None;
        }
    }
    let only = match find_only_candidate(controllable) {
        Some(only) => only,
        None => return None,
    };
    let change = match &settings.shared_monitor {
        Some(previous) => MonitorSelectionChange::ReplacedMissingMonitor {
            previous: previous.name.clone(),
            replacement: only.name.clone(),
        },
        None => MonitorSelectionChange::SelectedOnlyMonitor { name: only.name.clone() },
    };
    settings.shared_monitor = Some(SelectedMonitor::from(only));
    Some(change)
}

/// Whether another display was selected, rather than the same one described anew.
pub open spec fn selects_another(change: Option<MonitorSelectionChange>) -> bool {
    change matches Some(change) && !(change is RefreshedMetadata)
}

/// A display that was selected automatically can be controlled and is not built into a computer,
/// and no other display could have been selected.
pub proof fn automatic_selection_is_the_only_external_display(
    selected: Option<SelectedMonitor>,
    detected: Seq<MonitorDescriptor>,
    controllable: Seq<MonitorDescriptor>,
)
    requires
        selects_another(reconciled(selected, detected, controllable).1),
    ensures
        exists|i: int|
            {
                &&& 0 <= i < controllable.len()
                &&& !(#[trigger] controllable[i]).built_in
                &&& reconciled(selected, detected, controllable).0 == Some(
                    selection_of(controllable[i]),
                )
                &&& forall|k: int|
                    0 <= k < controllable.len() && k != i ==> (
                    #[trigger] controllable[k]).built_in
            },
{
    let pred = |monitor: MonitorDescriptor| !monitor.built_in;
    let i = lemma_single(controllable, pred);
    assert(!controllable[i].built_in);
    assert forall|k: int| 0 <= k < controllable.len() && k != i implies (
    #[trigger] controllable[k]).built_in by {
        assert(!pred(controllable[k]));
    }
}

/// Where exactly one item passes a test, it stands at one position, and no other position holds
/// an item that passes.
pub proof fn lemma_single<T>(items: Seq<T>, pred: spec_fn(T) -> bool) -> (position: int)
    requires
        items.filter(pred).len() == 1,
    ensures
        0 <= position < items.len(),
        items[position] == items.filter(pred)[0],
        pred(items[position]),
        forall|k: int| 0 <= k < items.len() && k != position ==> !pred(#[trigger] items[k]),
    decreases items.len(),
{
    reveal(Seq::filter);
    let rest = items.drop_last();
    if pred(items.last()) {
        assert forall|k: int| 0 <= k < items.len() - 1 implies !pred(#[trigger] items[k]) by {
            if pred(items[k]) {
                broadcast use vstd::seq_lib::group_filter_ensures;

                assert(pred(rest[k]));
                assert(rest.filter(pred).contains(rest[k]));
            }
        }
        items.len() - 1
    } else {
        let position = lemma_single(rest, pred);
        assert forall|k: int| 0 <= k < items.len() && k != position implies !pred(
            #[trigger] items[k],
        ) by {
            if k < items.len() - 1 {
                assert(rest[k] == items[k]);
            }
        }
        position
    }
}

/// Where two external displays can be controlled and none of the controllable ones is selected,
/// none is selected automatically: the selection stays as it is.
pub proof fn several_candidates_are_never_guessed_between(
    selected: Option<SelectedMonitor>,
    detected: Seq<MonitorDescriptor>,
    controllable: Seq<MonitorDescriptor>,
    i: int,
    j: int,
)
    requires
        0 <= i < j < controllable.len(),
        !controllable[i].built_in,
        !controllable[j].built_in,
        selected matches Some(previous) ==> first_matching(controllable, previous.fingerprint@) is None,
    ensures
        reconciled(selected, detected, controllable) == (
            selected,
            None::<MonitorSelectionChange>,
        ),
{
    let pred = |monitor: MonitorDescriptor| !monitor.built_in;
    if candidates(controllable).len() == 1 {
        let position = lemma_single(controllable, pred);
        assert(pred(controllable[i]) && pred(controllable[j]));
    }
}

/// A selected display that is still connected stays the selected one, whether or not it answers.
pub proof fn connected_selection_is_kept(
    selected: SelectedMonitor,
    detected: Seq<MonitorDescriptor>,
    controllable: Seq<MonitorDescriptor>,
)
    requires
        first_matching(detected, selected.fingerprint@) is Some,
    ensures
        reconciled(Some(selected), detected, controllable).0 matches Some(kept) && kept.fingerprint@
            == selected.fingerprint@,
        !selects_another(reconciled(Some(selected), detected, controllable).1),
{
    lemma_first_matching(controllable, selected.fingerprint@);
}

/// The first display with a fingerprint has that fingerprint.
proof fn lemma_first_matching(monitors: Seq<MonitorDescriptor>, fingerprint: FingerprintView)
    ensures
        first_matching(monitors, fingerprint) matches Some(monitor) ==> fingerprint.matches_exactly(
            monitor.fingerprint@,
        ),
    decreases monitors.len(),
{
    reveal(Seq::filter);
    if monitors.len() > 0 {
        lemma_first_matching(monitors.drop_last(), fingerprint);
        let before = matching(monitors.drop_last(), fingerprint);
        if before.len() > 0 {
            assert(matching(monitors, fingerprint)[0] == before[0]);
        }
    }
}

/// Looking twice at the same displays changes nothing the second time, provided that a display
/// that is selected automatically is recognised by its fingerprint: it has a serial number, and
/// no controllable display listed before it has the same fingerprint and another description.
pub proof fn second_look_changes_nothing(
    selected: Option<SelectedMonitor>,
    detected: Seq<MonitorDescriptor>,
    controllable: Seq<MonitorDescriptor>,
)
    requires
        selects_another(reconciled(selected, detected, controllable).1) ==> {
            &&& only_candidate(controllable) matches Some(only)
            &&& first_matching(controllable, only.fingerprint@) matches Some(found)
            &&& selection_of(found)@ == selection_of(only)@
        },
    ensures
        ({
            let after = reconciled(selected, detected, controllable).0;
            reconciled(after, detected, controllable) == (after, None::<MonitorSelectionChange>)
        }),
{
    if let Some(previous) = selected {
        lemma_first_matching(controllable, previous.fingerprint@);
    }
}

// ---------------------------------------------------------------------------
// Choosing a display

/// A route without its input.
pub open spec fn without_input(route: HostRoute) -> HostRoute {
    HostRoute { input: None, ..route }
}

/// Routes without their inputs.
pub open spec fn without_inputs(routes: Seq<HostRoute>) -> Seq<HostRoute> {
    Seq::new(routes.len(), |i: int| without_input(routes[i]))
}

/// Forgets the inputs of all paired hosts.
pub fn clear_peer_inputs(settings: &mut AppSettings)
    ensures
        final(settings).peers@ == without_inputs(old(settings).peers@),
        only_peers_changed(*old(settings), *final(settings)),
{
    let total: usize = settings.peers.len();
    let mut i: usize = 0;
    while i < total
        invariant
            i <= total,
            total == settings.peers@.len(),
            total == old(settings).peers@.len(),
            only_peers_changed(*old(settings), *settings),
            forall|k: int|
                0 <= k < i ==> #[trigger] settings.peers@[k] == without_input(
                    old(settings).peers@[k],
                ),
            forall|k: int|
                i <= k < total ==> #[trigger] settings.peers@[k] == old(settings).peers@[k],
        decreases total - i,
    {
        let mut route = settings.peers[i].clone();
        route.input = None;
        settings.peers.set(i, route);
        i += 1;
    }
    assert(settings.peers@ == without_inputs(old(settings).peers@));
}

/// Whether `monitor` is another display than the selected one, or one that cannot be told from
/// others.
pub open spec fn is_another_monitor(settings: AppSettings, monitor: MonitorDescriptor) -> bool {
    match settings.shared_monitor {
        Some(selected) => !selected.fingerprint@.matches_exactly(monitor.fingerprint@),
        None => true,
    }
}

/// Settings after `monitor` was chosen: the inputs of paired hosts are kept only where the same
/// display was chosen again.
pub open spec fn is_chosen(
    before: AppSettings,
    monitor: MonitorDescriptor,
    after: AppSettings,
) -> bool {
    &&& after == AppSettings {
        shared_monitor: Some(selection_of(monitor)),
        peers: after.peers,
        ..before
    }
    &&& after.peers@ == if is_another_monitor(before, monitor) {
        without_inputs(before.peers@)
    } else {
        before.peers@
    }
}

/// Makes a display the shared one.
pub fn choose_monitor(settings: &mut AppSettings, monitor: &MonitorDescriptor)
    ensures
        is_chosen(*old(settings), *monitor, *final(settings)),
{
    let changed = match &settings.shared_monitor {
        Some(selected) => !selected.fingerprint.matches_exactly(&monitor.fingerprint),
        None => true,
    };
    settings.shared_monitor = Some(SelectedMonitor::from(monitor));
    if changed {
        clear_peer_inputs(settings);
    }
}

/// What is said where no controllable display has the id.
pub open spec fn unknown_monitor(locale: UiLocale) -> Seq<char> {
    localized(
        locale,
        "找不到這台螢幕，請重新整理後再選擇"@,
        "This display was not found. Refresh and select it again."@,
    )
}

/// The first display with a given id.
pub open spec fn first_with_id(monitors: Seq<MonitorDescriptor>, id: Seq<char>) -> Option<
    MonitorDescriptor,
>
    decreases monitors.len(),
{
    if monitors.len() == 0 {
        None
    } else if monitors[0].id@ == id {
        Some(monitors[0])
    } else {
        first_with_id(monitors.skip(1), id)
    }
}

/// The first display with an id, by its position.
pub proof fn lemma_first_with_id(monitors: Seq<MonitorDescriptor>, id: Seq<char>, index: int)
    requires
        0 <= index <= monitors.len(),
        forall|i: int| 0 <= i < index ==> (#[trigger] monitors[i]).id@ != id,
    ensures
        index < monitors.len() && monitors[index].id@ == id ==> first_with_id(monitors, id) == Some(
            monitors[index],
        ),
        index == monitors.len() ==> first_with_id(monitors, id) is None,
    decreases monitors.len(),
{
    if index > 0 {
        let rest = monitors.skip(1);
        assert forall|i: int| 0 <= i < index - 1 implies (#[trigger] rest[i]).id@ != id by {
            assert(rest[i] == monitors[i + 1]);
        }
        lemma_first_with_id(rest, id, index - 1);
    }
}

/// What looking for a controllable display by its id may give, for an inventory of the displays.
pub open spec fn finds_controllable(
    locale: UiLocale,
    inventory: Result<MonitorInventory, DisplayMuxError>,
    monitor_id: Seq<char>,
    found: Result<MonitorDescriptor, String>,
) -> bool {
    match inventory {
        Err(error) => found matches Err(text) && text@ == error_message(
            error@,
            locale == UiLocale::TraditionalChinese,
        ),
        Ok(inventory) => match first_with_id(inventory.controllable@, monitor_id) {
            None => found matches Err(text) && text@ == unknown_monitor(locale),
            Some(monitor) => found == Ok::<_, String>(monitor),
        },
    }
}

/// Finds the controllable display with a given id.
pub fn find_controllable<C: MonitorControl>(locale: UiLocale, controller: &C, monitor_id: &str) -> (found:
    Result<MonitorDescriptor, String>)
    ensures
        exists|inventory: Result<MonitorInventory, DisplayMuxError>|
            #[trigger] is_inventory(*controller, inventory) && finds_controllable(
                locale,
                inventory,
                monitor_id@,
                found,
            ),
{
    let listed = monitor_inventory(controller);
    let ghost answer = listed;
    assert(is_inventory(*controller, answer));
    let inventory = match listed {
        Ok(inventory) => inventory,
        Err(error) => return Err(core_user_error(locale, &error)),
    };
    match position_of(&inventory.controllable, monitor_id) {
        Some(index) => {
            proof {
                lemma_first_with_id(inventory.controllable@, monitor_id@, index as int);
            }
            Ok(inventory.controllable[index].clone())
        },
        None => {
            proof {
                lemma_first_with_id(
                    inventory.controllable@,
                    monitor_id@,
                    inventory.controllable@.len() as int,
                );
            }
            Err(
                ui_text(
                    locale,
                    "找不到這台螢幕，請重新整理後再選擇",
                    "This display was not found. Refresh and select it again.",
                ).to_owned(),
            )
        },
    }
}

/// What making a display the shared one may give.
pub open spec fn adopts_monitor<C: MonitorControl>(
    locale: UiLocale,
    controller: C,
    monitor: MonitorDescriptor,
    settings: AppSettings,
    adopted: Result<AppSettings, String>,
) -> bool {
    exists|chosen: AppSettings, after: AppSettings, done: Result<(), DisplayMuxError>|
        {
            &&& is_chosen(settings, monitor, chosen)
            &&& #[trigger] records_input_data(controller, monitor.id, chosen, after, done)
            &&& match done {
                Ok(()) => adopted == Ok::<_, String>(after),
                Err(error) => adopted matches Err(text) && text@ == error_message(
                    error@,
                    locale == UiLocale::TraditionalChinese,
                ),
            }
        }
}

/// Makes a display the shared one and records its inputs.
pub fn adopt_monitor<C: MonitorControl>(
    locale: UiLocale,
    controller: &C,
    monitor: &MonitorDescriptor,
    settings: AppSettings,
) -> (adopted: Result<AppSettings, String>)
    ensures
        adopts_monitor(locale, *controller, *monitor, settings, adopted),
{
    let mut settings = settings;
    choose_monitor(&mut settings, monitor);
    let ghost chosen = settings;
    let done = refresh_selected_input_data(controller, monitor, &mut settings);
    let ghost done_answer = done;
    assert(records_input_data(*controller, monitor.id, chosen, settings, done_answer));
    match done {
        Ok(()) => Ok(settings),
        Err(error) => Err(core_user_error(locale, &error)),
    }
}

/// Makes the controllable display with a given id the shared one and records its inputs.
pub fn select_monitor<C: MonitorControl>(
    locale: UiLocale,
    controller: &C,
    monitor_id: &str,
    settings: AppSettings,
) -> (selected: Result<AppSettings, String>)
    ensures
        exists|
            inventory: Result<MonitorInventory, DisplayMuxError>,
            found: Result<MonitorDescriptor, String>,
        |
            {
                &&& is_inventory(*controller, inventory)
                &&& #[trigger] finds_controllable(locale, inventory, monitor_id@, found)
                &&& match found {
                    Ok(monitor) => adopts_monitor(locale, *controller, monitor, settings, selected),
                    Err(text) => selected == Err::<AppSettings, _>(text),
                }
            },
{
    match find_controllable(locale, controller, monitor_id) {
        Ok(monitor) => adopt_monitor(locale, controller, &monitor, settings),
        Err(text) => Err(text),
    }
}

/// Choosing a display that has a serial number a second time keeps the inputs of all paired
/// hosts.
pub proof fn choosing_again_keeps_inputs(
    before: AppSettings,
    monitor: MonitorDescriptor,
    once: AppSettings,
    twice: AppSettings,
)
    requires
        monitor.fingerprint.serial_number is Some,
        is_chosen(before, monitor, once),
        is_chosen(once, monitor, twice),
    ensures
        twice.peers@ == once.peers@,
        twice.shared_monitor == once.shared_monitor,
{
}

/// Choosing another display leaves no paired host with an input of the display before.
pub proof fn choosing_another_display_forgets_inputs(
    before: AppSettings,
    monitor: MonitorDescriptor,
    after: AppSettings,
    i: int,
)
    requires
        is_another_monitor(before, monitor),
        is_chosen(before, monitor, after),
        0 <= i < after.peers@.len(),
    ensures
        after.peers@[i].input is None,
{
}

} // verus!
