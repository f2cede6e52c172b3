//! Laws of switching the shared display.

use crate::domain::{
    DisplayInput, DisplayMuxProfile, MonitorDescriptor, MonitorFingerprint, SwitchMode,
    SwitchOutcome,
};
use crate::error::{DisplayMuxError, ErrorView};
use crate::platform::{run_local_switch, run_switch};
use crate::port::MonitorControl;
use crate::service::{is_switch, matching, resolve_target, DisplayMuxService};
use crate::settings::AppSettings;
use vstd::prelude::*;

verus! {

/// Whether two fingerprints are complete and of the same unit: same manufacturer, same product, and
/// a serial number that both have.
pub open spec fn same_unit(a: MonitorFingerprint, b: MonitorFingerprint) -> bool {
    &&& a.manufacturer_id@ == b.manufacturer_id@
    &&& a.product_code@ == b.product_code@
    &&& match (a.serial_number, b.serial_number) {
        (Some(x), Some(y)) => x@ == y@,
        _ => false,
    }
}

/// How many displays are the shared one.
pub open spec fn match_count(monitors: Seq<MonitorDescriptor>, shared: MonitorFingerprint) -> nat
    decreases monitors.len(),
{
    if monitors.len() == 0 {
        0
    } else {
        let rest = match_count(monitors.skip(1), shared);
        if same_unit(shared, monitors[0].fingerprint) {
            rest + 1
        } else {
            rest
        }
    }
}

/// Whether the display at `position` is the shared one and no other is.
pub open spec fn is_only_match(
    monitors: Seq<MonitorDescriptor>,
    shared: MonitorFingerprint,
    position: int,
) -> bool {
    &&& 0 <= position < monitors.len()
    &&& same_unit(shared, monitors[position].fingerprint)
    &&& forall|i: int|
        0 <= i < monitors.len() && i != position ==> !same_unit(
            shared,
            (#[trigger] monitors[i]).fingerprint,
        )
}

/// Fingerprints match exactly where they are of the same unit.
pub proof fn lemma_same_unit(a: MonitorFingerprint, b: MonitorFingerprint)
    ensures
        a@.matches_exactly(b@) <==> same_unit(a, b),
{
}

proof fn lemma_matching_split(monitors: Seq<MonitorDescriptor>, shared: MonitorFingerprint)
    requires
        monitors.len() > 0,
    ensures
        matching(monitors, shared@) == if same_unit(shared, monitors[0].fingerprint) {
            seq![monitors[0]] + matching(monitors.skip(1), shared@)
        } else {
            matching(monitors.skip(1), shared@)
        },
{
    let pred = |monitor: MonitorDescriptor| shared@.matches_exactly(monitor.fingerprint@);
    let first = seq![monitors[0]];
    let rest = monitors.skip(1);
    assert(monitors =~= first + rest);
    Seq::filter_distributes_over_add(first, rest, pred);
    lemma_same_unit(shared, monitors[0].fingerprint);
    reveal(Seq::filter);
    assert(first.drop_last().len() == 0);
    assert(first.drop_last().filter(pred).len() == 0);
    if pred(monitors[0]) {
        assert(first.filter(pred) =~= first);
    } else {
        assert(first.filter(pred) + rest.filter(pred) =~= rest.filter(pred));
    }
}

proof fn lemma_match_count(monitors: Seq<MonitorDescriptor>, shared: MonitorFingerprint)
    ensures
        matching(monitors, shared@).len() == match_count(monitors, shared),
    decreases monitors.len(),
{
    if monitors.len() > 0 {
        lemma_matching_split(monitors, shared);
        lemma_match_count(monitors.skip(1), shared);
    } else {
        reveal(Seq::filter);
    }
}

/// A single match is all that matches.
pub proof fn lemma_only_match(
    monitors: Seq<MonitorDescriptor>,
    shared: MonitorFingerprint,
    position: int,
)
    requires
        is_only_match(monitors, shared, position),
    ensures
        matching(monitors, shared@) == seq![monitors[position]],
    decreases monitors.len(),
{
    let rest = monitors.skip(1);
    lemma_matching_split(monitors, shared);
    if position == 0 {
        assert forall|i: int| 0 <= i < rest.len() implies !same_unit(
            shared,
            (#[trigger] rest[i]).fingerprint,
        ) by {
            assert(rest[i] == monitors[i + 1]);
        }
        lemma_no_match(rest, shared);
        assert(seq![monitors[0]] + matching(rest, shared@) =~= seq![monitors[0]]);
    } else {
        assert(!same_unit(shared, monitors[0].fingerprint));
        assert forall|i: int| 0 <= i < rest.len() && i != position - 1 implies !same_unit(
            shared,
            (#[trigger] rest[i]).fingerprint,
        ) by {
            assert(rest[i] == monitors[i + 1]);
        }
        lemma_only_match(rest, shared, position - 1);
    }
}

/// Where no display is the shared one, none matches.
pub proof fn lemma_no_match(monitors: Seq<MonitorDescriptor>, shared: MonitorFingerprint)
    requires
        forall|i: int|
            0 <= i < monitors.len() ==> !same_unit(shared, (#[trigger] monitors[i]).fingerprint),
    ensures
        matching(monitors, shared@).len() == 0,
    decreases monitors.len(),
{
    if monitors.len() > 0 {
        let rest = monitors.skip(1);
        lemma_matching_split(monitors, shared);
        assert(!same_unit(shared, monitors[0].fingerprint));
        assert forall|i: int| 0 <= i < rest.len() implies !same_unit(
            shared,
            (#[trigger] rest[i]).fingerprint,
        ) by {
            assert(rest[i] == monitors[i + 1]);
        }
        lemma_no_match(rest, shared);
    } else {
        reveal(Seq::filter);
    }
}

/// The first display that is the shared one is the first that matches.
pub proof fn lemma_first_match(
    monitors: Seq<MonitorDescriptor>,
    shared: MonitorFingerprint,
    position: int,
)
    requires
        0 <= position < monitors.len(),
        same_unit(shared, monitors[position].fingerprint),
        forall|i: int|
            0 <= i < position ==> !same_unit(shared, (#[trigger] monitors[i]).fingerprint),
    ensures
        matching(monitors, shared@).len() > 0,
        matching(monitors, shared@)[0] == monitors[position],
    decreases monitors.len(),
{
    lemma_matching_split(monitors, shared);
    if position > 0 {
        let rest = monitors.skip(1);
        assert(!same_unit(shared, monitors[0].fingerprint));
        assert forall|i: int| 0 <= i < position - 1 implies !same_unit(
            shared,
            (#[trigger] rest[i]).fingerprint,
        ) by {
            assert(rest[i] == monitors[i + 1]);
        }
        lemma_first_match(rest, shared, position - 1);
    }
}

/// Fingerprints match exactly where they are complete and agree in every part.
pub proof fn fingerprints_match_in_every_part(
    a: MonitorFingerprint,
    b: MonitorFingerprint,
    matches: bool,
)
    requires
        call_ensures(MonitorFingerprint::matches_exactly, (&a, &b), matches),
    ensures
        matches <==> same_unit(a, b),
{
}

/// The display to control is the one connected display that is the shared one. If none is, or
/// several are, there is none; then the number of them is told.
pub proof fn single_match_is_the_target(
    monitors: &[MonitorDescriptor],
    shared: MonitorFingerprint,
    target: Result<MonitorDescriptor, DisplayMuxError>,
    position: int,
)
    requires
        call_ensures(resolve_target, (monitors, &shared), target),
    ensures
        is_only_match(monitors@, shared, position) ==> target == Ok::<_, DisplayMuxError>(
            monitors@[position],
        ),
        target is Ok <==> match_count(monitors@, shared) == 1,
        match_count(monitors@, shared) == 0 ==> (target matches Err(error) && error@
            == ErrorView::TargetNotFound),
        match_count(monitors@, shared) >= 2 ==> (target matches Err(error) && error@ == (
        ErrorView::AmbiguousTarget { count: match_count(monitors@, shared) })),
{
    lemma_match_count(monitors@, shared);
    if is_only_match(monitors@, shared, position) {
        lemma_only_match(monitors@, shared, position);
        assert(seq![monitors@[position]][0] == monitors@[position]);
        if let Ok(found) = target {
            assert(seq![found][0] == seq![monitors@[position]][0]);
        }
    }
    if let Ok(found) = target {
        assert(seq![found].len() == 1);
    }
}

/// What the displays answer when the shared one is switched.
pub open spec fn answers<C: MonitorControl>(
    control: C,
    input: DisplayInput,
    monitors: Vec<MonitorDescriptor>,
    position: int,
    read: Result<DisplayInput, DisplayMuxError>,
    written: Result<(), DisplayMuxError>,
) -> bool {
    &&& forall|listed: Result<Vec<MonitorDescriptor>, DisplayMuxError>|
        #[trigger] call_ensures(C::enumerate, (&control,), listed) ==> listed == Ok::<
            _,
            DisplayMuxError,
        >(monitors)
    &&& forall|answer: Result<DisplayInput, DisplayMuxError>|
        #[trigger] call_ensures(C::read_input, (&control, &monitors@[position].id), answer)
            ==> answer == read
    &&& forall|answer: Result<(), DisplayMuxError>|
        #[trigger] call_ensures(C::write_input, (&control, &monitors@[position].id, input), answer)
            ==> answer == written
}

/// How a switch of the display `target` has to end, for what it answers.
pub open spec fn switch_end(
    target: MonitorDescriptor,
    input: DisplayInput,
    mode: SwitchMode,
    read: Result<DisplayInput, DisplayMuxError>,
    written: Result<(), DisplayMuxError>,
) -> Result<SwitchOutcome, DisplayMuxError> {
    match (mode, read, written) {
        (SwitchMode::DryRun, _, _) => Ok(SwitchOutcome::DryRun { target, input }),
        (_, Err(error), _) => Err(error),
        (_, Ok(shown), _) if shown == input => Ok(SwitchOutcome::AlreadySelected { target, input }),
        (_, _, Err(error)) => Err(error),
        (_, Ok(shown), Ok(())) => Ok(
            SwitchOutcome::Switched { target, previous: shown, selected: input },
        ),
    }
}

/// A switch ends as the displays answer.
pub proof fn lemma_switch<C: MonitorControl>(
    control: C,
    shared: MonitorFingerprint,
    input: DisplayInput,
    mode: SwitchMode,
    result: Result<SwitchOutcome, DisplayMuxError>,
    monitors: Vec<MonitorDescriptor>,
    position: int,
    read: Result<DisplayInput, DisplayMuxError>,
    written: Result<(), DisplayMuxError>,
)
    requires
        is_switch(control, shared@, input, mode, result),
        answers(control, input, monitors, position, read, written),
    ensures
        is_only_match(monitors@, shared, position) ==> result == switch_end(
            monitors@[position],
            input,
            mode,
            read,
            written,
        ),
        match_count(monitors@, shared) == 0 ==> (result matches Err(error) && error@
            == ErrorView::TargetNotFound),
        match_count(monitors@, shared) >= 2 ==> (result matches Err(error) && error@ == (
        ErrorView::AmbiguousTarget { count: match_count(monitors@, shared) })),
{
    lemma_match_count(monitors@, shared);
    if is_only_match(monitors@, shared, position) {
        lemma_only_match(monitors@, shared, position);
        assert(seq![monitors@[position]].len() == 1);
        assert(matching(monitors@, shared@)[0] == monitors@[position]);
    }
}

/// A switch reads the shared display and, if it shows another input, writes it, and ends as the
/// display answers: with what it showed before and what it was told to show, with the input that it
/// showed already, or with its failure. A dry run does neither. Without a single match it stops.
pub proof fn switch_ends_as_the_display_answers<C: MonitorControl>(
    control: C,
    profile: DisplayMuxProfile,
    service: DisplayMuxService<C>,
    input: DisplayInput,
    mode: SwitchMode,
    result: Result<SwitchOutcome, DisplayMuxError>,
    monitors: Vec<MonitorDescriptor>,
    position: int,
    read: Result<DisplayInput, DisplayMuxError>,
    written: Result<(), DisplayMuxError>,
)
    requires
        call_ensures(DisplayMuxService::<C>::new, (control, profile), service),
        call_ensures(DisplayMuxService::<C>::switch_to_input, (service, input, mode), result),
        answers(control, input, monitors, position, read, written),
    ensures
        is_only_match(monitors@, profile.shared_monitor, position) ==> result == switch_end(
            monitors@[position],
            input,
            mode,
            read,
            written,
        ),
        match_count(monitors@, profile.shared_monitor) == 0 ==> (result matches Err(error)
            && error@ == ErrorView::TargetNotFound),
        match_count(monitors@, profile.shared_monitor) >= 2 ==> (result matches Err(error)
            && error@ == (ErrorView::AmbiguousTarget {
            count: match_count(monitors@, profile.shared_monitor),
        })),
{
    lemma_switch(
        control,
        profile.shared_monitor,
        input,
        mode,
        result,
        monitors,
        position,
        read,
        written,
    );
}

/// A switch on this host is made on the display that the settings select. Without one, or without a
/// controller, none is made.
pub proof fn local_switch_is_made_on_the_selected_display<C: MonitorControl>(
    control: C,
    settings: AppSettings,
    input: DisplayInput,
    result: Result<SwitchOutcome, DisplayMuxError>,
    failure: DisplayMuxError,
    failed: Result<SwitchOutcome, DisplayMuxError>,
    monitors: Vec<MonitorDescriptor>,
    position: int,
    read: Result<DisplayInput, DisplayMuxError>,
    written: Result<(), DisplayMuxError>,
)
    requires
        call_ensures(
            run_local_switch::<C>,
            (Ok::<C, DisplayMuxError>(control), &settings, input),
            result,
        ),
        call_ensures(run_local_switch::<C>, (Err::<C, _>(failure), &settings, input), failed),
        answers(control, input, monitors, position, read, written),
    ensures
        match settings.shared_monitor {
            Some(selected) => {
                &&& is_only_match(monitors@, selected.fingerprint, position) ==> result
                    == switch_end(monitors@[position], input, SwitchMode::Apply, read, written)
                &&& failed == Err::<SwitchOutcome, _>(failure)
            },
            None => {
                &&& result matches Err(error) && error@ == ErrorView::TargetNotFound
                &&& failed is Err
            },
        },
{
    if let Some(selected) = settings.shared_monitor {
        lemma_switch(
            control,
            selected.fingerprint,
            input,
            SwitchMode::Apply,
            result,
            monitors,
            position,
            read,
            written,
        );
    }
}

/// A switch that another host asks for is made on the display with the given fingerprint.
pub proof fn switch_is_made_on_the_given_display<C: MonitorControl>(
    control: C,
    fingerprint: MonitorFingerprint,
    input: DisplayInput,
    result: Result<SwitchOutcome, DisplayMuxError>,
    monitors: Vec<MonitorDescriptor>,
    position: int,
    read: Result<DisplayInput, DisplayMuxError>,
    written: Result<(), DisplayMuxError>,
)
    requires
        call_ensures(
            run_switch::<C>,
            (Ok::<C, DisplayMuxError>(control), fingerprint, input),
            result,
        ),
        answers(control, input, monitors, position, read, written),
        is_only_match(monitors@, fingerprint, position),
    ensures
        result == switch_end(monitors@[position], input, SwitchMode::Apply, read, written),
{
    lemma_switch(
        control,
        fingerprint,
        input,
        SwitchMode::Apply,
        result,
        monitors,
        position,
        read,
        written,
    );
}

} // verus!
