//! Where an apply ends, whatever the remote service answers on the way.

use crate::apply::{
    begin_spec, created_state_spec, poll_of, step_spec, ApplyActionView, ApplyEventView,
    ApplyOutcomeView, ApplyPhase, ApplyRunView, ApplyStepView,
};
use crate::diagnostic::ProviderError;
use crate::server::{plan_spec, VmResourceConfigView, VmResourceStateView};
use crate::ubicloud::{VmState, VmView};
use crate::util::{ResourceAction, ResourceStateView, UNKNOWN_STRING};
use vstd::prelude::*;

verus! {

/// Where a row of events leads from a step: each event answers the action
/// of the step before it; once the apply is over, nothing is asked for and
/// no event is taken.
pub open spec fn run_spec(step: ApplyStepView, events: Seq<ApplyEventView>) -> ApplyStepView
    decreases events.len(),
{
    if events.len() == 0 {
        step
    } else {
        match step {
            ApplyStepView::Continue(run, _) => run_spec(
                step_spec(run, events[0]),
                events.skip(1),
            ),
            ApplyStepView::Finish(_) => step,
        }
    }
}

/// An apply that is over stays over.
pub proof fn lemma_finished_stays(outcome: ApplyOutcomeView, events: Seq<ApplyEventView>)
    ensures
        run_spec(ApplyStepView::Finish(outcome), events) == ApplyStepView::Finish(outcome),
{
}

/// Taking one more event after a row of events is taking the longer row.
pub proof fn lemma_run_push(step: ApplyStepView, events: Seq<ApplyEventView>, last: ApplyEventView)
    ensures
        run_spec(step, events.push(last)) == (match run_spec(step, events) {
            ApplyStepView::Continue(run, _) => step_spec(run, last),
            ApplyStepView::Finish(outcome) => ApplyStepView::Finish(outcome),
        }),
    decreases events.len(),
{
    if events.len() == 0 {
        assert(events.push(last).skip(1) =~= Seq::<ApplyEventView>::empty());
        match step {
            ApplyStepView::Continue(run, _) => {
                assert(run_spec(step_spec(run, last), Seq::<ApplyEventView>::empty()) == step_spec(
                    run,
                    last,
                ));
            },
            ApplyStepView::Finish(_) => {},
        }
    } else {
        assert(events.push(last).skip(1) =~= events.skip(1).push(last));
        assert(events.push(last)[0] == events[0]);
        match step {
            ApplyStepView::Continue(run, _) => {
                lemma_run_push(step_spec(run, events[0]), events.skip(1), last);
            },
            ApplyStepView::Finish(_) => {},
        }
    }
}

/// Whether a fetch leaves a delete waiting: it brings anything but the news
/// that the machine is not there.
pub open spec fn still_there(event: ApplyEventView) -> bool {
    !(event is NotFound)
}

/// Whether a fetch leaves a create waiting: it finds the machine in another
/// state than running, or it fails.
pub open spec fn not_ready(event: ApplyEventView) -> bool {
    match event {
        ApplyEventView::Found(vm) => vm.state != VmState::Running,
        ApplyEventView::NotFound => false,
        _ => true,
    }
}

/// While every fetch leaves the delete waiting, the machine is polled again.
pub proof fn lemma_delete_keeps_polling(run: ApplyRunView, events: Seq<ApplyEventView>)
    requires
        run.phase == ApplyPhase::AwaitingGone,
        forall|i: int| 0 <= i < events.len() ==> still_there(#[trigger] events[i]),
    ensures
        run_spec(ApplyStepView::Continue(run, poll_of(run)), events) == ApplyStepView::Continue(
            run,
            poll_of(run),
        ),
    decreases events.len(),
{
    if events.len() > 0 {
        assert(still_there(events[0]));
        assert forall|i: int| 0 <= i < events.skip(1).len() implies still_there(
            #[trigger] events.skip(1)[i],
        ) by {
            assert(still_there(events[i + 1]));
        }
        lemma_delete_keeps_polling(run, events.skip(1));
    }
}

/// Delete convergence. A delete that polls ends with the first fetch that
/// reports the machine gone, however many fetches before it found the
/// machine or failed: with that fetch the apply is over, without a new
/// state, and nothing more is asked for.
pub proof fn lemma_delete_converges(
    run: ApplyRunView,
    events: Seq<ApplyEventView>,
    later: Seq<ApplyEventView>,
)
    requires
        run.phase == ApplyPhase::AwaitingGone,
        forall|i: int| 0 <= i < events.len() ==> still_there(#[trigger] events[i]),
    ensures
        run_spec(
            ApplyStepView::Continue(run, poll_of(run)),
            events.push(ApplyEventView::NotFound) + later,
        ) == ApplyStepView::Finish(ApplyOutcomeView::Deleted),
{
    let start = ApplyStepView::Continue(run, poll_of(run));
    lemma_delete_keeps_polling(run, events);
    lemma_run_push(start, events, ApplyEventView::NotFound);
    lemma_run_append(start, events.push(ApplyEventView::NotFound), later);
}

/// Taking a second row of events after a first is taking both in a row.
pub proof fn lemma_run_append(
    step: ApplyStepView,
    events: Seq<ApplyEventView>,
    later: Seq<ApplyEventView>,
)
    ensures
        run_spec(step, events + later) == run_spec(run_spec(step, events), later),
    decreases events.len(),
{
    if events.len() == 0 {
        assert(events + later =~= later);
    } else {
        assert((events + later).skip(1) =~= events.skip(1) + later);
        assert((events + later)[0] == events[0]);
        match step {
            ApplyStepView::Continue(run, _) => {
                lemma_run_append(step_spec(run, events[0]), events.skip(1), later);
            },
            ApplyStepView::Finish(outcome) => {
                lemma_finished_stays(outcome, later);
                if later.len() == 0 {
                    assert(events + later =~= events);
                }
            },
        }
    }
}

/// While every fetch leaves the create waiting, the machine is polled again.
pub proof fn lemma_create_keeps_polling(run: ApplyRunView, events: Seq<ApplyEventView>)
    requires
        run.phase == ApplyPhase::AwaitingReady,
        forall|i: int| 0 <= i < events.len() ==> not_ready(#[trigger] events[i]),
    ensures
        run_spec(ApplyStepView::Continue(run, poll_of(run)), events) == ApplyStepView::Continue(
            run,
            poll_of(run),
        ),
    decreases events.len(),
{
    if events.len() > 0 {
        assert(not_ready(events[0]));
        assert forall|i: int| 0 <= i < events.skip(1).len() implies not_ready(
            #[trigger] events.skip(1)[i],
        ) by {
            assert(not_ready(events[i + 1]));
        }
        lemma_create_keeps_polling(run, events.skip(1));
    }
}

/// Create convergence. A create that polls goes on until a fetch finds the
/// machine running. It then asks for exactly one more fetch, at once; when
/// that fetch finds the machine, the apply is over, and the new state holds
/// the planned configuration with the name and the addresses of that last
/// fetch.
pub proof fn lemma_create_converges(
    run: ApplyRunView,
    events: Seq<ApplyEventView>,
    ready: VmView,
    last: VmView,
)
    requires
        run.phase == ApplyPhase::AwaitingReady,
        forall|i: int| 0 <= i < events.len() ==> not_ready(#[trigger] events[i]),
        ready.state == VmState::Running,
    ensures
        run_spec(
            ApplyStepView::Continue(run, poll_of(run)),
            events.push(ApplyEventView::Found(ready)),
        ) == ApplyStepView::Continue(
            ApplyRunView { phase: ApplyPhase::FinalRead, ..run },
            ApplyActionView::GetVm {
                project_id: run.state.config.project_id,
                region: run.state.config.region,
                name: run.vm_name,
            },
        ),
        run_spec(
            ApplyStepView::Continue(run, poll_of(run)),
            events.push(ApplyEventView::Found(ready)).push(ApplyEventView::Found(last)),
        ) == ApplyStepView::Finish(ApplyOutcomeView::Created(created_state_spec(run.state, last))),
        created_state_spec(run.state, last).public_ipv4 == last.ip4,
        created_state_spec(run.state, last).public_ipv6 == last.ip6,
{
    let start = ApplyStepView::Continue(run, poll_of(run));
    lemma_create_keeps_polling(run, events);
    lemma_run_push(start, events, ApplyEventView::Found(ready));
    lemma_run_push(
        start,
        events.push(ApplyEventView::Found(ready)),
        ApplyEventView::Found(last),
    );
}

/// A create fails with the first fetch of its poll that reports the machine
/// missing.
pub proof fn lemma_create_fails_when_missing(run: ApplyRunView, events: Seq<ApplyEventView>)
    requires
        run.phase == ApplyPhase::AwaitingReady,
        forall|i: int| 0 <= i < events.len() ==> not_ready(#[trigger] events[i]),
    ensures
        run_spec(
            ApplyStepView::Continue(run, poll_of(run)),
            events.push(ApplyEventView::NotFound),
        ) == ApplyStepView::Finish(ApplyOutcomeView::Failed(ProviderError::GetVm)),
{
    let start = ApplyStepView::Continue(run, poll_of(run));
    lemma_create_keeps_polling(run, events);
    lemma_run_push(start, events, ApplyEventView::NotFound);
}

/// A whole delete. After a delete call that did not fail, the apply polls
/// and ends with the first fetch that reports the machine gone.
pub proof fn lemma_apply_deletes(
    state: ResourceStateView,
    planned_state: Option<VmResourceStateView>,
    suffix: Seq<char>,
    answer: ApplyEventView,
    events: Seq<ApplyEventView>,
)
    requires
        state.action == ResourceAction::Delete,
        state.prior_state is Some,
        !(answer is Failed),
        forall|i: int| 0 <= i < events.len() ==> still_there(#[trigger] events[i]),
    ensures
        run_spec(
            begin_spec(state, planned_state, suffix),
            seq![answer] + events.push(ApplyEventView::NotFound),
        ) == ApplyStepView::Finish(ApplyOutcomeView::Deleted),
{
    let prior = state.prior_state->0;
    let start = begin_spec(state, planned_state, suffix);
    let run = ApplyRunView { phase: ApplyPhase::AwaitingGone, state: prior, vm_name: prior.vm_name };
    let polling = ApplyStepView::Continue(run, poll_of(run));
    let rest = events.push(ApplyEventView::NotFound);
    assert((seq![answer] + rest).skip(1) =~= rest);
    assert(run_spec(start, seq![answer] + rest) == run_spec(polling, rest));
    lemma_delete_converges(run, events, Seq::empty());
    assert(rest + Seq::<ApplyEventView>::empty() =~= rest);
}

/// A whole create. After a create call that did not fail, the apply polls
/// until a fetch finds the machine running, fetches it once more, and ends
/// with the planned configuration under the name and the addresses of that
/// last fetch.
pub proof fn lemma_apply_creates(
    state: ResourceStateView,
    planned: VmResourceStateView,
    suffix: Seq<char>,
    answer: ApplyEventView,
    events: Seq<ApplyEventView>,
    ready: VmView,
    last: VmView,
)
    requires
        state.action == ResourceAction::Create,
        !(answer is Failed),
        forall|i: int| 0 <= i < events.len() ==> not_ready(#[trigger] events[i]),
        ready.state == VmState::Running,
    ensures
        run_spec(
            begin_spec(state, Some(planned), suffix),
            seq![answer] + events.push(ApplyEventView::Found(ready)).push(
                ApplyEventView::Found(last),
            ),
        ) == ApplyStepView::Finish(ApplyOutcomeView::Created(created_state_spec(planned, last))),
{
    let start = begin_spec(state, Some(planned), suffix);
    let started = start->Continue_0;
    let run = ApplyRunView { phase: ApplyPhase::AwaitingReady, ..started };
    let polling = ApplyStepView::Continue(run, poll_of(run));
    let rest = events.push(ApplyEventView::Found(ready)).push(ApplyEventView::Found(last));
    assert((seq![answer] + rest).skip(1) =~= rest);
    assert(run_spec(start, seq![answer] + rest) == run_spec(polling, rest));
    lemma_create_converges(run, events, ready, last);
}

/// Whether a configuration holds the reserved literal in one of its fields.
pub open spec fn config_has_unknown(config: VmResourceConfigView) -> bool {
    ||| config.region == UNKNOWN_STRING@
    ||| config.project_id == UNKNOWN_STRING@
    ||| config.name == UNKNOWN_STRING@
    ||| config.size == UNKNOWN_STRING@
    ||| config.image == UNKNOWN_STRING@
    ||| config.user == UNKNOWN_STRING@
    ||| config.public_key == UNKNOWN_STRING@
}

/// Whether a state holds the reserved literal in one of its fields.
pub open spec fn state_has_unknown(state: VmResourceStateView) -> bool {
    ||| config_has_unknown(state.config)
    ||| state.vm_name == UNKNOWN_STRING@
    ||| state.public_ipv4 == Some(UNKNOWN_STRING@)
    ||| state.public_ipv6 == Some(UNKNOWN_STRING@)
}

/// Whether the remote service reports the reserved literal as the name or as
/// an address of a machine.
pub open spec fn vm_has_unknown(vm: VmView) -> bool {
    ||| vm.name == UNKNOWN_STRING@
    ||| vm.ip4 == Some(UNKNOWN_STRING@)
    ||| vm.ip6 == Some(UNKNOWN_STRING@)
}

/// The state planned for a create or a replacement has the reserved literal
/// as its name and as both its addresses.
pub proof fn lemma_planned_state_is_unknown(state: ResourceStateView)
    requires
        state.did_change,
        state.config is Some,
    ensures
        plan_spec(state) matches Ok(planned) && planned.config == state.config->0
            && planned.vm_name == UNKNOWN_STRING@ && planned.public_ipv4 == Some(UNKNOWN_STRING@)
            && planned.public_ipv6 == Some(UNKNOWN_STRING@),
{
}

/// The state of a created machine takes its name and its addresses from the
/// last fetch and its configuration from the plan: it holds the reserved
/// literal exactly where the configuration or that fetch holds it.
pub proof fn lemma_created_state_unknown(planned: VmResourceStateView, vm: VmView)
    ensures
        state_has_unknown(created_state_spec(planned, vm)) <==> config_has_unknown(planned.config)
            || vm_has_unknown(vm),
{
}

/// A successfully applied state holds the reserved literal in no field,
/// where the configuration holds none and the remote service reports none.
pub proof fn lemma_applied_state_is_known(
    run: ApplyRunView,
    event: ApplyEventView,
    applied: VmResourceStateView,
)
    requires
        step_spec(run, event) == ApplyStepView::Finish(ApplyOutcomeView::Created(applied)),
        !config_has_unknown(run.state.config),
        event matches ApplyEventView::Found(vm) ==> !vm_has_unknown(vm),
    ensures
        !state_has_unknown(applied),
{
}

} // verus!
