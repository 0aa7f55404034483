//! The convergence engine: the decisions of an apply, as a state machine.
//!
//! Whoever drives the machine performs each action against the remote
//! service and hands back what came of it. A machine is created, polled
//! until it runs, and read once more for its addresses; or it is deleted and
//! polled until it is gone.

use crate::diagnostic::ProviderError;
use crate::server::{
    opt_state, VmResourceConfig, VmResourceConfigView, VmResourceState, VmResourceStateView,
};
use crate::ubicloud::{Vm, VmCreateInput, VmCreateInputView, VmState, VmView};
use crate::util::{
    hex_suffix_spec, random_hex_suffix, ResourceAction, ResourceState, ResourceStateView,
};
use vstd::prelude::*;
use vstd::string::*;

verus! {

/// How many seconds pass before each fetch of a poll.
pub const POLL_INTERVAL_SECS: u64 = 5;

/// How many random bytes the suffix of a machine's name is made of.
pub const NAME_SUFFIX_BYTES: usize = 3;

/// Which answer an apply waits for.
#[derive(Clone, Copy, Debug, PartialEq, Eq, Structural)]
pub enum ApplyPhase {
    /// The delete call is out.
    Deleting,
    /// The machine is polled until it is gone.
    AwaitingGone,
    /// The create call is out.
    Creating,
    /// The machine is polled until it runs.
    AwaitingReady,
    /// The machine runs; it is read once more for its addresses.
    FinalRead,
}

/// An apply under way.
#[derive(Debug)]
pub struct ApplyRun {
    /// The answer that is waited for.
    pub phase: ApplyPhase,
    /// The prior state of the machine to delete, or the planned state of the
    /// machine to create.
    pub state: VmResourceState,
    /// The name of the machine at the remote service.
    pub vm_name: String,
}

/// An `ApplyRun` as specifications see it.
pub struct ApplyRunView {
    pub phase: ApplyPhase,
    pub state: VmResourceStateView,
    pub vm_name: Seq<char>,
}

impl View for ApplyRun {
    type V = ApplyRunView;

    open spec fn view(&self) -> ApplyRunView {
        ApplyRunView { phase: self.phase, state: self.state@, vm_name: self.vm_name@ }
    }
}

/// What came of the action that was last asked for.
#[derive(Debug)]
pub enum ApplyEvent {
    /// The delete or create call succeeded.
    Completed,
    /// The call failed.
    Failed,
    /// The fetch found the machine.
    Found(Vm),
    /// The fetch reports that there is no such machine.
    NotFound,
}

/// An `ApplyEvent` as specifications see it.
pub enum ApplyEventView {
    Completed,
    Failed,
    Found(VmView),
    NotFound,
}

impl View for ApplyEvent {
    type V = ApplyEventView;

    open spec fn view(&self) -> ApplyEventView {
        match self {
            ApplyEvent::Completed => ApplyEventView::Completed,
            ApplyEvent::Failed => ApplyEventView::Failed,
            ApplyEvent::Found(vm) => ApplyEventView::Found(vm@),
            ApplyEvent::NotFound => ApplyEventView::NotFound,
        }
    }
}

/// What is to be done against the remote service next.
#[derive(Debug)]
pub enum ApplyAction {
    /// Delete the machine.
    DeleteVm { project_id: String, region: String, name: String },
    /// Create a machine.
    CreateVm { project_id: String, region: String, input: VmCreateInput },
    /// Wait for `after_secs` seconds, then fetch the machine.
    PollVm { after_secs: u64, project_id: String, region: String, name: String },
    /// Fetch the machine at once.
    GetVm { project_id: String, region: String, name: String },
}

/// An `ApplyAction` as specifications see it.
pub enum ApplyActionView {
    DeleteVm { project_id: Seq<char>, region: Seq<char>, name: Seq<char> },
    CreateVm { project_id: Seq<char>, region: Seq<char>, input: VmCreateInputView },
    PollVm { after_secs: u64, project_id: Seq<char>, region: Seq<char>, name: Seq<char> },
    GetVm { project_id: Seq<char>, region: Seq<char>, name: Seq<char> },
}

impl View for ApplyAction {
    type V = ApplyActionView;

    open spec fn view(&self) -> ApplyActionView {
        match self {
            ApplyAction::DeleteVm { project_id, region, name } => ApplyActionView::DeleteVm {
                project_id: project_id@,
                region: region@,
                name: name@,
            },
            ApplyAction::CreateVm { project_id, region, input } => ApplyActionView::CreateVm {
                project_id: project_id@,
                region: region@,
                input: input@,
            },
            ApplyAction::PollVm { after_secs, project_id, region, name } => ApplyActionView::PollVm {
                after_secs: *after_secs,
                project_id: project_id@,
                region: region@,
                name: name@,
            },
            ApplyAction::GetVm { project_id, region, name } => ApplyActionView::GetVm {
                project_id: project_id@,
                region: region@,
                name: name@,
            },
        }
    }
}

/// How an apply ended.
#[derive(Debug)]
pub enum ApplyOutcome {
    /// The machine is gone; there is no new state.
    Deleted,
    /// The machine runs; this is its new state.
    Created(VmResourceState),
    /// The apply failed.
    Failed(ProviderError),
}

/// An `ApplyOutcome` as specifications see it.
pub enum ApplyOutcomeView {
    Deleted,
    Created(VmResourceStateView),
    Failed(ProviderError),
}

impl View for ApplyOutcome {
    type V = ApplyOutcomeView;

    open spec fn view(&self) -> ApplyOutcomeView {
        match self {
            ApplyOutcome::Deleted => ApplyOutcomeView::Deleted,
            ApplyOutcome::Created(state) => ApplyOutcomeView::Created(state@),
            ApplyOutcome::Failed(error) => ApplyOutcomeView::Failed(*error),
        }
    }
}

/// One step of an apply: either it goes on with an action, or it is over.
#[derive(Debug)]
pub enum ApplyStep {
    Continue(ApplyRun, ApplyAction),
    Finish(ApplyOutcome),
}

/// An `ApplyStep` as specifications see it.
pub enum ApplyStepView {
    Continue(ApplyRunView, ApplyActionView),
    Finish(ApplyOutcomeView),
}

impl View for ApplyStep {
    type V = ApplyStepView;

    open spec fn view(&self) -> ApplyStepView {
        match self {
            ApplyStep::Continue(run, action) => ApplyStepView::Continue(run@, action@),
            ApplyStep::Finish(outcome) => ApplyStepView::Finish(outcome@),
        }
    }
}

/// The name of a new machine: the configured name, a hyphen, the suffix.
pub open spec fn vm_name_spec(name: Seq<char>, suffix: Seq<char>) -> Seq<char> {
    name + seq!['-'] + suffix
}

/// The name of a machine is never the configured name alone: it is longer
/// by the hyphen and the suffix.
pub proof fn lemma_vm_name_differs(name: Seq<char>, suffix: Seq<char>)
    ensures
        vm_name_spec(name, suffix) != name,
        vm_name_spec(name, suffix).len() == name.len() + 1 + suffix.len(),
        vm_name_spec(name, suffix).subrange(0, name.len() as int) == name,
        vm_name_spec(name, suffix)[name.len() as int] == '-',
        vm_name_spec(name, suffix).skip(name.len() as int + 1) == suffix,
{
    let vm_name = vm_name_spec(name, suffix);
    assert(vm_name.subrange(0, name.len() as int) =~= name);
    assert(vm_name.skip(name.len() as int + 1) =~= suffix);
}

/// What the remote service is asked to create for a configuration, under
/// the given name. Without a word on public IPv4 there is none.
pub open spec fn create_input_spec(
    config: VmResourceConfigView,
    vm_name: Seq<char>,
) -> VmCreateInputView {
    VmCreateInputView {
        name: vm_name,
        size: config.size,
        public_key: config.public_key,
        user: config.user,
        image: config.image,
        enable_public_ipv4: match config.enable_public_ipv4 {
            Some(enable) => enable,
            None => false,
        },
    }
}

/// The fetch of the machine that a run is about, after the polling
/// interval.
pub open spec fn poll_of(run: ApplyRunView) -> ApplyActionView {
    ApplyActionView::PollVm {
        after_secs: POLL_INTERVAL_SECS,
        project_id: run.state.config.project_id,
        region: run.state.config.region,
        name: run.vm_name,
    }
}

/// The first step of an apply. A delete needs the prior state and starts
/// with the delete call for the machine named there. Anything else is a
/// create: it needs the planned state, names the machine with the given
/// suffix, and starts with the create call.
pub open spec fn begin_spec(
    state: ResourceStateView,
    planned_state: Option<VmResourceStateView>,
    suffix: Seq<char>,
) -> ApplyStepView {
    if state.action == ResourceAction::Delete {
        match state.prior_state {
            Some(prior) => ApplyStepView::Continue(
                ApplyRunView { phase: ApplyPhase::Deleting, state: prior, vm_name: prior.vm_name },
                ApplyActionView::DeleteVm {
                    project_id: prior.config.project_id,
                    region: prior.config.region,
                    name: prior.vm_name,
                },
            ),
            None => ApplyStepView::Finish(ApplyOutcomeView::Failed(ProviderError::PriorStateMissing)),
        }
    } else {
        match planned_state {
            Some(planned) => {
                let vm_name = vm_name_spec(planned.config.name, suffix);
                ApplyStepView::Continue(
                    ApplyRunView { phase: ApplyPhase::Creating, state: planned, vm_name },
                    ApplyActionView::CreateVm {
                        project_id: planned.config.project_id,
                        region: planned.config.region,
                        input: create_input_spec(planned.config, vm_name),
                    },
                )
            },
            None => ApplyStepView::Finish(
                ApplyOutcomeView::Failed(ProviderError::PlannedStateMissing),
            ),
        }
    }
}

/// The state of a machine that was created from `planned` and read back as
/// `vm`: the planned configuration, with the name and the addresses that the
/// remote service reports.
pub open spec fn created_state_spec(planned: VmResourceStateView, vm: VmView) -> VmResourceStateView {
    VmResourceStateView {
        config: planned.config,
        vm_name: vm.name,
        public_ipv4: vm.ip4,
        public_ipv6: vm.ip6,
    }
}

/// The step that an event leads to.
///
/// A failed delete or create call ends the apply. A delete is over when a
/// fetch reports that the machine is not there; whatever else a fetch
/// brings, the machine is polled again. A create polls while the machine is
/// found in another state than running, and also when a fetch fails; it ends
/// in failure when a fetch reports that the machine is not there. Once the
/// machine runs it is fetched once more, and that fetch ends the apply: with
/// the new state if it finds the machine, in failure if not.
pub open spec fn step_spec(run: ApplyRunView, event: ApplyEventView) -> ApplyStepView {
    match run.phase {
        ApplyPhase::Deleting => match event {
            ApplyEventView::Failed => ApplyStepView::Finish(
                ApplyOutcomeView::Failed(ProviderError::DeleteVm),
            ),
            _ => {
                let next = ApplyRunView { phase: ApplyPhase::AwaitingGone, ..run };
                ApplyStepView::Continue(next, poll_of(next))
            },
        },
        ApplyPhase::AwaitingGone => match event {
            ApplyEventView::NotFound => ApplyStepView::Finish(ApplyOutcomeView::Deleted),
            _ => ApplyStepView::Continue(run, poll_of(run)),
        },
        ApplyPhase::Creating => match event {
            ApplyEventView::Failed => ApplyStepView::Finish(
                ApplyOutcomeView::Failed(ProviderError::CreateVm),
            ),
            _ => {
                let next = ApplyRunView { phase: ApplyPhase::AwaitingReady, ..run };
                ApplyStepView::Continue(next, poll_of(next))
            },
        },
        ApplyPhase::AwaitingReady => match event {
            ApplyEventView::Found(vm) => if vm.state == VmState::Running {
                let next = ApplyRunView { phase: ApplyPhase::FinalRead, ..run };
                ApplyStepView::Continue(
                    next,
                    ApplyActionView::GetVm {
                        project_id: run.state.config.project_id,
                        region: run.state.config.region,
                        name: run.vm_name,
                    },
                )
            } else {
                ApplyStepView::Continue(run, poll_of(run))
            },
            ApplyEventView::NotFound => ApplyStepView::Finish(
                ApplyOutcomeView::Failed(ProviderError::GetVm),
            ),
            _ => ApplyStepView::Continue(run, poll_of(run)),
        },
        ApplyPhase::FinalRead => match event {
            ApplyEventView::Found(vm) => ApplyStepView::Finish(
                ApplyOutcomeView::Created(created_state_spec(run.state, vm)),
            ),
            _ => ApplyStepView::Finish(ApplyOutcomeView::Failed(ProviderError::GetVm)),
        },
    }
}

impl ApplyRun {
    /// The fetch of the machine that the run is about, after the polling
    /// interval.
    fn poll(&self) -> (action: ApplyAction)
        ensures
            action@ == poll_of(self@),
    {
        ApplyAction::PollVm {
            after_secs: POLL_INTERVAL_SECS,
            project_id: self.state.config.project_id.clone(),
            region: self.state.config.region.clone(),
            name: self.vm_name.clone(),
        }
    }

    /// Goes on polling in the given phase.
    fn poll_in(self, phase: ApplyPhase) -> (step: ApplyStep)
        ensures
            step@ == ApplyStepView::Continue(
                ApplyRunView { phase, ..self@ },
                poll_of(ApplyRunView { phase, ..self@ }),
            ),
    {
        let next = ApplyRun { phase, state: self.state, vm_name: self.vm_name };
        let action = next.poll();
        ApplyStep::Continue(next, action)
    }

    /// Takes what came of the last action, and says how the apply goes on.
    pub fn step(self, event: ApplyEvent) -> (step: ApplyStep)
        ensures
            step@ == step_spec(self@, event@),
    {
        match self.phase {
            ApplyPhase::Deleting => match event {
                ApplyEvent::Failed => ApplyStep::Finish(
                    ApplyOutcome::Failed(ProviderError::DeleteVm),
                ),
                _ => self.poll_in(ApplyPhase::AwaitingGone),
            },
            ApplyPhase::AwaitingGone => match event {
                ApplyEvent::NotFound => ApplyStep::Finish(ApplyOutcome::Deleted),
                _ => self.poll_in(ApplyPhase::AwaitingGone),
            },
            ApplyPhase::Creating => match event {
                ApplyEvent::Failed => ApplyStep::Finish(
                    ApplyOutcome::Failed(ProviderError::CreateVm),
                ),
                _ => self.poll_in(ApplyPhase::AwaitingReady),
            },
            ApplyPhase::AwaitingReady => match event {
                ApplyEvent::Found(vm) => match vm.state {
                    VmState::Running => {
                        let action = ApplyAction::GetVm {
                            project_id: self.state.config.project_id.clone(),
                            region: self.state.config.region.clone(),
                            name: self.vm_name.clone(),
                        };
                        let next = ApplyRun {
                            phase: ApplyPhase::FinalRead,
                            state: self.state,
                            vm_name: self.vm_name,
                        };
                        ApplyStep::Continue(next, action)
                    },
                    _ => self.poll_in(ApplyPhase::AwaitingReady),
                },
                ApplyEvent::NotFound => ApplyStep::Finish(
                    ApplyOutcome::Failed(ProviderError::GetVm),
                ),
                _ => self.poll_in(ApplyPhase::AwaitingReady),
            },
            ApplyPhase::FinalRead => match event {
                ApplyEvent::Found(vm) => {
                    let new_state = VmResourceState {
                        config: self.state.config,
                        vm_name: vm.name,
                        public_ipv4: vm.ip4,
                        public_ipv6: vm.ip6,
                    };
                    ApplyStep::Finish(ApplyOutcome::Created(new_state))
                },
                _ => ApplyStep::Finish(ApplyOutcome::Failed(ProviderError::GetVm)),
            },
        }
    }
}

/// What the remote service is asked to create for a configuration, under
/// the given name.
pub fn create_input(config: &VmResourceConfig, vm_name: &String) -> (input: VmCreateInput)
    ensures
        input@ == create_input_spec(config@, vm_name@),
{
    VmCreateInput {
        name: vm_name.clone(),
        size: config.size.clone(),
        public_key: config.public_key.clone(),
        user: config.user.clone(),
        image: config.image.clone(),
        enable_public_ipv4: match config.enable_public_ipv4 {
            Some(enable) => enable,
            None => false,
        },
    }
}

/// The name of a new machine: the configured name, a hyphen, the suffix.
pub fn vm_name_with_suffix(name: &String, suffix: &String) -> (vm_name: String)
    ensures
        vm_name@ == vm_name_spec(name@, suffix@),
{
    proof {
        reveal_strlit("-");
        assert("-"@ =~= seq!['-']);
    }
    let mut vm_name: String = name.clone();
    vm_name.append("-");
    vm_name.append(suffix.as_str());
    vm_name
}

/// The first step of an apply, for a machine that would be named with the
/// given suffix.
pub fn begin_apply_with_suffix(
    state: ResourceState,
    planned_state: Option<VmResourceState>,
    suffix: String,
) -> (step: ApplyStep)
    ensures
        step@ == begin_spec(state@, opt_state(planned_state), suffix@),
{
    match state.action {
        ResourceAction::Delete => match state.prior_state {
            Some(prior) => {
                let action = ApplyAction::DeleteVm {
                    project_id: prior.config.project_id.clone(),
                    region: prior.config.region.clone(),
                    name: prior.vm_name.clone(),
                };
                let vm_name = prior.vm_name.clone();
                ApplyStep::Continue(
                    ApplyRun { phase: ApplyPhase::Deleting, state: prior, vm_name },
                    action,
                )
            },
            None => ApplyStep::Finish(ApplyOutcome::Failed(ProviderError::PriorStateMissing)),
        },
        ResourceAction::Create => match planned_state {
            Some(planned) => {
                let vm_name = vm_name_with_suffix(&planned.config.name, &suffix);
                let action = ApplyAction::CreateVm {
                    project_id: planned.config.project_id.clone(),
                    region: planned.config.region.clone(),
                    input: create_input(&planned.config, &vm_name),
                };
                ApplyStep::Continue(
                    ApplyRun { phase: ApplyPhase::Creating, state: planned, vm_name },
                    action,
                )
            },
            None => ApplyStep::Finish(ApplyOutcome::Failed(ProviderError::PlannedStateMissing)),
        },
    }
}

/// The first step of an apply. A new machine is named with a suffix of
/// `NAME_SUFFIX_BYTES` random bytes in hexadecimal.
pub fn begin_apply(state: ResourceState, planned_state: Option<VmResourceState>) -> (step:
    ApplyStep)
    ensures
        exists|bytes: Seq<u8>|
            bytes.len() == NAME_SUFFIX_BYTES && step@ == begin_spec(
                state@,
                opt_state(planned_state),
                #[trigger] hex_suffix_spec(bytes),
            ),
{
    let suffix = random_hex_suffix(NAME_SUFFIX_BYTES);
    begin_apply_with_suffix(state, planned_state, suffix)
}

} // verus!
