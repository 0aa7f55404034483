use terraform_provider_ubicloud::apply::{
    begin_apply, begin_apply_with_suffix, create_input, ApplyAction, ApplyEvent, ApplyOutcome,
    ApplyPhase, ApplyRun, ApplyStep, POLL_INTERVAL_SECS,
};
use terraform_provider_ubicloud::diagnostic::ProviderError;
use terraform_provider_ubicloud::server::{UbicloudProvider, VmResourceConfig, VmResourceState};
use terraform_provider_ubicloud::ubicloud::{Vm, VmState};
use terraform_provider_ubicloud::util::{
    compute_resource_state, Decoded, ResourceState, UNKNOWN_STRING,
};

fn decoded<T>(record: Option<T>) -> Decoded<T> {
    match record {
        Some(record) => Decoded::Value(record),
        None => Decoded::Absent,
    }
}

fn decide(prior_state: Option<VmResourceState>, config: Option<VmResourceConfig>) -> ResourceState {
    compute_resource_state(decoded(prior_state), decoded(config)).unwrap()
}

fn config() -> VmResourceConfig {
    VmResourceConfig {
        region: "hetzner-fsn1".to_string(),
        project_id: "pj1".to_string(),
        name: "web".to_string(),
        size: "standard-2".to_string(),
        image: "ubuntu-jammy".to_string(),
        user: "ubi".to_string(),
        public_key: "ssh-ed25519 AAAA".to_string(),
        enable_public_ipv4: Some(true),
    }
}

fn prior() -> VmResourceState {
    VmResourceState {
        config: config(),
        vm_name: "web-1a2b3c".to_string(),
        public_ipv4: Some("203.0.113.7".to_string()),
        public_ipv6: None,
    }
}

fn planned() -> VmResourceState {
    VmResourceState {
        config: config(),
        vm_name: UNKNOWN_STRING.to_string(),
        public_ipv4: Some(UNKNOWN_STRING.to_string()),
        public_ipv6: Some(UNKNOWN_STRING.to_string()),
    }
}

fn vm(state: VmState, ip4: Option<&str>, ip6: Option<&str>) -> Vm {
    Vm {
        id: "vm0001".to_string(),
        name: "web-0a1b2c".to_string(),
        state,
        location: "hetzner-fsn1".to_string(),
        size: "standard-2".to_string(),
        user: "ubi".to_string(),
        ip4: ip4.map(|s| s.to_string()),
        ip6: ip6.map(|s| s.to_string()),
    }
}

fn begin_delete() -> ApplyStep {
    begin_apply(decide(Some(prior()), None), None)
}

fn begin_create() -> ApplyStep {
    let state = decide(None, Some(config()));
    begin_apply_with_suffix(state, Some(planned()), "0a1b2c".to_string())
}

fn run_of(step: ApplyStep) -> ApplyRun {
    match step {
        ApplyStep::Continue(run, _) => run,
        ApplyStep::Finish(outcome) => panic!("the apply is over: {:?}", outcome),
    }
}

fn assert_poll(step: &ApplyStep, phase: ApplyPhase, vm_name: &str) {
    match step {
        ApplyStep::Continue(run, ApplyAction::PollVm { after_secs, project_id, region, name }) => {
            assert_eq!(*after_secs, 5);
            assert_eq!(run.phase, phase);
            assert_eq!(project_id, "pj1");
            assert_eq!(region, "hetzner-fsn1");
            assert_eq!(name, vm_name);
            assert_eq!(run.vm_name, vm_name);
        }
        other => panic!("unexpected step: {:?}", other),
    }
}

fn assert_failed(step: ApplyStep, error: ProviderError) {
    match step {
        ApplyStep::Finish(ApplyOutcome::Failed(e)) => assert_eq!(e, error),
        other => panic!("unexpected step: {:?}", other),
    }
}

#[test]
fn the_polling_interval_is_five_seconds() {
    assert_eq!(POLL_INTERVAL_SECS, 5);
}

#[test]
fn a_delete_starts_with_the_delete_call() {
    match begin_delete() {
        ApplyStep::Continue(run, ApplyAction::DeleteVm { project_id, region, name }) => {
            assert_eq!(run.phase, ApplyPhase::Deleting);
            assert_eq!(run.state, prior());
            assert_eq!(run.vm_name, "web-1a2b3c");
            assert_eq!(project_id, "pj1");
            assert_eq!(region, "hetzner-fsn1");
            assert_eq!(name, "web-1a2b3c");
        }
        other => panic!("unexpected step: {:?}", other),
    }
}

#[test]
fn a_delete_ends_with_the_first_fetch_that_finds_nothing() {
    let mut fetches = 0;
    let step = run_of(begin_delete()).step(ApplyEvent::Completed);
    assert_poll(&step, ApplyPhase::AwaitingGone, "web-1a2b3c");
    fetches += 1;
    let step = run_of(step).step(ApplyEvent::Found(vm(VmState::Deleting, None, None)));
    assert_poll(&step, ApplyPhase::AwaitingGone, "web-1a2b3c");
    fetches += 1;
    let step = run_of(step).step(ApplyEvent::Found(vm(VmState::Deleting, None, None)));
    assert_poll(&step, ApplyPhase::AwaitingGone, "web-1a2b3c");
    fetches += 1;
    let step = run_of(step).step(ApplyEvent::NotFound);
    assert_eq!(fetches, 3);
    // the apply is over: there is no run left to ask anything of
    match step {
        ApplyStep::Finish(ApplyOutcome::Deleted) => {}
        other => panic!("unexpected step: {:?}", other),
    }
}

#[test]
fn a_delete_ends_at_once_when_the_machine_is_gone_already() {
    let step = run_of(begin_delete()).step(ApplyEvent::Completed);
    match run_of(step).step(ApplyEvent::NotFound) {
        ApplyStep::Finish(ApplyOutcome::Deleted) => {}
        other => panic!("unexpected step: {:?}", other),
    }
}

#[test]
fn a_delete_polls_on_when_a_fetch_fails() {
    let step = run_of(begin_delete()).step(ApplyEvent::Completed);
    let step = run_of(step).step(ApplyEvent::Failed);
    assert_poll(&step, ApplyPhase::AwaitingGone, "web-1a2b3c");
    let step = run_of(step).step(ApplyEvent::Found(vm(VmState::Running, None, None)));
    assert_poll(&step, ApplyPhase::AwaitingGone, "web-1a2b3c");
    let step = run_of(step).step(ApplyEvent::Completed);
    assert_poll(&step, ApplyPhase::AwaitingGone, "web-1a2b3c");
}

#[test]
fn a_delete_fails_when_the_call_fails() {
    assert_failed(run_of(begin_delete()).step(ApplyEvent::Failed), ProviderError::DeleteVm);
}

#[test]
fn a_delete_without_a_prior_state_fails() {
    let state = terraform_provider_ubicloud::util::ResourceState {
        already_exists: true,
        did_change: true,
        action: terraform_provider_ubicloud::util::ResourceAction::Delete,
        prior_state: None,
        config: None,
    };
    assert_failed(begin_apply(state, Some(planned())), ProviderError::PriorStateMissing);
}

#[test]
fn a_create_starts_with_the_create_call() {
    match begin_create() {
        ApplyStep::Continue(run, ApplyAction::CreateVm { project_id, region, input }) => {
            assert_eq!(run.phase, ApplyPhase::Creating);
            assert_eq!(run.state, planned());
            assert_eq!(run.vm_name, "web-0a1b2c");
            assert_eq!(project_id, "pj1");
            assert_eq!(region, "hetzner-fsn1");
            assert_eq!(input.name, "web-0a1b2c");
            assert_eq!(input.size, "standard-2");
            assert_eq!(input.image, "ubuntu-jammy");
            assert_eq!(input.user, "ubi");
            assert_eq!(input.public_key, "ssh-ed25519 AAAA");
            assert!(input.enable_public_ipv4);
        }
        other => panic!("unexpected step: {:?}", other),
    }
}

#[test]
fn a_create_without_a_word_on_ipv4_asks_for_none() {
    let silent = VmResourceConfig { enable_public_ipv4: None, ..config() };
    assert!(!create_input(&silent, &"web-1".to_string()).enable_public_ipv4);
    let off = VmResourceConfig { enable_public_ipv4: Some(false), ..config() };
    assert!(!create_input(&off, &"web-1".to_string()).enable_public_ipv4);
    assert!(create_input(&config(), &"web-1".to_string()).enable_public_ipv4);
    assert_eq!(create_input(&config(), &"web-1".to_string()).name, "web-1");
}

#[test]
fn a_create_ends_one_fetch_after_the_machine_runs() {
    let step = run_of(begin_create()).step(ApplyEvent::Completed);
    assert_poll(&step, ApplyPhase::AwaitingReady, "web-0a1b2c");
    let step = run_of(step).step(ApplyEvent::Found(vm(VmState::Creating, None, None)));
    assert_poll(&step, ApplyPhase::AwaitingReady, "web-0a1b2c");
    let step = run_of(step).step(ApplyEvent::Found(vm(VmState::Creating, None, None)));
    assert_poll(&step, ApplyPhase::AwaitingReady, "web-0a1b2c");
    let step = run_of(step).step(ApplyEvent::Found(vm(VmState::Running, Some("192.0.2.1"), None)));
    // exactly one more fetch, without a wait
    let run = match step {
        ApplyStep::Continue(run, ApplyAction::GetVm { project_id, region, name }) => {
            assert_eq!(run.phase, ApplyPhase::FinalRead);
            assert_eq!(project_id, "pj1");
            assert_eq!(region, "hetzner-fsn1");
            assert_eq!(name, "web-0a1b2c");
            run
        }
        other => panic!("unexpected step: {:?}", other),
    };
    let last = vm(VmState::Running, Some("203.0.113.9"), Some("2001:db8::9"));
    match run.step(ApplyEvent::Found(last)) {
        ApplyStep::Finish(ApplyOutcome::Created(state)) => {
            // the addresses are those of the last fetch, not of the one before
            assert_eq!(state.public_ipv4.as_deref(), Some("203.0.113.9"));
            assert_eq!(state.public_ipv6.as_deref(), Some("2001:db8::9"));
            assert_eq!(state.vm_name, "web-0a1b2c");
            assert_eq!(state.config, config());
        }
        other => panic!("unexpected step: {:?}", other),
    }
}

#[test]
fn a_created_machine_may_have_no_address() {
    let step = run_of(begin_create()).step(ApplyEvent::Completed);
    let step = run_of(step).step(ApplyEvent::Found(vm(VmState::Running, None, None)));
    match run_of(step).step(ApplyEvent::Found(vm(VmState::Running, None, None))) {
        ApplyStep::Finish(ApplyOutcome::Created(state)) => {
            assert_eq!(state.public_ipv4, None);
            assert_eq!(state.public_ipv6, None);
        }
        other => panic!("unexpected step: {:?}", other),
    }
}

#[test]
fn a_create_polls_on_while_the_machine_is_not_running() {
    let step = run_of(begin_create()).step(ApplyEvent::Completed);
    let step = run_of(step).step(ApplyEvent::Found(vm(VmState::Deleting, None, None)));
    assert_poll(&step, ApplyPhase::AwaitingReady, "web-0a1b2c");
    let step = run_of(step).step(ApplyEvent::Failed);
    assert_poll(&step, ApplyPhase::AwaitingReady, "web-0a1b2c");
    let step = run_of(step).step(ApplyEvent::Completed);
    assert_poll(&step, ApplyPhase::AwaitingReady, "web-0a1b2c");
}

#[test]
fn a_create_fails_when_the_machine_is_missing() {
    let step = run_of(begin_create()).step(ApplyEvent::Completed);
    let step = run_of(step).step(ApplyEvent::Found(vm(VmState::Creating, None, None)));
    assert_failed(run_of(step).step(ApplyEvent::NotFound), ProviderError::GetVm);
}

#[test]
fn a_create_fails_when_the_call_fails() {
    assert_failed(run_of(begin_create()).step(ApplyEvent::Failed), ProviderError::CreateVm);
}

#[test]
fn a_create_fails_when_the_last_fetch_finds_nothing() {
    let ready = || {
        let step = run_of(begin_create()).step(ApplyEvent::Completed);
        run_of(run_of(step).step(ApplyEvent::Found(vm(VmState::Running, None, None))))
    };
    assert_failed(ready().step(ApplyEvent::NotFound), ProviderError::GetVm);
    assert_failed(ready().step(ApplyEvent::Failed), ProviderError::GetVm);
    assert_failed(ready().step(ApplyEvent::Completed), ProviderError::GetVm);
}

#[test]
fn the_last_fetch_counts_whatever_state_it_reports() {
    let step = run_of(begin_create()).step(ApplyEvent::Completed);
    let step = run_of(step).step(ApplyEvent::Found(vm(VmState::Running, None, None)));
    match run_of(step).step(ApplyEvent::Found(vm(VmState::Deleting, Some("192.0.2.5"), None))) {
        ApplyStep::Finish(ApplyOutcome::Created(state)) => {
            assert_eq!(state.public_ipv4.as_deref(), Some("192.0.2.5"));
        }
        other => panic!("unexpected step: {:?}", other),
    }
}

#[test]
fn a_create_without_a_planned_state_fails() {
    let state = decide(None, Some(config()));
    assert_failed(begin_apply(state, None), ProviderError::PlannedStateMissing);
    let nothing = decide(None, None);
    assert_failed(begin_apply(nothing, None), ProviderError::PlannedStateMissing);
}

#[test]
fn unchanged_records_are_applied_as_a_create() {
    let state = decide(Some(prior()), Some(config()));
    match begin_apply_with_suffix(state, Some(prior()), "9".to_string()) {
        ApplyStep::Continue(run, ApplyAction::CreateVm { input, .. }) => {
            assert_eq!(run.phase, ApplyPhase::Creating);
            assert_eq!(input.name, "web-9");
        }
        other => panic!("unexpected step: {:?}", other),
    }
}

#[test]
fn an_applied_state_holds_no_unknown_value() {
    let provider = UbicloudProvider::new();
    let plan = provider
        .plan_resource_change(decide(None, Some(config())))
        .unwrap()
        .planned_state;
    assert_eq!(plan.vm_name, UNKNOWN_STRING);
    let state = decide(None, Some(config()));
    let step = provider.apply_resource_change(state, Some(plan));
    let name = match &step {
        ApplyStep::Continue(run, _) => run.vm_name.clone(),
        other => panic!("unexpected step: {:?}", other),
    };
    let found = || Vm { name: name.clone(), ..vm(VmState::Running, Some("203.0.113.9"), None) };
    let step = run_of(step).step(ApplyEvent::Completed);
    let step = run_of(step).step(ApplyEvent::Found(found()));
    match run_of(step).step(ApplyEvent::Found(found())) {
        ApplyStep::Finish(ApplyOutcome::Created(state)) => {
            let fields = [
                Some(state.config.region.as_str()),
                Some(state.config.project_id.as_str()),
                Some(state.config.name.as_str()),
                Some(state.config.size.as_str()),
                Some(state.config.image.as_str()),
                Some(state.config.user.as_str()),
                Some(state.config.public_key.as_str()),
                Some(state.vm_name.as_str()),
                state.public_ipv4.as_deref(),
                state.public_ipv6.as_deref(),
            ];
            assert!(fields.iter().all(|field| *field != Some(UNKNOWN_STRING)));
            assert_eq!(state.vm_name, name);
        }
        other => panic!("unexpected step: {:?}", other),
    }
}
