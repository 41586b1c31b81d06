use cloudflare_ddns::cloudflare::Cloudflare;
use cloudflare_ddns::config::{Config, Environment};
use cloudflare_ddns::cycle::{begin_update, update, CycleError, CycleOutcome, CycleStep};
use cloudflare_ddns::http::{HttpReply, Method};
use cloudflare_ddns::launch::launch;
use cloudflare_ddns::scheduler::{Scheduler, SchedulerAction, SchedulerEvent, SchedulerState};

fn config(secs: u64) -> Config {
    Config {
        cloudflare_api_token: String::from("t"),
        cloudflare_zone_id: String::from("z"),
        cloudflare_record_id: String::from("r"),
        update_interval_secs: secs,
    }
}

fn ended(outcome: CycleOutcome) -> SchedulerEvent {
    SchedulerEvent::CycleEnded { outcome }
}

fn failure() -> SchedulerEvent {
    ended(CycleOutcome::Failed { error: CycleError::ResolverUnavailable })
}

#[test]
fn first_cycle_runs_at_once() {
    for secs in [1, 300, u64::MAX] {
        let (scheduler, first) = Scheduler::start(&config(secs));
        assert_eq!(first, SchedulerAction::RunCycle);
        assert_eq!(scheduler.state, SchedulerState::Cycling);
        assert_eq!(scheduler.interval_secs, secs);
        assert_eq!(scheduler.cycles, 1);
        assert!(scheduler.is_running());
    }
}

#[test]
fn good_cycle_is_followed_by_the_interval() {
    let (scheduler, _) = Scheduler::start(&config(300));
    let (scheduler, action) = scheduler.step(&ended(CycleOutcome::NoChangeNeeded));
    assert_eq!(action, Some(SchedulerAction::Wait { secs: 300 }));
    assert_eq!(scheduler.state, SchedulerState::Waiting);
    let (scheduler, action) = scheduler.step(&SchedulerEvent::IntervalElapsed);
    assert_eq!(action, Some(SchedulerAction::RunCycle));
    assert_eq!(scheduler.state, SchedulerState::Cycling);
    assert_eq!(scheduler.cycles, 2);
    let updated = CycleOutcome::Updated { from: String::from("a"), to: String::from("b") };
    let (scheduler, action) = scheduler.step(&ended(updated));
    assert_eq!(action, Some(SchedulerAction::Wait { secs: 300 }));
    assert!(scheduler.is_running());
}

#[test]
fn one_failure_stops_the_scheduler_for_good() {
    let (scheduler, _) = Scheduler::start(&config(60));
    let (stopped, action) = scheduler.step(&failure());
    assert_eq!(action, Some(SchedulerAction::Exit));
    assert_eq!(stopped.state, SchedulerState::Stopped);
    assert!(!stopped.is_running());
    assert_eq!(stopped.cycles, 1);
    let mut scheduler = stopped;
    for event in [
        SchedulerEvent::IntervalElapsed,
        ended(CycleOutcome::NoChangeNeeded),
        SchedulerEvent::ShutdownRequested,
        SchedulerEvent::IntervalElapsed,
        failure(),
    ] {
        let (next, action) = scheduler.step(&event);
        assert_eq!(action, None);
        assert_eq!(next, stopped);
        scheduler = next;
    }
}

#[test]
fn every_kind_of_failure_stops_the_scheduler() {
    for error in [
        CycleError::CredentialInvalid,
        CycleError::ZoneInvalid,
        CycleError::RecordInvalid { listing: Ok(Vec::new()) },
        CycleError::ProviderReadFailed {
            error: cloudflare_ddns::cloudflare::ProviderError::MissingContent,
        },
        CycleError::ResolverUnavailable,
        CycleError::WriteFailed {
            error: cloudflare_ddns::cloudflare::ProviderError::WriteRejected { status: 500 },
        },
    ] {
        let (scheduler, _) = Scheduler::start(&config(60));
        let (stopped, action) = scheduler.step(&ended(CycleOutcome::Failed { error }));
        assert_eq!(action, Some(SchedulerAction::Exit));
        assert_eq!(stopped.state, SchedulerState::Stopped);
    }
}

#[test]
fn shutdown_while_waiting_stops_without_a_cycle() {
    let (scheduler, _) = Scheduler::start(&config(60));
    let (scheduler, _) = scheduler.step(&ended(CycleOutcome::NoChangeNeeded));
    let (scheduler, action) = scheduler.step(&SchedulerEvent::ShutdownRequested);
    assert_eq!(action, Some(SchedulerAction::Exit));
    assert_eq!(scheduler.state, SchedulerState::Stopped);
    assert_eq!(scheduler.cycles, 1);
    assert_eq!(scheduler.step(&SchedulerEvent::IntervalElapsed), (scheduler, None));
}

#[test]
fn events_out_of_turn_change_nothing() {
    let (cycling, _) = Scheduler::start(&config(60));
    assert_eq!(cycling.step(&SchedulerEvent::IntervalElapsed), (cycling, None));
    assert_eq!(cycling.step(&SchedulerEvent::ShutdownRequested), (cycling, None));
    let (waiting, _) = cycling.step(&ended(CycleOutcome::NoChangeNeeded));
    assert_eq!(waiting.step(&ended(CycleOutcome::NoChangeNeeded)), (waiting, None));
    assert_eq!(waiting.step(&failure()), (waiting, None));
}

#[test]
fn cycle_count_stays_at_its_limit() {
    let waiting =
        Scheduler { interval_secs: 1, state: SchedulerState::Waiting, cycles: u64::MAX - 1 };
    let (cycling, _) = waiting.step(&SchedulerEvent::IntervalElapsed);
    assert_eq!(cycling.cycles, u64::MAX);
    let (waiting, _) = cycling.step(&ended(CycleOutcome::NoChangeNeeded));
    let (cycling, action) = waiting.step(&SchedulerEvent::IntervalElapsed);
    assert_eq!(action, Some(SchedulerAction::RunCycle));
    assert_eq!(cycling.cycles, u64::MAX);
}

#[test]
fn end_to_end_update_then_wait() {
    let up = launch(Environment {
        cf_api_token: Some(String::from("secret")),
        cf_zone_id: Some(String::from("z1")),
        cf_record_id: Some(String::from("r9")),
        update_interval_secs: Some(String::from("300")),
    })
    .unwrap();
    assert_eq!(up.first, SchedulerAction::RunCycle);
    let cf: &Cloudflare = &up.cloudflare;
    let replies = [
        HttpReply::Response { status: 200, body: String::from(r#"{"success":true}"#) },
        HttpReply::Response { status: 200, body: String::from(r#"{"success":true}"#) },
        HttpReply::Response { status: 200, body: String::from(r#"{"result":{"content":"10.0.0.1"}}"#) },
        HttpReply::Response { status: 200, body: String::from(r#"{"result":{"content":"10.0.0.1"}}"#) },
        HttpReply::Response { status: 200, body: String::from("10.0.0.2") },
        HttpReply::Response { status: 200, body: String::from(r#"{"success":true}"#) },
    ];
    let mut written = Vec::new();
    let mut step = begin_update(cf);
    for reply in &replies {
        step = match step {
            CycleStep::Ask { state, request } => {
                if request.method == Method::Put {
                    written.push(request.body.unwrap().content);
                }
                update(cf, state, reply)
            }
            done => done,
        };
    }
    let outcome = match step {
        CycleStep::Done { outcome } => outcome,
        CycleStep::Ask { .. } => panic!("the cycle has not ended"),
    };
    assert_eq!(
        outcome,
        CycleOutcome::Updated { from: String::from("10.0.0.1"), to: String::from("10.0.0.2") }
    );
    assert_eq!(written, vec![String::from("10.0.0.2")]);
    let (scheduler, action) = up.scheduler.step(&SchedulerEvent::CycleEnded { outcome });
    assert_eq!(action, Some(SchedulerAction::Wait { secs: 300 }));
    assert_eq!(scheduler.state, SchedulerState::Waiting);
}
