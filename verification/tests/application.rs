use remote_agent::application::Application;
use remote_agent::application::Event;
use remote_agent::application::Fault;
use remote_agent::application::Lifecycle;
use remote_agent::application::Outcome;
use remote_agent::application::Phase;
use remote_agent::application::Stage;

/// A worker that notes every call made on it and fails where it is told to.
struct Probe {
    name: &'static str,
    fails_in: Option<Phase>,
}

fn probe(name: &'static str) -> Probe {
    Probe { name, fails_in: None }
}

fn failing(name: &'static str, phase: Phase) -> Probe {
    Probe { name, fails_in: Some(phase) }
}

fn call(worker: &mut Probe, phase: Phase, log: &mut Vec<(&'static str, Phase)>) -> Outcome {
    log.push((worker.name, phase));
    if worker.fails_in == Some(phase) {
        Outcome::Failed
    } else {
        Outcome::Succeeded
    }
}

/// Drives the application until it idles for the `ticks`-th time or comes to
/// an end, and returns the stage it stopped in.
fn drive(
    app: &mut Application<(), Probe>,
    ticks: usize,
    log: &mut Vec<(&'static str, Phase)>,
    faults: &mut Vec<Fault>,
) -> Stage {
    let mut idled = 0;
    let mut event = match app.stage() {
        Stage::Assembling => Event::Start,
        _ => Event::Woke,
    };
    loop {
        let step = app.step(event);
        if let Some(fault) = step.fault {
            faults.push(fault);
        }
        match step.stage {
            Stage::Calling { worker, phase } => {
                let target = app.worker_mut(worker).unwrap();
                event = Event::Returned(call(target, phase, log));
            }
            Stage::Idling => {
                idled += 1;
                if idled == ticks {
                    return Stage::Idling;
                }
                event = Event::Woke;
            }
            other => return other,
        }
    }
}

fn three_workers(middle: Probe) -> Application<(), Probe> {
    let mut app = Application::new((), 100);
    assert_eq!(app.add_worker(probe("a")).ok(), Some(0));
    assert_eq!(app.add_worker(middle).ok(), Some(1));
    assert_eq!(app.add_worker(probe("c")).ok(), Some(2));
    app
}

fn one_tick() -> Vec<(&'static str, Phase)> {
    vec![
        ("a", Phase::ProcessEvents),
        ("a", Phase::DoWork),
        ("b", Phase::ProcessEvents),
        ("b", Phase::DoWork),
        ("c", Phase::ProcessEvents),
        ("c", Phase::DoWork),
    ]
}

#[test]
fn workers_are_initialized_in_registration_order_before_the_first_tick() {
    let mut app = three_workers(probe("b"));
    let mut log = Vec::new();
    let mut faults = Vec::new();
    assert_eq!(drive(&mut app, 1, &mut log, &mut faults), Stage::Idling);
    let mut expected = vec![
        ("a", Phase::Initialize),
        ("b", Phase::Initialize),
        ("c", Phase::Initialize),
    ];
    expected.extend(one_tick());
    assert_eq!(log, expected);
    assert!(faults.is_empty());
}

#[test]
fn every_tick_calls_the_workers_in_the_same_order() {
    let mut app = three_workers(probe("b"));
    let mut log = Vec::new();
    let mut faults = Vec::new();
    assert_eq!(drive(&mut app, 100, &mut log, &mut faults), Stage::Idling);
    assert_eq!(log.len(), 3 + 100 * 6);
    let ticks = &log[3..];
    for tick in ticks.chunks(6) {
        assert_eq!(tick, one_tick().as_slice());
    }
    assert!(faults.is_empty());
}

#[test]
fn failing_worker_does_not_hold_up_the_others() {
    let mut app = three_workers(failing("b", Phase::DoWork));
    let mut log = Vec::new();
    let mut faults = Vec::new();
    assert_eq!(drive(&mut app, 5, &mut log, &mut faults), Stage::Idling);
    let ticks = &log[3..];
    assert_eq!(ticks.len(), 5 * 6);
    for tick in ticks.chunks(6) {
        assert_eq!(tick, one_tick().as_slice());
    }
    assert_eq!(faults, vec![Fault { worker: 1, phase: Phase::DoWork }; 5]);
    let a_worked = log.iter().filter(|entry| **entry == ("a", Phase::DoWork)).count();
    let c_worked = log.iter().filter(|entry| **entry == ("c", Phase::DoWork)).count();
    assert_eq!((a_worked, c_worked), (5, 5));
}

#[test]
fn failure_to_initialize_abandons_the_start() {
    let mut app = three_workers(failing("b", Phase::Initialize));
    let mut log = Vec::new();
    let mut faults = Vec::new();
    assert_eq!(drive(&mut app, 3, &mut log, &mut faults), Stage::Aborted { worker: 1 });
    assert_eq!(log, vec![("a", Phase::Initialize), ("b", Phase::Initialize)]);
    assert_eq!(faults, vec![Fault { worker: 1, phase: Phase::Initialize }]);
    assert_eq!(app.stage(), Stage::Aborted { worker: 1 });
    assert_eq!(app.lifecycle(0), Some(Lifecycle::Initialized));
    assert_eq!(app.lifecycle(1), Some(Lifecycle::Uninitialized));
    assert_eq!(app.lifecycle(2), Some(Lifecycle::Uninitialized));
    let step = app.step(Event::Returned(Outcome::Succeeded));
    assert_eq!(step.stage, Stage::Aborted { worker: 1 });
    assert_eq!(step.fault, None);
    assert_eq!(app.step(Event::Woke).stage, Stage::Aborted { worker: 1 });
    assert_eq!(app.step(Event::Start).stage, Stage::Aborted { worker: 1 });
}

#[test]
fn stop_deinitializes_every_worker_whatever_the_others_return() {
    let mut app = three_workers(failing("b", Phase::Deinitialize));
    let mut log = Vec::new();
    let mut faults = Vec::new();
    assert_eq!(drive(&mut app, 2, &mut log, &mut faults), Stage::Idling);
    app.request_stop();
    log.clear();
    assert_eq!(drive(&mut app, 1, &mut log, &mut faults), Stage::Finished);
    assert_eq!(
        log,
        vec![
            ("a", Phase::Deinitialize),
            ("b", Phase::Deinitialize),
            ("c", Phase::Deinitialize),
        ]
    );
    assert_eq!(faults, vec![Fault { worker: 1, phase: Phase::Deinitialize }]);
    assert_eq!(app.lifecycle(0), Some(Lifecycle::Deinitialized));
    assert_eq!(app.lifecycle(2), Some(Lifecycle::Deinitialized));
    assert_eq!(app.step(Event::Woke).stage, Stage::Finished);
}

#[test]
fn stop_during_a_tick_lets_the_tick_finish() {
    let mut app = three_workers(probe("b"));
    assert_eq!(app.step(Event::Start).stage, Stage::Calling { worker: 0, phase: Phase::Initialize });
    for _ in 0..3 {
        app.step(Event::Returned(Outcome::Succeeded));
    }
    assert_eq!(app.stage(), Stage::Calling { worker: 0, phase: Phase::ProcessEvents });
    app.request_stop();
    let mut seen = Vec::new();
    loop {
        let step = app.step(Event::Returned(Outcome::Succeeded));
        match step.stage {
            Stage::Calling { worker, phase } => seen.push((worker, phase)),
            other => {
                assert_eq!(other, Stage::Finished);
                break;
            }
        }
    }
    assert_eq!(
        seen,
        vec![
            (0, Phase::DoWork),
            (1, Phase::ProcessEvents),
            (1, Phase::DoWork),
            (2, Phase::ProcessEvents),
            (2, Phase::DoWork),
            (0, Phase::Deinitialize),
            (1, Phase::Deinitialize),
            (2, Phase::Deinitialize),
        ]
    );
}

#[test]
fn application_without_workers_idles_and_finishes() {
    let mut app: Application<(), Probe> = Application::new((), 250);
    assert_eq!(app.worker_count(), 0);
    assert_eq!(app.step(Event::Start).stage, Stage::Idling);
    assert_eq!(app.step(Event::Woke).stage, Stage::Idling);
    assert_eq!(app.step(Event::Woke).stage, Stage::Idling);
    app.request_stop();
    assert_eq!(app.step(Event::Woke).stage, Stage::Finished);
    assert_eq!(app.lifecycle(0), None);
}

#[test]
fn single_worker_runs_through_its_whole_life() {
    let mut app = Application::new((), 100);
    assert_eq!(app.add_worker(probe("only")).ok(), Some(0));
    assert_eq!(app.lifecycle(0), Some(Lifecycle::Uninitialized));
    assert_eq!(app.step(Event::Start).stage, Stage::Calling { worker: 0, phase: Phase::Initialize });
    assert_eq!(app.lifecycle(0), Some(Lifecycle::Uninitialized));
    let step = app.step(Event::Returned(Outcome::Succeeded));
    assert_eq!(step.stage, Stage::Calling { worker: 0, phase: Phase::ProcessEvents });
    assert_eq!(app.lifecycle(0), Some(Lifecycle::Running));
    let step = app.step(Event::Returned(Outcome::Failed));
    assert_eq!(step.fault, Some(Fault { worker: 0, phase: Phase::ProcessEvents }));
    assert_eq!(step.stage, Stage::Calling { worker: 0, phase: Phase::DoWork });
    assert_eq!(app.step(Event::Returned(Outcome::Succeeded)).stage, Stage::Idling);
    app.request_stop();
    assert_eq!(app.lifecycle(0), Some(Lifecycle::Running));
    assert_eq!(app.step(Event::Woke).stage, Stage::Calling { worker: 0, phase: Phase::Deinitialize });
    assert_eq!(app.lifecycle(0), Some(Lifecycle::Running));
    assert_eq!(app.step(Event::Returned(Outcome::Succeeded)).stage, Stage::Finished);
    assert_eq!(app.lifecycle(0), Some(Lifecycle::Deinitialized));
    assert_eq!(app.lifecycle(1), None);
}

#[test]
fn lifecycle_while_the_workers_are_started_one_by_one() {
    let mut app = three_workers(probe("b"));
    app.step(Event::Start);
    app.step(Event::Returned(Outcome::Succeeded));
    assert_eq!(app.stage(), Stage::Calling { worker: 1, phase: Phase::Initialize });
    assert_eq!(app.lifecycle(0), Some(Lifecycle::Initialized));
    assert_eq!(app.lifecycle(1), Some(Lifecycle::Uninitialized));
    assert_eq!(app.lifecycle(2), Some(Lifecycle::Uninitialized));
    assert_eq!(app.lifecycle(3), None);
}

#[test]
fn workers_cannot_be_added_once_started() {
    let mut app = Application::new((), 100);
    assert_eq!(app.add_worker(probe("a")).ok(), Some(0));
    app.step(Event::Start);
    let refused = app.add_worker(probe("late"));
    assert_eq!(refused.err().map(|worker| worker.name), Some("late"));
    assert_eq!(app.worker_count(), 1);
    assert_eq!(app.stage(), Stage::Calling { worker: 0, phase: Phase::Initialize });
}

#[test]
fn events_that_are_not_awaited_change_nothing() {
    let mut app = three_workers(probe("b"));
    let step = app.step(Event::Returned(Outcome::Failed));
    assert_eq!(step.stage, Stage::Assembling);
    assert_eq!(step.fault, None);
    assert_eq!(app.step(Event::Woke).stage, Stage::Assembling);
    app.step(Event::Start);
    let awaited = Stage::Calling { worker: 0, phase: Phase::Initialize };
    assert_eq!(app.step(Event::Start).stage, awaited);
    assert_eq!(app.step(Event::Woke).stage, awaited);
    let mut log = Vec::new();
    let mut faults = Vec::new();
    app.step(Event::Returned(Outcome::Succeeded));
    app.step(Event::Returned(Outcome::Succeeded));
    app.step(Event::Returned(Outcome::Succeeded));
    for _ in 0..6 {
        app.step(Event::Returned(Outcome::Succeeded));
    }
    assert_eq!(app.stage(), Stage::Idling);
    assert_eq!(app.step(Event::Returned(Outcome::Failed)).fault, None);
    assert_eq!(app.step(Event::Start).stage, Stage::Idling);
    assert_eq!(drive(&mut app, 1, &mut log, &mut faults), Stage::Idling);
    assert_eq!(log, one_tick());
}

#[test]
fn worker_is_reached_by_its_position_only() {
    let mut app = three_workers(probe("b"));
    assert_eq!(app.worker_mut(0).map(|worker| worker.name), Some("a"));
    assert_eq!(app.worker_mut(1).map(|worker| worker.name), Some("b"));
    assert_eq!(app.worker_mut(2).map(|worker| worker.name), Some("c"));
    assert!(app.worker_mut(3).is_none());
    app.worker_mut(1).unwrap().name = "renamed";
    assert_eq!(app.worker_mut(1).map(|worker| worker.name), Some("renamed"));
    assert_eq!(app.worker_mut(0).map(|worker| worker.name), Some("a"));
}

#[test]
fn wait_is_what_is_left_of_the_period() {
    let app: Application<(), Probe> = Application::new((), 100);
    assert_eq!(app.idle_ms(0), 100);
    assert_eq!(app.idle_ms(30), 70);
    assert_eq!(app.idle_ms(99), 1);
    assert_eq!(app.idle_ms(100), 0);
    assert_eq!(app.idle_ms(101), 0);
    assert_eq!(app.idle_ms(u64::MAX), 0);
    let slow: Application<(), Probe> = Application::new((), 500);
    assert_eq!(slow.idle_ms(120), 380);
    let eager: Application<(), Probe> = Application::new((), 0);
    assert_eq!(eager.idle_ms(0), 0);
}

#[test]
fn application_keeps_the_context_it_was_made_with() {
    let mut app: Application<String, Probe> = Application::new(String::from("store and logger"), 100);
    assert_eq!(app.ctx(), "store and logger");
    assert_eq!(app.add_worker(probe("a")).ok(), Some(0));
    app.step(Event::Start);
    app.request_stop();
    app.step(Event::Returned(Outcome::Failed));
    assert_eq!(app.ctx(), "store and logger");
}
