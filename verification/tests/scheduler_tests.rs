use hall_monitor::adc::AdcResponse;
use hall_monitor::sampler::{Emission, SamplerEffect, SamplerPhase};
use hall_monitor::scheduler::{Record, Scheduler, TaskId};
use hall_monitor::sequencer::{ActuatorEffect, Level, PinCommand, SequencePhase};

fn script() -> Vec<AdcResponse> {
    vec![
        AdcResponse::NotReady,
        AdcResponse::NotReady,
        AdcResponse::Ready(1500),
        AdcResponse::Error,
        AdcResponse::NotReady,
        AdcResponse::Ready(1499),
    ]
}

fn turns(schedule: &[TaskId], task: TaskId) -> usize {
    schedule.iter().filter(|entry| **entry == task).count()
}

fn system() -> Scheduler {
    Scheduler::new(script(), vec![4, 5, 6]).unwrap()
}

fn schedules() -> Vec<Vec<TaskId>> {
    let a = TaskId::Sampler;
    let b = TaskId::Sequencer;
    vec![
        Vec::new(),
        vec![a],
        vec![b],
        vec![a, b, a, b, a, b, a, b],
        vec![b, b, b, b, b, b, b, a, a, a],
        vec![a, a, a, a, a, a, a, a, b],
        vec![b, a, a, b, b, b, a, b, a, a, a, b, b],
    ]
}

#[test]
fn no_pin_no_system() {
    assert_eq!(Scheduler::new(script(), Vec::new()), None);
}

#[test]
fn new_system_is_at_rest() {
    let scheduler = system();
    assert!(scheduler.timeline().is_empty());
    assert_eq!(scheduler.pending_responses(), 6);
    assert_eq!(scheduler.sampler().phase(), SamplerPhase::Start);
    assert_eq!(scheduler.sequencer().cursor(), 0);
    assert_eq!(scheduler.sequencer().phase(), SequencePhase::Idle);
    assert_eq!(scheduler.sequencer().len(), 3);
}

#[test]
fn timeline_keeps_the_order_of_turns() {
    let mut scheduler = Scheduler::new(vec![AdcResponse::Ready(20)], vec![4]).unwrap();
    scheduler.run_turn(TaskId::Sequencer);
    scheduler.run_turn(TaskId::Sampler);
    scheduler.run_turn(TaskId::Sequencer);
    assert_eq!(
        scheduler.timeline().clone(),
        vec![
            Record::Actuator(ActuatorEffect::Drive(PinCommand {
                index: 0,
                id: 4,
                level: Level::High
            })),
            Record::Actuator(ActuatorEffect::Suspend(500)),
            Record::Sampler(SamplerEffect::Attempt),
            Record::Sampler(SamplerEffect::Emit(Emission::Reading(20))),
            Record::Sampler(SamplerEffect::Suspend(1000)),
            Record::Actuator(ActuatorEffect::Drive(PinCommand {
                index: 0,
                id: 4,
                level: Level::Low
            })),
            Record::Actuator(ActuatorEffect::Suspend(500)),
        ]
    );
}

#[test]
fn sampler_is_the_same_alone_or_together() {
    for schedule in schedules() {
        let mut together = system();
        together.run(&schedule);
        let mut alone = system();
        alone.run(&vec![TaskId::Sampler; turns(&schedule, TaskId::Sampler)]);
        assert_eq!(together.sampler_log(), alone.sampler_log());
        assert_eq!(together.sampler().phase(), alone.sampler().phase());
        assert_eq!(together.pending_responses(), alone.pending_responses());
        assert!(alone.actuator_log().is_empty());
    }
}

#[test]
fn sequencer_is_the_same_alone_or_together() {
    for schedule in schedules() {
        let mut together = system();
        together.run(&schedule);
        let mut alone = system();
        alone.run(&vec![TaskId::Sequencer; turns(&schedule, TaskId::Sequencer)]);
        assert_eq!(together.actuator_log(), alone.actuator_log());
        assert_eq!(together.sequencer(), alone.sequencer());
        assert!(alone.sampler_log().is_empty());
    }
}

#[test]
fn logs_split_the_timeline() {
    for schedule in schedules() {
        let mut scheduler = system();
        scheduler.run(&schedule);
        let total = scheduler.sampler_log().len() + scheduler.actuator_log().len();
        assert_eq!(scheduler.timeline().len(), total);
    }
}

#[test]
fn run_is_turn_after_turn() {
    for schedule in schedules() {
        let mut ran = system();
        ran.run(&schedule);
        let mut stepped = system();
        for task in &schedule {
            stepped.run_turn(*task);
        }
        assert_eq!(ran, stepped);
    }
}

#[test]
fn sampler_log_under_interleaving() {
    let a = TaskId::Sampler;
    let b = TaskId::Sequencer;
    let mut scheduler = system();
    scheduler.run(&vec![b, a, b, a, a, b, a]);
    assert_eq!(
        scheduler.sampler_log(),
        vec![
            SamplerEffect::Attempt,
            SamplerEffect::Suspend(10),
            SamplerEffect::Attempt,
            SamplerEffect::Suspend(10),
            SamplerEffect::Attempt,
            SamplerEffect::Emit(Emission::Reading(1500)),
            SamplerEffect::Suspend(1000),
            SamplerEffect::Attempt,
            SamplerEffect::Emit(Emission::Failure),
            SamplerEffect::Suspend(1000),
        ]
    );
    assert_eq!(scheduler.pending_responses(), 2);
    assert_eq!(scheduler.sequencer().cursor(), 1);
    assert_eq!(scheduler.sequencer().phase(), SequencePhase::Active);
}

#[test]
fn stalled_sampler_does_not_hold_the_sequencer() {
    let mut scheduler = Scheduler::new(vec![AdcResponse::NotReady; 3], vec![1, 2]).unwrap();
    let mut schedule = Vec::new();
    for _ in 0..8 {
        schedule.push(TaskId::Sampler);
        schedule.push(TaskId::Sequencer);
    }
    scheduler.run(&schedule);
    assert_eq!(scheduler.sampler().phase(), SamplerPhase::Backoff);
    assert_eq!(scheduler.sampler_log().len(), 6);
    assert_eq!(scheduler.actuator_log().len(), 16);
    assert_eq!(scheduler.sequencer().cursor(), 0);
    assert_eq!(scheduler.sequencer().phase(), SequencePhase::Idle);
}

#[test]
fn sampler_turn_without_responses_changes_nothing() {
    let mut scheduler = Scheduler::new(Vec::new(), vec![1]).unwrap();
    let before = scheduler.clone();
    scheduler.run_turn(TaskId::Sampler);
    assert_eq!(scheduler, before);
}
