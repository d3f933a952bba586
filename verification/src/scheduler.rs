//! A simulated cooperative scheduler: the two tasks take turns in any
//! order, each turn running one task from one suspension to the next.

use crate::adc::{AdcResponse, ScriptedAdc};
use crate::sampler::{
    phase_after_response, turn_effects, SamplerEffect, SamplerPhase, SensorSampler,
};
use crate::sequencer::{
    next_state, run_effects, ActuatorEffect, ActuatorSequencer, SequencerView,
};
use vstd::prelude::*;

verus! {

/// One of the two tasks.
#[derive(Clone, Copy, Debug, PartialEq, Eq, Structural)]
pub enum TaskId {
    Sampler,
    Sequencer,
}

/// One entry of the shared timeline: an effect and the task it came from.
#[derive(Clone, Copy, Debug, PartialEq, Eq, Structural)]
pub enum Record {
    Sampler(SamplerEffect),
    Actuator(ActuatorEffect),
}

/// The whole system as a mathematical value: each task's state, the
/// responses that the simulated converter still holds, and everything that
/// has happened so far, in the order in which it happened.
pub struct SystemView {
    pub sampler: SamplerPhase,
    pub pending: Seq<AdcResponse>,
    pub sequencer: SequencerView,
    pub timeline: Seq<Record>,
}

/// The sampler's effects as timeline entries.
pub open spec fn sampler_records(effects: Seq<SamplerEffect>) -> Seq<Record> {
    effects.map_values(|effect: SamplerEffect| Record::Sampler(effect))
}

/// The sequencer's effects as timeline entries.
pub open spec fn actuator_records(effects: Seq<ActuatorEffect>) -> Seq<Record> {
    effects.map_values(|effect: ActuatorEffect| Record::Actuator(effect))
}

/// The system after `task` has had one turn. A turn of the sampler consumes
/// one response, if any is left; a turn of the sequencer takes one step.
/// Neither touches what belongs to the other task.
pub open spec fn turn_of(system: SystemView, task: TaskId) -> SystemView {
    match task {
        TaskId::Sampler => if system.pending.len() == 0 {
            system
        } else {
            SystemView {
                sampler: phase_after_response(system.pending[0]),
                pending: system.pending.skip(1),
                sequencer: system.sequencer,
                timeline: system.timeline + sampler_records(turn_effects(system.pending[0])),
            }
        },
        TaskId::Sequencer => SystemView {
            sampler: system.sampler,
            pending: system.pending,
            sequencer: next_state(system.sequencer),
            timeline: system.timeline + actuator_records(run_effects(system.sequencer, 1)),
        },
    }
}

/// The system after the tasks have taken their turns as the schedule says.
pub open spec fn run_of(system: SystemView, schedule: Seq<TaskId>) -> SystemView
    decreases schedule.len(),
{
    if schedule.len() == 0 {
        system
    } else {
        turn_of(run_of(system, schedule.drop_last()), schedule.last())
    }
}

/// What the sampler did, picked out of the timeline.
pub open spec fn sampler_part(timeline: Seq<Record>) -> Seq<SamplerEffect>
    decreases timeline.len(),
{
    if timeline.len() == 0 {
        Seq::empty()
    } else {
        match timeline.last() {
            Record::Sampler(effect) => sampler_part(timeline.drop_last()).push(effect),
            Record::Actuator(_) => sampler_part(timeline.drop_last()),
        }
    }
}

/// What the sequencer did, picked out of the timeline.
pub open spec fn actuator_part(timeline: Seq<Record>) -> Seq<ActuatorEffect>
    decreases timeline.len(),
{
    if timeline.len() == 0 {
        Seq::empty()
    } else {
        match timeline.last() {
            Record::Sampler(_) => actuator_part(timeline.drop_last()),
            Record::Actuator(effect) => actuator_part(timeline.drop_last()).push(effect),
        }
    }
}

/// How many turns the schedule gives to `task`.
pub open spec fn turns_of(schedule: Seq<TaskId>, task: TaskId) -> nat
    decreases schedule.len(),
{
    if schedule.len() == 0 {
        0
    } else if schedule.last() == task {
        turns_of(schedule.drop_last(), task) + 1
    } else {
        turns_of(schedule.drop_last(), task)
    }
}

/// The schedule that gives `turns` turns to `task` and none to the other.
pub open spec fn alone(task: TaskId, turns: nat) -> Seq<TaskId> {
    Seq::new(turns, |i: int| task)
}

/// The simulated system: both tasks, the scripted converter that the
/// sampler polls, and the shared timeline.
#[derive(Clone, Debug, PartialEq, Eq)]
pub struct Scheduler {
    sampler: SensorSampler,
    adc: ScriptedAdc,
    sequencer: ActuatorSequencer,
    timeline: Vec<Record>,
}

impl Scheduler {
    /// The system as a mathematical value.
    pub closed spec fn view(&self) -> SystemView {
        SystemView {
            sampler: self.sampler@,
            pending: self.adc.pending(),
            sequencer: self.sequencer@,
            timeline: self.timeline@,
        }
    }

    /// A system at rest: a sampler at the start of its first cycle with a
    /// converter that will answer from `script`, a sequencer over the pins
    /// `ids` with nothing driven, and an empty timeline. Without a pin
    /// there is no sequencer, and no system.
    pub fn new(script: Vec<AdcResponse>, ids: Vec<u8>) -> (scheduler: Option<Scheduler>)
        ensures
            ids@.len() == 0 ==> scheduler.is_none(),
            ids@.len() > 0 ==> scheduler.is_some() && scheduler.unwrap()@ == (SystemView {
                sampler: SamplerPhase::Start,
                pending: script@,
                sequencer: crate::sequencer::initial(ids@),
                timeline: Seq::empty(),
            }),
    {
        match ActuatorSequencer::new(ids) {
            None => None,
            Some(sequencer) => Some(
                Scheduler {
                    sampler: SensorSampler::new(),
                    adc: ScriptedAdc::new(script),
                    sequencer,
                    timeline: Vec::new(),
                },
            ),
        }
    }

    /// Gives `task` one turn and records what it did.
    pub fn run_turn(&mut self, task: TaskId)
        ensures
            final(self)@ == turn_of(old(self)@, task),
    {
        match task {
            TaskId::Sampler => {
                let mut effects: Vec<SamplerEffect> = Vec::new();
                self.sampler.run_turn(&mut self.adc, &mut effects);
                record_sampler(&mut self.timeline, &effects);
            },
            TaskId::Sequencer => {
                let mut effects: Vec<ActuatorEffect> = Vec::new();
                self.sequencer.run_turn(&mut effects);
                record_actuator(&mut self.timeline, &effects);
            },
        }
    }

    /// Gives the tasks their turns in the order of the schedule.
    pub fn run(&mut self, schedule: &Vec<TaskId>)
        ensures
            final(self)@ == run_of(old(self)@, schedule@),
    {
        let mut taken: usize = 0;
        while taken < schedule.len()
            invariant
                taken <= schedule.len(),
                self@ == run_of(old(self)@, schedule@.take(taken as int)),
            decreases schedule.len() - taken,
        {
            self.run_turn(schedule[taken]);
            taken = taken + 1;
            assert(schedule@.take(taken as int).drop_last() =~= schedule@.take(taken - 1));
        }
        assert(schedule@.take(taken as int) =~= schedule@);
    }

    /// Everything that has happened so far, in order.
    pub fn timeline(&self) -> (timeline: &Vec<Record>)
        ensures
            timeline@ == self@.timeline,
    {
        &self.timeline
    }

    /// What the sampler has done so far, in order.
    pub fn sampler_log(&self) -> (log: Vec<SamplerEffect>)
        ensures
            log@ == sampler_part(self@.timeline),
    {
        let mut log: Vec<SamplerEffect> = Vec::new();
        let mut read: usize = 0;
        while read < self.timeline.len()
            invariant
                read <= self.timeline.len(),
                log@ == sampler_part(self.timeline@.take(read as int)),
            decreases self.timeline.len() - read,
        {
            if let Record::Sampler(effect) = self.timeline[read] {
                log.push(effect);
            }
            read = read + 1;
            assert(self.timeline@.take(read as int).drop_last() =~= self.timeline@.take(
                read - 1,
            ));
        }
        assert(self.timeline@.take(read as int) =~= self.timeline@);
        log
    }

    /// What the sequencer has done so far, in order.
    pub fn actuator_log(&self) -> (log: Vec<ActuatorEffect>)
        ensures
            log@ == actuator_part(self@.timeline),
    {
        let mut log: Vec<ActuatorEffect> = Vec::new();
        let mut read: usize = 0;
        while read < self.timeline.len()
            invariant
                read <= self.timeline.len(),
                log@ == actuator_part(self.timeline@.take(read as int)),
            decreases self.timeline.len() - read,
        {
            if let Record::Actuator(effect) = self.timeline[read] {
                log.push(effect);
            }
            read = read + 1;
            assert(self.timeline@.take(read as int).drop_last() =~= self.timeline@.take(
                read - 1,
            ));
        }
        assert(self.timeline@.take(read as int) =~= self.timeline@);
        log
    }

    /// The sampler as it stands.
    pub fn sampler(&self) -> (sampler: &SensorSampler)
        ensures
            sampler@ == self@.sampler,
    {
        &self.sampler
    }

    /// The sequencer as it stands.
    pub fn sequencer(&self) -> (sequencer: &ActuatorSequencer)
        ensures
            sequencer@ == self@.sequencer,
    {
        &self.sequencer
    }

    /// How many responses the simulated converter still holds.
    pub fn pending_responses(&self) -> (count: usize)
        ensures
            count == self@.pending.len(),
    {
        self.adc.remaining()
    }
}

/// Appends the sampler's effects to the timeline.
fn record_sampler(timeline: &mut Vec<Record>, effects: &Vec<SamplerEffect>)
    ensures
        final(timeline)@ == old(timeline)@ + sampler_records(effects@),
{
    let mut copied: usize = 0;
    while copied < effects.len()
        invariant
            copied <= effects.len(),
            timeline@ == old(timeline)@ + sampler_records(effects@.take(copied as int)),
        decreases effects.len() - copied,
    {
        timeline.push(Record::Sampler(effects[copied]));
        copied = copied + 1;
    }
}

/// Appends the sequencer's effects to the timeline.
fn record_actuator(timeline: &mut Vec<Record>, effects: &Vec<ActuatorEffect>)
    ensures
        final(timeline)@ == old(timeline)@ + actuator_records(effects@),
{
    let mut copied: usize = 0;
    while copied < effects.len()
        invariant
            copied <= effects.len(),
            timeline@ == old(timeline)@ + actuator_records(effects@.take(copied as int)),
        decreases effects.len() - copied,
    {
        timeline.push(Record::Actuator(effects[copied]));
        copied = copied + 1;
    }
}

} // verus!
