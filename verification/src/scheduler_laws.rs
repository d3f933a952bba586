//! The two tasks do not interfere: what each does is the same under every
//! schedule.

use crate::adc::AdcResponse;
use crate::sampler::{
    phase_after_response, script_effects, turn_effects, SamplerEffect, SamplerPhase,
};
use crate::scheduler::{
    actuator_part, actuator_records, alone, run_of, sampler_part, sampler_records, turn_of,
    turns_of, Record, SystemView, TaskId,
};
use crate::sequencer::{run_effects, state_after, ActuatorEffect};
use vstd::prelude::*;

verus! {

/// The sampler's part of two stretches of timeline, one after the other, is
/// its part of the first followed by its part of the second.
pub proof fn lemma_sampler_part_concat(first: Seq<Record>, second: Seq<Record>)
    ensures
        sampler_part(first + second) == sampler_part(first) + sampler_part(second),
    decreases second.len(),
{
    if second.len() > 0 {
        assert((first + second).drop_last() =~= first + second.drop_last());
        lemma_sampler_part_concat(first, second.drop_last());
    }
}

/// The sequencer's part of two stretches of timeline, one after the other,
/// is its part of the first followed by its part of the second.
pub proof fn lemma_actuator_part_concat(first: Seq<Record>, second: Seq<Record>)
    ensures
        actuator_part(first + second) == actuator_part(first) + actuator_part(second),
    decreases second.len(),
{
    if second.len() > 0 {
        assert((first + second).drop_last() =~= first + second.drop_last());
        lemma_actuator_part_concat(first, second.drop_last());
    }
}

/// Entries that came from the sampler are the sampler's part whole, and no
/// part of the sequencer's.
pub proof fn lemma_parts_of_sampler_records(effects: Seq<SamplerEffect>)
    ensures
        sampler_part(sampler_records(effects)) == effects,
        actuator_part(sampler_records(effects)) == Seq::<ActuatorEffect>::empty(),
    decreases effects.len(),
{
    if effects.len() > 0 {
        lemma_parts_of_sampler_records(effects.drop_last());
        assert(sampler_records(effects).drop_last() =~= sampler_records(effects.drop_last()));
    }
}

/// Entries that came from the sequencer are the sequencer's part whole, and
/// no part of the sampler's.
pub proof fn lemma_parts_of_actuator_records(effects: Seq<ActuatorEffect>)
    ensures
        actuator_part(actuator_records(effects)) == effects,
        sampler_part(actuator_records(effects)) == Seq::<SamplerEffect>::empty(),
    decreases effects.len(),
{
    if effects.len() > 0 {
        lemma_parts_of_actuator_records(effects.drop_last());
        assert(actuator_records(effects).drop_last() =~= actuator_records(effects.drop_last()));
    }
}

/// How many responses the sampler consumes when it is given `turns` turns:
/// one for each turn, until none is left.
pub open spec fn consumed(pending: Seq<AdcResponse>, turns: nat) -> nat {
    if turns <= pending.len() {
        turns
    } else {
        pending.len()
    }
}

/// The phase of a sampler that was in `phase` and has since consumed the
/// first `used` of the pending responses.
pub open spec fn phase_after_turns(
    phase: SamplerPhase,
    pending: Seq<AdcResponse>,
    used: nat,
) -> SamplerPhase {
    if used == 0 {
        phase
    } else {
        phase_after_response(pending[used - 1])
    }
}

/// What a schedule comes to, task by task. The sampler has consumed one
/// response for each of its turns and has done what it does over those
/// responses; the sequencer has taken one step for each of its turns and
/// has done what those steps do. Neither result depends on the turns of
/// the other task, nor on the order of the turns.
pub proof fn lemma_run_task_by_task(system: SystemView, schedule: Seq<TaskId>)
    ensures
        ({
            let end = run_of(system, schedule);
            let used = consumed(system.pending, turns_of(schedule, TaskId::Sampler));
            let steps = turns_of(schedule, TaskId::Sequencer);
            &&& end.pending == system.pending.skip(used as int)
            &&& end.sampler == phase_after_turns(system.sampler, system.pending, used)
            &&& sampler_part(end.timeline) == sampler_part(system.timeline) + script_effects(
                system.pending.take(used as int),
            )
            &&& end.sequencer == state_after(system.sequencer, steps)
            &&& actuator_part(end.timeline) == actuator_part(system.timeline) + run_effects(
                system.sequencer,
                steps,
            )
        }),
    decreases schedule.len(),
{
    if schedule.len() > 0 {
        let earlier = schedule.drop_last();
        let before = run_of(system, earlier);
        lemma_run_task_by_task(system, earlier);
        match schedule.last() {
            TaskId::Sampler => {
                if before.pending.len() > 0 {
                    let used = consumed(system.pending, turns_of(schedule, TaskId::Sampler));
                    let added = sampler_records(turn_effects(before.pending[0]));
                    lemma_sampler_part_concat(before.timeline, added);
                    lemma_actuator_part_concat(before.timeline, added);
                    lemma_parts_of_sampler_records(turn_effects(before.pending[0]));
                    assert(system.pending.take(used as int).drop_last() =~= system.pending.take(
                        used - 1,
                    ));
                }
            },
            TaskId::Sequencer => {
                let added = actuator_records(run_effects(before.sequencer, 1));
                lemma_sampler_part_concat(before.timeline, added);
                lemma_actuator_part_concat(before.timeline, added);
                lemma_parts_of_actuator_records(run_effects(before.sequencer, 1));
            },
        }
    }
}

/// A schedule of one task alone gives that task all its turns and the
/// other none.
pub proof fn lemma_turns_alone(task: TaskId, turns: nat, counted: TaskId)
    ensures
        turns_of(alone(task, turns), counted) == (if counted == task {
            turns
        } else {
            0
        }),
    decreases turns,
{
    if turns > 0 {
        lemma_turns_alone(task, (turns - 1) as nat, counted);
        assert(alone(task, turns).drop_last() =~= alone(task, (turns - 1) as nat));
    }
}

/// The sampler is not interfered with: under any schedule it does, and it
/// ends up, as if it had run alone for the turns that the schedule gives
/// it.
pub proof fn lemma_sampler_alone_or_together(system: SystemView, schedule: Seq<TaskId>)
    ensures
        ({
            let together = run_of(system, schedule);
            let by_itself = run_of(
                system,
                alone(TaskId::Sampler, turns_of(schedule, TaskId::Sampler)),
            );
            &&& sampler_part(together.timeline) == sampler_part(by_itself.timeline)
            &&& together.sampler == by_itself.sampler
            &&& together.pending == by_itself.pending
        }),
{
    let turns = turns_of(schedule, TaskId::Sampler);
    lemma_run_task_by_task(system, schedule);
    lemma_run_task_by_task(system, alone(TaskId::Sampler, turns));
    lemma_turns_alone(TaskId::Sampler, turns, TaskId::Sampler);
}

/// The sequencer is not interfered with: under any schedule it does, and
/// it ends up, as if it had run alone for the turns that the schedule
/// gives it.
pub proof fn lemma_sequencer_alone_or_together(system: SystemView, schedule: Seq<TaskId>)
    ensures
        ({
            let together = run_of(system, schedule);
            let by_itself = run_of(
                system,
                alone(TaskId::Sequencer, turns_of(schedule, TaskId::Sequencer)),
            );
            &&& actuator_part(together.timeline) == actuator_part(by_itself.timeline)
            &&& together.sequencer == by_itself.sequencer
        }),
{
    let turns = turns_of(schedule, TaskId::Sequencer);
    lemma_run_task_by_task(system, schedule);
    lemma_run_task_by_task(system, alone(TaskId::Sequencer, turns));
    lemma_turns_alone(TaskId::Sequencer, turns, TaskId::Sequencer);
}

/// A turn of one task leaves the other task's state and its part of the
/// timeline as they were.
pub proof fn lemma_turn_is_local(system: SystemView, task: TaskId)
    ensures
        task == TaskId::Sampler ==> turn_of(system, task).sequencer == system.sequencer
            && actuator_part(turn_of(system, task).timeline) == actuator_part(system.timeline),
        task == TaskId::Sequencer ==> turn_of(system, task).sampler == system.sampler
            && turn_of(system, task).pending == system.pending && sampler_part(
            turn_of(system, task).timeline,
        ) == sampler_part(system.timeline),
{
    match task {
        TaskId::Sampler => {
            if system.pending.len() > 0 {
                let added = sampler_records(turn_effects(system.pending[0]));
                lemma_actuator_part_concat(system.timeline, added);
                lemma_parts_of_sampler_records(turn_effects(system.pending[0]));
            }
        },
        TaskId::Sequencer => {
            let added = actuator_records(run_effects(system.sequencer, 1));
            lemma_sampler_part_concat(system.timeline, added);
            lemma_parts_of_actuator_records(run_effects(system.sequencer, 1));
        },
    }
}

} // verus!
