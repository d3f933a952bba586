//! What holds of every traversal of the channels.

use crate::sequencer::{
    at_most_one_high, commands, levels, next_state, replay, state_after, valid, Level,
    PinCommand, SequencePhase, SequencerView,
};
use vstd::prelude::*;

verus! {

/// The place that lies `offset` channels after `start`, counted round the
/// ring of `count` channels.
pub open spec fn place_after(start: nat, offset: nat, count: nat) -> nat {
    (start + offset) % count
}

/// Within two rounds of the ring, wrapping is one subtraction at most.
pub proof fn lemma_wrap_once(x: int, count: int)
    requires
        0 <= x < 2 * count,
    ensures
        x % count == (if x < count {
            x
        } else {
            x - count
        }),
{
    if x < count {
        vstd::arithmetic::div_mod::lemma_small_mod(x as nat, count as nat);
    } else {
        vstd::arithmetic::div_mod::lemma_fundamental_div_mod_converse(x, count, 1, x - count);
    }
}

/// Moving on by one from a place, past the last place back to the first,
/// reaches the place that lies one channel further from the start.
pub proof fn lemma_place_after_next(start: nat, offset: nat, count: nat)
    requires
        count > 0,
    ensures
        place_after(start, offset, count) < count,
        place_after(start, offset + 1, count) == (if place_after(start, offset, count) + 1
            < count {
            place_after(start, offset, count) + 1
        } else {
            0
        }),
{
    vstd::arithmetic::div_mod::lemma_add_mod_noop((start + offset) as int, 1, count as int);
    lemma_wrap_once((place_after(start, offset, count) + 1) as int, count as int);
    if count > 1 {
        vstd::arithmetic::div_mod::lemma_small_mod(1, count);
    }
}

/// Steps keep a sound state sound, and change neither the pins nor their
/// order.
pub proof fn lemma_state_after_valid(state: SequencerView, turns: nat)
    requires
        valid(state),
    ensures
        valid(state_after(state, turns)),
        state_after(state, turns).ids == state.ids,
    decreases turns,
{
    if turns > 0 {
        lemma_state_after_valid(state, (turns - 1) as nat);
    }
}

/// Where the sequencer stands after any number of steps from an idle
/// state: two steps are spent on each channel, the first of which raises
/// it.
pub proof fn lemma_state_after_idle(state: SequencerView, rounds: nat)
    requires
        valid(state),
        state.phase is Idle,
    ensures
        state_after(state, 2 * rounds) == (SequencerView {
            ids: state.ids,
            cursor: place_after(state.cursor, rounds, state.ids.len()),
            phase: SequencePhase::Idle,
        }),
        state_after(state, 2 * rounds + 1) == (SequencerView {
            ids: state.ids,
            cursor: place_after(state.cursor, rounds, state.ids.len()),
            phase: SequencePhase::Active,
        }),
    decreases rounds,
{
    let count = state.ids.len();
    if rounds == 0 {
        vstd::arithmetic::div_mod::lemma_small_mod(state.cursor, count);
    } else {
        lemma_state_after_idle(state, (rounds - 1) as nat);
        lemma_place_after_next(state.cursor, (rounds - 1) as nat, count);
    }
}

/// Stepping first and then `turns` times is stepping `turns` times and then
/// once more.
pub proof fn lemma_state_after_shift(state: SequencerView, turns: nat)
    ensures
        state_after(next_state(state), turns) == next_state(state_after(state, turns)),
    decreases turns,
{
    if turns > 0 {
        lemma_state_after_shift(state, (turns - 1) as nat);
    }
}

/// A full traversal, two steps for each channel, brings the sequencer back
/// to the state it started from: the cursor returns to its starting place,
/// the phase to what it was.
pub proof fn lemma_traversal_returns(state: SequencerView)
    requires
        valid(state),
    ensures
        state_after(state, 2 * state.ids.len()) == state,
{
    let count = state.ids.len();
    let idle = SequencerView { phase: SequencePhase::Idle, ..state };
    lemma_state_after_idle(idle, count);
    vstd::arithmetic::div_mod::lemma_mod_add_multiples_vanish(
        state.cursor as int,
        count as int,
    );
    vstd::arithmetic::div_mod::lemma_small_mod(state.cursor, count);
    if state.phase is Active {
        lemma_state_after_shift(idle, 2 * count);
    }
}

/// A traversal from an idle state takes the channels in registration
/// order, starting under the cursor and going round: of its two steps for
/// the channel `offset` places on, the first raises that channel and the
/// second lowers it.
pub proof fn lemma_traversal_order(state: SequencerView, offset: nat)
    requires
        valid(state),
        state.phase is Idle,
        offset < state.ids.len(),
    ensures
        ({
            let place = place_after(state.cursor, offset, state.ids.len());
            let traversal = commands(state, 2 * state.ids.len());
            &&& place < state.ids.len()
            &&& traversal[2 * offset as int] == (PinCommand {
                index: place as usize,
                id: state.ids[place as int],
                level: Level::High,
            })
            &&& traversal[2 * offset as int + 1] == (PinCommand {
                index: place as usize,
                id: state.ids[place as int],
                level: Level::Low,
            })
        }),
{
    lemma_state_after_idle(state, offset);
}

/// In a traversal from an idle state each channel is raised exactly once
/// and lowered exactly once: the two commands for the channel at `index`
/// stand next to each other, the raising one first, and no other command
/// of the traversal names that channel.
pub proof fn lemma_each_channel_once(state: SequencerView, index: nat)
    requires
        valid(state),
        state.phase is Idle,
        index < state.ids.len(),
    ensures
        ({
            let count = state.ids.len();
            let offset = place_after(index, (count - state.cursor) as nat, count) as int;
            let traversal = commands(state, 2 * count);
            &&& 0 <= offset < count
            &&& traversal[2 * offset].index == index
            &&& traversal[2 * offset].level is High
            &&& traversal[2 * offset + 1].index == index
            &&& traversal[2 * offset + 1].level is Low
            &&& forall|turn: int|
                0 <= turn < 2 * count && (#[trigger] traversal[turn]).index == index ==> turn == 2
                    * offset || turn == 2 * offset + 1
        }),
{
    let count = state.ids.len();
    let cursor = state.cursor;
    let offset = place_after(index, (count - cursor) as nat, count);
    let traversal = commands(state, 2 * count);
    lemma_wrap_once((index + count - cursor) as int, count as int);
    lemma_wrap_once((cursor + offset) as int, count as int);
    lemma_traversal_order(state, offset);
    assert forall|turn: int|
        0 <= turn < 2 * count && (#[trigger] traversal[turn]).index == index implies turn == 2
            * offset || turn == 2 * offset + 1 by {
        let other = (turn / 2) as nat;
        lemma_traversal_order(state, other);
        lemma_wrap_once((cursor + other) as int, count as int);
    }
}

/// The levels that cursor and phase call for never have two channels high.
pub proof fn lemma_one_high_at_most(state: SequencerView)
    ensures
        at_most_one_high(levels(state)),
{
}

/// The pins follow the model: carrying out the commands of any number of
/// steps on pins that stand as the state says leaves them as the state
/// after those steps says. So at every instant at most one channel is high.
pub proof fn lemma_pins_follow(state: SequencerView, turns: nat)
    requires
        valid(state),
    ensures
        replay(levels(state), commands(state, turns)) == levels(state_after(state, turns)),
        at_most_one_high(replay(levels(state), commands(state, turns))),
    decreases turns,
{
    if turns > 0 {
        let fewer = (turns - 1) as nat;
        lemma_pins_follow(state, fewer);
        lemma_state_after_valid(state, fewer);
        assert(commands(state, turns).drop_last() =~= commands(state, fewer));
    }
}

} // verus!
