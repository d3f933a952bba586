//! The actuator sequencer: output channels switched on and off in turn,
//! round and round, one at a time.

use crate::sequencer_laws::lemma_traversal_returns;
use vstd::prelude::*;

verus! {

/// How long a channel stays in one state before the sequencer moves on, in
/// milliseconds.
pub const DWELL_MS: u64 = 500;

/// The logic level of an output pin.
#[derive(Clone, Copy, Debug, PartialEq, Eq, Structural)]
pub enum Level {
    Low,
    High,
}

/// Whether the channel under the cursor is being driven.
#[derive(Clone, Copy, Debug, PartialEq, Eq, Structural)]
pub enum SequencePhase {
    /// Every channel is low. The cursor names the channel to drive next.
    Idle,
    /// The channel under the cursor is high.
    Active,
}

/// One output channel as the sequencer keeps it: the pin it is bound to and
/// the level it was last driven to.
#[derive(Clone, Copy, Debug, PartialEq, Eq, Structural)]
pub struct OutputChannel {
    pub id: u8,
    pub level: Level,
}

/// What the run loop is to do to one pin.
#[derive(Clone, Copy, Debug, PartialEq, Eq, Structural)]
pub struct PinCommand {
    /// The channel's place in registration order.
    pub index: usize,
    /// The pin the channel is bound to.
    pub id: u8,
    /// The level to set.
    pub level: Level,
}

/// The sequencer as a mathematical value: the pins in registration order,
/// the cursor and the phase. The levels follow from these.
pub struct SequencerView {
    pub ids: Seq<u8>,
    pub cursor: nat,
    pub phase: SequencePhase,
}

/// There is at least one channel, the cursor names one, and the channels
/// can be counted in a `usize`.
pub open spec fn valid(state: SequencerView) -> bool {
    state.cursor < state.ids.len() <= usize::MAX
}

/// The sequencer before its first step: nothing driven, the cursor on the
/// channel registered first.
pub open spec fn initial(ids: Seq<u8>) -> SequencerView {
    SequencerView { ids, cursor: 0, phase: SequencePhase::Idle }
}

/// The level of the channel at `index`: high only under the cursor, and
/// only while the sequencer is active.
pub open spec fn level_at(state: SequencerView, index: int) -> Level {
    if state.phase is Active && index == state.cursor {
        Level::High
    } else {
        Level::Low
    }
}

/// The levels of all channels, in registration order.
pub open spec fn levels(state: SequencerView) -> Seq<Level> {
    Seq::new(state.ids.len(), |index: int| level_at(state, index))
}

/// What the next step does to the pins: it raises the channel under the
/// cursor if nothing is driven, and lowers it if it is.
pub open spec fn command_of(state: SequencerView) -> PinCommand {
    PinCommand {
        index: state.cursor as usize,
        id: state.ids[state.cursor as int],
        level: match state.phase {
            SequencePhase::Idle => Level::High,
            SequencePhase::Active => Level::Low,
        },
    }
}

/// The state after the next step. Raising a channel leaves the cursor on
/// it; lowering it moves the cursor on by one, past the last channel back
/// to the first.
pub open spec fn next_state(state: SequencerView) -> SequencerView {
    match state.phase {
        SequencePhase::Idle => SequencerView { phase: SequencePhase::Active, ..state },
        SequencePhase::Active => SequencerView {
            ids: state.ids,
            cursor: if state.cursor + 1 < state.ids.len() {
                state.cursor + 1
            } else {
                0
            },
            phase: SequencePhase::Idle,
        },
    }
}

/// The state after `turns` steps.
pub open spec fn state_after(state: SequencerView, turns: nat) -> SequencerView
    decreases turns,
{
    if turns == 0 {
        state
    } else {
        next_state(state_after(state, (turns - 1) as nat))
    }
}

/// The commands of the next `turns` steps, in order.
pub open spec fn commands(state: SequencerView, turns: nat) -> Seq<PinCommand> {
    Seq::new(turns, |turn: int| command_of(state_after(state, turn as nat)))
}

/// The levels after a command has been carried out on the pins.
pub open spec fn apply_command(pins: Seq<Level>, command: PinCommand) -> Seq<Level> {
    if command.index < pins.len() {
        pins.update(command.index as int, command.level)
    } else {
        pins
    }
}

/// The levels after the commands have been carried out, one after the other.
pub open spec fn replay(pins: Seq<Level>, commands: Seq<PinCommand>) -> Seq<Level>
    decreases commands.len(),
{
    if commands.len() == 0 {
        pins
    } else {
        apply_command(replay(pins, commands.drop_last()), commands.last())
    }
}

/// At most one of the pins is high.
pub open spec fn at_most_one_high(pins: Seq<Level>) -> bool {
    forall|i: int, j: int|
        0 <= i < pins.len() && 0 <= j < pins.len() && pins[i] is High && pins[j] is High ==> i
            == j
}

/// One thing the sequencer does that the outside can see.
#[derive(Clone, Copy, Debug, PartialEq, Eq, Structural)]
pub enum ActuatorEffect {
    /// A pin is set to a level.
    Drive(PinCommand),
    /// A suspension of this many milliseconds.
    Suspend(u64),
}

/// What the sequencer does over its next `turns` steps: for each step the
/// command, then the dwell.
pub open spec fn run_effects(state: SequencerView, turns: nat) -> Seq<ActuatorEffect> {
    Seq::new(
        2 * turns,
        |k: int|
            if k % 2 == 0 {
                ActuatorEffect::Drive(command_of(state_after(state, (k / 2) as nat)))
            } else {
                ActuatorEffect::Suspend(DWELL_MS)
            },
    )
}

/// The phase that the level of the channel under the cursor stands for.
pub open spec fn phase_of(level: Level) -> SequencePhase {
    match level {
        Level::Low => SequencePhase::Idle,
        Level::High => SequencePhase::Active,
    }
}

/// The sequencer's state machine. It owns no pin: the run loop owns the
/// pins, performs each command and suspends for the dwell.
///
/// It keeps the channels with their levels, and the cursor. Every channel
/// but the one under the cursor is low, so at most one is high; the phase
/// is active while that one is high.
#[derive(Debug, PartialEq, Eq)]
pub struct ActuatorSequencer {
    channels: Vec<OutputChannel>,
    cursor: usize,
}

impl ActuatorSequencer {
    #[verifier::type_invariant]
    spec fn sound(&self) -> bool {
        &&& self.cursor < self.channels@.len()
        &&& forall|index: int|
            0 <= index < self.channels@.len() && index != self.cursor ==> (
            #[trigger] self.channels@[index]).level is Low
    }

    /// The sequencer as a mathematical value.
    pub closed spec fn view(&self) -> SequencerView {
        SequencerView {
            ids: self.channels@.map_values(|channel: OutputChannel| channel.id),
            cursor: self.cursor as nat,
            phase: phase_of(self.channels@[self.cursor as int].level),
        }
    }

    /// A sequencer over the pins `ids`, in this order, with every channel
    /// low and the cursor on the first. Without a pin there is nothing to
    /// drive, and no sequencer.
    pub fn new(ids: Vec<u8>) -> (sequencer: Option<ActuatorSequencer>)
        ensures
            ids@.len() == 0 ==> sequencer.is_none(),
            ids@.len() > 0 ==> sequencer.is_some() && sequencer.unwrap()@ == initial(ids@),
    {
        if ids.len() == 0 {
            return None;
        }
        let mut channels: Vec<OutputChannel> = Vec::new();
        let mut index: usize = 0;
        while index < ids.len()
            invariant
                index <= ids.len(),
                channels@.len() == index,
                forall|i: int|
                    0 <= i < index ==> channels@[i] == (OutputChannel {
                        id: ids@[i],
                        level: Level::Low,
                    }),
            decreases ids.len() - index,
        {
            channels.push(OutputChannel { id: ids[index], level: Level::Low });
            index = index + 1;
        }
        let sequencer = ActuatorSequencer { channels, cursor: 0 };
        assert(sequencer@.ids =~= ids@);
        Some(sequencer)
    }

    /// The number of channels: one at least.
    pub fn len(&self) -> (count: usize)
        ensures
            count == self@.ids.len(),
            valid(self@),
    {
        proof {
            use_type_invariant(self);
        }
        self.channels.len()
    }

    /// The cursor: the place of the channel that is high, or that is driven
    /// next if none is.
    pub fn cursor(&self) -> (cursor: usize)
        ensures
            cursor == self@.cursor,
            valid(self@),
    {
        proof {
            use_type_invariant(self);
            assert(self.channels@.len() == self.channels.len());
        }
        self.cursor
    }

    /// The phase.
    pub fn phase(&self) -> (phase: SequencePhase)
        ensures
            phase == self@.phase,
            valid(self@),
    {
        proof {
            use_type_invariant(self);
            assert(self.channels@.len() == self.channels.len());
        }
        match self.channels[self.cursor].level {
            Level::Low => SequencePhase::Idle,
            Level::High => SequencePhase::Active,
        }
    }

    /// The channel at `index`, with its pin and its present level.
    pub fn channel(&self, index: usize) -> (channel: Option<OutputChannel>)
        ensures
            valid(self@),
            index >= self@.ids.len() ==> channel.is_none(),
            index < self@.ids.len() ==> channel == Some(
                OutputChannel { id: self@.ids[index as int], level: level_at(self@, index as int) },
            ),
    {
        proof {
            use_type_invariant(self);
        }
        if index < self.channels.len() {
            Some(self.channels[index])
        } else {
            None
        }
    }

    /// One step: raises the channel under the cursor if nothing is driven;
    /// lowers it, and moves the cursor on, if it is. The command says what
    /// the run loop is to do to the pin before it suspends for `DWELL_MS`.
    pub fn step(&mut self) -> (command: PinCommand)
        ensures
            valid(old(self)@),
            final(self)@ == next_state(old(self)@),
            command == command_of(old(self)@),
    {
        proof {
            use_type_invariant(&*self);
            assert(self.channels@.len() == self.channels.len());
        }
        let index = self.cursor;
        let OutputChannel { id, level } = self.channels[index];
        match level {
            Level::Low => {
                self.channels[index] = OutputChannel { id, level: Level::High };
                assert(self@.ids =~= old(self)@.ids);
                PinCommand { index, id, level: Level::High }
            },
            Level::High => {
                self.channels[index] = OutputChannel { id, level: Level::Low };
                self.cursor = if index + 1 < self.channels.len() {
                    index + 1
                } else {
                    0
                };
                assert(self@.ids =~= old(self)@.ids);
                PinCommand { index, id, level: Level::Low }
            },
        }
    }

    /// One turn of the sequencer between two suspensions: one step, whose
    /// command and dwell are appended to `log`.
    pub fn run_turn(&mut self, log: &mut Vec<ActuatorEffect>)
        ensures
            valid(old(self)@),
            final(self)@ == next_state(old(self)@),
            final(log)@ == old(log)@ + run_effects(old(self)@, 1),
    {
        let command = self.step();
        log.push(ActuatorEffect::Drive(command));
        log.push(ActuatorEffect::Suspend(DWELL_MS));
    }

    /// Takes `turns` steps and returns their commands in order.
    pub fn run(&mut self, turns: usize) -> (issued: Vec<PinCommand>)
        ensures
            valid(old(self)@),
            final(self)@ == state_after(old(self)@, turns as nat),
            issued@ == commands(old(self)@, turns as nat),
    {
        let mut issued: Vec<PinCommand> = Vec::new();
        let mut taken: usize = 0;
        proof {
            use_type_invariant(&*self);
            assert(self.channels@.len() == self.channels.len());
        }
        while taken < turns
            invariant
                taken <= turns,
                self@ == state_after(old(self)@, taken as nat),
                issued@ == commands(old(self)@, taken as nat),
            decreases turns - taken,
        {
            let command = self.step();
            issued.push(command);
            taken = taken + 1;
        }
        issued
    }

    /// One full traversal: two steps for each channel. It returns the
    /// commands in order and leaves the sequencer as it found it.
    pub fn traverse(&mut self) -> (issued: Vec<PinCommand>)
        ensures
            valid(old(self)@),
            final(self)@ == old(self)@,
            issued@ == commands(old(self)@, 2 * old(self)@.ids.len()),
    {
        proof {
            use_type_invariant(&*self);
        }
        let count = self.channels.len();
        let mut issued: Vec<PinCommand> = Vec::new();
        let mut done: usize = 0;
        while done < count
            invariant
                done <= count,
                count == old(self)@.ids.len(),
                self@ == state_after(old(self)@, 2 * (done as nat)),
                issued@ == commands(old(self)@, 2 * (done as nat)),
            decreases count - done,
        {
            let first = self.step();
            issued.push(first);
            let second = self.step();
            issued.push(second);
            done = done + 1;
            assert(self@ == state_after(old(self)@, 2 * (done as nat))) by {
                assert(state_after(old(self)@, (2 * done - 1) as nat) == next_state(
                    state_after(old(self)@, (2 * done - 2) as nat),
                ));
            }
        }
        proof {
            lemma_traversal_returns(old(self)@);
        }
        issued
    }
}

impl Clone for ActuatorSequencer {
    /// A sequencer over the same pins, in the same state.
    fn clone(&self) -> (copy: ActuatorSequencer)
        ensures
            copy@ == self@,
    {
        proof {
            use_type_invariant(self);
        }
        let mut channels: Vec<OutputChannel> = Vec::new();
        let mut index: usize = 0;
        while index < self.channels.len()
            invariant
                index <= self.channels.len(),
                channels@ == self.channels@.take(index as int),
            decreases self.channels.len() - index,
        {
            channels.push(self.channels[index]);
            index = index + 1;
        }
        assert(channels@ =~= self.channels@);
        ActuatorSequencer { channels, cursor: self.cursor }
    }
}

} // verus!
