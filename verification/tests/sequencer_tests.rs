use hall_monitor::sequencer::{
    ActuatorEffect, ActuatorSequencer, Level, OutputChannel, PinCommand, SequencePhase, DWELL_MS,
};

fn high(index: usize, id: u8) -> PinCommand {
    PinCommand { index, id, level: Level::High }
}

fn low(index: usize, id: u8) -> PinCommand {
    PinCommand { index, id, level: Level::Low }
}

fn levels_of(sequencer: &ActuatorSequencer) -> Vec<Level> {
    let mut out = Vec::new();
    for index in 0..sequencer.len() {
        out.push(sequencer.channel(index).unwrap().level);
    }
    out
}

fn count_high(levels: &[Level]) -> usize {
    levels.iter().filter(|level| **level == Level::High).count()
}

#[test]
fn dwell_is_half_a_second() {
    assert_eq!(DWELL_MS, 500);
}

#[test]
fn no_channel_no_sequencer() {
    assert_eq!(ActuatorSequencer::new(Vec::new()), None);
}

#[test]
fn new_sequencer_is_idle_at_the_first_channel() {
    let sequencer = ActuatorSequencer::new(vec![4, 5, 6]).unwrap();
    assert_eq!(sequencer.len(), 3);
    assert_eq!(sequencer.cursor(), 0);
    assert_eq!(sequencer.phase(), SequencePhase::Idle);
    assert_eq!(levels_of(&sequencer), vec![Level::Low; 3]);
    assert_eq!(
        sequencer.channel(1),
        Some(OutputChannel { id: 5, level: Level::Low })
    );
    assert_eq!(sequencer.channel(3), None);
}

#[test]
fn step_raises_then_lowers_then_moves_on() {
    let mut sequencer = ActuatorSequencer::new(vec![4, 5]).unwrap();
    assert_eq!(sequencer.step(), high(0, 4));
    assert_eq!(sequencer.phase(), SequencePhase::Active);
    assert_eq!(sequencer.cursor(), 0);
    assert_eq!(levels_of(&sequencer), vec![Level::High, Level::Low]);
    assert_eq!(sequencer.step(), low(0, 4));
    assert_eq!(sequencer.phase(), SequencePhase::Idle);
    assert_eq!(sequencer.cursor(), 1);
    assert_eq!(levels_of(&sequencer), vec![Level::Low, Level::Low]);
    assert_eq!(sequencer.step(), high(1, 5));
    assert_eq!(levels_of(&sequencer), vec![Level::Low, Level::High]);
    assert_eq!(sequencer.step(), low(1, 5));
    assert_eq!(sequencer.cursor(), 0);
    assert_eq!(sequencer.phase(), SequencePhase::Idle);
}

#[test]
fn single_channel_blinks() {
    let mut sequencer = ActuatorSequencer::new(vec![8]).unwrap();
    for _ in 0..5 {
        assert_eq!(sequencer.step(), high(0, 8));
        assert_eq!(sequencer.cursor(), 0);
        assert_eq!(levels_of(&sequencer), vec![Level::High]);
        assert_eq!(sequencer.step(), low(0, 8));
        assert_eq!(sequencer.cursor(), 0);
        assert_eq!(levels_of(&sequencer), vec![Level::Low]);
    }
}

#[test]
fn traversal_follows_registration_order() {
    let mut sequencer = ActuatorSequencer::new(vec![9, 2, 5]).unwrap();
    let issued = sequencer.traverse();
    assert_eq!(
        issued,
        vec![
            high(0, 9),
            low(0, 9),
            high(1, 2),
            low(1, 2),
            high(2, 5),
            low(2, 5),
        ]
    );
}

#[test]
fn traversal_drives_each_channel_once() {
    let ids = vec![3u8, 1, 4, 1, 5];
    let mut sequencer = ActuatorSequencer::new(ids.clone()).unwrap();
    let issued = sequencer.traverse();
    assert_eq!(issued.len(), 2 * ids.len());
    for index in 0..ids.len() {
        let raised = issued
            .iter()
            .filter(|command| command.index == index && command.level == Level::High)
            .count();
        let lowered = issued
            .iter()
            .filter(|command| command.index == index && command.level == Level::Low)
            .count();
        assert_eq!(raised, 1);
        assert_eq!(lowered, 1);
        assert_eq!(issued[2 * index], high(index, ids[index]));
        assert_eq!(issued[2 * index + 1], low(index, ids[index]));
    }
}

#[test]
fn at_most_one_channel_is_high() {
    let mut sequencer = ActuatorSequencer::new(vec![10, 11, 12, 13]).unwrap();
    let mut pins = vec![Level::Low; 4];
    for turn in 0..20 {
        let command = sequencer.step();
        pins[command.index] = command.level;
        assert!(count_high(&pins) <= 1);
        assert_eq!(count_high(&pins), if turn % 2 == 0 { 1 } else { 0 });
        assert_eq!(levels_of(&sequencer), pins);
    }
}

#[test]
fn traversal_returns_to_where_it_began() {
    for count in 1..6u8 {
        let ids: Vec<u8> = (0..count).collect();
        let mut sequencer = ActuatorSequencer::new(ids).unwrap();
        let before = sequencer.clone();
        sequencer.traverse();
        assert_eq!(sequencer.cursor(), 0);
        assert_eq!(sequencer, before);
    }
}

#[test]
fn traversal_returns_from_the_middle() {
    let mut sequencer = ActuatorSequencer::new(vec![7, 8, 9]).unwrap();
    sequencer.run(3);
    assert_eq!(sequencer.cursor(), 1);
    assert_eq!(sequencer.phase(), SequencePhase::Active);
    let before = sequencer.clone();
    let issued = sequencer.traverse();
    assert_eq!(sequencer, before);
    assert_eq!(
        issued,
        vec![
            low(1, 8),
            high(2, 9),
            low(2, 9),
            high(0, 7),
            low(0, 7),
            high(1, 8),
        ]
    );
}

#[test]
fn run_is_step_after_step() {
    let mut stepped = ActuatorSequencer::new(vec![1, 2, 3]).unwrap();
    let mut ran = stepped.clone();
    let mut expected = Vec::new();
    for _ in 0..11 {
        expected.push(stepped.step());
    }
    assert_eq!(ran.run(11), expected);
    assert_eq!(ran, stepped);
    assert_eq!(ran.cursor(), 2);
    assert_eq!(ran.phase(), SequencePhase::Active);
}

#[test]
fn run_of_no_turns_changes_nothing() {
    let mut sequencer = ActuatorSequencer::new(vec![1, 2]).unwrap();
    let before = sequencer.clone();
    assert_eq!(sequencer.run(0), Vec::new());
    assert_eq!(sequencer, before);
}

#[test]
fn sequencer_turn_drives_then_dwells() {
    let mut sequencer = ActuatorSequencer::new(vec![6, 7]).unwrap();
    let mut log = vec![ActuatorEffect::Suspend(1)];
    sequencer.run_turn(&mut log);
    sequencer.run_turn(&mut log);
    sequencer.run_turn(&mut log);
    assert_eq!(
        log,
        vec![
            ActuatorEffect::Suspend(1),
            ActuatorEffect::Drive(high(0, 6)),
            ActuatorEffect::Suspend(500),
            ActuatorEffect::Drive(low(0, 6)),
            ActuatorEffect::Suspend(500),
            ActuatorEffect::Drive(high(1, 7)),
            ActuatorEffect::Suspend(500),
        ]
    );
}

#[test]
fn traversal_takes_two_dwells_per_channel() {
    let mut sequencer = ActuatorSequencer::new(vec![1, 2, 3]).unwrap();
    let mut log = Vec::new();
    for _ in 0..6 {
        sequencer.run_turn(&mut log);
    }
    let dwells = log
        .iter()
        .filter(|effect| **effect == ActuatorEffect::Suspend(DWELL_MS))
        .count();
    assert_eq!(dwells, 6);
    assert_eq!(sequencer.cursor(), 0);
    assert_eq!(sequencer.phase(), SequencePhase::Idle);
}
