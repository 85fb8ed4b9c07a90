use key_recorder::{
    check_keyboard_status, delay_us, dispatch, synthesis_for, Chords, Command, Engine, EventKind,
    InputEvent, Playback, PlaybackStep, Synthesis, SETTLE_DELAY_MS,
};

fn press(key: u32, time_us: u64) -> InputEvent<u32> {
    InputEvent { kind: EventKind::KeyPress(key), time_us }
}

fn release(key: u32, time_us: u64) -> InputEvent<u32> {
    InputEvent { kind: EventKind::KeyRelease(key), time_us }
}

fn replay_all(p: &mut Playback<u32>) -> Vec<PlaybackStep<u32>> {
    let mut steps = Vec::new();
    loop {
        let s = p.step(false);
        steps.push(s);
        if s == PlaybackStep::Finished || s == PlaybackStep::Halted {
            return steps;
        }
    }
}

#[test]
fn new_engine_is_idle() {
    let e: Engine<u32> = Engine::new();
    assert!(!e.recording_active());
    assert!(e.stop_requested());
    assert!(e.events().is_empty());
}

#[test]
fn session_records_presses_in_order() {
    let mut e: Engine<u32> = Engine::new();
    assert!(e.start_listen());
    assert!(!e.stop_requested());
    e.callback(press(30, 1_000));
    e.callback(press(31, 1_250));
    e.callback(press(30, 2_000));
    assert!(!e.stop_listen());
    assert_eq!(e.events(), &vec![press(30, 1_000), press(31, 1_250), press(30, 2_000)]);
}

#[test]
fn releases_moves_and_other_events_are_not_recorded() {
    let mut e: Engine<u32> = Engine::new();
    e.start_listen();
    e.callback(press(1, 10));
    e.callback(release(1, 20));
    e.callback(InputEvent { kind: EventKind::PointerMove, time_us: 30 });
    e.callback(InputEvent { kind: EventKind::Other, time_us: 40 });
    e.callback(press(2, 50));
    e.stop_listen();
    assert_eq!(e.events(), &vec![press(1, 10), press(2, 50)]);
}

#[test]
fn events_are_dropped_when_not_recording() {
    let mut e: Engine<u32> = Engine::new();
    e.callback(press(1, 10));
    assert!(e.events().is_empty());
    e.start_listen();
    e.callback(press(2, 20));
    e.stop_listen();
    e.callback(press(3, 30));
    assert_eq!(e.events(), &vec![press(2, 20)]);
}

#[test]
fn record_event_appends_only_while_recording() {
    let mut e: Engine<u32> = Engine::new();
    e.record_event(release(1, 5));
    assert!(e.events().is_empty());
    e.start_listen();
    e.record_event(release(1, 6));
    assert_eq!(e.events(), &vec![release(1, 6)]);
}

#[test]
fn play_on_empty_recording_does_nothing() {
    let mut e: Engine<u32> = Engine::new();
    assert!(e.begin_playback().is_none());
    e.start_listen();
    e.stop_listen();
    assert!(e.begin_playback().is_none());
    assert!(Playback::<u32>::new(Vec::new()).is_none());
}

#[test]
fn stop_twice_keeps_recording_off() {
    let mut e: Engine<u32> = Engine::new();
    e.start_listen();
    e.callback(press(4, 100));
    assert!(!e.stop_listen());
    assert!(!e.recording_active());
    assert!(!e.stop_listen());
    assert!(!e.recording_active());
    assert!(e.stop_requested());
    assert_eq!(e.events(), &vec![press(4, 100)]);
}

#[test]
fn replay_reproduces_inter_event_delays() {
    let mut e: Engine<u32> = Engine::new();
    e.start_listen();
    e.callback(press(1, 1_000));
    e.callback(press(2, 1_500));
    e.callback(press(3, 1_500));
    e.callback(press(4, 4_000));
    e.stop_listen();
    let mut p = e.begin_playback().unwrap();
    let steps = replay_all(&mut p);
    assert_eq!(
        steps,
        vec![
            PlaybackStep::Play { delay_us: 0, action: Synthesis::Press(1) },
            PlaybackStep::Play { delay_us: 500, action: Synthesis::Press(2) },
            PlaybackStep::Play { delay_us: 0, action: Synthesis::Press(3) },
            PlaybackStep::Play { delay_us: 2_500, action: Synthesis::Press(4) },
            PlaybackStep::Finished,
        ]
    );
    let total: u64 = steps
        .iter()
        .map(|s| match s {
            PlaybackStep::Play { delay_us, .. } => *delay_us,
            _ => 0,
        })
        .sum();
    assert_eq!(total, 3_000);
    assert_eq!(p.replayed(), 4);
    assert!(!p.is_halted());
    assert_eq!(p.step(true), PlaybackStep::Finished);
}

#[test]
fn replay_clamps_backwards_time_to_zero() {
    let mut p = Playback::new(vec![press(1, 900), release(1, 400), press(2, 600)]).unwrap();
    assert_eq!(p.step(false), PlaybackStep::Play { delay_us: 0, action: Synthesis::Press(1) });
    assert_eq!(p.step(false), PlaybackStep::Play { delay_us: 0, action: Synthesis::Release(1) });
    assert_eq!(p.step(false), PlaybackStep::Play { delay_us: 200, action: Synthesis::Press(2) });
    assert_eq!(p.step(false), PlaybackStep::Finished);
}

#[test]
fn replay_of_moves_and_other_synthesizes_nothing() {
    let events: Vec<InputEvent<u32>> = vec![
        InputEvent { kind: EventKind::PointerMove, time_us: 10 },
        InputEvent { kind: EventKind::Other, time_us: 15 },
    ];
    let mut p = Playback::new(events).unwrap();
    assert_eq!(p.step(false), PlaybackStep::Play { delay_us: 0, action: Synthesis::Nothing });
    assert_eq!(p.step(false), PlaybackStep::Play { delay_us: 5, action: Synthesis::Nothing });
    assert_eq!(p.step(false), PlaybackStep::Finished);
}

#[test]
fn stop_during_replay_halts_it() {
    let mut e: Engine<u32> = Engine::new();
    e.start_listen();
    e.callback(press(1, 0));
    e.callback(press(2, 10));
    e.callback(press(3, 20));
    e.stop_listen();
    let mut p = e.begin_playback().unwrap();
    e.clear_stop_request();
    assert!(matches!(p.step(e.stop_requested()), PlaybackStep::Play { .. }));
    assert!(!e.stop_listen());
    assert_eq!(p.step(e.stop_requested()), PlaybackStep::Halted);
    assert!(p.is_halted());
    assert_eq!(p.replayed(), 1);
    assert_eq!(p.step(false), PlaybackStep::Halted);
    assert_eq!(p.replayed(), 1);
}

#[test]
fn replay_does_not_start_while_stop_is_requested() {
    let mut p = Playback::new(vec![press(7, 3)]).unwrap();
    assert_eq!(p.step(true), PlaybackStep::Halted);
    assert_eq!(p.replayed(), 0);
}

#[test]
fn keyboard_status_follows_listener_handle() {
    assert!(check_keyboard_status(Some(false)));
    assert!(!check_keyboard_status(Some(true)));
    assert!(!check_keyboard_status(None));
}

#[test]
fn new_recording_discards_previous_events() {
    let mut e: Engine<u32> = Engine::new();
    e.start_listen();
    e.callback(press(1, 1));
    e.callback(press(2, 2));
    e.stop_listen();
    assert!(e.start_listen());
    assert!(e.events().is_empty());
    e.callback(press(9, 50));
    e.stop_listen();
    assert_eq!(e.events(), &vec![press(9, 50)]);
    let mut p = e.begin_playback().unwrap();
    assert_eq!(replay_all(&mut p), vec![
        PlaybackStep::Play { delay_us: 0, action: Synthesis::Press(9) },
        PlaybackStep::Finished,
    ]);
}

#[test]
fn snapshot_is_independent_of_later_recording() {
    let mut e: Engine<u32> = Engine::new();
    e.start_listen();
    e.callback(press(1, 1));
    let snap = e.snapshot();
    e.callback(press(2, 2));
    assert_eq!(snap, vec![press(1, 1)]);
    assert_eq!(e.events().len(), 2);
}

#[test]
fn synthesis_follows_event_kind() {
    assert_eq!(synthesis_for(&EventKind::KeyPress(5u32)), Synthesis::Press(5));
    assert_eq!(synthesis_for(&EventKind::KeyRelease(5u32)), Synthesis::Release(5));
    assert_eq!(synthesis_for(&EventKind::<u32>::PointerMove), Synthesis::Nothing);
    assert_eq!(synthesis_for(&EventKind::<u32>::Other), Synthesis::Nothing);
}

#[test]
fn delay_is_difference_or_zero() {
    assert_eq!(delay_us(100, 350), 250);
    assert_eq!(delay_us(350, 100), 0);
    assert_eq!(delay_us(7, 7), 0);
    assert_eq!(delay_us(0, u64::MAX), u64::MAX);
}

#[test]
fn hotkey_presses_dispatch_commands() {
    let chords = Chords { record: 11, stop: 22, playback: 33 };
    assert_eq!(dispatch(&chords, 11, true), Some(Command::StartRecord));
    assert_eq!(dispatch(&chords, 22, true), Some(Command::Stop));
    assert_eq!(dispatch(&chords, 33, true), Some(Command::Play));
    assert_eq!(dispatch(&chords, 44, true), None);
    assert_eq!(dispatch(&chords, 11, false), None);
    assert_eq!(dispatch(&chords, 33, false), None);
}

#[test]
fn settle_delay_is_a_quarter_second() {
    assert_eq!(SETTLE_DELAY_MS, 250);
}
