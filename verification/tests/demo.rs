use opencosmo_game::demo::{
    pack, unpack, Demo, DemoState, DemoTick, BOMB, EAST, JUMP, MAX_FRAMES, NORTH, SOUTH, WEST, WIN,
};
use opencosmo_game::player::PlayerInput;

fn input_with(west: bool, jump: bool, bomb: bool) -> PlayerInput {
    PlayerInput { west, jump, bomb, ..Default::default() }
}

#[test]
fn a_frame_round_trips_through_its_byte() {
    let recorded = input_with(true, true, false);
    let byte = pack(&recorded, false);
    let mut back = PlayerInput::default();
    assert!(!unpack(byte, &mut back));
    assert_eq!(back.west, recorded.west);
    assert_eq!(back.jump, recorded.jump);
    assert_eq!(back.bomb, recorded.bomb);
    assert!(!back.east);
}

#[test]
fn every_command_has_its_own_bit() {
    let mut seen = Vec::new();
    for (set, bit) in [
        (PlayerInput { west: true, ..Default::default() }, WEST),
        (PlayerInput { east: true, ..Default::default() }, EAST),
        (PlayerInput { look_up: true, ..Default::default() }, NORTH),
        (PlayerInput { look_down: true, ..Default::default() }, SOUTH),
        (PlayerInput { jump: true, ..Default::default() }, JUMP),
        (PlayerInput { bomb: true, ..Default::default() }, BOMB),
    ] {
        let b = pack(&set, false);
        assert_eq!(b, bit, "one command should set exactly its own bit");
        assert!(!seen.contains(&b), "two commands share a bit");
        seen.push(b);
    }
    assert_eq!(pack(&PlayerInput::default(), true), WIN);
}

#[test]
fn the_win_bit_is_carried_separately_from_the_input() {
    let mut back = PlayerInput::default();
    assert!(unpack(pack(&PlayerInput::default(), true), &mut back));
    assert!(!back.west && !back.jump, "the win bit is not a command");
}

#[test]
fn a_demo_file_round_trips() {
    let mut d = Demo::new();
    d.frames = vec![1, 2, 4, 8, 16, 32, 64];
    assert_eq!(Demo::from_bytes(&d.to_bytes()), Some(d.frames.clone()));
}

#[test]
fn a_truncated_demo_is_refused_rather_than_panicking() {
    let mut d = Demo::new();
    d.frames = vec![1, 2, 3, 4, 5];
    let bytes = d.to_bytes();
    for len in 0..bytes.len() {
        assert_eq!(Demo::from_bytes(&bytes[..len]), None, "len {len}");
    }
}

#[test]
fn recording_stops_at_the_length_the_original_allows() {
    let mut d = Demo::new();
    d.start_recording();
    assert_eq!(d.state, DemoState::Record);
    d.frames = vec![0; MAX_FRAMES];
    assert!(d.frames.len() >= MAX_FRAMES);
    // The next tick would push past the cap: it stops and saves instead.
    let mut input = PlayerInput::default();
    assert_eq!(d.drive(&mut input), DemoTick::Save);
    assert_eq!(d.state, DemoState::Off);
    assert_eq!(d.frames.len(), MAX_FRAMES);
}

#[test]
fn an_empty_demo_does_not_start_playing() {
    let mut d = Demo::new();
    d.frames.clear();
    assert!(!d.start_playback(None));
    assert!(!d.start_playback(Some(Vec::new())));
    assert_eq!(d.state, DemoState::Off);
}

#[test]
fn the_file_is_a_little_endian_count_then_the_frames() {
    let mut d = Demo::new();
    d.frames = vec![7; 300];
    let bytes = d.to_bytes();
    assert_eq!(&bytes[..2], &[44, 1]);
    assert_eq!(bytes.len(), 302);
}

#[test]
fn a_recording_replays_tick_for_tick() {
    let mut d = Demo::new();
    assert_eq!(d.hotkey(), DemoTick::Nothing);
    assert_eq!(d.state, DemoState::Record);
    let mut a = input_with(true, false, false);
    let mut b = input_with(false, true, true);
    d.drive(&mut a);
    d.drive(&mut b);
    assert_eq!(d.hotkey(), DemoTick::Save);
    let file = d.to_bytes();

    let mut play = Demo::new();
    assert!(play.start_playback(Demo::from_bytes(&file)));
    let mut got = PlayerInput::default();
    play.drive(&mut got);
    assert_eq!(got, input_with(true, false, false));
    play.drive(&mut got);
    assert_eq!(got, input_with(false, true, true));
    assert_eq!(play.state, DemoState::Off, "playback ends with the last frame");
}

#[test]
fn an_overlong_recording_stops_and_saves() {
    let mut d = Demo::new();
    d.start_recording();
    d.frames = vec![0; MAX_FRAMES + 5];
    let mut input = PlayerInput::default();
    assert_eq!(d.drive(&mut input), DemoTick::Save);
    assert_eq!(d.state, DemoState::Off);
    assert_eq!(Demo::from_bytes(&d.to_bytes()).unwrap().len(), MAX_FRAMES, "the file keeps the first frames");
}
