use opencosmo_game::input::InputAccumulator;
use opencosmo_game::player::script::{read_input, InputScript, InputSource};
use opencosmo_game::player::{xorshift_step, FaceDir, Player, PlayerInput};

#[test]
fn a_queued_head_shake_waits_for_the_ground() {
    let mut p = Player::spawn_at(0, 10);
    p.queue_dizzy();
    for _ in 0..10 {
        p.process_dizzy(false);
    }
    assert!(p.dizzy_queued, "still waiting");
    assert_eq!(p.dizzy_left, 0);

    p.process_dizzy(true);
    assert!(!p.dizzy_queued);
    assert_eq!(p.dizzy_left, 7);

    let mut ticks = 1;
    while p.dizzy_left != 0 {
        p.process_dizzy(true);
        ticks += 1;
    }
    assert_eq!(ticks, 8, "the shake lasts eight ticks");
}

#[test]
fn grabbing_a_wall_cancels_a_head_shake() {
    let mut p = Player::spawn_at(0, 10);
    p.queue_dizzy();
    p.process_dizzy(true);
    assert_ne!(p.dizzy_left, 0, "shaking");

    p.cling_dir = Some(FaceDir::West);
    p.process_dizzy(true);
    assert_eq!(p.dizzy_left, 0);
    assert!(!p.dizzy_queued);
}

#[test]
fn a_dizzy_player_cannot_pounce() {
    let mut p = Player::spawn_at(0, 10);
    p.pounce_ready = true;
    p.is_falling = true;
    p.dizzy_left = 5;
    assert!(!p.try_pounce(7));

    p.dizzy_left = 0;
    assert!(p.try_pounce(7), "and can again once it passes");
}

#[test]
fn a_pounce_shakes_off_a_queued_head_shake() {
    let mut p = Player::spawn_at(0, 10);
    p.pounce_ready = true;
    p.is_falling = true;
    p.queue_dizzy();
    assert!(p.try_pounce(7));
    assert!(!p.dizzy_queued);
}

#[test]
fn only_a_hard_recoil_counts_as_a_long_jump() {
    let mut p = Player::spawn_at(0, 10);
    p.pounce_ready = true;
    p.is_falling = true;
    assert!(p.try_pounce(7));
    assert!(!p.long_jumping, "an ordinary pounce is not a long jump");

    let mut q = Player::spawn_at(0, 10);
    q.pounce_ready = true;
    q.is_falling = true;
    assert!(q.try_pounce(40));
    assert!(q.long_jumping, "a jump pad is");
}

fn rearm(p: &mut Player) {
    p.pounce_ready = true;
    p.is_falling = true;
    p.is_recoiling = false;
    p.recoil_left = 0;
}

#[test]
fn ten_plain_pounces_make_a_streak_and_anything_else_breaks_it() {
    let mut p = Player::spawn_at(0, 10);
    for i in 1..10 {
        rearm(&mut p);
        assert!(p.try_pounce(7));
        assert_eq!(p.pounce_streak, i);
    }
    rearm(&mut p);
    assert!(p.try_pounce(7));
    assert_eq!(p.pounce_streak, 0);

    rearm(&mut p);
    assert!(p.try_pounce(7));
    assert_eq!(p.pounce_streak, 1);
    rearm(&mut p);
    assert!(p.try_pounce(40));
    assert_eq!(p.pounce_streak, 0);
}

#[test]
fn a_script_holds_each_step_for_its_tick_count() {
    let s = InputScript::parse("e3,.2,uk1");
    assert!(s.at(0).east && !s.at(0).look_up);
    assert!(s.at(2).east);
    assert!(!s.at(3).east, "the second step has no keys held");
    assert!(!s.at(4).east);
    assert!(s.at(5).look_up && s.at(5).dismiss, "steps can combine keys");
}

#[test]
fn the_last_step_holds_once_the_script_runs_out() {
    let s = InputScript::parse("e2,w4");
    assert!(s.at(99).west);
}

#[test]
fn an_empty_script_holds_nothing_down() {
    let s = InputScript::parse("");
    let at = s.at(0);
    assert!(!at.east && !at.west && !at.jump);
}

#[test]
fn a_step_without_a_count_lasts_one_tick() {
    let s = InputScript::parse("j,e5");
    assert!(s.at(0).jump);
    assert!(s.at(1).east && !s.at(1).jump);
}

#[test]
fn a_script_tolerates_spaces_and_odd_steps() {
    let s = InputScript::parse(" w2 , , b1 ");
    assert!(s.at(0).west && s.at(1).west);
    assert!(s.at(2).bomb);
    assert_eq!(s.0.len(), 2, "an empty step is skipped");
}

#[test]
fn a_pounce_needs_the_player_descending_and_armed() {
    let mut p = Player::spawn_at(0, 10);
    p.is_falling = false;
    p.jump_time = 0;
    p.pounce_ready = true;
    assert!(!p.try_pounce(7), "rising is no pounce");
    p.is_falling = true;
    p.pounce_ready = false;
    assert!(!p.try_pounce(7), "unarmed");
    p.pounce_ready = true;
    assert!(p.try_pounce(7));
    assert_eq!(p.recoil_left, 8);
    assert!(p.is_recoiling && !p.is_falling);
}

#[test]
fn the_jitter_generator_is_xorshift() {
    let s: u32 = 0x1337_beef;
    let mut x = s;
    x ^= x << 13;
    x ^= x >> 17;
    x ^= x << 5;
    assert_eq!(xorshift_step(s), x);
    let mut p = Player::spawn_at(0, 0);
    let r = p.next_rand(10);
    assert_eq!(p.rng, x);
    assert_eq!(r, x % 10);
    assert_eq!(p.next_rand(0), 0);
}

#[test]
fn facing_picks_the_frame_block_and_the_bubble_protects() {
    let mut p = Player::spawn_at(0, 0);
    assert_eq!(p.base_frame(), 23);
    p.face_dir = FaceDir::West;
    assert_eq!(p.base_frame(), 0);
    assert!(!p.is_invincible());
    p.in_pipe = true;
    assert!(p.is_invincible());
}

#[test]
fn each_tick_reads_its_commands_from_the_chosen_source() {
    let mut accum = InputAccumulator::new();
    let mut tick = 0u32;
    let script = InputSource::Script(InputScript::parse("e2,w1"));
    assert!(read_input(&script, &mut tick, &mut accum).east);
    assert!(read_input(&script, &mut tick, &mut accum).east);
    assert!(read_input(&script, &mut tick, &mut accum).west);
    assert_eq!(tick, 3);

    let mut tick = 0u32;
    let auto = InputSource::Autoplay;
    let first = read_input(&auto, &mut tick, &mut accum);
    assert!(first.east && first.jump && first.bomb);
    let second = read_input(&auto, &mut tick, &mut accum);
    assert!(second.east && !second.jump && !second.bomb);
    tick = 12;
    assert!(read_input(&auto, &mut tick, &mut accum).jump);

    let mut tick = 5u32;
    accum.record(PlayerInput { bomb: true, ..Default::default() });
    accum.record(PlayerInput::default());
    assert!(read_input(&InputSource::Live, &mut tick, &mut accum).bomb, "a tap reaches the tick");
    assert!(!read_input(&InputSource::Live, &mut tick, &mut accum).bomb);
    assert_eq!(tick, 5);
}
