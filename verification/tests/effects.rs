use opencosmo_game::effects::{
    dir8_step, next_xmode, pounce_debris, score_effect_sprite, step_shard, Decoration, Explosion, Shard,
    DIR8_EAST, DIR8_NONE, DIR8_NORTH, DIR8_NORTHWEST, DIR8_SOUTHWEST,
};

fn shard(xmode: u32) -> Shard {
    Shard { x: 20, y: 20, age: 1, xmode, bounced: false, width_tiles: 1, height_tiles: 1 }
}

/// A floor at `row`, nothing else.
fn floor_at(row: i32) -> impl Fn(i32, i32) -> bool {
    move |_x, y| y >= row
}

#[test]
fn a_shard_is_thrown_up_before_it_falls() {
    let mut sh = shard(2); // no horizontal drift
    let start = sh.y;
    let mut highest = sh.y;
    for _ in 0..8 {
        step_shard(&mut sh, floor_at(100), true);
        highest = highest.min(sh.y);
    }
    assert!(highest < start, "it should rise first, got {highest} vs {start}");
}

#[test]
fn a_shard_bounces_once_and_only_once() {
    let mut sh = shard(2);
    let mut bounces = 0;
    for _ in 0..40 {
        let was = sh.bounced;
        step_shard(&mut sh, floor_at(25), true);
        if sh.bounced && !was {
            bounces += 1;
        }
    }
    assert_eq!(bounces, 1, "a shard bounces exactly once");
}

#[test]
fn the_xmodes_fan_debris_out_in_five_ways() {
    let drift = |xmode| {
        let mut sh = shard(xmode);
        let x0 = sh.x;
        for _ in 0..5 {
            step_shard(&mut sh, floor_at(100), true);
        }
        sh.x - x0
    };
    assert_eq!(drift(0), 5, "east");
    assert_eq!(drift(1), -5, "west");
    assert_eq!(drift(2), 0, "still");
    assert_eq!(drift(3), 10, "double east");
    assert_eq!(drift(4), -10, "double west");
}

#[test]
fn a_shard_does_not_live_forever() {
    let mut sh = shard(2);
    let mut ticks = 0;
    while step_shard(&mut sh, floor_at(1000), true) {
        ticks += 1;
        assert!(ticks < 200, "a shard that never expires would leak entities");
    }
    assert!(ticks <= 40, "it dies at forty");
}

#[test]
fn a_shard_off_screen_is_dropped_early() {
    let mut sh = shard(2);
    for _ in 0..17 {
        step_shard(&mut sh, floor_at(1000), true);
    }
    assert!(
        !step_shard(&mut sh, floor_at(1000), false),
        "past sixteen it is culled the moment it leaves the view"
    );
}

#[test]
fn the_xmode_counter_is_shared_so_consecutive_shards_differ() {
    let mut xm: u32 = 0;
    let seen: Vec<u32> = (0..5).map(|_| next_xmode(&mut xm)).collect();
    assert_eq!(seen, vec![1, 2, 3, 4, 0], "five distinct drifts in a row");
}

#[test]
fn the_eight_directions_step_one_cell() {
    assert_eq!(dir8_step(DIR8_NONE), (0, 0));
    assert_eq!(dir8_step(DIR8_NORTH), (0, -1));
    assert_eq!(dir8_step(DIR8_EAST), (1, 0));
    assert_eq!(dir8_step(DIR8_SOUTHWEST), (-1, 1));
    assert_eq!(dir8_step(DIR8_NORTHWEST), (-1, -1));
}

#[test]
fn the_score_sprite_follows_the_points() {
    assert_eq!(score_effect_sprite(100), 177);
    assert_eq!(score_effect_sprite(200), 178);
    assert_eq!(score_effect_sprite(400), 179);
    assert_eq!(score_effect_sprite(50), 177);
}

#[test]
fn an_explosion_cycles_four_frames() {
    let mut e = Explosion::new(3, 4);
    assert_eq!((e.x, e.y, e.age), (3, 6, 1));
    assert_eq!(e.frame(), 0);
    e.age = 5;
    assert_eq!(e.frame(), 0);
    e.age = 4;
    assert_eq!(e.frame(), 3);
}

#[test]
fn a_decoration_plays_its_loops_then_goes() {
    assert!(Decoration::new(2, 0, 0, 0, DIR8_EAST, 1).is_none());
    let mut d = Decoration::new(2, 2, 10, 10, DIR8_EAST, 1).expect("a slot is free");
    assert!(d.step());
    assert!(!d.step(), "one loop of two frames and it is gone");
    let debris = pounce_debris(5, 5, 4);
    assert!(!debris.is_empty());
}

#[test]
fn a_shard_with_a_floor_under_its_apex_still_dies() {
    // Solid everywhere: it is caught at the top of its arc, which is its one
    // bounce, and then it runs out its life.
    let mut sh = shard(2);
    let mut ticks = 0;
    let mut bounces = 0;
    loop {
        let was = sh.bounced;
        let alive = step_shard(&mut sh, |_x, _y| true, true);
        if sh.bounced && !was {
            bounces += 1;
        }
        if !alive {
            break;
        }
        ticks += 1;
        assert!(ticks < 79, "a shard must not live for ever");
    }
    assert_eq!(bounces, 1);
}
