use opencosmo_game::pickups::{pickup_for_sprite, Pickup};

#[test]
fn the_invincibility_cube_is_collectible() {
    // It is the shield the hint globes talk about.
    assert_eq!(pickup_for_sprite(189), Some(Pickup::Invincibility));
}

#[test]
fn covers_the_pickups_that_were_previously_missed() {
    for spr in [36, 38, 85, 94, 134, 146, 223, 229, 232, 220] {
        assert!(
            pickup_for_sprite(spr).is_some(),
            "sprite {spr} should be collectible"
        );
    }
}

#[test]
fn distinguishes_the_special_counters() {
    assert_eq!(pickup_for_sprite(1), Some(Pickup::Star));
    assert_eq!(pickup_for_sprite(57), Some(Pickup::Bomb));
    assert_eq!(pickup_for_sprite(82), Some(Pickup::Hamburger));
    assert_eq!(pickup_for_sprite(28), Some(Pickup::PowerUp));
}

#[test]
fn scores_vary_by_item() {
    assert_eq!(pickup_for_sprite(32), Some(Pickup::Score(200)));
    assert_eq!(pickup_for_sprite(135), Some(Pickup::Score(400)));
    assert_eq!(pickup_for_sprite(141), Some(Pickup::Score(800)));
    assert_eq!(pickup_for_sprite(154), Some(Pickup::Score(1600)));
    assert_eq!(pickup_for_sprite(176), Some(Pickup::Score(3200)));
}

#[test]
fn scenery_is_not_a_pickup() {
    assert_eq!(pickup_for_sprite(39), None); // exit sign
    assert_eq!(pickup_for_sprite(26), None); // explosion
}

#[test]
fn every_scored_pickup_pays_one_of_the_tiers() {
    for spr in 0u16..=300 {
        if let Some(Pickup::Score(v)) = pickup_for_sprite(spr) {
            assert!([200, 400, 800, 1600, 3200].contains(&v));
        }
    }
}
