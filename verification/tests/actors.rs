use opencosmo_game::actors::{container_for, plan_actor, Container};
use opencosmo_game::enemy_ai::table::behavior_for;
use opencosmo_game::enemy_ai::{ActorFlags, EnemyKind};

fn flags() -> ActorFlags {
    ActorFlags { acrophile: false, weighted: false, force_active: false, stay_active: false }
}

#[test]
fn a_container_holds_what_the_table_gives_it_unless_that_is_itself() {
    assert_eq!(container_for(30, Some(57), 4, 9), Some(Container { x: 4, y: 9, contents: 57 }));
    assert_eq!(container_for(30, Some(30), 4, 9), None, "an empty basket contains itself");
    assert_eq!(container_for(30, None, 4, 9), None);
}

#[test]
fn an_actor_is_planned_from_its_tables() {
    let p = plan_actor(70, 0, flags(), 5, 6, 1, 1, Some(82));
    let e = p.enemy.expect("a pipe corner has a behaviour");
    let (kind, data) = behavior_for(70).unwrap();
    assert_eq!((e.kind, e.act_id, e.x, e.y, e.d5), (kind, 70, 5, 6, data[4]));
    assert_eq!(p.container, Some(Container { x: 5, y: 6, contents: 82 }));
    assert!(p.collectible.is_none());

    // No behaviour and not weighted: nothing ticks.
    let none = plan_actor(0, 1, flags(), 2, 3, 1, 1, None);
    assert!(none.enemy.is_none());
    assert!(none.collectible.is_some(), "sprite 1 is a star");
    assert!(none.container.is_none());

    // Weighted with no behaviour: an inert faller.
    let weighted = ActorFlags { weighted: true, ..flags() };
    let faller = plan_actor(0, 0, weighted, 2, 3, 1, 1, None);
    assert_eq!(faller.enemy.unwrap().kind, EnemyKind::Inert);
}
