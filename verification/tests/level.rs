use opencosmo_game::data::{GameData, LevelActorJson, LevelJson, TilesetJson, TILE_ATTR_BLOCK_SOUTH, TILE_ATTR_IN_FRONT};
use opencosmo_game::effects::dir8_step;
use opencosmo_game::level::{
    content_bounds, tile_cell, write_tile, TileCell, find_player_start, level_platforms, light_cast_distance, light_cells, move_platform, LightCell, LightSide,
    TILE_BLUE_PLATFORM,
};
use opencosmo_game::player::Player;

fn level(width: usize, height: usize, actors: Vec<LevelActorJson>) -> LevelJson {
    LevelJson {
        name: "test".to_string(),
        width,
        height,
        tiles: vec![0; width * height],
        actors,
        backdrop: None,
        music: None,
        has_h_scroll_backdrop: false,
        has_v_scroll_backdrop: false,
    }
}

fn data(episode: u8, attrs: Vec<u8>) -> GameData {
    GameData {
        asset_prefix: "ep".to_string(),
        episode,
        tileset: TilesetJson { tile_size: 8, atlas_cols: 40, solid_tile_count: 2000, masked_tile_count: 1000 },
        tile_attrs: attrs,
    }
}

fn actor(map_type: u16, x: u16, y: u16) -> LevelActorJson {
    LevelActorJson { map_type, x, y }
}

#[test]
fn a_platforms_route_is_read_out_of_the_map() {
    // The cell a platform sits on holds `DIR8 * 8` as its raw tile value.
    // Those are all below TILE_STRIPED_PLATFORM (80), which is why the
    // renderer treats them as air.
    for dir in 0..9usize {
        let raw = (dir * 8) as u16;
        assert!(raw < 80, "a route command must be invisible, but {raw} would draw");
        assert_eq!(dir8_step((raw / 8) as usize), dir8_step(dir));
    }
}

#[test]
fn the_middle_of_a_cone_is_fully_lit() {
    for row in 0..8 {
        assert_eq!(LightSide::Middle.row_mask(row), [true; 8]);
    }
}

#[test]
fn the_cone_edges_ramp_in_opposite_directions() {
    assert_eq!(
        LightSide::West.row_mask(0),
        [false, false, false, false, false, false, false, true],
        "the west edge starts as a single lit pixel on the right"
    );
    assert_eq!(
        LightSide::East.row_mask(0),
        [true, false, false, false, false, false, false, false],
        "and the east edge on the left"
    );
    assert_eq!(LightSide::West.row_mask(7), [true; 8]);
    assert_eq!(LightSide::East.row_mask(7), [true; 8]);
    for row in 0..8 {
        assert_eq!(LightSide::West.row_mask(row).iter().filter(|b| **b).count(), row + 1);
        assert_eq!(LightSide::East.row_mask(row).iter().filter(|b| **b).count(), row + 1);
    }
}

#[test]
fn episode_one_casts_shorter_than_the_others() {
    assert_eq!(light_cast_distance(1), 11);
    assert_eq!(light_cast_distance(2), 13);
    assert_eq!(light_cast_distance(3), 13);
}

#[test]
fn a_light_pixel_image_is_eight_by_eight() {
    let px = LightSide::Middle.pixels();
    assert_eq!(px.len(), 256);
}

#[test]
fn the_player_starts_at_the_first_start_actor() {
    let l = level(10, 10, vec![actor(6, 1, 1), actor(0, 4, 7), actor(0, 2, 2)]);
    assert_eq!(find_player_start(&l), (4, 7));
    let none = level(10, 10, vec![actor(6, 1, 1)]);
    assert_eq!(find_player_start(&none), (2, 2));
}

#[test]
fn a_light_shines_down_until_a_floor_stops_it() {
    let mut l = level(4, 20, vec![actor(7, 1, 2)]);
    // A floor tile (raw 8, attribute index 1) four rows below the lamp.
    l.tiles[6 * 4 + 1] = 8;
    let d = data(1, vec![0, TILE_ATTR_BLOCK_SOUTH]);
    let cells = light_cells(&l, &d);
    assert_eq!(
        cells,
        vec![
            LightCell { x: 1, y: 2, side: LightSide::Middle },
            LightCell { x: 1, y: 3, side: LightSide::Middle },
            LightCell { x: 1, y: 4, side: LightSide::Middle },
            LightCell { x: 1, y: 5, side: LightSide::Middle },
        ]
    );
    // Without the floor it reaches as far as the episode casts.
    let open = level(4, 30, vec![actor(6, 1, 2)]);
    assert_eq!(light_cells(&open, &d).len(), 1 + 10, "the cone is the lamp and ten rows below it");
}

#[test]
fn a_platform_stamps_itself_and_carries_its_rider() {
    let mut l = level(12, 12, vec![actor(1, 5, 6)]);
    // The cell under the platform says: go east (DIR8 3).
    l.tiles[6 * 12 + 5] = 3 * 8;
    let mut plats = level_platforms(&l);
    assert_eq!(plats.len(), 1);
    assert_eq!(plats[0].stash, [0; 5]);
    // What it covers on arrival is what it puts back first.
    plats[0].stash = [0, 0, 24, 0, 0];
    let mut p = Player::spawn_at(5, 5);
    p.dead_timer = 0;
    let writes = move_platform(&mut plats[0], &mut l, true, &mut p);
    assert_eq!((plats[0].x, plats[0].y), (6, 6));
    assert_eq!(p.x, 6, "the rider moves with it");
    for i in 0..5 {
        assert_eq!(l.tiles[6 * 12 + 4 + i], TILE_BLUE_PLATFORM + (i as u16) * 8);
    }
    // What it covered is kept to put back: the route command among it.
    assert_eq!(plats[0].stash, [0, 24, 0, 0, 0]);
    assert_eq!(writes.len(), 10);
}

#[test]
fn the_content_box_is_tight_around_what_the_map_holds() {
    let mut l = level(10, 8, vec![]);
    assert_eq!(content_bounds(&l), (0, 0, 10, 8), "an empty map is all of it");
    assert!(write_tile(&mut l, 3, 2, 8));
    assert!(write_tile(&mut l, 6, 5, 8));
    assert!(!write_tile(&mut l, 10, 0, 8), "off the grid nothing is written");
    assert!(!write_tile(&mut l, -1, 0, 8));
    assert_eq!(content_bounds(&l), (3, 2, 7, 6));
    assert_eq!(l.tile_at(3, 2), 8);
}

#[test]
fn a_raw_value_picks_its_sheet_and_tile() {
    let d = data(1, vec![0; 20].into_iter().chain([TILE_ATTR_IN_FRONT]).collect());
    assert_eq!(tile_cell(79, &d), None, "route commands and air show the backdrop");
    assert_eq!(tile_cell(80, &d), Some(TileCell { masked: false, index: 10, front: false }));
    assert_eq!(tile_cell(160, &d), Some(TileCell { masked: false, index: 20, front: true }));
    assert_eq!(tile_cell(16000 + 80, &d), Some(TileCell { masked: true, index: 2, front: false }));
}
