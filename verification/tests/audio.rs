use opencosmo_game::audio::{chosen_track, music_boss_name, music_change, AudioMode, MusicChange};

#[test]
fn an_override_replaces_the_levels_own_track() {
    // The boss fight is the only thing that does this; everything else
    // plays whatever the level header assigns.
    let chosen = chosen_track(Some(music_boss_name()), Some("mcaves"));
    assert_eq!(chosen.as_deref(), Some(music_boss_name()));

    let chosen = chosen_track(None, Some("mcaves"));
    assert_eq!(chosen.as_deref(), Some("mcaves"), "otherwise the level wins");
}

#[test]
fn the_boss_track_is_the_one_the_game_ships() {
    assert_eq!(music_boss_name(), "mboss");
}

#[test]
fn no_track_at_all_is_silence() {
    assert_eq!(chosen_track(None, None), None);
    assert_eq!(music_change(&None, None, AudioMode::Authentic), MusicChange::Stop);
}

#[test]
fn the_setting_picks_the_soundtrack() {
    assert_eq!(AudioMode::from_setting(Some("remaster")), AudioMode::Remaster);
    assert_eq!(AudioMode::from_setting(Some("authentic")), AudioMode::Authentic);
    assert_eq!(AudioMode::from_setting(None), AudioMode::Authentic);
    assert_eq!(AudioMode::Authentic.toggled(), AudioMode::Remaster);
    assert_eq!(AudioMode::Remaster.toggled(), AudioMode::Authentic);
    assert_eq!(AudioMode::Remaster.music_dir(), "music_remaster");
}

#[test]
fn the_same_track_keeps_playing_and_a_new_one_starts() {
    let playing = Some(("mcaves".to_string(), AudioMode::Authentic));
    assert_eq!(
        music_change(&playing, Some("mcaves".to_string()), AudioMode::Authentic),
        MusicChange::Keep
    );
    assert_eq!(
        music_change(&playing, Some("mcaves".to_string()), AudioMode::Remaster),
        MusicChange::Play("music_remaster/mcaves.wav".to_string())
    );
    assert_eq!(
        music_change(&playing, Some("mboss".to_string()), AudioMode::Authentic),
        MusicChange::Play("music/mboss.wav".to_string())
    );
}
