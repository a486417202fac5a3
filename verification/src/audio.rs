//! Which soundtrack plays, and when the music changes.
//!
//! Both soundtracks are the same music: the AdLib mix as the hardware
//! produced it, and a re-voiced one rendered from the same notes.
use vstd::prelude::*;
use vstd::string::StringExecFns;

verus! {

#[derive(Clone, Copy, PartialEq, Eq, Debug, Structural)]
pub enum AudioMode {
    /// The AdLib OPL2 mix.
    Authentic,
    /// Re-voiced, lo-fi.
    Remaster,
}

impl AudioMode {
    /// Authentic unless the launch asked for the remaster.
    pub fn from_setting(setting: Option<&str>) -> (r: Self)
        ensures
            r == (if setting matches Some(s) && s@ == "remaster"@ { AudioMode::Remaster } else { AudioMode::Authentic }),
    {
        match setting {
            Some(s) => {
                let wanted = String::from_str("remaster");
                let given = String::from_str(s);
                if given == wanted {
                    AudioMode::Remaster
                } else {
                    AudioMode::Authentic
                }
            },
            None => AudioMode::Authentic,
        }
    }

    pub fn toggled(self) -> (r: Self)
        ensures
            r != self,
    {
        match self {
            AudioMode::Authentic => AudioMode::Remaster,
            AudioMode::Remaster => AudioMode::Authentic,
        }
    }

    /// The asset directory this mode's tracks live in.
    pub fn music_dir(self) -> (r: &'static str)
        ensures
            self == AudioMode::Authentic ==> r@ == "music"@,
            self == AudioMode::Remaster ==> r@ == "music_remaster"@,
    {
        match self {
            AudioMode::Authentic => "music",
            AudioMode::Remaster => "music_remaster",
        }
    }
}

/// The boss fight's track.
pub open spec fn music_boss() -> Seq<char> {
    "mboss"@
}

pub fn music_boss_name() -> (r: &'static str)
    ensures
        r@ == music_boss(),
{
    "mboss"
}

/// The track to play: an override (the boss fight) wins over the level's
/// own.
pub fn chosen_track(over: Option<&str>, level_track: Option<&str>) -> (r: Option<String>)
    ensures
        over matches Some(o) ==> (r matches Some(t) && t@ == o@),
        over is None ==> (match level_track {
            Some(l) => r matches Some(t) && t@ == l@,
            None => r is None,
        }),
{
    match over {
        Some(o) => Some(String::from_str(o)),
        None => match level_track {
            Some(l) => Some(String::from_str(l)),
            None => None,
        },
    }
}

/// What to do about the music.
#[derive(Clone, PartialEq, Eq, Debug)]
pub enum MusicChange {
    /// No track: stop whatever plays.
    Stop,
    /// The track already playing in this mode: leave it.
    Keep,
    /// Start this asset path, looping, in place of whatever plays.
    Play(String),
}

/// Whether the music changes: nothing to play stops it; the track already
/// playing in this mode stays; anything else starts `dir/track.wav`.
pub fn music_change(playing: &Option<(String, AudioMode)>, track: Option<String>, mode: AudioMode) -> (r: MusicChange)
    ensures
        track is None ==> r == MusicChange::Stop,
        track matches Some(t) ==> if playing matches Some(p) && p.0@ == t@ && p.1 == mode {
            r == MusicChange::Keep
        } else {
            r matches MusicChange::Play(path)
                && path@ == (if mode == AudioMode::Authentic { "music"@ } else { "music_remaster"@ }) + "/"@ + t@ + ".wav"@
        },
{
    let t = match track {
        Some(t) => t,
        None => {
            return MusicChange::Stop;
        },
    };
    match playing {
        Some(p) => {
            if p.0 == t && p.1 == mode {
                return MusicChange::Keep;
            }
        },
        None => {},
    }
    let mut path = String::from_str(mode.music_dir());
    path.append("/");
    path.append(t.as_str());
    path.append(".wav");
    MusicChange::Play(path)
}

} // verus!
