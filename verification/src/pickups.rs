//! What each collectible is worth, and what picking it up does, keyed by
//! sprite type: several actor types share one sprite, so keying the table by
//! sprite keeps it one entry per distinct pickup.
use vstd::prelude::*;

verus! {

/// The effect of touching a collectible.
#[derive(Clone, Copy, Debug, PartialEq, Eq, Structural)]
pub enum Pickup {
    /// Plain score.
    Score(u32),
    /// Counted in the status bar's "Stars" field rather than scored.
    Star,
    /// Stocks the bomb counter, and scores 100.
    Bomb,
    /// Widens the health meter by one cell, up to 5.
    Hamburger,
    /// Heals if hurt, otherwise pays out big.
    PowerUp,
    /// Wraps the player in a bubble that makes them untouchable for a while.
    /// Awards no score: the score effect shown over it is never paid out.
    Invincibility,
}

/// The pickup table: sprite id to effect, `None` for anything that is not
/// collectible.
pub open spec fn pickup_table(spr: u16) -> Option<Pickup> {
    if spr == 1 {
        Some(Pickup::Star)
    } else if spr == 28 {
        Some(Pickup::PowerUp)
    } else if spr == 57 {
        Some(Pickup::Bomb)
    } else if spr == 82 {
        Some(Pickup::Hamburger)
    } else if spr == 189 {
        Some(Pickup::Invincibility)
    } else if spr == 32 || spr == 34 || spr == 36 || spr == 38 {
        // Tomatoes, pear, onion.
        Some(Pickup::Score(200))
    } else if spr == 94 || spr == 134 || spr == 135 || spr == 136 || spr == 137 || spr == 138
        || spr == 139 || spr == 140 || spr == 147 || spr == 168 || spr == 170 || spr == 172
        || spr == 226 || spr == 229 || spr == 232 {
        // The bulk of the food.
        Some(Pickup::Score(400))
    } else if spr == 85 || spr == 141 || spr == 146 || spr == 223 || spr == 194 || spr == 196
        || spr == 198 || spr == 200 || spr == 220 {
        // The four foods worth double, and the gems that share their value.
        Some(Pickup::Score(800))
    } else if spr == 154 || spr == 155 {
        // Crystals.
        Some(Pickup::Score(1600))
    } else if spr == 153 || spr == 174 || spr == 176 {
        // Ornament, emerald, diamond.
        Some(Pickup::Score(3200))
    } else {
        None
    }
}

/// `SPR_*` id -> what collecting it does. `None` means "not a pickup".
pub fn pickup_for_sprite(spr: u16) -> (r: Option<Pickup>)
    ensures
        r == pickup_table(spr),
{
    match spr {
        1 => Some(Pickup::Star),
        28 => Some(Pickup::PowerUp),
        57 => Some(Pickup::Bomb),
        82 => Some(Pickup::Hamburger),
        189 => Some(Pickup::Invincibility),
        32 | 34 | 36 | 38 => Some(Pickup::Score(200)),
        94 | 134 | 135 | 136 | 137 | 138 | 139 | 140 | 147 | 168 | 170 | 172 | 226 | 229
        | 232 => Some(Pickup::Score(400)),
        85 | 141 | 146 | 223 | 194 | 196 | 198 | 200 | 220 => Some(Pickup::Score(800)),
        154 | 155 => Some(Pickup::Score(1600)),
        153 | 174 | 176 => Some(Pickup::Score(3200)),
        _ => None,
    }
}

/// Every score a pickup pays is one of the five tiers, and only the counters
/// and shields pay nothing directly.
pub proof fn lemma_pickup_scores_are_tiers(spr: u16)
    ensures
        pickup_table(spr) matches Some(Pickup::Score(v)) ==> (v == 200 || v == 400 || v == 800
            || v == 1600 || v == 3200),
{
}

} // verus!
