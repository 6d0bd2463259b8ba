//! What a tick hands back to its surroundings: floating score texts and
//! sound cues.

use vstd::prelude::*;

use crate::geometry::{clamp_to_i64, Vec2};

verus! {

/// Colour of a floating text.
#[derive(Clone, Copy, Debug, PartialEq, Eq, Structural)]
pub enum TextColor {
    Red,
    Green,
    Gold,
}

/// A floating score text: `points` is the score change it shows and
/// `lifetime` the milliseconds it has left on screen.
#[derive(Clone, Copy, Debug, PartialEq, Eq, Structural)]
pub struct TemporaryText {
    pub points: i64,
    pub position: Vec2,
    pub color: TextColor,
    pub lifetime: i64,
}

/// A sound to play.
#[derive(Clone, Copy, Debug, PartialEq, Eq, Structural)]
pub enum Cue {
    AsteroidDestroyed,
    ShieldLost,
    MissileFired,
    StartGame,
    GameOver,
    NewWave,
}

/// `n` copies of cue `c`.
pub open spec fn cues_of(c: Cue, n: nat) -> Seq<Cue> {
    Seq::new(n, |_i: int| c)
}

/// Where the floating text about a body at `p` stands: twenty units right
/// and down.
pub open spec fn text_anchor(p: Vec2) -> Vec2 {
    crate::geometry::sum_clamped(p, Vec2 { x: 20000, y: 20000 })
}

impl TemporaryText {
    pub fn new(points: i64, position: Vec2, color: TextColor, lifetime: i64) -> (r: TemporaryText)
        ensures
            r == (TemporaryText { points, position, color, lifetime }),
    {
        TemporaryText { points, position, color, lifetime }
    }

    /// The text shown for a score change next to a body at `p`.
    pub fn anchored(points: i64, p: Vec2, color: TextColor, lifetime: i64) -> (r: TemporaryText)
        ensures
            r == (TemporaryText { points, position: text_anchor(p), color, lifetime }),
    {
        TemporaryText { points, position: p.add_clamped(Vec2 { x: 20000, y: 20000 }), color, lifetime }
    }
}

/// Whether a floating text is still shown after `elapsed` milliseconds.
pub open spec fn text_survives(t: TemporaryText, elapsed: i64) -> bool {
    crate::geometry::clamp_i64(t.lifetime - elapsed) > 0
}

/// The floating texts that remain after `elapsed` milliseconds, in order,
/// each with its lifetime reduced.
pub open spec fn aged_texts(ts: Seq<TemporaryText>, elapsed: i64) -> Seq<TemporaryText>
    decreases ts.len(),
{
    if ts.len() == 0 {
        Seq::empty()
    } else {
        let t = ts.last();
        let rest = aged_texts(ts.drop_last(), elapsed);
        if text_survives(t, elapsed) {
            rest.push(TemporaryText { lifetime: crate::geometry::clamp_i64(t.lifetime - elapsed), ..t })
        } else {
            rest
        }
    }
}

/// Counts every text's lifetime down by `elapsed` milliseconds and drops
/// those that ran out.
pub fn update_temporary_texts(temporary_texts: &mut Vec<TemporaryText>, elapsed: i64)
    ensures
        final(temporary_texts)@ == aged_texts(old(temporary_texts)@, elapsed),
{
    let ghost old_ts = temporary_texts@;
    let mut kept: Vec<TemporaryText> = Vec::new();
    let mut i: usize = 0;
    while i < temporary_texts.len()
        invariant
            temporary_texts@ == old_ts,
            0 <= i <= old_ts.len(),
            kept@ == aged_texts(old_ts.subrange(0, i as int), elapsed),
        decreases old_ts.len() - i,
    {
        let t = temporary_texts[i];
        let lifetime = clamp_to_i64(t.lifetime as i128 - elapsed as i128);
        if lifetime > 0 {
            kept.push(TemporaryText { lifetime, ..t });
        }
        proof {
            assert(old_ts.subrange(0, i + 1).drop_last() =~= old_ts.subrange(0, i as int));
        }
        i += 1;
    }
    proof {
        assert(old_ts.subrange(0, old_ts.len() as int) =~= old_ts);
    }
    *temporary_texts = kept;
}

} // verus!
