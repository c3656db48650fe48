//! Creating a character: by answering five questions, or by chance.

use vstd::prelude::*;
use crate::dice::roll;
use crate::player::{Player, PlayerView};
use crate::stats::{allocated, Stats};

verus! {

/// The points a new character has to spend on attributes.
pub const CREATION_POINTS: usize = 5;

/// The attributes a new character has before any point is spent.
pub open spec fn baseline() -> Stats {
    Stats { physique: 1, technique: 1, mystique: 1 }
}

/// Which of the three questions character creation asks next.
#[derive(Clone, Copy, Debug, PartialEq, Eq, Structural)]
pub enum PointPrompt {
    First,
    Next,
    Last,
}

/// The question to ask while `points` are left to spend: the first one with
/// the whole budget in hand, the last one with a single point left.
pub fn point_prompt(points: usize) -> (prompt: PointPrompt)
    ensures
        prompt == (if points == CREATION_POINTS {
            PointPrompt::First
        } else if points > 1 {
            PointPrompt::Next
        } else {
            PointPrompt::Last
        }),
{
    if points == CREATION_POINTS {
        PointPrompt::First
    } else if points > 1 {
        PointPrompt::Next
    } else {
        PointPrompt::Last
    }
}

impl Player {
    /// Creates the character `name` from the answers to the five questions
    /// of character creation: starting from one point in each attribute, each
    /// answer puts one more point where it says.
    pub fn create_character(name: &str, selections: &[i32; CREATION_POINTS]) -> (player: Self)
        ensures
            player@ == PlayerView::fresh(name@, allocated(baseline(), selections@)),
            player.stats.total() == 3 + CREATION_POINTS,
            player.stats.valid(),
            player.stats.physique >= 1,
            player.stats.technique >= 1,
            player.stats.mystique >= 1,
    {
        let mut stats = Stats::new(1, 1, 1);
        let mut spent: usize = 0;
        while spent < CREATION_POINTS
            invariant
                spent <= CREATION_POINTS,
                stats == allocated(baseline(), selections@.take(spent as int)),
                stats.total() == 3 + spent,
                1 <= stats.physique <= 1 + spent,
                1 <= stats.technique <= 1 + spent,
                1 <= stats.mystique <= 1 + spent,
            decreases CREATION_POINTS - spent,
        {
            proof {
                let before = selections@.take(spent as int);
                let after = selections@.take(spent as int + 1);
                assert(after.drop_last() == before);
                assert(after.last() == selections@[spent as int]);
            }
            stats = stats.raised(selections[spent]);
            spent += 1;
        }
        assert(selections@.take(CREATION_POINTS as int) == selections@);
        Player::new(name, stats)
    }

    /// A player named `Default` whose three attributes are each drawn by
    /// chance from one to five.
    pub fn create_random() -> (player: Self)
        ensures
            1 <= player.stats.physique <= 5,
            1 <= player.stats.technique <= 5,
            1 <= player.stats.mystique <= 5,
            player@ == PlayerView::fresh("Default"@, player.stats),
    {
        let physique = roll(1, 6) as i32;
        let technique = roll(1, 6) as i32;
        let mystique = roll(1, 6) as i32;
        Player::new("Default", Stats::new(physique, technique, mystique))
    }
}

} // verus!
