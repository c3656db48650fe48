//! The story, as far as it changes the player: the introduction and the flag
//! that records it.

use vstd::prelude::*;
use crate::enemy::{Enemy, EnemyView};
use crate::item::truncated_quotient;
use crate::player::{Player, PlayerView};
use crate::stats::Stats;

verus! {

/// The name of the flag that records the introduction.
pub open spec fn intro_flag() -> Seq<char> {
    "char_intro"@
}

/// The rabid animal of the introduction: a rabbit with one point in each
/// attribute, at full health for them, and unarmed.
pub open spec fn rabbit() -> EnemyView {
    EnemyView {
        name: "Rabbit"@,
        stats: Stats { physique: 1, technique: 1, mystique: 1 },
        health: 32,
        weapon: None,
    }
}

/// Whether the introduction is still to be played: it is for a player with
/// no story behind them.
pub fn story(player: &Player) -> (intro: bool)
    ensures
        intro == !player@.has_begun(),
{
    !player.has_begun()
}

/// Sets the scene of the introduction: the player, robbed and beaten, is
/// left with half of their full health, the half rounded toward zero, and
/// faces the rabbit that is handed out.
pub fn char_intro(player: &mut Player) -> (bunny: Enemy)
    requires
        i32::MIN <= old(player).stats.spec_max_health() <= i32::MAX,
    ensures
        final(player)@ == (PlayerView {
            health: truncated_quotient(old(player).stats.spec_max_health(), 2),
            ..old(player)@
        }),
        bunny@ == rabbit(),
{
    let full = player.stats.max_health();
    player.health = if full >= 0 {
        full / 2
    } else {
        -((-(full as i64)) / 2) as i32
    };
    Enemy::new("Rabbit").with_stats(1, 1, 1)
}

/// Closes the introduction: the flag is recorded, so that it is not played
/// again.
pub fn end_intro(player: &mut Player)
    ensures
        final(player)@ == (PlayerView {
            triggers: old(player)@.triggers.insert(intro_flag(), true),
            ..old(player)@
        }),
        final(player)@.has_begun(),
{
    player.set_trigger("char_intro", true);
    assert(player@.triggers.dom().contains(intro_flag()));
}

} // verus!
