//! The turn-based battle between the player and one enemy.
//!
//! A battle is a sequence of turns. Before each turn the caller shows the
//! state and asks the player what to do; [`script_battle`] then plays the
//! turn. The battle is over once either side is defeated.

use vstd::prelude::*;
use crate::combat::{combat, resolved_damage, Attacker, BattleOutcome, BattleOutcomeView, Defender};
use crate::enemy::{Enemy, EnemyView};
use crate::player::{Player, PlayerView};

verus! {

/// Where a battle stands at the start of a turn.
#[derive(Clone, Copy, Debug, PartialEq, Eq, Structural)]
pub enum BattleState {
    Ongoing,
    PlayerDefeated,
    EnemyDefeated,
}

/// The selection that stands for an attack.
pub const ATTACK: i32 = 0;

/// The selection that stands for using an item.
pub const USE_ITEM: i32 = 1;

/// What one turn of a battle came to.
#[derive(Debug)]
pub enum Turn {
    /// The player was already defeated: nothing was done.
    PlayerDefeated,
    /// The enemy was already defeated: nothing was done.
    EnemyDefeated,
    /// Blows were exchanged: the first always, the second if its author
    /// survived the first.
    Exchange { first: BattleOutcome, second: Option<BattleOutcome> },
    /// The player asked for an item and has none to use.
    NoItems,
    /// The player tried to flee and was held back.
    FleeRefused,
}

/// The mathematical content of a [`Turn`].
pub enum TurnView {
    PlayerDefeated,
    EnemyDefeated,
    Exchange { first: BattleOutcomeView, second: Option<BattleOutcomeView> },
    NoItems,
    FleeRefused,
}

impl View for Turn {
    type V = TurnView;

    open spec fn view(&self) -> TurnView {
        match self {
            Turn::PlayerDefeated => TurnView::PlayerDefeated,
            Turn::EnemyDefeated => TurnView::EnemyDefeated,
            Turn::Exchange { first, second } => TurnView::Exchange {
                first: first@,
                second: match second {
                    Some(outcome) => Some(outcome@),
                    None => None,
                },
            },
            Turn::NoItems => TurnView::NoItems,
            Turn::FleeRefused => TurnView::FleeRefused,
        }
    }
}

/// A combatant is defeated once its health is below one.
pub open spec fn state_of(player: PlayerView, enemy: EnemyView) -> BattleState {
    if player.health < 1 {
        BattleState::PlayerDefeated
    } else if enemy.health < 1 {
        BattleState::EnemyDefeated
    } else {
        BattleState::Ongoing
    }
}

/// The enemy strikes first unless the player has the better technique.
pub open spec fn enemy_strikes_first(player: PlayerView, enemy: EnemyView) -> bool {
    enemy.stats.technique >= player.stats.technique
}

/// The report of the enemy striking the player.
pub open spec fn enemy_blow(player: PlayerView, enemy: EnemyView) -> BattleOutcomeView {
    BattleOutcomeView {
        attacker: enemy.name,
        defender: player.name,
        damage: resolved_damage(enemy.damage(), player.defense()),
    }
}

/// The report of the player striking the enemy.
pub open spec fn player_blow(player: PlayerView, enemy: EnemyView) -> BattleOutcomeView {
    BattleOutcomeView {
        attacker: player.name,
        defender: enemy.name,
        damage: resolved_damage(player.damage(), enemy.defense()),
    }
}

/// The two blows that the sides can deal each other fit the type that their
/// damage is reported in.
pub open spec fn blows_in_range(player: PlayerView, enemy: EnemyView) -> bool {
    &&& enemy_blow(player, enemy).damage <= i32::MAX
    &&& player_blow(player, enemy).damage <= i32::MAX
}

/// The player after the enemy has struck.
pub open spec fn player_struck(player: PlayerView, enemy: EnemyView) -> PlayerView {
    PlayerView { health: player.health - enemy_blow(player, enemy).damage, ..player }
}

/// The enemy after the player has struck.
pub open spec fn enemy_struck(player: PlayerView, enemy: EnemyView) -> EnemyView {
    EnemyView { health: enemy.health - player_blow(player, enemy).damage, ..enemy }
}

/// An attack: the first blow always falls, and the second only if the side
/// that was struck is still standing. Given are both sides after it and the
/// reports of the blows.
pub open spec fn attack(player: PlayerView, enemy: EnemyView) -> (PlayerView, EnemyView, TurnView) {
    if enemy_strikes_first(player, enemy) {
        let hurt = player_struck(player, enemy);
        if hurt.health > 0 {
            (
                hurt,
                enemy_struck(hurt, enemy),
                TurnView::Exchange {
                    first: enemy_blow(player, enemy),
                    second: Some(player_blow(hurt, enemy)),
                },
            )
        } else {
            (hurt, enemy, TurnView::Exchange { first: enemy_blow(player, enemy), second: None })
        }
    } else {
        let hurt = enemy_struck(player, enemy);
        if hurt.health > 0 {
            (
                player_struck(player, hurt),
                hurt,
                TurnView::Exchange {
                    first: player_blow(player, enemy),
                    second: Some(enemy_blow(player, hurt)),
                },
            )
        } else {
            (player, hurt, TurnView::Exchange { first: player_blow(player, enemy), second: None })
        }
    }
}

/// One turn: both sides after it, and what it came to. Only an attack in a
/// battle that is still on changes anything.
pub open spec fn turn_of(player: PlayerView, enemy: EnemyView, choice: int) -> (
    PlayerView,
    EnemyView,
    TurnView,
) {
    match state_of(player, enemy) {
        BattleState::PlayerDefeated => (player, enemy, TurnView::PlayerDefeated),
        BattleState::EnemyDefeated => (player, enemy, TurnView::EnemyDefeated),
        BattleState::Ongoing => if choice == ATTACK {
            attack(player, enemy)
        } else if choice == USE_ITEM {
            (player, enemy, TurnView::NoItems)
        } else {
            (player, enemy, TurnView::FleeRefused)
        },
    }
}

/// No blow of a battle is a miss: whatever the state of the two sides, the
/// one struck is left with strictly less health, by at least one point.
pub proof fn lemma_no_blow_misses(player: PlayerView, enemy: EnemyView)
    ensures
        enemy_blow(player, enemy).damage >= 1,
        player_blow(player, enemy).damage >= 1,
        player_struck(player, enemy).health < player.health,
        enemy_struck(player, enemy).health < enemy.health,
{
}

/// Where no defense is negative, both blows fit the type that their damage
/// is reported in: no strike is larger than that type allows.
pub proof fn lemma_blows_fit(player: PlayerView, enemy: EnemyView)
    requires
        player.defense() >= 0,
        enemy.defense() >= 0,
    ensures
        blows_in_range(player, enemy),
{
}

/// Every attack wears someone down: while the battle is on, an attack takes
/// at least one point of health from whoever is struck first, and adds none
/// to anyone. So a battle of attacks alone comes to an end.
pub proof fn lemma_attack_wears_down(player: PlayerView, enemy: EnemyView)
    requires
        state_of(player, enemy) == BattleState::Ongoing,
    ensures
        attack(player, enemy).0.health <= player.health,
        attack(player, enemy).1.health <= enemy.health,
        attack(player, enemy).0.health + attack(player, enemy).1.health < player.health
            + enemy.health,
{
}

/// A turn changes nothing but the health of the two sides.
pub proof fn lemma_turn_changes_health_only(player: PlayerView, enemy: EnemyView, choice: int)
    ensures
        turn_of(player, enemy, choice).0 == (PlayerView {
            health: turn_of(player, enemy, choice).0.health,
            ..player
        }),
        turn_of(player, enemy, choice).1 == (EnemyView {
            health: turn_of(player, enemy, choice).1.health,
            ..enemy
        }),
{
}

/// Where the battle stands before the next turn.
pub fn battle_state(player: &Player, enemy: &Enemy) -> (state: BattleState)
    ensures
        state == state_of(player@, enemy@),
{
    if player.health < 1 {
        BattleState::PlayerDefeated
    } else if enemy.health < 1 {
        BattleState::EnemyDefeated
    } else {
        BattleState::Ongoing
    }
}

/// Whether a turn can be played between the two: whether both blows fit the
/// type that their damage is reported in.
pub fn blows_fit(player: &Player, enemy: &Enemy) -> (fit: bool)
    ensures
        fit == blows_in_range(player@, enemy@),
{
    let high = i32::MAX as i64;
    enemy.damage() as i64 - player.defense() as i64 <= high && player.damage() as i64
        - enemy.defense() as i64 <= high
}

/// Plays one turn of the battle.
///
/// A side that is already defeated ends the battle and nothing is done.
/// Otherwise `choice` is the player's selection among attacking, using an
/// item and fleeing, in that order. On an attack the side with the better
/// technique strikes first, the enemy on a tie, and the other side strikes
/// back only if it is still standing. Neither an item nor flight is to be
/// had in this battle: both leave everything as it was.
///
/// The damage of a blow is reported as a 32-bit integer, so both blows have
/// to fit one. They do whenever no defense is negative.
pub fn script_battle(player: &mut Player, enemy: &mut Enemy, choice: i32) -> (turn: Turn)
    requires
        blows_in_range(old(player)@, old(enemy)@),
    ensures
        (final(player)@, final(enemy)@, turn@) == turn_of(
            old(player)@,
            old(enemy)@,
            choice as int,
        ),
{
    if player.health < 1 {
        return Turn::PlayerDefeated;
    }
    if enemy.health < 1 {
        return Turn::EnemyDefeated;
    }
    if choice == ATTACK {
        if enemy.stats.technique >= player.stats.technique {
            let first = combat(&*enemy, player);
            let second = if player.health > 0 {
                Some(combat(&*player, enemy))
            } else {
                None
            };
            Turn::Exchange { first, second }
        } else {
            let first = combat(&*player, enemy);
            let second = if enemy.health > 0 {
                Some(combat(&*enemy, player))
            } else {
                None
            };
            Turn::Exchange { first, second }
        }
    } else if choice == USE_ITEM {
        Turn::NoItems
    } else {
        Turn::FleeRefused
    }
}

} // verus!
