//! The roles a combatant plays in an exchange, and the resolution of one
//! exchange.

use vstd::prelude::*;
use crate::stats::Stats;

verus! {

/// Anyone who can take part in combat.
pub trait Combatant: Sized {
    spec fn spec_stats(&self) -> Stats;

    spec fn spec_name(&self) -> Seq<char>;

    fn get_stats(&self) -> (stats: Stats)
        ensures
            stats == self.spec_stats(),
    ;

    fn name(&self) -> (name: &str)
        ensures
            name@ == self.spec_name(),
    ;
}

/// A combatant that can strike.
pub trait Attacker: Combatant {
    spec fn spec_damage(&self) -> i32;

    /// The damage of one strike, before the target's defense is taken off.
    fn damage(&self) -> (damage: i32)
        ensures
            damage == self.spec_damage(),
    ;
}

/// A combatant that can be struck.
pub trait Defender: Combatant {
    spec fn spec_defense(&self) -> i32;

    spec fn spec_health(&self) -> i32;

    /// This combatant after losing `damage` points of health, everything
    /// else as it was.
    spec fn spec_struck(&self, damage: int) -> Self;

    fn defense(&self) -> (defense: i32)
        ensures
            defense == self.spec_defense(),
    ;

    /// Takes `damage` off the health. Health is not held at zero: it may go
    /// negative.
    fn take_damage(&mut self, damage: i32)
        requires
            i32::MIN <= old(self).spec_health() - damage <= i32::MAX,
        ensures
            *final(self) == old(self).spec_struck(damage as int),
            final(self).spec_health() == old(self).spec_health() - damage,
            final(self).spec_defense() == old(self).spec_defense(),
            final(self).spec_name() == old(self).spec_name(),
            final(self).spec_stats() == old(self).spec_stats(),
    ;
}

/// The damage an exchange applies: what the strike exceeds the defense by,
/// and never less than one.
pub open spec fn resolved_damage(damage: int, defense: int) -> int {
    if damage - defense > 0 {
        damage - defense
    } else {
        1
    }
}

/// No exchange is a miss: the resolved damage is at least one, and exactly
/// one for a strike that does not exceed the defense.
pub proof fn lemma_minimum_damage(damage: int, defense: int)
    ensures
        resolved_damage(damage, defense) >= 1,
        damage <= defense ==> resolved_damage(damage, defense) == 1,
        damage > defense ==> resolved_damage(damage, defense) == damage - defense,
{
}

/// Every blow lands: whatever the health of the one struck, and whatever
/// the strike and the defense, the health left after the resolved damage is
/// strictly less than the health before.
pub proof fn lemma_every_blow_lands(health: int, damage: int, defense: int)
    ensures
        health - resolved_damage(damage, defense) < health,
{
}

/// Anyone still standing can take any blow: where the health is not below
/// minus one and the resolved damage fits a 32-bit integer, so does the
/// health that is left. Only one far below zero already cannot be struck any
/// further.
pub proof fn lemma_blow_can_be_taken(health: i32, damage: int, defense: int)
    requires
        health >= -1,
        resolved_damage(damage, defense) <= i32::MAX,
    ensures
        i32::MIN <= health - resolved_damage(damage, defense) <= i32::MAX,
{
}

/// The report of one exchange: who struck whom, and for how much.
#[derive(Debug)]
pub struct BattleOutcome {
    pub attacker: String,
    pub defender: String,
    pub damage: i32,
}

/// The mathematical content of a [`BattleOutcome`].
pub struct BattleOutcomeView {
    pub attacker: Seq<char>,
    pub defender: Seq<char>,
    pub damage: int,
}

impl View for BattleOutcome {
    type V = BattleOutcomeView;

    open spec fn view(&self) -> BattleOutcomeView {
        BattleOutcomeView {
            attacker: self.attacker@,
            defender: self.defender@,
            damage: self.damage as int,
        }
    }
}

/// Resolves one exchange: `attacker` strikes `defender`, whose health drops
/// by the resolved damage. There is no miss: at least one point is always
/// applied. Whether the defender survived is for the caller to check.
///
/// The resolved damage and the health that is left must fit their type. The
/// health does for every defender whose health is not below minus one: see
/// [`lemma_blow_can_be_taken`].
pub fn combat<A: Attacker, D: Defender>(attacker: &A, defender: &mut D) -> (outcome: BattleOutcome)
    requires
        resolved_damage(attacker.spec_damage() as int, old(defender).spec_defense() as int)
            <= i32::MAX,
        old(defender).spec_health() - resolved_damage(
            attacker.spec_damage() as int,
            old(defender).spec_defense() as int,
        ) >= i32::MIN,
    ensures
        outcome@ == (BattleOutcomeView {
            attacker: attacker.spec_name(),
            defender: old(defender).spec_name(),
            damage: resolved_damage(
                attacker.spec_damage() as int,
                old(defender).spec_defense() as int,
            ),
        }),
        outcome.damage >= 1,
        attacker.spec_damage() <= old(defender).spec_defense() ==> outcome.damage == 1,
        *final(defender) == old(defender).spec_struck(outcome.damage as int),
        final(defender).spec_health() == old(defender).spec_health() - outcome.damage,
        final(defender).spec_health() < old(defender).spec_health(),
        final(defender).spec_defense() == old(defender).spec_defense(),
        final(defender).spec_name() == old(defender).spec_name(),
        final(defender).spec_stats() == old(defender).spec_stats(),
{
    let attacker_damage = attacker.damage();
    let defender_defense = defender.defense();
    let raw: i64 = attacker_damage as i64 - defender_defense as i64;
    let damage: i32 = if raw > 0 {
        raw as i32
    } else {
        1
    };
    let attacker_name = attacker.name().to_owned();
    let defender_name = defender.name().to_owned();
    defender.take_damage(damage);
    BattleOutcome { attacker: attacker_name, defender: defender_name, damage }
}

} // verus!
