//! Putting numbers and the values of the game into words.

use vstd::prelude::*;
use crate::combat::{BattleOutcome, BattleOutcomeView};
use crate::enemy::{Enemy, EnemyView};
use crate::item::{Contents, ContentsView, Item, Weapon, WeaponView};
use crate::stats::Stats;

verus! {

/// The character that stands for the digit `d`.
pub open spec fn digit(d: int) -> char {
    if d == 0 {
        '0'
    } else if d == 1 {
        '1'
    } else if d == 2 {
        '2'
    } else if d == 3 {
        '3'
    } else if d == 4 {
        '4'
    } else if d == 5 {
        '5'
    } else if d == 6 {
        '6'
    } else if d == 7 {
        '7'
    } else if d == 8 {
        '8'
    } else {
        '9'
    }
}

/// A natural number in decimal digits, without leading zeros.
pub open spec fn natural_text(n: nat) -> Seq<char>
    decreases n,
{
    if n < 10 {
        seq![digit(n as int)]
    } else {
        natural_text(n / 10).push(digit((n % 10) as int))
    }
}

/// An integer in decimal digits, with a minus sign in front of a negative
/// one.
pub open spec fn integer_text(n: int) -> Seq<char> {
    if n < 0 {
        seq!['-'] + natural_text((-n) as nat)
    } else {
        natural_text(n as nat)
    }
}

/// The digits after the point for `thousandths` of one, from 1 to 999:
/// three digits, without the zeros at their end.
pub open spec fn fraction_text(thousandths: nat) -> Seq<char> {
    let tenths = digit(thousandths as int / 100);
    let hundredths = digit((thousandths as int / 10) % 10);
    let last = digit(thousandths as int % 10);
    if thousandths % 10 != 0 {
        seq![tenths, hundredths, last]
    } else if (thousandths / 10) % 10 != 0 {
        seq![tenths, hundredths]
    } else {
        seq![tenths]
    }
}

/// A fixed-point number, counted in thousandths, in decimal digits: the
/// whole part, and after a point the fraction, where there is one.
pub open spec fn fixed_text(n: int) -> Seq<char> {
    let size = if n < 0 {
        -n
    } else {
        n
    };
    let sign = if n < 0 {
        seq!['-']
    } else {
        Seq::empty()
    };
    if size % 1000 == 0 {
        sign + natural_text((size / 1000) as nat)
    } else {
        sign + natural_text((size / 1000) as nat) + seq!['.'] + fraction_text((size % 1000) as nat)
    }
}

/// The three attributes in words.
pub open spec fn stats_text(stats: Stats) -> Seq<char> {
    "Physique: "@ + integer_text(stats.physique as int) + ", Technique: "@ + integer_text(
        stats.technique as int,
    ) + ", Mystique: "@ + integer_text(stats.mystique as int)
}

/// A weapon in words: its name, its scale factors, its value and its weight.
pub open spec fn weapon_text(weapon: WeaponView) -> Seq<char> {
    weapon.item.name + ", Physique: "@ + fixed_text(weapon.physique_scale) + ", Technique: "@
        + fixed_text(weapon.technique_scale) + ", Mystique: "@ + fixed_text(weapon.mystique_scale)
        + ", Value: "@ + integer_text(weapon.item.value) + ", Weight: "@ + fixed_text(
        weapon.item.weight,
    )
}

/// An entry of an inventory in words: a weapon in full, a plain item by its
/// name.
pub open spec fn contents_text(entry: ContentsView) -> Seq<char> {
    match entry {
        ContentsView::Weapon(weapon) => weapon_text(weapon),
        ContentsView::Item(item) => item.name,
    }
}

/// An enemy in words: its name and its attributes.
pub open spec fn enemy_text(enemy: EnemyView) -> Seq<char> {
    "Enemy{ name: "@ + enemy.name + ", stats:"@ + stats_text(enemy.stats) + " }"@
}

/// The report of an exchange in words.
pub open spec fn outcome_text(outcome: BattleOutcomeView) -> Seq<char> {
    outcome.attacker + " attacked "@ + outcome.defender + ", for "@ + integer_text(outcome.damage)
        + " damage!"@
}

/// The digit `d` as text.
fn digit_str(d: u32) -> (text: &'static str)
    requires
        d < 10,
    ensures
        text@ == seq![digit(d as int)],
{
    proof {
        reveal_strlit("0");
        reveal_strlit("1");
        reveal_strlit("2");
        reveal_strlit("3");
        reveal_strlit("4");
        reveal_strlit("5");
        reveal_strlit("6");
        reveal_strlit("7");
        reveal_strlit("8");
        reveal_strlit("9");
    }
    let text = if d == 0 {
        "0"
    } else if d == 1 {
        "1"
    } else if d == 2 {
        "2"
    } else if d == 3 {
        "3"
    } else if d == 4 {
        "4"
    } else if d == 5 {
        "5"
    } else if d == 6 {
        "6"
    } else if d == 7 {
        "7"
    } else if d == 8 {
        "8"
    } else {
        "9"
    };
    assert(text@ =~= seq![digit(d as int)]);
    text
}

/// The digits of `n` that stand before its last one, if any.
spec fn leading_text(n: nat) -> Seq<char> {
    if n < 10 {
        Seq::empty()
    } else {
        natural_text(n / 10)
    }
}

/// Writes a natural number in decimal digits.
pub fn natural_to_string(n: u32) -> (text: String)
    ensures
        text@ == natural_text(n as nat),
{
    let mut rest: u32 = n / 10;
    let mut text = digit_str(n % 10).to_owned();
    assert(natural_text(n as nat) =~= leading_text(n as nat) + text@);
    while rest > 0
        invariant
            natural_text(n as nat) == (if rest == 0 {
                Seq::<char>::empty()
            } else {
                natural_text(rest as nat)
            }) + text@,
        decreases rest,
    {
        text = digit_str(rest % 10).to_owned().concat(text.as_str());
        assert(natural_text(rest as nat) =~= leading_text(rest as nat) + seq![
            digit((rest % 10) as int),
        ]);
        assert(natural_text(n as nat) =~= leading_text(rest as nat) + text@);
        rest = rest / 10;
    }
    assert(natural_text(n as nat) =~= text@);
    text
}

/// Writes an integer in decimal digits, with a minus sign in front of a
/// negative one.
pub fn integer_to_string(n: i32) -> (text: String)
    ensures
        text@ == integer_text(n as int),
{
    if n < 0 {
        proof {
            reveal_strlit("-");
        }
        let size = natural_to_string((-(n as i64)) as u32);
        let text = "-".to_owned().concat(size.as_str());
        assert(text@ =~= integer_text(n as int));
        text
    } else {
        natural_to_string(n as u32)
    }
}

/// Writes a fixed-point number, counted in thousandths, in decimal digits.
pub fn fixed_to_string(n: i32) -> (text: String)
    ensures
        text@ == fixed_text(n as int),
{
    proof {
        reveal_strlit("-");
        reveal_strlit(".");
        reveal_strlit("");
    }
    let size: u32 = if n < 0 {
        (-(n as i64)) as u32
    } else {
        n as u32
    };
    let mut text = if n < 0 {
        "-".to_owned()
    } else {
        "".to_owned()
    };
    let whole = natural_to_string(size / 1000);
    text.append(whole.as_str());
    let fraction = size % 1000;
    if fraction != 0 {
        text.append(".");
        text.append(digit_str(fraction / 100));
        if fraction % 10 != 0 {
            text.append(digit_str((fraction / 10) % 10));
            text.append(digit_str(fraction % 10));
        } else if (fraction / 10) % 10 != 0 {
            text.append(digit_str((fraction / 10) % 10));
        }
    }
    assert(text@ =~= fixed_text(n as int));
    text
}

impl Stats {
    /// The attributes in words.
    pub fn describe(&self) -> (text: String)
        ensures
            text@ == stats_text(*self),
    {
        let mut text = "Physique: ".to_owned();
        text.append(integer_to_string(self.physique).as_str());
        text.append(", Technique: ");
        text.append(integer_to_string(self.technique).as_str());
        text.append(", Mystique: ");
        text.append(integer_to_string(self.mystique).as_str());
        text
    }
}

impl Item {
    /// The item in words: its name.
    pub fn describe(&self) -> (text: String)
        ensures
            text@ == self@.name,
    {
        self.name.clone()
    }
}

impl Weapon {
    /// The weapon in words.
    pub fn describe(&self) -> (text: String)
        ensures
            text@ == weapon_text(self@),
    {
        let mut text = self.item.name.clone();
        text.append(", Physique: ");
        text.append(fixed_to_string(self.physique_scale).as_str());
        text.append(", Technique: ");
        text.append(fixed_to_string(self.technique_scale).as_str());
        text.append(", Mystique: ");
        text.append(fixed_to_string(self.mystique_scale).as_str());
        text.append(", Value: ");
        text.append(integer_to_string(self.item.value).as_str());
        text.append(", Weight: ");
        text.append(fixed_to_string(self.item.weight).as_str());
        text
    }
}

impl Contents {
    /// The entry in words.
    pub fn describe(&self) -> (text: String)
        ensures
            text@ == contents_text(self@),
    {
        match self {
            Contents::Weapon(weapon) => weapon.describe(),
            Contents::Item(item) => item.describe(),
        }
    }
}

impl Enemy {
    /// The enemy in words.
    pub fn describe(&self) -> (text: String)
        ensures
            text@ == enemy_text(self@),
    {
        let mut text = "Enemy{ name: ".to_owned();
        text.append(self.name.as_str());
        text.append(", stats:");
        text.append(self.stats.describe().as_str());
        text.append(" }");
        text
    }
}

impl BattleOutcome {
    /// The report in words.
    pub fn describe(&self) -> (text: String)
        ensures
            text@ == outcome_text(self@),
    {
        let mut text = self.attacker.clone();
        text.append(" attacked ");
        text.append(self.defender.as_str());
        text.append(", for ");
        text.append(integer_to_string(self.damage).as_str());
        text.append(" damage!");
        text
    }
}

} // verus!
