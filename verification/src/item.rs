//! Items, weapons and the entries of an inventory.
//!
//! Weights and weapon scale factors are fixed-point numbers counted in
//! thousandths: `1000` stands for one, `1500` for one and a half.

use vstd::arithmetic::div_mod::{lemma_fundamental_div_mod, lemma_hoist_over_denominator};
use vstd::math::abs;
use vstd::prelude::*;
use vstd::std_specs::cmp::PartialEqSpecImpl;
use crate::combat::Combatant;
use crate::stats::Stats;

verus! {

/// The fixed-point representation of one.
pub const UNIT: i32 = 1000;

/// The quotient of `n` by a positive `d`, rounded toward zero.
pub open spec fn truncated_quotient(n: int, d: int) -> int {
    if n >= 0 {
        n / d
    } else {
        -((-n) / d)
    }
}

/// The nearest value to `n` that a 32-bit signed integer can hold.
pub open spec fn saturated(n: int) -> int {
    if n > i32::MAX {
        i32::MAX as int
    } else if n < i32::MIN {
        i32::MIN as int
    } else {
        n
    }
}

/// What rounding toward zero drops from `n`: it has the sign of `n` and is
/// smaller than `d` in size.
pub open spec fn truncated_remainder(n: int, d: int) -> int {
    n - d * truncated_quotient(n, d)
}

/// Something that can be carried, bought and sold.
#[derive(Debug)]
pub struct Item {
    pub name: String,
    /// In thousandths of a unit of weight.
    pub weight: i32,
    pub value: i32,
}

/// The mathematical content of an [`Item`].
pub struct ItemView {
    pub name: Seq<char>,
    pub weight: int,
    pub value: int,
}

impl View for Item {
    type V = ItemView;

    open spec fn view(&self) -> ItemView {
        ItemView { name: self.name@, weight: self.weight as int, value: self.value as int }
    }
}

impl Item {
    /// The item of that name, weight, in thousandths, and value.
    pub fn new(name: &str, weight: i32, value: i32) -> (item: Self)
        ensures
            item@ == (ItemView { name: name@, weight: weight as int, value: value as int }),
    {
        Item { name: name.to_owned(), weight, value }
    }
}

impl Default for Item {
    fn default() -> (item: Self)
        ensures
            item@ == (ItemView { name: Seq::empty(), weight: 0, value: 0 }),
    {
        Item { name: String::new(), weight: 0, value: 0 }
    }
}

impl PartialEq for Item {
    fn eq(&self, other: &Self) -> (equal: bool) {
        self.name == other.name && self.weight == other.weight && self.value == other.value
    }
}

impl PartialEqSpecImpl for Item {
    open spec fn obeys_eq_spec() -> bool {
        true
    }

    open spec fn eq_spec(&self, other: &Self) -> bool {
        self@ == other@
    }
}

impl Clone for Item {
    fn clone(&self) -> (copy: Self)
        ensures
            copy == *self,
    {
        Item { name: self.name.clone(), weight: self.weight, value: self.value }
    }
}

/// An item whose damage grows with the attributes of whoever wields it.
#[derive(Debug)]
pub struct Weapon {
    pub item: Item,
    /// Damage per point of physique, in thousandths.
    pub physique_scale: i32,
    /// Damage per point of technique, in thousandths.
    pub technique_scale: i32,
    /// Damage per point of mystique, in thousandths.
    pub mystique_scale: i32,
}

/// The mathematical content of a [`Weapon`].
pub struct WeaponView {
    pub item: ItemView,
    pub physique_scale: int,
    pub technique_scale: int,
    pub mystique_scale: int,
}

impl View for Weapon {
    type V = WeaponView;

    open spec fn view(&self) -> WeaponView {
        WeaponView {
            item: self.item@,
            physique_scale: self.physique_scale as int,
            technique_scale: self.technique_scale as int,
            mystique_scale: self.mystique_scale as int,
        }
    }
}

impl WeaponView {
    /// The bare fists every player starts with: weightless, worthless, and
    /// scaling one for one with each attribute.
    pub open spec fn hands() -> WeaponView {
        WeaponView {
            item: ItemView { name: "Hands"@, weight: 0, value: 0 },
            physique_scale: UNIT as int,
            technique_scale: UNIT as int,
            mystique_scale: UNIT as int,
        }
    }

    /// The same item with every scale factor reset to one.
    pub open spec fn normalized(self) -> WeaponView {
        WeaponView {
            item: self.item,
            physique_scale: UNIT as int,
            technique_scale: UNIT as int,
            mystique_scale: UNIT as int,
        }
    }

    /// The attributes weighted by the scale factors, in thousandths of a
    /// point of damage.
    pub open spec fn weighted_sum(self, physique: int, technique: int, mystique: int) -> int {
        self.physique_scale * physique + self.technique_scale * technique + self.mystique_scale
            * mystique
    }

    /// The weighted sum in whole points, the fraction dropped toward zero.
    pub open spec fn exact_damage(self, physique: int, technique: int, mystique: int) -> int {
        truncated_quotient(self.weighted_sum(physique, technique, mystique), UNIT as int)
    }

    /// The thousandths of a point that [`Self::exact_damage`] drops.
    pub open spec fn dropped(self, physique: int, technique: int, mystique: int) -> int {
        truncated_remainder(self.weighted_sum(physique, technique, mystique), UNIT as int)
    }

    /// The damage this weapon deals in the hands of someone with `stats`.
    pub open spec fn damage(self, stats: Stats) -> int {
        saturated(
            self.exact_damage(
                stats.physique as int,
                stats.technique as int,
                stats.mystique as int,
            ),
        )
    }
}

impl Weapon {
    /// The name of the weapon: that of its item.
    pub fn name(&self) -> (name: &str)
        ensures
            name@ == self@.item.name,
    {
        self.item.name.as_str()
    }

    /// The weapon that `item` makes with every scale factor at one.
    pub fn unit_scaled(item: Item) -> (weapon: Self)
        ensures
            weapon.item == item,
            weapon@ == (WeaponView {
                item: item@,
                physique_scale: UNIT as int,
                technique_scale: UNIT as int,
                mystique_scale: UNIT as int,
            }),
    {
        Weapon { item, physique_scale: UNIT, technique_scale: UNIT, mystique_scale: UNIT }
    }

    /// The damage this weapon deals in the hands of `attacker`: its
    /// attributes weighted by the scale factors, in whole points, limited to
    /// what the result type can hold.
    pub fn damage<A: Combatant>(&self, attacker: &A) -> (damage: i32)
        ensures
            damage == self@.damage(attacker.spec_stats()),
    {
        let stats = attacker.get_stats();
        proof {
            lemma_product_bound(self.physique_scale, stats.physique);
            lemma_product_bound(self.technique_scale, stats.technique);
            lemma_product_bound(self.mystique_scale, stats.mystique);
        }
        let sum: i128 = (self.physique_scale as i128) * (stats.physique as i128) + (
        self.technique_scale as i128) * (stats.technique as i128) + (self.mystique_scale as i128)
            * (stats.mystique as i128);
        let whole: i128 = if sum >= 0 {
            sum / 1000
        } else {
            -((-sum) / 1000)
        };
        if whole > i32::MAX as i128 {
            i32::MAX
        } else if whole < i32::MIN as i128 {
            i32::MIN
        } else {
            whole as i32
        }
    }
}

impl PartialEq for Weapon {
    fn eq(&self, other: &Self) -> (equal: bool) {
        self.item == other.item && self.physique_scale == other.physique_scale
            && self.technique_scale == other.technique_scale && self.mystique_scale
            == other.mystique_scale
    }
}

impl PartialEqSpecImpl for Weapon {
    open spec fn obeys_eq_spec() -> bool {
        true
    }

    open spec fn eq_spec(&self, other: &Self) -> bool {
        self@ == other@
    }
}

impl Clone for Weapon {
    fn clone(&self) -> (copy: Self)
        ensures
            copy == *self,
    {
        Weapon {
            item: self.item.clone(),
            physique_scale: self.physique_scale,
            technique_scale: self.technique_scale,
            mystique_scale: self.mystique_scale,
        }
    }
}

/// The view of a slot that holds a weapon or nothing.
pub open spec fn slot_view(slot: Option<Weapon>) -> Option<WeaponView> {
    match slot {
        Some(weapon) => Some(weapon@),
        None => None,
    }
}

/// One entry of an inventory: a plain item or a weapon.
#[derive(Debug)]
pub enum Contents {
    Item(Item),
    Weapon(Weapon),
}

/// The mathematical content of a [`Contents`].
pub enum ContentsView {
    Item(ItemView),
    Weapon(WeaponView),
}

impl View for Contents {
    type V = ContentsView;

    open spec fn view(&self) -> ContentsView {
        match self {
            Contents::Item(item) => ContentsView::Item(item@),
            Contents::Weapon(weapon) => ContentsView::Weapon(weapon@),
        }
    }
}

impl ContentsView {
    /// The name the entry is listed under.
    pub open spec fn name(self) -> Seq<char> {
        match self {
            ContentsView::Item(item) => item.name,
            ContentsView::Weapon(weapon) => weapon.item.name,
        }
    }
}

impl PartialEq for Contents {
    fn eq(&self, other: &Self) -> (equal: bool) {
        match (self, other) {
            (Contents::Item(mine), Contents::Item(theirs)) => mine == theirs,
            (Contents::Weapon(mine), Contents::Weapon(theirs)) => mine == theirs,
            _ => false,
        }
    }
}

impl PartialEqSpecImpl for Contents {
    open spec fn obeys_eq_spec() -> bool {
        true
    }

    open spec fn eq_spec(&self, other: &Self) -> bool {
        self@ == other@
    }
}

impl Clone for Contents {
    fn clone(&self) -> (copy: Self)
        ensures
            copy == *self,
    {
        match self {
            Contents::Item(item) => Contents::Item(item.clone()),
            Contents::Weapon(weapon) => Contents::Weapon(weapon.clone()),
        }
    }
}

/// The views of the entries of an inventory, in order.
pub open spec fn inventory_view(entries: Seq<Contents>) -> Seq<ContentsView> {
    entries.map_values(|entry: Contents| entry@)
}

/// The product of two 32-bit values stays within 63 bits.
proof fn lemma_product_bound(a: i32, b: i32)
    ensures
        -0x4000_0000_0000_0000 <= a * b <= 0x4000_0000_0000_0000,
{
    assert(-0x4000_0000_0000_0000 <= a * b <= 0x4000_0000_0000_0000) by (nonlinear_arith)
        requires
            -0x8000_0000 <= a <= 0x7fff_ffff,
            -0x8000_0000 <= b <= 0x7fff_ffff,
    ;
}

/// For a non-negative amount, counted in thousandths, `k` times the amount
/// holds `k` times its whole units, and the whole units that the `k` dropped
/// fractions add up to.
proof fn lemma_scaled_quotient_nonnegative(n: int, k: int)
    requires
        n >= 0,
        k >= 0,
    ensures
        k * n >= 0,
        0 <= n % 1000 < 1000,
        k * (n % 1000) >= 0,
        (k * n) / 1000 == k * (n / 1000) + (k * (n % 1000)) / 1000,
        k >= 1 ==> (k * (n % 1000)) / 1000 < k,
{
    let q = n / 1000;
    let r = n % 1000;
    lemma_fundamental_div_mod(n, 1000);
    assert(k * n == k * r + (k * q) * 1000 && k * n >= 0 && k * r >= 0) by (nonlinear_arith)
        requires
            n == 1000 * q + r,
            n >= 0,
            r >= 0,
            k >= 0,
    ;
    lemma_hoist_over_denominator(k * r, k * q, 1000);
    if k >= 1 {
        assert((k * r) / 1000 < k) by (nonlinear_arith)
            requires
                0 <= r < 1000,
                k >= 1,
        ;
    }
}

/// Rounding toward zero and scaling by a factor that is not negative: `k`
/// times an amount holds `k` times its whole units, and the whole units that
/// the `k` dropped parts add up to, which are fewer than `k`.
proof fn lemma_truncated_quotient_scales_up(n: int, k: int)
    requires
        k >= 0,
    ensures
        truncated_quotient(k * n, 1000) == k * truncated_quotient(n, 1000) + truncated_quotient(
            k * truncated_remainder(n, 1000),
            1000,
        ),
        k >= 1 ==> -k < truncated_quotient(k * truncated_remainder(n, 1000), 1000) < k,
        k == 0 ==> truncated_quotient(k * truncated_remainder(n, 1000), 1000) == 0,
{
    if n >= 0 {
        lemma_scaled_quotient_nonnegative(n, k);
        lemma_fundamental_div_mod(n, 1000);
        assert(truncated_remainder(n, 1000) == n % 1000);
        if k == 0 {
            assert(k * (n % 1000) == 0) by (nonlinear_arith)
                requires
                    k == 0,
            ;
        }
    } else {
        let m = -n;
        lemma_scaled_quotient_nonnegative(m, k);
        lemma_fundamental_div_mod(m, 1000);
        assert(truncated_remainder(n, 1000) == -(m % 1000));
        let r = m % 1000;
        let q = m / 1000;
        assert(k * n == -(k * m) && k * (-r) == -(k * r) && k * (-q) == -(k * q))
            by (nonlinear_arith)
            requires
                m == -n,
        ;
        if k == 0 {
            assert(k * r == 0 && k * m == 0) by (nonlinear_arith)
                requires
                    k == 0,
            ;
        }
    }
}

/// Rounding toward zero and scaling by any factor: as for a factor that is
/// not negative, with every sign turned for one that is.
proof fn lemma_truncated_quotient_scales(n: int, k: int)
    ensures
        truncated_quotient(k * n, 1000) == k * truncated_quotient(n, 1000) + truncated_quotient(
            k * truncated_remainder(n, 1000),
            1000,
        ),
        k != 0 ==> -abs(k) < truncated_quotient(k * truncated_remainder(n, 1000), 1000) < abs(k),
        k == 0 ==> truncated_quotient(k * truncated_remainder(n, 1000), 1000) == 0,
{
    if k >= 0 {
        lemma_truncated_quotient_scales_up(n, k);
    } else {
        let up = -k;
        let q = truncated_quotient(n, 1000);
        let r = truncated_remainder(n, 1000);
        lemma_truncated_quotient_scales_up(n, up);
        assert(k * n == -(up * n) && k * q == -(up * q) && k * r == -(up * r))
            by (nonlinear_arith)
            requires
                up == -k,
        ;
    }
}

/// Damage is linear in the attributes of the attacker. With all three
/// attributes scaled by `k`, the weighted sum is scaled by `k` exactly, and
/// the damage in whole points is `k` times what it was, together with the
/// whole points that the `k` dropped fractions add up to: fewer than `k` in
/// size, and none where nothing was dropped.
///
/// This is said of the damage before it is held to the range of its type.
pub proof fn lemma_damage_linear(
    weapon: WeaponView,
    physique: int,
    technique: int,
    mystique: int,
    k: int,
)
    ensures
        weapon.weighted_sum(k * physique, k * technique, k * mystique) == k * weapon.weighted_sum(
            physique,
            technique,
            mystique,
        ),
        weapon.exact_damage(k * physique, k * technique, k * mystique) == k * weapon.exact_damage(
            physique,
            technique,
            mystique,
        ) + truncated_quotient(k * weapon.dropped(physique, technique, mystique), UNIT as int),
        k != 0 ==> -abs(k) < weapon.exact_damage(k * physique, k * technique, k * mystique) - k
            * weapon.exact_damage(physique, technique, mystique) < abs(k),
        k == 0 || weapon.dropped(physique, technique, mystique) == 0 ==> weapon.exact_damage(
            k * physique,
            k * technique,
            k * mystique,
        ) == k * weapon.exact_damage(physique, technique, mystique),
{
    let sum = weapon.weighted_sum(physique, technique, mystique);
    let a = weapon.physique_scale;
    let b = weapon.technique_scale;
    let c = weapon.mystique_scale;
    assert(a * (k * physique) == k * (a * physique)) by (nonlinear_arith);
    assert(b * (k * technique) == k * (b * technique)) by (nonlinear_arith);
    assert(c * (k * mystique) == k * (c * mystique)) by (nonlinear_arith);
    let x = a * physique;
    let y = b * technique;
    let z = c * mystique;
    assert(k * x + k * y + k * z == k * (x + y + z)) by (nonlinear_arith);
    lemma_truncated_quotient_scales(sum, k);
    if weapon.dropped(physique, technique, mystique) == 0 {
        assert(k * 0 == 0);
    }
}

} // verus!
