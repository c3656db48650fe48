use qrpg::battle::{ATTACK, USE_ITEM};
use qrpg::{
    battle_state, combat, script_battle, Attacker, BattleState, Combatant, Defender, Enemy, Item,
    Player, Stats, Turn, Weapon,
};

fn rabbit() -> Enemy {
    Enemy::new("Rabbit").with_stats(1, 1, 1)
}

#[test]
fn rabbit_has_defense_three() {
    let enemy = Enemy::new("Rabbit");
    assert_eq!(enemy.defense(), 3);
}

#[test]
fn enemy_defense_is_half_the_name_rounded_down() {
    assert_eq!(Enemy::new("").defense(), 0);
    assert_eq!(Enemy::new("A").defense(), 0);
    assert_eq!(Enemy::new("Ab").defense(), 1);
    assert_eq!(Enemy::new("Wolf!").defense(), 2);
    assert_eq!(Enemy::new("Dragonling").defense(), 5);
}

#[test]
fn enemy_defense_counts_characters() {
    // Five characters each, of seven and of six bytes.
    assert_eq!(Enemy::new("Ñandú").defense(), 2);
    assert_eq!(Enemy::new("Élite").defense(), 2);
    // Six characters of three bytes each.
    assert_eq!(Enemy::new("ドラゴンの王").defense(), 3);
    // One character of four bytes.
    assert_eq!(Enemy::new("🐇").defense(), 0);
}

#[test]
fn new_enemy_has_base_health_and_no_stats() {
    let enemy = Enemy::new("Rabbit");
    assert_eq!(enemy.name, "Rabbit");
    assert_eq!(enemy.health, 100);
    assert_eq!(enemy.stats, Stats::new(0, 0, 0));
    assert!(enemy.weapon.is_none());
    assert_eq!(Combatant::name(&enemy), "Rabbit");
    assert_eq!(enemy.get_stats(), Stats::new(0, 0, 0));
}

#[test]
fn with_stats_resets_health_to_the_new_maximum() {
    let armed = Enemy::new("Rabbit").with_weapon("Claw", 1000, 0, 0, 500, 3);
    let enemy = armed.with_stats(1, 1, 1);
    assert_eq!(enemy.name, "Rabbit");
    assert_eq!(enemy.stats, Stats::new(1, 1, 1));
    assert_eq!(enemy.health, 32);
    assert!(enemy.weapon.is_none());
    let strong = enemy.with_stats(10, 5, 6);
    assert_eq!(strong.health, 5 * 10 + 3 * 5 + 4 * 6 + 20);
}

#[test]
fn with_weapon_attaches_the_weapon_and_keeps_the_rest() {
    let enemy = rabbit().with_weapon("Claw", 1500, 250, 0, 2000, 7);
    assert_eq!(enemy.name, "Rabbit");
    assert_eq!(enemy.stats, Stats::new(1, 1, 1));
    assert_eq!(enemy.health, 32);
    let weapon = enemy.weapon.expect("a weapon");
    assert_eq!(weapon.item, Item::new("Claw", 2000, 7));
    assert_eq!(weapon.physique_scale, 1500);
    assert_eq!(weapon.technique_scale, 250);
    assert_eq!(weapon.mystique_scale, 0);
}

#[test]
fn enemy_damage_is_its_physique_even_when_armed() {
    let enemy = Enemy::new("Rabbit").with_stats(10, 5, 6);
    assert_eq!(enemy.damage(), 10);
    let armed = enemy.with_weapon("Club", 5000, 5000, 5000, 1000, 1);
    assert_eq!(armed.damage(), 10);
}

#[test]
fn player_roles_read_the_stats() {
    let player = Player::new("Hero", Stats::new(4, 2, 3));
    assert_eq!(Combatant::name(&player), "Hero");
    assert_eq!(player.get_stats(), Stats::new(4, 2, 3));
    assert_eq!(player.defense(), 4);
    assert_eq!(player.damage(), 9);
}

#[test]
fn unequipped_player_strikes_for_one() {
    let mut player = Player::new("Hero", Stats::new(4, 2, 3));
    player.equipped = None;
    assert_eq!(player.damage(), 1);
}

#[test]
fn take_damage_has_no_floor() {
    let mut player = Player::new("Hero", Stats::new(1, 1, 1));
    player.take_damage(40);
    assert_eq!(player.health, -8);
    let mut enemy = rabbit();
    enemy.take_damage(32);
    assert_eq!(enemy.health, 0);
    enemy.take_damage(5);
    assert_eq!(enemy.health, -5);
}

#[test]
fn unarmed_strong_player_hits_rabbit_for_nine() {
    let player = Player::new("Hero", Stats::new(10, 1, 1));
    let mut enemy = rabbit();
    assert_eq!(player.damage(), 12);
    assert_eq!(enemy.defense(), 3);
    assert_eq!(enemy.health, 32);
    let outcome = combat(&player, &mut enemy);
    assert_eq!(outcome.damage, 9);
    assert_eq!(outcome.attacker, "Hero");
    assert_eq!(outcome.defender, "Rabbit");
    assert_eq!(enemy.health, 23);
    assert_eq!(outcome.describe(), "Hero attacked Rabbit, for 9 damage!");
}

#[test]
fn weak_strike_still_costs_one_point() {
    // The rabbit strikes for 1 against a defense of 10.
    let mut player = Player::new("Hero", Stats::new(10, 1, 1));
    let enemy = rabbit();
    let before = player.health;
    let outcome = combat(&enemy, &mut player);
    assert_eq!(outcome.damage, 1);
    assert_eq!(player.health, before - 1);
}

#[test]
fn equal_strike_and_defense_cost_one_point() {
    // Player strikes for 3 against a defense of 3.
    let player = Player::new("Hero", Stats::new(1, 1, 1));
    let mut enemy = rabbit();
    assert_eq!(player.damage(), enemy.defense());
    let outcome = combat(&player, &mut enemy);
    assert_eq!(outcome.damage, 1);
    assert_eq!(enemy.health, 31);
}

#[test]
fn resolved_damage_is_never_below_one() {
    for physique in 0..12 {
        for length in 0..12 {
            let name = "x".repeat(length);
            let attacker = Enemy::new("Foe").with_stats(physique, 0, 0);
            let mut defender = Enemy::new(&name).with_stats(1, 1, 1);
            let defense = defender.defense();
            let outcome = combat(&attacker, &mut defender);
            assert!(outcome.damage >= 1);
            if physique <= defense {
                assert_eq!(outcome.damage, 1);
            } else {
                assert_eq!(outcome.damage, physique - defense);
            }
            assert_eq!(defender.health, 32 - outcome.damage);
        }
    }
}

#[test]
fn combat_leaves_everything_but_health_alone() {
    let player = Player::new("Hero", Stats::new(10, 1, 1));
    let mut enemy = rabbit().with_weapon("Claw", 1000, 1000, 1000, 0, 0);
    combat(&player, &mut enemy);
    assert_eq!(enemy.name, "Rabbit");
    assert_eq!(enemy.stats, Stats::new(1, 1, 1));
    assert_eq!(enemy.weapon.expect("a weapon").item.name, "Claw");
}

#[test]
fn weapon_damage_weighs_the_stats_and_drops_the_fraction() {
    let holder = Player::new("Hero", Stats::new(3, 5, 7));
    let weapon = Weapon {
        item: Item::new("Wand", 1000, 40),
        physique_scale: 500,
        technique_scale: 250,
        mystique_scale: 2000,
    };
    // 0.5 * 3 + 0.25 * 5 + 2 * 7 = 16.75
    assert_eq!(weapon.damage(&holder), 16);
    let unit = Weapon::unit_scaled(Item::new("Hands", 0, 0));
    assert_eq!(unit.damage(&holder), 15);
    let none = Weapon {
        item: Item::new("Twig", 0, 0),
        physique_scale: 0,
        technique_scale: 0,
        mystique_scale: 0,
    };
    assert_eq!(none.damage(&holder), 0);
}

#[test]
fn weapon_damage_rounds_toward_zero_below_zero() {
    let holder = Player::new("Hero", Stats::new(3, 0, 0));
    let cursed = Weapon {
        item: Item::new("Cursed", 0, 0),
        physique_scale: -500,
        technique_scale: 0,
        mystique_scale: 0,
    };
    // -1.5 is rounded to -1, not to -2.
    assert_eq!(cursed.damage(&holder), -1);
}

#[test]
fn weapon_damage_is_held_to_the_range_of_its_type() {
    let holder = Player::new("Hero", Stats::new(2_000_000, 0, 0));
    let heavy = Weapon {
        item: Item::new("Heavy", 0, 0),
        physique_scale: 2_000_000_000,
        technique_scale: 0,
        mystique_scale: 0,
    };
    assert_eq!(heavy.damage(&holder), i32::MAX);
    let cursed = Weapon {
        item: Item::new("Cursed", 0, 0),
        physique_scale: -2_000_000_000,
        technique_scale: 0,
        mystique_scale: 0,
    };
    assert_eq!(cursed.damage(&holder), i32::MIN);
}

#[test]
fn weapon_damage_scales_with_the_stats() {
    let weapon = Weapon {
        item: Item::new("Wand", 1000, 40),
        physique_scale: 500,
        technique_scale: 250,
        mystique_scale: 2000,
    };
    let unit = Weapon::unit_scaled(Item::new("Hands", 0, 0));
    for k in 0..9 {
        let base = Player::new("Hero", Stats::new(3, 5, 7));
        let scaled = Player::new("Hero", Stats::new(3 * k, 5 * k, 7 * k));
        // 16.75 * k, the fraction dropped.
        assert_eq!(weapon.damage(&scaled), (16750 * k) / 1000);
        let drift = weapon.damage(&scaled) - k * weapon.damage(&base);
        assert!(0 <= drift && (drift < k || k == 0));
        // Nothing is dropped with unit scales: the damage scales exactly.
        assert_eq!(unit.damage(&scaled), k * unit.damage(&base));
    }
}

#[test]
fn battle_state_checks_the_player_first() {
    let mut player = Player::new("Hero", Stats::new(1, 1, 1));
    let mut enemy = rabbit();
    assert_eq!(battle_state(&player, &enemy), BattleState::Ongoing);
    enemy.health = 0;
    assert_eq!(battle_state(&player, &enemy), BattleState::EnemyDefeated);
    player.health = 0;
    assert_eq!(battle_state(&player, &enemy), BattleState::PlayerDefeated);
    enemy.health = 5;
    player.health = -3;
    assert_eq!(battle_state(&player, &enemy), BattleState::PlayerDefeated);
    player.health = 1;
    enemy.health = 1;
    assert_eq!(battle_state(&player, &enemy), BattleState::Ongoing);
}

#[test]
fn enemy_strikes_first_on_equal_technique() {
    let mut player = Player::new("Hero", Stats::new(10, 1, 1));
    let mut enemy = rabbit();
    let turn = script_battle(&mut player, &mut enemy, ATTACK);
    match turn {
        Turn::Exchange { first, second } => {
            assert_eq!(first.attacker, "Rabbit");
            assert_eq!(first.defender, "Hero");
            assert_eq!(first.damage, 1);
            let second = second.expect("the player strikes back");
            assert_eq!(second.attacker, "Hero");
            assert_eq!(second.defender, "Rabbit");
            assert_eq!(second.damage, 9);
        }
        other => panic!("no exchange: {:?}", other),
    }
    assert_eq!(player.health, 77 - 1);
    assert_eq!(enemy.health, 32 - 9);
}

#[test]
fn player_strikes_first_with_better_technique() {
    let mut player = Player::new("Hero", Stats::new(10, 2, 1));
    let mut enemy = rabbit();
    let turn = script_battle(&mut player, &mut enemy, ATTACK);
    match turn {
        Turn::Exchange { first, second } => {
            assert_eq!(first.attacker, "Hero");
            assert_eq!(first.damage, 13 - 3);
            assert_eq!(second.expect("the rabbit strikes back").attacker, "Rabbit");
        }
        other => panic!("no exchange: {:?}", other),
    }
    assert_eq!(enemy.health, 22);
    assert_eq!(player.health, 5 * 10 + 3 * 2 + 4 + 20 - 1);
}

#[test]
fn the_fallen_do_not_strike_back() {
    let mut player = Player::new("Hero", Stats::new(10, 2, 1));
    let mut enemy = rabbit();
    enemy.health = 10;
    let before = player.health;
    let turn = script_battle(&mut player, &mut enemy, ATTACK);
    match turn {
        Turn::Exchange { first, second } => {
            assert_eq!(first.attacker, "Hero");
            assert!(second.is_none());
        }
        other => panic!("no exchange: {:?}", other),
    }
    assert_eq!(enemy.health, 0);
    assert_eq!(player.health, before);
    assert_eq!(battle_state(&player, &enemy), BattleState::EnemyDefeated);

    let mut player = Player::new("Hero", Stats::new(10, 1, 1));
    let mut enemy = rabbit();
    player.health = 1;
    let turn = script_battle(&mut player, &mut enemy, ATTACK);
    match turn {
        Turn::Exchange { first, second } => {
            assert_eq!(first.attacker, "Rabbit");
            assert!(second.is_none());
        }
        other => panic!("no exchange: {:?}", other),
    }
    assert_eq!(player.health, 0);
    assert_eq!(enemy.health, 32);
    assert_eq!(battle_state(&player, &enemy), BattleState::PlayerDefeated);
}

#[test]
fn items_and_flight_change_nothing() {
    let mut player = Player::new("Hero", Stats::new(10, 1, 1));
    let mut enemy = rabbit();
    assert!(matches!(script_battle(&mut player, &mut enemy, USE_ITEM), Turn::NoItems));
    assert!(matches!(script_battle(&mut player, &mut enemy, 2), Turn::FleeRefused));
    assert!(matches!(script_battle(&mut player, &mut enemy, 9), Turn::FleeRefused));
    assert!(matches!(script_battle(&mut player, &mut enemy, -1), Turn::FleeRefused));
    assert_eq!(player.health, 77);
    assert_eq!(enemy.health, 32);
    assert_eq!(battle_state(&player, &enemy), BattleState::Ongoing);
}

#[test]
fn a_finished_battle_plays_no_turn() {
    let mut player = Player::new("Hero", Stats::new(10, 1, 1));
    let mut enemy = rabbit();
    enemy.health = 0;
    assert!(matches!(script_battle(&mut player, &mut enemy, ATTACK), Turn::EnemyDefeated));
    assert_eq!(player.health, 77);
    assert_eq!(enemy.health, 0);
    player.health = 0;
    assert!(matches!(script_battle(&mut player, &mut enemy, ATTACK), Turn::PlayerDefeated));
    assert_eq!(player.health, 0);
    assert_eq!(enemy.health, 0);
}

#[test]
fn a_battle_of_attacks_ends() {
    let mut player = Player::new("Hero", Stats::new(1, 1, 1));
    let mut enemy = Enemy::new("Rat").with_stats(3, 1, 1);
    let mut turns = 0;
    while battle_state(&player, &enemy) == BattleState::Ongoing {
        let total = player.health + enemy.health;
        script_battle(&mut player, &mut enemy, ATTACK);
        assert!(player.health + enemy.health < total);
        turns += 1;
        assert!(turns <= 64);
    }
    // Each side takes 2 a turn, the player from 32 and the rat from 42, and
    // the rat strikes first: the player falls in the sixteenth turn, before
    // striking a sixteenth time.
    assert_eq!(turns, 16);
    assert_eq!(battle_state(&player, &enemy), BattleState::PlayerDefeated);
    assert_eq!(player.health, 0);
    assert_eq!(enemy.health, 42 - 2 * 15);
}

#[test]
fn blows_fit_unless_a_defense_is_far_below_zero() {
    let player = Player::new("Hero", Stats::new(10, 1, 1));
    let enemy = rabbit();
    assert!(qrpg::blows_fit(&player, &enemy));
    let mut odd = Player::new("Odd", Stats::new(1, 1, 1));
    odd.stats.physique = i32::MIN;
    let strong = Enemy::new("Ogre").with_stats(1000, 1, 1);
    assert!(!qrpg::blows_fit(&odd, &strong));
}

#[test]
fn default_enemy_is_empty() {
    let enemy = Enemy::default();
    assert_eq!(enemy.name, "");
    assert_eq!(enemy.health, 0);
    assert_eq!(enemy.stats, Stats::default());
    assert!(enemy.weapon.is_none());
    assert_eq!(enemy.defense(), 0);
    assert_eq!(enemy.damage(), 0);
}
