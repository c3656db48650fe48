use qrpg::catalog::WeaponRow;
use qrpg::creation::{point_prompt, PointPrompt};
use qrpg::{
    char_intro, end_intro, enemies_from_db, slot_file, slot_path, story, weapons_from_db, Enemy, Item,
    Player, Stats, Weapon,
};

#[test]
fn creation_spends_five_points_from_a_baseline_of_one() {
    let player = Player::create_character("Hero", &[0, 0, 1, 2, 2]);
    assert_eq!(player.name, "Hero");
    assert_eq!(player.stats, Stats::new(3, 2, 3));
    assert_eq!(player.health, 15 + 6 + 12 + 20);
    assert_eq!(player.money, 100);
    let brawler = Player::create_character("Brawler", &[0, 0, 0, 0, 0]);
    assert_eq!(brawler.stats, Stats::new(6, 1, 1));
    assert_eq!(brawler.health, 57);
}

#[test]
fn creation_sends_any_other_answer_to_mystique() {
    let player = Player::create_character("Mage", &[2, 3, -1, 100, 5]);
    assert_eq!(player.stats, Stats::new(1, 1, 6));
    assert_eq!(player.mana, 3 + 4 + 30 + 20);
}

#[test]
fn creation_asks_first_next_and_last() {
    assert_eq!(point_prompt(5), PointPrompt::First);
    assert_eq!(point_prompt(4), PointPrompt::Next);
    assert_eq!(point_prompt(2), PointPrompt::Next);
    assert_eq!(point_prompt(1), PointPrompt::Last);
}

#[test]
fn random_players_are_called_default_and_have_stats_from_one_to_five() {
    let mut seen = [false; 5];
    for _ in 0..400 {
        let player = Player::create_random();
        assert_eq!(player.name, "Default");
        for value in [player.stats.physique, player.stats.technique, player.stats.mystique] {
            assert!((1..=5).contains(&value));
            seen[(value - 1) as usize] = true;
        }
        assert_eq!(player.health, player.stats.max_health());
        assert_eq!(player.stamina, player.stats.max_stamina());
        assert_eq!(player.mana, player.stats.max_mana());
        assert_eq!(player.money, 100);
    }
    // Twelve hundred draws from five values miss none of them.
    assert_eq!(seen, [true; 5]);
}

#[test]
fn random_enemies_come_from_the_list() {
    let names = vec!["Rabbit".to_string(), "Wolf".to_string(), "Bat".to_string()];
    let mut seen = [false; 3];
    for _ in 0..300 {
        let enemy = Enemy::random(enemies_from_db(&names));
        let index = names.iter().position(|name| *name == enemy.name).expect("a listed enemy");
        seen[index] = true;
        assert_eq!(enemy.health, 100);
    }
    assert_eq!(seen, [true; 3]);
    let only = Enemy::random(enemies_from_db(&vec!["Rabbit".to_string()]));
    assert_eq!(only.name, "Rabbit");
}

#[test]
fn pick_hands_out_the_enemy_at_the_index() {
    let names = vec!["Rabbit".to_string(), "Wolf".to_string(), "Bat".to_string()];
    assert_eq!(Enemy::pick(enemies_from_db(&names), 0).name, "Rabbit");
    assert_eq!(Enemy::pick(enemies_from_db(&names), 2).name, "Bat");
}

#[test]
fn enemies_are_built_from_their_names_in_order() {
    let names = vec!["Rabbit".to_string(), "Wolf".to_string()];
    let enemies = enemies_from_db(&names);
    assert_eq!(enemies.len(), 2);
    assert_eq!(enemies[0].name, "Rabbit");
    assert_eq!(enemies[1].name, "Wolf");
    for enemy in &enemies {
        assert_eq!(enemy.health, 100);
        assert_eq!(enemy.stats, Stats::new(0, 0, 0));
        assert!(enemy.weapon.is_none());
    }
    assert!(enemies_from_db(&Vec::new()).is_empty());
}

#[test]
fn weapons_are_built_from_their_rows_in_order() {
    let rows = vec![
        WeaponRow {
            name: "Sword".to_string(),
            weight: 3,
            value: 60,
            physique_scale: 1500,
            technique_scale: 500,
            mystique_scale: 0,
        },
        WeaponRow {
            name: "Staff".to_string(),
            weight: 2,
            value: 150,
            physique_scale: 250,
            technique_scale: 0,
            mystique_scale: 2000,
        },
    ];
    let weapons = weapons_from_db(&rows);
    assert_eq!(
        weapons,
        vec![
            Weapon {
                item: Item::new("Sword", 3000, 60),
                physique_scale: 1500,
                technique_scale: 500,
                mystique_scale: 0,
            },
            Weapon {
                item: Item::new("Staff", 2000, 150),
                physique_scale: 250,
                technique_scale: 0,
                mystique_scale: 2000,
            },
        ]
    );
    assert!(weapons_from_db(&Vec::new()).is_empty());
}

#[test]
fn weapon_rows_are_held_to_what_the_fields_take() {
    let rows = vec![
        WeaponRow {
            name: "Anvil".to_string(),
            weight: 3_000_000,
            value: (1i64 << 32) + 7,
            physique_scale: 0,
            technique_scale: 0,
            mystique_scale: 0,
        },
        WeaponRow {
            name: "Balloon".to_string(),
            weight: i64::MIN,
            value: -1,
            physique_scale: 0,
            technique_scale: 0,
            mystique_scale: 0,
        },
    ];
    let weapons = weapons_from_db(&rows);
    assert_eq!(weapons[0].item.weight, i32::MAX);
    assert_eq!(weapons[0].item.value, 7);
    assert_eq!(weapons[1].item.weight, i32::MIN);
    assert_eq!(weapons[1].item.value, -1);
}

#[test]
fn the_story_opens_with_the_introduction_once() {
    let mut player = Player::new("Hero", Stats::new(2, 2, 2));
    assert!(story(&player));
    let bunny = char_intro(&mut player);
    assert_eq!(player.health, 44 / 2);
    assert_eq!(player.stamina, 44);
    assert_eq!(bunny.name, "Rabbit");
    assert_eq!(bunny.stats, Stats::new(1, 1, 1));
    assert_eq!(bunny.health, 32);
    assert!(bunny.weapon.is_none());
    assert!(story(&player));
    end_intro(&mut player);
    assert_eq!(player.trigger("char_intro"), Some(true));
    assert!(!story(&player));
}

#[test]
fn the_introduction_halves_the_full_health_toward_zero() {
    let mut player = Player::new("Hero", Stats::new(1, 2, 1));
    assert_eq!(player.stats.max_health(), 35);
    player.health = 3;
    char_intro(&mut player);
    assert_eq!(player.health, 17);
    let mut cursed = Player::new("Cursed", Stats::new(-5, 0, 0));
    assert_eq!(cursed.stats.max_health(), -5);
    char_intro(&mut cursed);
    assert_eq!(cursed.health, -2);
}

#[test]
fn any_trigger_counts_as_a_story_begun() {
    let mut player = Player::new("Hero", Stats::new(2, 2, 2));
    player.set_trigger("something_else", false);
    assert!(!story(&player));
}

#[test]
fn each_name_has_its_slot() {
    assert_eq!(slot_file("Hero"), "Hero.txt");
    assert_eq!(slot_path("Hero.txt"), "Players/Hero.txt");
    let player = Player::new("Hero", Stats::new(1, 1, 1));
    assert_eq!(player.slot(), "Players/Hero.txt");
    assert_eq!(player.slot(), slot_path(&slot_file(&player.name)));
    let other = Player::new("Heroine", Stats::new(1, 1, 1));
    assert_ne!(player.slot(), other.slot());
    assert_eq!(qrpg::storage::PLAYERS, "Players/");
}
