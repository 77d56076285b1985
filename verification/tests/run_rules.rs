use topdown_shooter::assets::paths;
use topdown_shooter::assets::sprites::{enemy_run, player_idle, player_run};
use topdown_shooter::culling::take_marked;
use topdown_shooter::enemies::{
    random_animation_fps, random_enemy_speed, spawn_batch_size, EnemyRoster,
};
use topdown_shooter::game_run::{frame_event, pay_for_upgrade, RunEvent};
use topdown_shooter::input::{keyboard_direction, AimMode};
use topdown_shooter::inventory::{Inventory, InventoryItem};
use topdown_shooter::run_state::{material_total, RunState};
use topdown_shooter::settings::Settings;
use topdown_shooter::shop::{upgrade_cost, upgrades, UpgradeKind};

#[test]
fn settings_start_with_mouse_aim() {
    assert_eq!(Settings::new().aim_mode, AimMode::Mouse);
}

#[test]
fn keyboard_direction_decodes_each_key() {
    assert_eq!(keyboard_direction(false, false, false, false), (0, 0));
    assert_eq!(keyboard_direction(true, false, false, false), (-1, 0));
    assert_eq!(keyboard_direction(false, true, false, false), (1, 0));
    assert_eq!(keyboard_direction(false, false, true, false), (0, -1));
    assert_eq!(keyboard_direction(false, false, false, true), (0, 1));
    assert_eq!(keyboard_direction(false, true, false, true), (1, 1));
}

#[test]
fn keyboard_direction_left_and_up_win_ties() {
    assert_eq!(keyboard_direction(true, true, true, true), (-1, -1));
    assert_eq!(keyboard_direction(true, true, false, false), (-1, 0));
    assert_eq!(keyboard_direction(false, false, true, true), (0, -1));
}

#[test]
fn shop_lists_upgrades_in_order() {
    let table = upgrades();
    assert_eq!(table.len(), 4);
    let kinds: Vec<UpgradeKind> = table.iter().map(|u| u.kind).collect();
    assert_eq!(
        kinds,
        vec![UpgradeKind::Heal, UpgradeKind::Speed, UpgradeKind::Damage, UpgradeKind::FireRate]
    );
    let names: Vec<&str> = table.iter().map(|u| u.name).collect();
    assert_eq!(names, vec!["Heal", "Speed", "Damage", "Fire Rate"]);
    let descriptions: Vec<&str> = table.iter().map(|u| u.description).collect();
    assert_eq!(
        descriptions,
        vec!["+30 HP", "+15 move speed", "+10 projectile damage", "+1 shot/sec"]
    );
    let costs: Vec<i32> = table.iter().map(|u| u.cost).collect();
    assert_eq!(costs, vec![3, 4, 5, 6]);
}

#[test]
fn upgrade_cost_matches_table() {
    assert_eq!(upgrade_cost(UpgradeKind::Heal), 3);
    assert_eq!(upgrade_cost(UpgradeKind::Speed), 4);
    assert_eq!(upgrade_cost(UpgradeKind::Damage), 5);
    assert_eq!(upgrade_cost(UpgradeKind::FireRate), 6);
}

#[test]
fn run_starts_at_wave_one_without_materials() {
    let state = RunState::new();
    assert_eq!(state.wave, 1);
    assert_eq!(state.materials, 0);
}

#[test]
fn advance_wave_counts_up_and_keeps_materials() {
    let mut state = RunState::new();
    state.add_materials(7);
    state.advance_wave();
    state.advance_wave();
    assert_eq!(state.wave, 3);
    assert_eq!(state.materials, 7);
}

#[test]
fn add_materials_accumulates() {
    let mut state = RunState::new();
    state.add_materials(4);
    state.add_materials(5);
    assert_eq!(state.materials, 9);
    state.add_materials(-2);
    assert_eq!(state.materials, 7);
}

#[test]
fn spend_materials_only_when_affordable() {
    let mut state = RunState::new();
    state.add_materials(5);
    assert!(!state.spend_materials(6));
    assert_eq!(state.materials, 5);
    assert!(state.spend_materials(5));
    assert_eq!(state.materials, 0);
    assert!(state.spend_materials(0));
    assert_eq!(state.materials, 0);
}

#[test]
fn enemy_spawn_count_grows_every_bonus_interval() {
    let mut state = RunState::new();
    let mut counts = Vec::new();
    for _ in 0..6 {
        counts.push(state.enemy_spawn_count());
        state.advance_wave();
    }
    assert_eq!(counts, vec![2, 2, 3, 3, 4, 4]);
}

#[test]
fn enemy_spawn_count_never_decreases() {
    let mut state = RunState::new();
    let mut previous = state.enemy_spawn_count();
    for _ in 0..50 {
        state.advance_wave();
        let count = state.enemy_spawn_count();
        assert!(count >= previous);
        assert!(count > 1);
        previous = count;
    }
}

#[test]
fn reset_returns_to_a_fresh_run() {
    let mut state = RunState::new();
    state.add_materials(12);
    state.advance_wave();
    state.reset();
    let fresh = RunState::new();
    assert_eq!((state.wave, state.materials), (fresh.wave, fresh.materials));
}

#[test]
fn paying_for_upgrade_deducts_its_cost() {
    let mut state = RunState::new();
    state.add_materials(10);
    assert!(pay_for_upgrade(&mut state, UpgradeKind::FireRate));
    assert_eq!(state.materials, 4);
    assert!(!pay_for_upgrade(&mut state, UpgradeKind::Damage));
    assert_eq!(state.materials, 4);
    assert!(pay_for_upgrade(&mut state, UpgradeKind::Speed));
    assert_eq!(state.materials, 0);
    assert!(!pay_for_upgrade(&mut state, UpgradeKind::Heal));
    assert_eq!(state.materials, 0);
    assert_eq!(state.wave, 1);
}

#[test]
fn run_event_values_are_distinct() {
    assert_ne!(RunEvent::Ongoing, RunEvent::WaveComplete);
    assert_ne!(RunEvent::WaveComplete, RunEvent::PlayerDied);
}

#[test]
fn take_marked_splits_in_order() {
    let mut items = vec![10, 11, 12, 13, 14];
    let marks = vec![false, true, true, false, true];
    let taken = take_marked(&mut items, &marks);
    assert_eq!(taken, vec![11, 12, 14]);
    assert_eq!(items, vec![10, 13]);
}

#[test]
fn take_marked_edge_cases() {
    let mut empty: Vec<u8> = vec![];
    assert!(take_marked(&mut empty, &vec![]).is_empty());
    let mut all = vec!['a', 'b'];
    assert_eq!(take_marked(&mut all, &vec![true, true]), vec!['a', 'b']);
    assert!(all.is_empty());
    let mut none = vec!['a', 'b'];
    assert!(take_marked(&mut none, &vec![false, false]).is_empty());
    assert_eq!(none, vec!['a', 'b']);
}

#[test]
fn roster_counts_defeated_enemies_as_kills() {
    let mut roster: EnemyRoster<&str> = EnemyRoster::new();
    roster.spawn("a");
    roster.spawn("b");
    roster.spawn("c");
    let removed = roster.remove_defeated(&vec![true, false, true]);
    assert_eq!(removed, vec!["a", "c"]);
    assert_eq!(roster.current_enemies, vec!["b"]);
    assert_eq!(roster.kill_count, 2);
    roster.spawn("d");
    roster.remove_defeated(&vec![false, false]);
    assert_eq!(roster.current_enemies, vec!["b", "d"]);
    assert_eq!(roster.kill_count, 2);
}

#[test]
fn roster_culling_conserves_enemies() {
    let mut roster: EnemyRoster<u32> = EnemyRoster::new();
    for i in 0..10 {
        roster.spawn(i);
    }
    let defeated: Vec<bool> = (0..10).map(|i| i % 3 == 0).collect();
    roster.remove_defeated(&defeated);
    assert_eq!(roster.current_enemies.len() as i32 + roster.kill_count, 10);
    assert_eq!(roster.current_enemies, vec![1, 2, 4, 5, 7, 8]);
}

#[test]
fn roster_clear_variants() {
    let mut roster: EnemyRoster<u32> = EnemyRoster::new();
    roster.spawn(1);
    roster.spawn(2);
    roster.remove_defeated(&vec![true, false]);
    roster.clear_current_enemies();
    assert!(roster.current_enemies.is_empty());
    assert_eq!(roster.kill_count, 1);
    roster.spawn(3);
    roster.clear();
    assert!(roster.current_enemies.is_empty());
    assert_eq!(roster.kill_count, 0);
}

#[test]
fn spawn_batch_size_is_count_or_one_less() {
    for _ in 0..200 {
        let size = spawn_batch_size(2);
        assert!(size == 1 || size == 2);
        let size = spawn_batch_size(5);
        assert!(size == 4 || size == 5);
    }
}

#[test]
fn inventory_keeps_pickup_order() {
    let mut inventory = Inventory::new();
    assert!(inventory.items.is_empty());
    inventory.add(InventoryItem { color: macroquad::color::Color::new(0.1, 0.2, 0.3, 1.0) });
    inventory.add(InventoryItem { color: macroquad::color::Color::new(0.5, 0.5, 0.5, 1.0) });
    assert_eq!(inventory.items.len(), 2);
    assert_eq!(inventory.items[0].color.r, 0.1);
    assert_eq!(inventory.items[1].color.r, 0.5);
}

#[test]
fn sprite_specs_describe_the_sheets() {
    let idle = player_idle();
    assert_eq!(idle.path, paths::PLAYER_IDLE);
    assert_eq!((idle.frames, idle.fps, idle.tile_width, idle.tile_height), (4, 12, Some(40), Some(40)));
    let run = player_run();
    assert_eq!(run.path, paths::PLAYER_RUN);
    assert_eq!((run.frames, run.tile_width), (7, Some(40)));
    let enemy = enemy_run();
    assert_eq!(enemy.animation_name, "run");
    assert_eq!(enemy.path, paths::ENEMY_RUN);
    assert_eq!((enemy.frames, enemy.tile_width, enemy.tile_height), (7, None, None));
}

#[test]
fn buying_never_leaves_a_debt() {
    for start in 0..12 {
        for kind in [UpgradeKind::Heal, UpgradeKind::Speed, UpgradeKind::Damage, UpgradeKind::FireRate] {
            let mut state = RunState::new();
            state.add_materials(start);
            let paid = pay_for_upgrade(&mut state, kind);
            assert_eq!(paid, start >= upgrade_cost(kind));
            assert!(state.materials >= 0);
        }
    }
}

#[test]
fn enemy_spawn_count_rounds_toward_zero_before_the_first_wave() {
    let state = RunState { wave: -4, materials: 0 };
    assert_eq!(state.enemy_spawn_count(), 0);
    let state = RunState { wave: 0, materials: 0 };
    assert_eq!(state.enemy_spawn_count(), 2);
}

#[test]
fn roster_kill_count_counts_up_from_any_start() {
    let mut roster: EnemyRoster<u8> = EnemyRoster::new();
    roster.kill_count = -3;
    roster.spawn(1);
    roster.spawn(2);
    roster.remove_defeated(&vec![true, true]);
    assert_eq!(roster.kill_count, -1);
    assert!(roster.current_enemies.is_empty());
}

#[test]
fn material_total_adds_values() {
    assert_eq!(material_total(&vec![]), Some(0));
    assert_eq!(material_total(&vec![1, 1, 1]), Some(3));
    assert_eq!(material_total(&vec![5, -2, 4]), Some(7));
}

#[test]
fn material_total_reports_overflow() {
    assert_eq!(material_total(&vec![i32::MAX, 1]), None);
    assert_eq!(material_total(&vec![i32::MIN, -1]), None);
    assert_eq!(material_total(&vec![i32::MAX, 1, -1]), None);
    assert_eq!(material_total(&vec![i32::MAX, -1, 1]), Some(i32::MAX));
}

#[test]
fn spend_materials_accepts_negative_costs() {
    let mut state = RunState::new();
    assert!(state.spend_materials(-3));
    assert_eq!(state.materials, 3);
    assert!(!state.spend_materials(4));
    assert_eq!(state.materials, 3);
}

#[test]
fn random_enemy_speed_and_fps_stay_in_range() {
    for _ in 0..200 {
        let speed = random_enemy_speed();
        assert!((40..90).contains(&speed));
        let fps = random_animation_fps();
        assert!((8..16).contains(&fps));
    }
}

#[test]
fn frame_event_puts_wave_end_first() {
    assert_eq!(frame_event(true, true), RunEvent::WaveComplete);
    assert_eq!(frame_event(true, false), RunEvent::WaveComplete);
    assert_eq!(frame_event(false, true), RunEvent::PlayerDied);
    assert_eq!(frame_event(false, false), RunEvent::Ongoing);
}
