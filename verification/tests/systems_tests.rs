use bevy_demo::config::{F32Value, TowerType, UnitSpawn, Wave};
use bevy_demo::systems::audio::SoundEffect;
use bevy_demo::systems::color_select::{initial_username, push_username_char, sends_name};
use bevy_demo::systems::colors::{castle_sprite_path, get_color_dir, player_color_or_default, PlayerColor};
use bevy_demo::systems::enemy::{check_wave_completion, record_enemy_spawned, start_wave_local, select_spawn, wave_index, EnemySpawner};
use bevy_demo::systems::entity_sync::{needs_placeholder, tower_sprite_path, EntityMap, EntityType};
use bevy_demo::systems::game_state::{award_kill, castle_hit, check_game_over, sync_game_state, sync_player_resources, try_spend, GameState, UserResources};
use bevy_demo::systems::menu::ButtonStyle;
use bevy_demo::systems::menus::MenuStates;
use bevy_demo::systems::recruit::{recruit_sprite_path, recruitable_units, try_recruit};
use bevy_demo::systems::tower::{choose_wheel_option, wheel_options, decide_upgrade, get_tower_sprite_path, upgrade_cost, UpgradeRequest, UpgradeType, WheelChoice};
use bevy_demo::systems::wave_manager_ui::{wave_completed, wave_panel_shown};
use bevy_demo::systems::worker::{
    build_worker, harvest_resource, harvest_sound, next_frame, pawn_avatar_path, record_spawned_worker, worker_house, should_spawn_worker, worker_sprite,
    worker_step, Depletion, ResourceType, Worker, WorkerBuilding, WorkerEvent, WorkerState, WORKER_GOLD_COST,
};
use bevy_demo::wasm_tilemap::{classify_tile, tile_index, TileSource};

fn state() -> GameState {
    GameState { lives: 10, gold: 100, wood: 0, meat: 4, score: 0, wave: 1 }
}

fn f(v: f32) -> F32Value {
    F32Value { bits: v.to_bits(), text: v.to_string() }
}

fn tower(id: &str, cost: i32) -> TowerType {
    TowerType {
        id: id.to_string(),
        name: id.to_string(),
        sprite_path: "Decorations/Buildings/Blue Buildings/Archery.png".to_string(),
        cost,
        range: f(128.0),
        damage: f(10.0),
        fire_rate: f(1.0),
        projectile_sprite: "Units/Blue Units/Archer/Arrow.png".to_string(),
        projectile_speed: f(200.0),
        description: String::new(),
    }
}

fn spawn(count: i32) -> UnitSpawn {
    UnitSpawn { unit_id: "warrior".to_string(), count, health_multiplier: f(1.0) }
}

#[test]
fn entity_map_records_and_forgets() {
    let mut m = EntityMap::new();
    m.insert(7, 700);
    m.insert(8, 800);
    assert_eq!(m.get_bevy_entity(7), Some(700));
    assert_eq!(m.get_server_id(800), Some(8));
    assert_eq!(m.remove_by_server_id(7), Some(700));
    assert_eq!(m.get_bevy_entity(7), None);
    assert_eq!(m.get_server_id(700), None);
    assert_eq!(m.remove_by_server_id(7), None);
    assert_eq!(m.get_bevy_entity(8), Some(800));
}

#[test]
fn placeholders_only_for_new_active_entities() {
    let mut m = EntityMap::new();
    assert!(needs_placeholder(&m, true, 1, EntityType::Tower));
    assert!(needs_placeholder(&m, true, 1, EntityType::Projectile));
    assert!(!needs_placeholder(&m, false, 1, EntityType::Enemy));
    assert!(!needs_placeholder(&m, true, 1, EntityType::Unit));
    m.insert(1, 10);
    assert!(!needs_placeholder(&m, true, 1, EntityType::Enemy));
}

#[test]
fn tower_buildings_in_the_player_colour() {
    assert_eq!(tower_sprite_path("catapult", PlayerColor::Purple), "Decorations/Buildings/Purple Buildings/Barracks.png");
    assert_eq!(tower_sprite_path("holy", PlayerColor::Blue), "Decorations/Buildings/Blue Buildings/Monastery.png");
    assert_eq!(tower_sprite_path("tower", PlayerColor::Black), "Decorations/Buildings/Black Buildings/Tower.png");
    assert_eq!(tower_sprite_path("archer", PlayerColor::Yellow), "Decorations/Buildings/Yellow Buildings/Archery.png");
    assert_eq!(tower_sprite_path("mystery", PlayerColor::Yellow), "Decorations/Buildings/Yellow Buildings/Archery.png");
}

#[test]
fn colours_and_defaults() {
    assert_eq!(get_color_dir(PlayerColor::Yellow), "Yellow");
    assert_eq!(PlayerColor::Black.as_str(), "Black");
    assert_eq!(player_color_or_default(None), PlayerColor::Blue);
    assert_eq!(player_color_or_default(Some(PlayerColor::Purple)), PlayerColor::Purple);
    assert_eq!(castle_sprite_path(PlayerColor::Purple), "Decorations/Buildings/Purple Buildings/Castle.png");
}

#[test]
fn game_state_rules() {
    let mut s = state();
    castle_hit(&mut s, 3);
    assert_eq!(s.lives, 7);
    assert!(!check_game_over(&s));
    castle_hit(&mut s, 7);
    assert!(check_game_over(&s));
    award_kill(&mut s, 15);
    assert_eq!((s.gold, s.score), (115, 15));
    sync_game_state(&mut s, 20, 99);
    assert_eq!((s.lives, s.score, s.gold), (20, 99, 115));
    let rows = vec![
        UserResources { identity: vec![1, 1], gold: 1, wood: 2, meat: 3 },
        UserResources { identity: vec![2, 2], gold: 70, wood: 80, meat: 90 },
        UserResources { identity: vec![1, 1], gold: 4, wood: 5, meat: 6 },
    ];
    sync_player_resources(&mut s, &rows, &None);
    assert_eq!((s.gold, s.wood, s.meat), (115, 0, 4));
    sync_player_resources(&mut s, &rows, &Some(vec![9]));
    assert_eq!((s.gold, s.wood, s.meat), (115, 0, 4));
    sync_player_resources(&mut s, &rows, &Some(vec![1, 1]));
    assert_eq!((s.gold, s.wood, s.meat, s.lives), (4, 5, 6, 20));
    let theirs = vec![UserResources { identity: vec![2, 2], gold: 70, wood: 80, meat: 90 }];
    sync_player_resources(&mut s, &theirs, &Some(vec![2, 2]));
    assert_eq!((s.gold, s.wood, s.meat, s.score), (70, 80, 90, 99));
    let mut balance = 10;
    assert!(!try_spend(&mut balance, 11));
    assert_eq!(balance, 10);
    assert!(try_spend(&mut balance, 10));
    assert_eq!(balance, 0);
    assert!(try_spend(&mut balance, -5));
    assert_eq!(balance, 5);
}

#[test]
fn a_worker_trip_delivers_one_load() {
    let mut s = state();
    let mut w = Worker { state: WorkerState::Idle, current_resource: None };
    assert_eq!(worker_step(&mut w, WorkerEvent::Arrived, &mut s), None);
    assert_eq!(w.state, WorkerState::Idle);
    worker_step(&mut w, WorkerEvent::FoundResource(ResourceType::Gold), &mut s);
    assert_eq!(w.state, WorkerState::MovingToResource);
    assert_eq!(w.current_resource, Some(ResourceType::Gold));
    worker_step(&mut w, WorkerEvent::Arrived, &mut s);
    assert_eq!(w.state, WorkerState::Harvesting);
    assert_eq!(harvest_sound(&w), Some(SoundEffect::PickaxeHit));
    worker_step(&mut w, WorkerEvent::HarvestFinished, &mut s);
    assert_eq!(w.state, WorkerState::ReturningWithResource);
    assert_eq!(s.gold, 100);
    assert_eq!(worker_step(&mut w, WorkerEvent::Arrived, &mut s), Some(SoundEffect::Reward));
    assert_eq!(s.gold, 105);
    assert_eq!(w, Worker { state: WorkerState::Idle, current_resource: None });
}

#[test]
fn deliveries_of_wood_and_meat_count_one() {
    let mut s = state();
    let mut w = Worker { state: WorkerState::ReturningWithResource, current_resource: Some(ResourceType::Wood) };
    worker_step(&mut w, WorkerEvent::Arrived, &mut s);
    assert_eq!(s.wood, 1);
    let mut m = Worker { state: WorkerState::ReturningWithResource, current_resource: Some(ResourceType::Meat) };
    worker_step(&mut m, WorkerEvent::Arrived, &mut s);
    assert_eq!(s.meat, 5);
    let mut empty = Worker { state: WorkerState::ReturningWithResource, current_resource: None };
    assert_eq!(worker_step(&mut empty, WorkerEvent::Arrived, &mut s), None);
    assert_eq!(s, GameState { wood: 1, meat: 5, ..state() });
}

#[test]
fn resource_nodes_run_out() {
    let mut left = 2;
    assert_eq!(harvest_resource(&mut left, ResourceType::Wood), Depletion::Remains);
    assert_eq!(left, 1);
    assert_eq!(harvest_resource(&mut left, ResourceType::Wood), Depletion::Stump);
    let mut gold = 1;
    assert_eq!(harvest_resource(&mut gold, ResourceType::Gold), Depletion::Removed);
    let mut sheep = 0;
    assert_eq!(harvest_resource(&mut sheep, ResourceType::Meat), Depletion::Removed);
    assert_eq!(sheep, -1);
}

#[test]
fn worker_animations() {
    let w = Worker { state: WorkerState::Harvesting, current_resource: Some(ResourceType::Meat) };
    assert_eq!(worker_sprite(&w), ("Pawn_Interact Knife.png", 4));
    let r = Worker { state: WorkerState::MovingToResource, current_resource: None };
    assert_eq!(worker_sprite(&r), ("Pawn_Run.png", 8));
    let back = Worker { state: WorkerState::ReturningWithResource, current_resource: Some(ResourceType::Wood) };
    assert_eq!(worker_sprite(&back), ("Pawn_Run Wood.png", 6));
    assert_eq!(harvest_sound(&back), None);
    assert_eq!(next_frame(5, 6), 0);
    assert_eq!(next_frame(2, 6), 3);
}

#[test]
fn the_worker_house() {
    let (tile, house, path) = worker_house(PlayerColor::Yellow);
    assert_eq!(tile, (27, 6));
    assert_eq!(house, WorkerBuilding { worker_capacity: 1, current_workers: 0 });
    assert_eq!(path, "Decorations/Buildings/Yellow Buildings/House1.png");
    assert_eq!(pawn_avatar_path(PlayerColor::Black), "Units/Black Units/Pawn/Pawn_Avatar.png");
    let b = WorkerBuilding { worker_capacity: 1, current_workers: 0 };
    assert!(should_spawn_worker(&b, true));
    assert!(!should_spawn_worker(&b, false));
    let mut b2 = b;
    record_spawned_worker(&mut b2);
    assert!(!should_spawn_worker(&b2, true));
    let mut s = state();
    let (bought, house) = build_worker(&mut s, Some(b2), WORKER_GOLD_COST);
    assert!(bought);
    assert_eq!(s.gold, 50);
    assert_eq!(house, Some(WorkerBuilding { worker_capacity: 2, current_workers: 2 }));
    let mut poor = GameState { gold: 49, ..state() };
    let (bought, house) = build_worker(&mut poor, Some(b), WORKER_GOLD_COST);
    assert!(!bought);
    assert_eq!(poor.gold, 49);
    assert_eq!(house, Some(b));
}

#[test]
fn the_next_enemy_comes_from_its_group() {
    let w = Wave { wave_number: 1, spawn_interval: f(1.0), spawns: vec![spawn(3), spawn(0), spawn(2)] };
    assert_eq!(select_spawn(&w, 0), Some(0));
    assert_eq!(select_spawn(&w, 2), Some(0));
    assert_eq!(select_spawn(&w, 3), Some(2));
    assert_eq!(select_spawn(&w, 4), Some(2));
    assert_eq!(select_spawn(&w, 5), None);
    assert_eq!(select_spawn(&w, -1), None);
}

#[test]
fn waves_are_numbered_from_one() {
    assert_eq!(wave_index(1, 3), Some(0));
    assert_eq!(wave_index(3, 3), Some(2));
    assert_eq!(wave_index(4, 3), None);
    assert_eq!(wave_index(0, 3), None);
    assert_eq!(wave_index(-5, 3), None);
}

#[test]
fn the_spawner_moves_to_the_next_wave() {
    let waves = vec![
        Wave { wave_number: 1, spawn_interval: f(1.0), spawns: vec![spawn(2)] },
        Wave { wave_number: 2, spawn_interval: f(1.0), spawns: vec![spawn(3), spawn(4)] },
    ];
    let mut sp = EnemySpawner { enemies_spawned: 0, enemies_this_wave: 2 };
    let mut s = state();
    assert_eq!(record_enemy_spawned(&mut sp, &mut s, 2, &waves), None);
    assert_eq!(sp.enemies_spawned, 1);
    assert!(!wave_completed(true, &sp, false));
    assert_eq!(record_enemy_spawned(&mut sp, &mut s, 2, &waves), Some(1));
    assert_eq!(sp, EnemySpawner { enemies_spawned: 2, enemies_this_wave: 2 });
    assert_eq!(s.wave, 2);
    assert!(wave_completed(true, &sp, false));
    let mut active = true;
    assert!(!check_wave_completion(&mut active, &sp, true));
    assert!(active);
    assert!(check_wave_completion(&mut active, &sp, false));
    assert!(!active);
    assert_eq!(sp, EnemySpawner { enemies_spawned: 2, enemies_this_wave: 2 });
    assert!(!check_wave_completion(&mut active, &sp, false));
    start_wave_local(&mut active, &mut sp, s.wave, &waves);
    assert!(active);
    assert_eq!(sp, EnemySpawner { enemies_spawned: 0, enemies_this_wave: 7 });
    let mut last = EnemySpawner { enemies_spawned: 6, enemies_this_wave: 7 };
    assert_eq!(record_enemy_spawned(&mut last, &mut s, 7, &waves), None);
    assert_eq!(s.wave, 3);
    assert_eq!(last, EnemySpawner { enemies_spawned: 7, enemies_this_wave: 7 });
    assert!(check_wave_completion(&mut active, &last, false));
    start_wave_local(&mut active, &mut last, s.wave, &waves);
    assert_eq!(last, EnemySpawner { enemies_spawned: 0, enemies_this_wave: 7 });
}

#[test]
fn wave_completion_and_panel() {
    let done = EnemySpawner { enemies_spawned: 5, enemies_this_wave: 5 };
    let busy = EnemySpawner { enemies_spawned: 2, enemies_this_wave: 5 };
    assert!(wave_completed(true, &done, false));
    assert!(!wave_completed(true, &done, true));
    assert!(!wave_completed(true, &busy, false));
    assert!(!wave_completed(false, &done, false));
    assert!(wave_panel_shown(false, &busy));
    assert!(!wave_panel_shown(true, &busy));
    assert!(wave_panel_shown(true, &EnemySpawner { enemies_spawned: 0, enemies_this_wave: 5 }));
}

#[test]
fn tower_sprites_follow_the_player_colour() {
    let t = tower("archer", 50);
    assert_eq!(get_tower_sprite_path(&t, PlayerColor::Yellow), "Decorations/Buildings/Yellow Buildings/Archery.png");
    assert_eq!(get_tower_sprite_path(&t, PlayerColor::Blue), t.sprite_path);
}

#[test]
fn upgrades_need_wood_and_a_known_tower() {
    assert_eq!(upgrade_cost(UpgradeType::Damage), 30);
    assert_eq!(upgrade_cost(UpgradeType::Range), 25);
    assert_eq!(upgrade_cost(UpgradeType::FireRate), 35);
    let mut m = EntityMap::new();
    m.insert(42, 4200);
    assert_eq!(decide_upgrade(10, 25, Some(4200), &m), UpgradeRequest::NotEnoughWood);
    assert_eq!(decide_upgrade(25, 25, None, &m), UpgradeRequest::NoTowerSelected);
    assert_eq!(decide_upgrade(25, 25, Some(1), &m), UpgradeRequest::UnknownTower);
    assert_eq!(decide_upgrade(30, 25, Some(4200), &m), UpgradeRequest::Upgrade(42));
}

#[test]
fn the_tower_wheel() {
    let towers = vec![tower("archer", 50), tower("catapult", 80)];
    assert_eq!(wheel_options(true, &towers), vec!["_explore".to_string()]);
    assert_eq!(wheel_options(false, &towers), vec!["archer".to_string(), "catapult".to_string()]);
    let cheap = vec![tower("refund", -30)];
    let mut rich = state();
    assert_eq!(choose_wheel_option("refund", &cheap, &mut rich, 20, true, false), WheelChoice::PlaceLocally(0));
    assert_eq!(rich.gold, 130);
    let mut s = state();
    assert_eq!(choose_wheel_option("_explore", &towers, &mut s, 20, false, true), WheelChoice::Explore);
    assert_eq!(s.gold, 80);
    assert_eq!(choose_wheel_option("catapult", &towers, &mut s, 20, true, true), WheelChoice::RequestPlacement(1));
    assert_eq!(s.gold, 80);
    assert_eq!(choose_wheel_option("catapult", &towers, &mut s, 20, true, false), WheelChoice::PlaceLocally(1));
    assert_eq!(s.gold, 0);
    assert_eq!(choose_wheel_option("archer", &towers, &mut s, 20, true, false), WheelChoice::Nothing);
    assert_eq!(choose_wheel_option("_explore", &towers, &mut s, 20, true, false), WheelChoice::Nothing);
    let mut rich = state();
    assert_eq!(choose_wheel_option("archer", &towers, &mut rich, 20, false, false), WheelChoice::Nothing);
    assert_eq!(choose_wheel_option("ballista", &towers, &mut rich, 20, true, false), WheelChoice::Nothing);
    assert_eq!(rich.gold, 100);
}

#[test]
fn recruiting_at_the_castle() {
    let units = recruitable_units();
    assert_eq!(units.len(), 4);
    assert_eq!(units[1].id, "lancer");
    assert_eq!(units[1].frame_size, (320, 320));
    assert_eq!(recruit_sprite_path(&units[3], PlayerColor::Purple), "Units/Purple Units/Monk/Idle.png");
    let mut s = state();
    assert!(!try_recruit(&mut s, units[0].meat_cost));
    assert_eq!(s.meat, 4);
    assert!(try_recruit(&mut s, units[2].meat_cost));
    assert_eq!(s.meat, 2);
}

#[test]
fn button_textures() {
    assert_eq!(ButtonStyle::default(), ButtonStyle::BigBlue);
    assert_eq!(ButtonStyle::BigRed.regular_texture(), "UI Elements/UI Elements/Buttons/BigRedButton_Regular.png");
    assert_eq!(ButtonStyle::SmallBlueSquare.pressed_texture(), "UI Elements/UI Elements/Buttons/SmallBlueSquareButton_Pressed.png");
    assert!(ButtonStyle::BigBlue.is_big());
    assert!(!ButtonStyle::SmallRedRound.is_big());
}

#[test]
fn menus_exclude_each_other() {
    let none = MenuStates { house: false, recruit: false, wheel: false, upgrade: false };
    assert!(none.can_open_house() && none.can_open_wheel() && none.can_open_upgrade() && none.can_open_recruit());
    let house = MenuStates { house: true, ..none };
    assert!(!house.can_open_wheel());
    assert!(!house.can_open_upgrade());
    assert!(house.can_open_recruit());
    let wheel = MenuStates { wheel: true, ..none };
    assert!(!wheel.can_open_recruit());
    assert!(none.wheel_may_open(false, false, false));
    assert!(!none.wheel_may_open(true, false, false));
    assert!(!none.wheel_may_open(false, true, false));
    assert!(!none.wheel_may_open(false, false, true));
    assert!(!house.wheel_may_open(false, false, false));
}

#[test]
fn typing_a_user_name() {
    let mut name = String::new();
    push_username_char(&mut name, 'a', true);
    push_username_char(&mut name, 'b', false);
    push_username_char(&mut name, '7', true);
    push_username_char(&mut name, '-', false);
    assert_eq!(name, "Ab7-");
    let mut long = "x".repeat(20);
    push_username_char(&mut long, 'y', false);
    assert_eq!(long.len(), 20);
    let mut accented = "é".repeat(10);
    push_username_char(&mut accented, 'z', false);
    assert_eq!(accented, "é".repeat(10));
    let mut nearly = format!("{}x", "é".repeat(9));
    push_username_char(&mut nearly, 'q', true);
    assert_eq!(nearly, format!("{}xQ", "é".repeat(9)));
    assert_eq!(initial_username(&"Kim".to_string(), &None), "Kim");
    assert_eq!(initial_username(&String::new(), &None), "Player");
    let profile = Some((Some("kimmy".to_string()), "Kim Lee".to_string()));
    assert_eq!(initial_username(&String::new(), &profile), "kimmy");
    assert_eq!(initial_username(&String::new(), &Some((None, "Kim Lee".to_string()))), "Kim Lee");
    assert_eq!(initial_username(&String::new(), &Some((Some(String::new()), "Kim Lee".to_string()))), "Player");
    assert!(sends_name(true, &name));
    assert!(!sends_name(false, &name));
    assert!(!sends_name(true, &String::new()));
}

#[test]
fn tiles_come_from_their_tileset() {
    assert_eq!(classify_tile(0), TileSource::Empty);
    assert_eq!(classify_tile(1), TileSource::First(0));
    assert_eq!(classify_tile(864), TileSource::First(863));
    assert_eq!(classify_tile(865), TileSource::Second(0));
    assert_eq!(classify_tile(1728), TileSource::Second(863));
    assert_eq!(classify_tile(1806), TileSource::Shadow);
    assert_eq!(tile_index(0, 0), 0);
    assert_eq!(tile_index(19, 29), 599);
    assert_eq!(tile_index(2, 5), 65);
}
