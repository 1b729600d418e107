use bevy_demo::config::{F32Value, UnitSpawn, UnitType, Wave};
use bevy_demo::input::{Key, KeyAction};
use bevy_demo::wave_manager::{App, SelectedPanel, SpawnField, WaveDetailField};

fn f(v: f32) -> F32Value {
    F32Value { bits: v.to_bits(), text: v.to_string() }
}

fn unit(id: &str, name: &str) -> UnitType {
    UnitType {
        id: id.to_string(),
        name: name.to_string(),
        sprite_path: format!("Units/Black Units/{name}.png"),
        avatar_path: format!("Avatars/{name}.png"),
        base_health: f(100.0),
        base_speed: f(40.0),
        damage_to_base: 1,
        gold_reward: 5,
        defense_type: "armor".to_string(),
        frame_size: [192, 192],
        frame_count: 6,
    }
}

fn spawn(id: &str, count: i32) -> UnitSpawn {
    UnitSpawn { unit_id: id.to_string(), count, health_multiplier: f(1.0) }
}

fn wave(n: i32, spawns: Vec<UnitSpawn>) -> Wave {
    Wave { wave_number: n, spawn_interval: f(1.5), spawns }
}

fn editor() -> App {
    App::new(
        vec![unit("warrior", "Warrior"), unit("goblin", "Goblin"), unit("orc", "Orc")],
        vec![wave(1, vec![spawn("warrior", 3), spawn("goblin", 2)]), wave(4, vec![spawn("orc", 1)])],
    )
}

#[test]
fn wave_detail_field_queries() {
    assert!(WaveDetailField::Spawn(3).is_spawn());
    assert!(!WaveDetailField::SpawnInterval.is_spawn());
    assert_eq!(WaveDetailField::Spawn(3).spawn_index(), Some(3));
    assert_eq!(WaveDetailField::SpawnInterval.spawn_index(), None);
}

#[test]
fn spawn_fields_cycle() {
    assert_eq!(SpawnField::all(), vec![SpawnField::UnitType, SpawnField::Count, SpawnField::HealthMultiplier]);
    assert_eq!(SpawnField::UnitType.next(), SpawnField::Count);
    assert_eq!(SpawnField::HealthMultiplier.next(), SpawnField::UnitType);
    assert_eq!(SpawnField::UnitType.prev(), SpawnField::HealthMultiplier);
    assert_eq!(SpawnField::Count.prev(), SpawnField::UnitType);
    assert_eq!(SpawnField::Count.next().next().next(), SpawnField::Count);
}

#[test]
fn opens_on_the_first_wave_and_unit() {
    let app = editor();
    assert_eq!(app.selected_wave(), Some(0));
    assert_eq!(app.selected_unit(), Some(0));
    assert_eq!(app.current_wave().as_ref().unwrap().wave_number, 1);
    assert_eq!(app.selected_field(), WaveDetailField::SpawnInterval);
    assert_eq!(app.selected_panel(), SelectedPanel::Waves);
    let empty = App::new(vec![], vec![]);
    assert_eq!(empty.selected_wave(), None);
    assert_eq!(empty.selected_unit(), None);
}

#[test]
fn waves_and_units_wrap() {
    let mut app = editor();
    app.previous_wave();
    assert_eq!(app.selected_wave(), Some(1));
    assert_eq!(app.current_wave().as_ref().unwrap().wave_number, 4);
    app.next_wave();
    assert_eq!(app.selected_wave(), Some(0));
    app.previous_unit();
    assert_eq!(app.selected_unit(), Some(2));
    app.next_unit();
    assert_eq!(app.selected_unit(), Some(0));
}

#[test]
fn new_waves_are_numbered_past_the_highest() {
    let mut app = editor();
    app.add_new_wave();
    let w = &app.waves()[2];
    assert_eq!(w.wave_number, 5);
    assert_eq!(w.spawn_interval.bits, 2.0f32.to_bits());
    assert_eq!(w.spawns.len(), 1);
    assert_eq!(w.spawns[0].unit_id, "warrior");
    assert_eq!(w.spawns[0].count, 5);
    assert_eq!(w.spawns[0].health_multiplier.bits, 1.0f32.to_bits());
    assert_eq!(app.status_message(), "Added Wave 5");
    assert_eq!(app.selected_wave(), Some(2));
    let mut empty = App::new(vec![], vec![]);
    empty.add_new_wave();
    assert_eq!(empty.waves()[0].wave_number, 1);
    let mut negative = App::new(vec![], vec![wave(-7, vec![])]);
    negative.add_new_wave();
    assert_eq!(negative.waves()[1].wave_number, -6);
}

#[test]
fn add_then_delete_wave_restores_the_list() {
    let mut app = editor();
    app.add_new_wave();
    app.delete_current_wave();
    assert_eq!(app.waves().len(), 2);
    assert_eq!(app.waves()[1].wave_number, 4);
    assert_eq!(app.status_message(), "Wave deleted");
    app.delete_current_wave();
    app.delete_current_wave();
    assert_eq!(app.selected_wave(), None);
    assert!(app.current_wave().is_none());
}

#[test]
fn spawn_groups_are_added_and_removed() {
    let mut app = editor();
    app.add_spawn_to_current_wave();
    assert_eq!(app.waves()[0].spawns.len(), 3);
    assert_eq!(app.waves()[0].spawns[2].unit_id, "warrior");
    assert_eq!(app.selected_field(), WaveDetailField::Spawn(2));
    assert_eq!(app.status_message(), "Added new spawn to wave");
    app.remove_current_spawn();
    assert_eq!(app.waves()[0].spawns.len(), 2);
    assert_eq!(app.selected_field(), WaveDetailField::Spawn(1));
    assert_eq!(app.status_message(), "Removed spawn from wave");
    app.remove_current_spawn();
    assert_eq!(app.selected_field(), WaveDetailField::Spawn(0));
    app.remove_current_spawn();
    assert_eq!(app.selected_field(), WaveDetailField::SpawnInterval);
    assert!(app.waves()[0].spawns.is_empty());
    assert!(app.current_wave().as_ref().unwrap().spawns.is_empty());
}

#[test]
fn new_spawn_groups_name_the_first_unit() {
    let mut app = App::new(vec![unit("goblin", "Goblin")], vec![wave(1, vec![])]);
    app.add_spawn_to_current_wave();
    assert_eq!(app.waves()[0].spawns[0].unit_id, "goblin");
    let mut bare = App::new(vec![], vec![wave(1, vec![])]);
    bare.add_spawn_to_current_wave();
    assert_eq!(bare.waves()[0].spawns[0].unit_id, "warrior");
}

#[test]
fn detail_selection_moves_between_lines() {
    let mut app = editor();
    app.next_field();
    assert_eq!(app.selected_field(), WaveDetailField::Spawn(0));
    app.next_spawn_field();
    assert_eq!(app.selected_spawn_field(), SpawnField::Count);
    app.next_field();
    assert_eq!(app.selected_field(), WaveDetailField::Spawn(1));
    assert_eq!(app.selected_spawn_field(), SpawnField::UnitType);
    app.next_field();
    assert_eq!(app.selected_field(), WaveDetailField::Spawn(1));
    app.prev_spawn_field();
    assert_eq!(app.selected_spawn_field(), SpawnField::HealthMultiplier);
    app.prev_field();
    assert_eq!(app.selected_field(), WaveDetailField::Spawn(0));
    app.next_spawn_field();
    app.prev_field();
    assert_eq!(app.selected_field(), WaveDetailField::SpawnInterval);
    assert_eq!(app.selected_spawn_field(), SpawnField::Count);
    app.next_spawn_field();
    assert_eq!(app.selected_spawn_field(), SpawnField::Count);
    app.prev_field();
    assert_eq!(app.selected_field(), WaveDetailField::SpawnInterval);
}

#[test]
fn cycling_units_wraps_around_the_known_types() {
    let mut app = editor();
    app.next_field();
    app.cycle_unit_for_current_spawn();
    assert_eq!(app.waves()[0].spawns[0].unit_id, "goblin");
    assert_eq!(app.status_message(), "Changed unit to Goblin");
    app.cycle_unit_for_current_spawn();
    app.cycle_unit_for_current_spawn();
    assert_eq!(app.waves()[0].spawns[0].unit_id, "warrior");
    let mut unknown = App::new(vec![unit("orc", "Orc")], vec![wave(1, vec![spawn("ghost", 1)])]);
    unknown.next_field();
    unknown.cycle_unit_for_current_spawn();
    assert_eq!(unknown.waves()[0].spawns[0].unit_id, "ghost");
}

#[test]
fn editing_spawn_lines() {
    let mut app = editor();
    app.next_field();
    app.start_editing();
    assert_eq!(app.edit_buffer(), "warrior");
    for _ in 0..7 {
        app.handle_key(Key::Backspace, None);
    }
    for c in "dragon".chars() {
        app.handle_key(Key::Char(c), None);
    }
    app.confirm_edit(None);
    assert_eq!(app.status_message(), "Unit 'dragon' not found");
    assert!(app.editing());
    for c in "orc".chars() {
        app.handle_key(Key::Char(c), None);
    }
    app.confirm_edit(None);
    assert_eq!(app.status_message(), "Unit type updated");
    assert_eq!(app.waves()[0].spawns[0].unit_id, "orc");
    assert!(!app.editing());
    app.next_spawn_field();
    app.start_editing();
    assert_eq!(app.edit_buffer(), "3");
    app.handle_key(Key::Char('0'), None);
    app.confirm_edit(None);
    assert_eq!(app.status_message(), "Count set to 30");
    assert_eq!(app.waves()[0].spawns[0].count, 30);
    app.start_editing();
    app.handle_key(Key::Char('?'), None);
    app.confirm_edit(None);
    assert_eq!(app.status_message(), "Invalid number");
    app.next_spawn_field();
    app.start_editing();
    assert_eq!(app.edit_buffer(), "1");
    app.confirm_edit(Some(f(1.5)));
    assert_eq!(app.status_message(), "Health multiplier set to 1.5");
    assert_eq!(app.waves()[0].spawns[0].health_multiplier.bits, 1.5f32.to_bits());
}

#[test]
fn editing_the_spawn_interval() {
    let mut app = editor();
    app.start_editing();
    assert_eq!(app.edit_buffer(), "1.5");
    app.confirm_edit(Some(f(0.75)));
    assert_eq!(app.status_message(), "Spawn interval set to 0.75");
    assert_eq!(app.waves()[0].spawn_interval.bits, 0.75f32.to_bits());
    assert_eq!(app.current_wave().as_ref().unwrap().spawn_interval.bits, 0.75f32.to_bits());
    app.start_editing();
    app.confirm_edit(None);
    assert_eq!(app.status_message(), "Invalid number");
}

#[test]
fn a_stale_spawn_selection_is_reported() {
    let mut app = editor();
    app.next_field();
    app.next_field();
    assert_eq!(app.selected_field(), WaveDetailField::Spawn(1));
    app.next_wave();
    app.start_editing();
    app.confirm_edit(None);
    assert_eq!(app.status_message(), "Invalid spawn index");
    assert_eq!(app.waves()[1].spawns.len(), 1);
}

#[test]
fn wave_keys_drive_the_editor() {
    let mut app = editor();
    assert_eq!(app.handle_key(Key::Down, None), KeyAction::Continue);
    assert_eq!(app.selected_wave(), Some(1));
    app.handle_key(Key::Tab, None);
    assert_eq!(app.selected_panel(), SelectedPanel::WaveDetails);
    app.handle_key(Key::Insert, None);
    assert_eq!(app.waves()[1].spawns.len(), 2);
    app.handle_key(Key::Char(' '), None);
    assert_eq!(app.waves()[1].spawns[1].unit_id, "goblin");
    app.handle_key(Key::Right, None);
    assert_eq!(app.selected_spawn_field(), SpawnField::Count);
    app.handle_key(Key::Left, None);
    assert_eq!(app.selected_spawn_field(), SpawnField::UnitType);
    app.handle_key(Key::Delete, None);
    assert_eq!(app.waves()[1].spawns.len(), 1);
    app.handle_key(Key::Tab, None);
    assert_eq!(app.selected_panel(), SelectedPanel::Units);
    assert_eq!(app.handle_key(Key::Down, None), KeyAction::ReloadImages);
    assert_eq!(app.selected_unit(), Some(1));
    app.handle_key(Key::Tab, None);
    assert_eq!(app.selected_panel(), SelectedPanel::Waves);
    app.handle_key(Key::Char('a'), None);
    assert_eq!(app.waves().len(), 3);
    app.handle_key(Key::Char('x'), None);
    assert_eq!(app.waves().len(), 2);
    assert_eq!(app.handle_key(Key::Char('w'), None), KeyAction::Save);
    assert_eq!(app.handle_key(Key::Char('q'), None), KeyAction::Quit);
}

#[test]
fn wave_totals_sum_the_groups() {
    let w = wave(1, vec![spawn("a", 3), spawn("b", 2), spawn("c", 10)]);
    assert_eq!(w.total_units(), 15);
    assert_eq!(wave(2, vec![]).total_units(), 0);
}
