use bevy_demo::config::{F32Value, TowerType};
use bevy_demo::input::{Key, KeyAction};
use bevy_demo::tower_manager::{App, SelectedPanel, TowerField};

fn f(bits: f32) -> F32Value {
    F32Value { bits: bits.to_bits(), text: bits.to_string() }
}

fn tower(id: &str, cost: i32) -> TowerType {
    TowerType {
        id: id.to_string(),
        name: format!("{id} name"),
        sprite_path: "Decorations/Buildings/Blue Buildings/Archery.png".to_string(),
        cost,
        range: f(128.0),
        damage: f(10.0),
        fire_rate: f(1.5),
        projectile_sprite: "Units/Blue Units/Archer/Arrow.png".to_string(),
        projectile_speed: f(250.0),
        description: "shoots".to_string(),
    }
}

fn three() -> App {
    App::new(vec![tower("archer", 50), tower("catapult", 80), tower("holy", 120)])
}

#[test]
fn opens_on_the_first_tower() {
    let app = three();
    assert_eq!(app.selected(), Some(0));
    assert_eq!(app.current_tower().as_ref().unwrap().id, "archer");
    assert_eq!(app.selected_field(), TowerField::Id);
    assert_eq!(app.selected_panel(), SelectedPanel::Towers);
    assert!(!app.editing());
    assert_eq!(
        app.status_message(),
        "q:quit | w:save | a:new tower | x:delete | Tab:switch | ↑/↓:navigate | Enter:edit/save"
    );
}

#[test]
fn opens_empty_without_selection() {
    let app = App::new(vec![]);
    assert_eq!(app.selected(), None);
    assert!(app.current_tower().is_none());
}

#[test]
fn navigation_wraps_both_ways() {
    let mut app = three();
    app.previous_tower();
    assert_eq!(app.selected(), Some(2));
    assert_eq!(app.current_tower().as_ref().unwrap().id, "holy");
    app.next_tower();
    assert_eq!(app.selected(), Some(0));
    app.next_tower();
    app.next_tower();
    assert_eq!(app.selected(), Some(2));
    app.next_tower();
    assert_eq!(app.selected(), Some(0));
}

#[test]
fn next_then_previous_returns_to_the_same_tower() {
    let mut app = three();
    app.next_tower();
    app.next_tower();
    app.previous_tower();
    assert_eq!(app.selected(), Some(1));
    assert_eq!(app.current_tower().as_ref().unwrap().id, "catapult");
}

#[test]
fn adding_numbers_the_new_tower_after_the_list() {
    let mut app = three();
    app.add_new_tower();
    assert_eq!(app.towers().len(), 4);
    assert_eq!(app.selected(), Some(3));
    let t = &app.towers()[3];
    assert_eq!(t.id, "tower_4");
    assert_eq!(t.name, "New Tower 4");
    assert_eq!(t.cost, 50);
    assert_eq!(t.range.bits, 256.0f32.to_bits());
    assert_eq!(t.range.text, "256");
    assert_eq!(t.damage.bits, 25.0f32.to_bits());
    assert_eq!(t.fire_rate.bits, 0.5f32.to_bits());
    assert_eq!(t.fire_rate.text, "0.5");
    assert_eq!(t.projectile_speed.bits, 300.0f32.to_bits());
    assert_eq!(t.sprite_path, "Decorations/Buildings/Blue Buildings/Tower.png");
    assert_eq!(t.projectile_sprite, "Units/Blue Units/Archer/Arrow.png");
    assert_eq!(t.description, "A new tower");
    assert_eq!(app.status_message(), "Added tower_4");
    assert_eq!(app.current_tower().as_ref().unwrap().id, "tower_4");
}

#[test]
fn add_then_delete_restores_the_list() {
    let mut app = three();
    app.add_new_tower();
    app.delete_current_tower();
    let ids: Vec<&str> = app.towers().iter().map(|t| t.id.as_str()).collect();
    assert_eq!(ids, vec!["archer", "catapult", "holy"]);
    assert_eq!(app.selected(), Some(2));
    assert_eq!(app.status_message(), "Tower deleted");
}

#[test]
fn deleting_keeps_the_position_or_moves_to_the_last() {
    let mut app = three();
    app.delete_current_tower();
    assert_eq!(app.selected(), Some(0));
    assert_eq!(app.current_tower().as_ref().unwrap().id, "catapult");
    app.next_tower();
    app.delete_current_tower();
    assert_eq!(app.selected(), Some(0));
    app.delete_current_tower();
    assert_eq!(app.selected(), None);
    assert!(app.current_tower().is_none());
    app.delete_current_tower();
    assert!(app.towers().is_empty());
}

#[test]
fn fields_cycle_in_display_order() {
    let order = TowerField::all();
    assert_eq!(order.len(), 10);
    let mut f = TowerField::Id;
    for expected in order.iter().skip(1) {
        f = f.next();
        assert_eq!(f, *expected);
    }
    assert_eq!(f.next(), TowerField::Id);
    assert_eq!(TowerField::Id.prev(), TowerField::Description);
    assert_eq!(TowerField::Cost.prev(), TowerField::ProjectileSprite);
    for g in order {
        assert_eq!(g.next().prev(), g);
    }
}

#[test]
fn editing_the_cost_parses_an_integer() {
    let mut app = three();
    for _ in 0..4 {
        app.next_field();
    }
    assert_eq!(app.selected_field(), TowerField::Cost);
    app.start_editing();
    assert!(app.editing());
    assert_eq!(app.edit_buffer(), "50");
    assert_eq!(app.status_message(), "Editing (Enter to save, Esc to cancel)");
    app.cancel_edit();
    app.start_editing();
    for _ in 0..2 {
        app.handle_key(Key::Backspace, None);
    }
    app.handle_key(Key::Char('7'), None);
    app.handle_key(Key::Char('5'), None);
    assert_eq!(app.confirm_edit(None), false);
    assert_eq!(app.towers()[0].cost, 75);
    assert_eq!(app.current_tower().as_ref().unwrap().cost, 75);
    assert_eq!(app.status_message(), "Cost set to 75");
    assert!(!app.editing());
    assert_eq!(app.edit_buffer(), "");
}

#[test]
fn a_bad_number_keeps_editing() {
    let mut app = three();
    for _ in 0..4 {
        app.next_field();
    }
    app.start_editing();
    app.handle_key(Key::Char('x'), None);
    app.confirm_edit(None);
    assert_eq!(app.status_message(), "Invalid number");
    assert!(app.editing());
    assert_eq!(app.towers()[0].cost, 50);
    assert_eq!(app.edit_buffer(), "");
}

#[test]
fn text_fields_refuse_empty_values() {
    let mut app = three();
    app.start_editing();
    for _ in 0..6 {
        app.handle_key(Key::Backspace, None);
    }
    app.confirm_edit(None);
    assert_eq!(app.status_message(), "ID cannot be empty");
    assert_eq!(app.towers()[0].id, "archer");
    app.next_field();
    app.start_editing();
    let name_len = app.edit_buffer().chars().count();
    for _ in 0..name_len {
        app.handle_key(Key::Backspace, None);
    }
    app.confirm_edit(None);
    assert_eq!(app.status_message(), "Name cannot be empty");
    app.next_field();
    app.start_editing();
    app.handle_key(Key::Char('!'), None);
    assert!(app.confirm_edit(None));
    assert_eq!(app.status_message(), "Sprite path updated");
    assert_eq!(app.towers()[0].sprite_path, "Decorations/Buildings/Blue Buildings/Archery.png!");
}

#[test]
fn renaming_the_id_and_description() {
    let mut app = three();
    app.start_editing();
    app.handle_key(Key::Char('2'), None);
    app.confirm_edit(None);
    assert_eq!(app.status_message(), "ID updated");
    assert_eq!(app.towers()[0].id, "archer2");
    app.prev_field();
    assert_eq!(app.selected_field(), TowerField::Description);
    app.start_editing();
    for _ in 0..6 {
        app.handle_key(Key::Backspace, None);
    }
    app.confirm_edit(None);
    assert_eq!(app.status_message(), "Description updated");
    assert_eq!(app.towers()[0].description, "");
}

#[test]
fn float_fields_take_the_parsed_value() {
    let mut app = three();
    for _ in 0..5 {
        app.next_field();
    }
    assert_eq!(app.selected_field(), TowerField::Range);
    app.start_editing();
    assert_eq!(app.edit_buffer(), "128");
    app.confirm_edit(Some(f(300.0)));
    assert_eq!(app.status_message(), "Range set to 300");
    assert_eq!(app.towers()[0].range.bits, 300.0f32.to_bits());
    app.next_field();
    app.start_editing();
    app.confirm_edit(None);
    assert_eq!(app.status_message(), "Invalid number");
    app.confirm_edit(Some(f(2.5)));
    assert_eq!(app.status_message(), "Damage set to 2.5");
    app.next_field();
    app.start_editing();
    app.confirm_edit(Some(f(0.25)));
    assert_eq!(app.status_message(), "Fire rate set to 0.25");
    app.next_field();
    app.start_editing();
    app.confirm_edit(Some(f(400.0)));
    assert_eq!(app.status_message(), "Projectile speed set to 400");
}

#[test]
fn confirming_the_starting_text_changes_nothing() {
    let mut app = three();
    for _ in 0..10 {
        let before = app.towers()[0].clone();
        let number = match app.selected_field() {
            TowerField::Range => Some(before.range.clone()),
            TowerField::Damage => Some(before.damage.clone()),
            TowerField::FireRate => Some(before.fire_rate.clone()),
            TowerField::ProjectileSpeed => Some(before.projectile_speed.clone()),
            _ => None,
        };
        app.start_editing();
        app.confirm_edit(number);
        let after = &app.towers()[0];
        assert_eq!(after.id, before.id);
        assert_eq!(after.cost, before.cost);
        assert_eq!(after.range.bits, before.range.bits);
        assert_eq!(after.description, before.description);
        app.next_field();
    }
}

#[test]
fn cancel_discards_the_edit() {
    let mut app = three();
    app.start_editing();
    app.handle_key(Key::Char('z'), None);
    assert_eq!(app.handle_key(Key::Esc, None), KeyAction::Continue);
    assert!(!app.editing());
    assert_eq!(app.edit_buffer(), "");
    assert_eq!(app.status_message(), "Edit cancelled");
    assert_eq!(app.towers()[0].id, "archer");
}

#[test]
fn keys_drive_the_editor() {
    let mut app = three();
    assert_eq!(app.handle_key(Key::Down, None), KeyAction::ReloadImages);
    assert_eq!(app.selected(), Some(1));
    assert_eq!(app.handle_key(Key::Up, None), KeyAction::ReloadImages);
    assert_eq!(app.selected(), Some(0));
    assert_eq!(app.handle_key(Key::Enter, None), KeyAction::Continue);
    assert!(!app.editing());
    assert_eq!(app.handle_key(Key::Tab, None), KeyAction::Continue);
    assert_eq!(app.selected_panel(), SelectedPanel::TowerDetails);
    app.handle_key(Key::Down, None);
    assert_eq!(app.selected_field(), TowerField::Name);
    app.handle_key(Key::Up, None);
    app.handle_key(Key::Up, None);
    assert_eq!(app.selected_field(), TowerField::Description);
    app.handle_key(Key::Char('x'), None);
    assert_eq!(app.towers().len(), 3);
    app.handle_key(Key::Tab, None);
    assert_eq!(app.selected_panel(), SelectedPanel::Towers);
    app.handle_key(Key::Char('x'), None);
    assert_eq!(app.towers().len(), 2);
    app.handle_key(Key::Char('a'), None);
    assert_eq!(app.towers().len(), 3);
    assert_eq!(app.towers()[2].id, "tower_3");
    assert_eq!(app.handle_key(Key::Char('w'), None), KeyAction::Save);
    app.mark_saved();
    assert_eq!(app.status_message(), "✓ Saved successfully!");
    assert_eq!(app.handle_key(Key::Char('q'), None), KeyAction::Quit);
}

#[test]
fn enter_in_details_edits_and_reports_image_changes() {
    let mut app = three();
    app.handle_key(Key::Tab, None);
    app.handle_key(Key::Down, None);
    app.handle_key(Key::Down, None);
    assert_eq!(app.selected_field(), TowerField::SpritePath);
    app.handle_key(Key::Enter, None);
    assert!(app.editing());
    app.handle_key(Key::Char('x'), None);
    assert_eq!(app.handle_key(Key::Enter, None), KeyAction::ReloadImages);
    assert!(!app.editing());
}
