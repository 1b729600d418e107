use bevy_demo::systems::audio::{background_music_file, sound_file, SoundEffect};
use bevy_demo::config::{F32Value, UnitSpawn, UnitType, Wave};
use bevy_demo::systems::cursor::{cursor_image, desired_cursor, update_cursor, CursorState};
use bevy_demo::systems::game_state::GameState;
use bevy_demo::systems::wave_manager_ui::{top_bar_texts, wave_panel_rows};

fn f(v: f32) -> F32Value {
    F32Value { bits: v.to_bits(), text: v.to_string() }
}

fn unit(id: &str) -> UnitType {
    UnitType {
        id: id.to_string(),
        name: id.to_string(),
        sprite_path: format!("Units/{id}.png"),
        avatar_path: format!("Avatars/{id}.png"),
        base_health: f(100.0),
        base_speed: f(40.0),
        damage_to_base: 1,
        gold_reward: 5,
        defense_type: "armor".to_string(),
        frame_size: [192, 192],
        frame_count: 6,
    }
}

fn group(id: &str, count: i32) -> UnitSpawn {
    UnitSpawn { unit_id: id.to_string(), count, health_multiplier: f(1.0) }
}

#[test]
fn the_panel_lists_groups_of_known_units() {
    let units = vec![unit("goblin"), unit("orc"), unit("goblin")];
    let wave = Wave {
        wave_number: 3,
        spawn_interval: f(1.5),
        spawns: vec![group("orc", 4), group("dragon", 1), group("goblin", 12)],
    };
    assert_eq!(wave_panel_rows(&wave, &units), vec![(1, 4), (0, 12)]);
    assert!(wave_panel_rows(&wave, &vec![]).is_empty());
}

#[test]
fn the_top_bar_shows_the_standing() {
    let s = GameState { lives: 20, gold: -3, wood: 0, meat: 105, score: 9, wave: 2 };
    assert_eq!(
        top_bar_texts(&s),
        ("20".to_string(), "-3".to_string(), "0".to_string(), "105".to_string())
    );
}

#[test]
fn the_cursor_follows_the_tile() {
    assert_eq!(desired_cursor(true, true), CursorState::Normal);
    assert_eq!(desired_cursor(false, true), CursorState::Blocked);
    assert_eq!(desired_cursor(false, false), CursorState::Normal);
    let mut current = CursorState::Normal;
    assert_eq!(update_cursor(&mut current, false, true), Some(CursorState::Blocked));
    assert_eq!(current, CursorState::Blocked);
    assert_eq!(update_cursor(&mut current, false, true), None);
    assert_eq!(update_cursor(&mut current, true, true), Some(CursorState::Normal));
    assert_eq!(cursor_image(CursorState::Blocked), ("UI Elements/UI Elements/Cursors/Cursor_03.png", (32, 29)));
    assert_eq!(cursor_image(CursorState::Normal), ("UI Elements/UI Elements/Cursors/Cursor_02.png", (24, 20)));
}

#[test]
fn each_effect_has_its_sound() {
    assert_eq!(sound_file(SoundEffect::ArrowShoot), "Sound Effects/attack_arrow.mp3");
    assert_eq!(sound_file(SoundEffect::CastleDamage), "Sound Effects/castle_demage.mp3");
    assert_eq!(sound_file(SoundEffect::ButtonClick), "Sound Effects/choose.mp3");
    assert_eq!(background_music_file(), "Sound Effects/medieval_soundtrack.mp3");
}
