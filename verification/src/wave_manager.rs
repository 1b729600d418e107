//! The state of the wave configuration editor: the waves, the unit types a
//! spawn group can name, the selected wave, spawn group and field, and the
//! text being edited. Every operation is stated as a function on
//! [`WaveEditorModel`].

use vstd::prelude::*;

use crate::config::{
    duplicate_spawns, spawn_models, F32Model, F32Value, UnitSpawn, UnitSpawnModel, UnitType,
    UnitTypeModel, Wave, WaveModel,
};
use crate::input::{line_mark, mark_for, Key, KeyAction, LineMark};
use crate::text::{
    join_text, decimal_text, format_i32, parse_i32, parsed_i32, pop_char, push_char, push_text,
    same_text,
};
use crate::tower_manager::opt_f32_model;

verus! {

/// The three panels of the editor.
#[derive(Clone, Copy, PartialEq, Eq, Structural, Debug)]
pub enum SelectedPanel {
    Waves,
    WaveDetails,
    Units,
}

/// The selected line of the wave details: the spawn interval, or one spawn
/// group by its position.
#[derive(Clone, Copy, PartialEq, Eq, Structural, Debug)]
pub enum WaveDetailField {
    SpawnInterval,
    Spawn(usize),
}

impl WaveDetailField {
    /// Whether a spawn group is selected.
    pub fn is_spawn(&self) -> (r: bool)
        ensures
            r == (*self is Spawn),
    {
        matches!(self, WaveDetailField::Spawn(_))
    }

    /// The position of the selected spawn group, if one is selected.
    pub fn spawn_index(&self) -> (r: Option<usize>)
        ensures
            r == match *self {
                WaveDetailField::Spawn(i) => Some(i),
                _ => None::<usize>,
            },
    {
        match self {
            WaveDetailField::Spawn(idx) => Some(*idx),
            _ => None,
        }
    }
}

/// The fields of a spawn group, in display order.
#[derive(Clone, Copy, PartialEq, Eq, Structural, Debug)]
pub enum SpawnField {
    UnitType,
    Count,
    HealthMultiplier,
}

/// The spawn-group fields in display order.
pub open spec fn spawn_field_order() -> Seq<SpawnField> {
    seq![SpawnField::UnitType, SpawnField::Count, SpawnField::HealthMultiplier]
}

impl SpawnField {
    /// The position of the field in display order.
    pub open spec fn position(self) -> int {
        match self {
            SpawnField::UnitType => 0,
            SpawnField::Count => 1,
            SpawnField::HealthMultiplier => 2,
        }
    }

    /// The field after this one, the last wrapping to the first.
    pub open spec fn following(self) -> SpawnField {
        match self {
            SpawnField::UnitType => SpawnField::Count,
            SpawnField::Count => SpawnField::HealthMultiplier,
            SpawnField::HealthMultiplier => SpawnField::UnitType,
        }
    }

    /// The field before this one, the first wrapping to the last.
    pub open spec fn preceding(self) -> SpawnField {
        match self {
            SpawnField::UnitType => SpawnField::HealthMultiplier,
            SpawnField::Count => SpawnField::UnitType,
            SpawnField::HealthMultiplier => SpawnField::Count,
        }
    }

    /// All spawn-group fields in display order.
    pub fn all() -> (r: Vec<SpawnField>)
        ensures
            r@ == spawn_field_order(),
    {
        let r = vec![SpawnField::UnitType, SpawnField::Count, SpawnField::HealthMultiplier];
        assert(r@ =~= spawn_field_order());
        r
    }

    /// Where this field stands in the list of all fields.
    fn position_in(&self, all: &Vec<SpawnField>) -> (i: usize)
        requires
            all@ == spawn_field_order(),
        ensures
            i == self.position(),
    {
        let mut i: usize = 0;
        while i < all.len()
            invariant
                all@ == spawn_field_order(),
                i <= all.len(),
                forall|k: int| 0 <= k < i ==> all@[k] != *self,
            decreases all.len() - i,
        {
            if all[i] == *self {
                return i;
            }
            i = i + 1;
        }
        assert(all@[self.position()] == *self);
        0
    }

    /// The next field, wrapping around.
    pub fn next(&self) -> (r: SpawnField)
        ensures
            r == self.following(),
    {
        let all = Self::all();
        let current_idx = self.position_in(&all);
        proof {
            assert(all@.len() == 3);
            match *self {
                SpawnField::UnitType => {
                    assert(current_idx == 0);
                    assert((current_idx + 1) % 3 == 1);
                    assert(all@[1] == SpawnField::Count);
                },
                SpawnField::Count => {
                    assert(current_idx == 1);
                    assert((current_idx + 1) % 3 == 2);
                    assert(all@[2] == SpawnField::HealthMultiplier);
                },
                SpawnField::HealthMultiplier => {
                    assert(current_idx == 2);
                    assert((current_idx + 1) % 3 == 0);
                    assert(all@[0] == SpawnField::UnitType);
                },
            }
        }
        all[(current_idx + 1) % all.len()]
    }

    /// The previous field, wrapping around.
    pub fn prev(&self) -> (r: SpawnField)
        ensures
            r == self.preceding(),
    {
        let all = Self::all();
        let current_idx = self.position_in(&all);
        if current_idx == 0 {
            all[all.len() - 1]
        } else {
            all[current_idx - 1]
        }
    }
}

// ---------------------------------------------------------------------------
// The model
// ---------------------------------------------------------------------------

/// The content of the editor.
#[verifier::ext_equal]
pub struct WaveEditorModel {
    pub units: Seq<UnitTypeModel>,
    pub waves: Seq<WaveModel>,
    pub panel: SelectedPanel,
    pub selected_wave: Option<usize>,
    pub selected_unit: Option<usize>,
    pub current: Option<WaveModel>,
    pub status: Seq<char>,
    pub field: WaveDetailField,
    pub spawn_field: SpawnField,
    pub editing: bool,
    pub buffer: Seq<char>,
}

/// The status line shown when the editor opens.
pub open spec fn help_text() -> Seq<char> {
    "q:quit | w:save | a:new wave | x:delete | Tab:switch | ↑/↓:navigate | Enter:edit/save"@
}

/// The highest wave number of a non-empty list.
pub open spec fn highest_wave_number(waves: Seq<WaveModel>) -> int
    decreases waves.len(),
{
    if waves.len() <= 1 {
        waves[0].wave_number as int
    } else {
        let rest = highest_wave_number(waves.drop_last());
        let last = waves.last().wave_number as int;
        if rest >= last {
            rest
        } else {
            last
        }
    }
}

/// The number a new wave gets: one past the highest, or 1 for the first.
pub open spec fn next_wave_number(waves: Seq<WaveModel>) -> int {
    if waves.len() == 0 {
        1
    } else {
        highest_wave_number(waves) + 1
    }
}

/// The spawn group a new wave starts with, and that a wave gets added.
pub open spec fn default_spawn(unit_id: Seq<char>) -> UnitSpawnModel {
    UnitSpawnModel {
        unit_id,
        count: 5,
        health_multiplier: F32Model { bits: 0x3f80_0000, text: "1"@ },
    }
}

/// The wave added with number `n`.
pub open spec fn new_wave(n: i32) -> WaveModel {
    WaveModel {
        wave_number: n,
        spawn_interval: F32Model { bits: 0x4000_0000, text: "2"@ },
        spawns: seq![default_spawn("warrior"@)],
    }
}

/// The first position of a unit type with the given id.
pub open spec fn unit_position(units: Seq<UnitTypeModel>, id: Seq<char>) -> Option<int> {
    if exists|i: int| 0 <= i < units.len() && units[i].id == id {
        Some(
            choose|i: int|
                0 <= i < units.len() && units[i].id == id && forall|j: int|
                    0 <= j < i ==> units[j].id != id,
        )
    } else {
        None
    }
}

/// Whether some unit type has the given id.
pub open spec fn has_unit(units: Seq<UnitTypeModel>, id: Seq<char>) -> bool {
    exists|i: int| 0 <= i < units.len() && units[i].id == id
}

/// A spawn group's field set from the buffer, with its message, or an
/// error message.
pub open spec fn apply_spawn_edit(
    units: Seq<UnitTypeModel>,
    s: UnitSpawnModel,
    f: SpawnField,
    buffer: Seq<char>,
    number: Option<F32Model>,
) -> Result<(UnitSpawnModel, Seq<char>), Seq<char>> {
    match f {
        SpawnField::UnitType => if has_unit(units, buffer) {
            Ok((UnitSpawnModel { unit_id: buffer, ..s }, "Unit type updated"@))
        } else {
            Err("Unit '"@ + buffer + "' not found"@)
        },
        SpawnField::Count => match parsed_i32(buffer) {
            Some(v) => Ok((UnitSpawnModel { count: v, ..s }, "Count set to "@ + decimal_text(v as int))),
            None => Err("Invalid number"@),
        },
        SpawnField::HealthMultiplier => match number {
            Some(v) => Ok(
                (UnitSpawnModel { health_multiplier: v, ..s }, "Health multiplier set to "@ + v.text),
            ),
            None => Err("Invalid number"@),
        },
    }
}

/// A wave edited at the selected line from the buffer, with its message,
/// or an error message.
pub open spec fn apply_wave_edit(
    units: Seq<UnitTypeModel>,
    w: WaveModel,
    field: WaveDetailField,
    spawn_field: SpawnField,
    buffer: Seq<char>,
    number: Option<F32Model>,
) -> Result<(WaveModel, Seq<char>), Seq<char>> {
    match field {
        WaveDetailField::SpawnInterval => match number {
            Some(v) => Ok((WaveModel { spawn_interval: v, ..w }, "Spawn interval set to "@ + v.text)),
            None => Err("Invalid number"@),
        },
        WaveDetailField::Spawn(si) => if si < w.spawns.len() {
            match apply_spawn_edit(units, w.spawns[si as int], spawn_field, buffer, number) {
                Ok((s, msg)) => Ok((WaveModel { spawns: w.spawns.update(si as int, s), ..w }, msg)),
                Err(msg) => Err(msg),
            }
        } else {
            Err("Invalid spawn index"@)
        },
    }
}

impl WaveEditorModel {
    /// The editor's invariant: a wave is selected exactly when there are
    /// waves, a unit type exactly when there are unit types, selections
    /// point at entries, and the details show the selected wave.
    pub open spec fn wf(self) -> bool {
        &&& self.waves.len() <= usize::MAX
        &&& self.units.len() <= usize::MAX
        &&& forall|w: int| 0 <= w < self.waves.len() ==> #[trigger] self.waves[w].spawns.len() <= usize::MAX
        &&& (self.selected_wave is None <==> self.waves.len() == 0)
        &&& (self.selected_wave matches Some(i) ==> i < self.waves.len())
        &&& (self.selected_unit is None <==> self.units.len() == 0)
        &&& (self.selected_unit matches Some(i) ==> i < self.units.len())
        &&& self.current == match self.selected_wave {
            Some(i) => Some(self.waves[i as int]),
            None => None::<WaveModel>,
        }
    }

    /// The editor with wave `i` selected and shown.
    pub open spec fn select_wave(self, i: usize) -> Self {
        WaveEditorModel { selected_wave: Some(i), current: Some(self.waves[i as int]), ..self }
    }

    /// Wave `i` replaced by `w`, and shown.
    pub open spec fn replace_wave(self, i: usize, w: WaveModel) -> Self {
        WaveEditorModel { waves: self.waves.update(i as int, w), current: Some(w), ..self }
    }

    /// The editor as it opens.
    pub open spec fn opened(units: Seq<UnitTypeModel>, waves: Seq<WaveModel>) -> Self {
        let base = WaveEditorModel {
            units,
            waves,
            panel: SelectedPanel::Waves,
            selected_wave: None,
            selected_unit: None,
            current: None,
            status: help_text(),
            field: WaveDetailField::SpawnInterval,
            spawn_field: SpawnField::UnitType,
            editing: false,
            buffer: Seq::empty(),
        };
        let with_wave = if waves.len() > 0 {
            base.select_wave(0)
        } else {
            base
        };
        if units.len() > 0 {
            WaveEditorModel { selected_unit: Some(0), ..with_wave }
        } else {
            with_wave
        }
    }

    /// Moves the wave selection down, wrapping around.
    pub open spec fn next_wave(self) -> Self {
        let i: usize = match self.selected_wave {
            Some(i) => if i >= self.waves.len() - 1 {
                0
            } else {
                (i + 1) as usize
            },
            None => 0,
        };
        self.select_wave(i)
    }

    /// Moves the wave selection up, wrapping around.
    pub open spec fn previous_wave(self) -> Self {
        let i: usize = match self.selected_wave {
            Some(i) => if i == 0 {
                (self.waves.len() - 1) as usize
            } else {
                (i - 1) as usize
            },
            None => 0,
        };
        self.select_wave(i)
    }

    /// Moves the unit selection down, wrapping around.
    pub open spec fn next_unit(self) -> Self {
        let i: usize = match self.selected_unit {
            Some(i) => if i >= self.units.len() - 1 {
                0
            } else {
                (i + 1) as usize
            },
            None => 0,
        };
        WaveEditorModel { selected_unit: Some(i), ..self }
    }

    /// Moves the unit selection up, wrapping around.
    pub open spec fn previous_unit(self) -> Self {
        let i: usize = match self.selected_unit {
            Some(i) => if i == 0 {
                (self.units.len() - 1) as usize
            } else {
                (i - 1) as usize
            },
            None => 0,
        };
        WaveEditorModel { selected_unit: Some(i), ..self }
    }

    /// Appends a wave numbered one past the highest and selects it.
    pub open spec fn add_new_wave(self) -> Self {
        let w = new_wave(next_wave_number(self.waves) as i32);
        WaveEditorModel {
            waves: self.waves.push(w),
            selected_wave: Some(self.waves.len() as usize),
            current: Some(w),
            status: "Added Wave "@ + decimal_text(w.wave_number as int),
            ..self
        }
    }

    /// Removes the selected wave; the selection stays at the same position,
    /// or moves to the new last wave.
    pub open spec fn delete_current_wave(self) -> Self {
        match self.selected_wave {
            Some(idx) => if self.waves.len() > 0 {
                let waves = self.waves.remove(idx as int);
                let base = WaveEditorModel { waves, status: "Wave deleted"@, ..self };
                if waves.len() == 0 {
                    WaveEditorModel { selected_wave: None, current: None, ..base }
                } else {
                    let last = (waves.len() - 1) as usize;
                    base.select_wave(if idx < last { idx } else { last })
                }
            } else {
                self
            },
            None => self,
        }
    }

    /// The unit id a new spawn group names: the first unit type's, or
    /// `warrior` when there is none.
    pub open spec fn default_unit_id(self) -> Seq<char> {
        if self.units.len() > 0 {
            self.units[0].id
        } else {
            "warrior"@
        }
    }

    /// Adds a spawn group to the selected wave and selects it.
    pub open spec fn add_spawn_to_current_wave(self) -> Self {
        match self.selected_wave {
            Some(idx) => {
                let w = self.waves[idx as int];
                let nw = WaveModel { spawns: w.spawns.push(default_spawn(self.default_unit_id())), ..w };
                WaveEditorModel {
                    field: WaveDetailField::Spawn(w.spawns.len() as usize),
                    status: "Added new spawn to wave"@,
                    ..self.replace_wave(idx, nw)
                }
            },
            None => self,
        }
    }

    /// Removes the selected spawn group of the selected wave; the selection
    /// moves to the group before it, or to the first, or to the spawn
    /// interval when none is left.
    pub open spec fn remove_current_spawn(self) -> Self {
        match (self.selected_wave, self.field) {
            (Some(wi), WaveDetailField::Spawn(si)) => {
                let w = self.waves[wi as int];
                if si < w.spawns.len() {
                    let nw = WaveModel { spawns: w.spawns.remove(si as int), ..w };
                    let field = if nw.spawns.len() == 0 {
                        WaveDetailField::SpawnInterval
                    } else if si > 0 {
                        WaveDetailField::Spawn((si - 1) as usize)
                    } else {
                        WaveDetailField::Spawn(0)
                    };
                    WaveEditorModel {
                        field,
                        status: "Removed spawn from wave"@,
                        ..self.replace_wave(wi, nw)
                    }
                } else {
                    self
                }
            },
            _ => self,
        }
    }

    /// Moves the detail selection down: from the interval to the first
    /// group, or to the next group, never past the last.
    pub open spec fn next_field(self) -> Self {
        match self.current {
            Some(w) => match self.field {
                WaveDetailField::SpawnInterval => if w.spawns.len() > 0 {
                    WaveEditorModel {
                        field: WaveDetailField::Spawn(0),
                        spawn_field: SpawnField::UnitType,
                        ..self
                    }
                } else {
                    self
                },
                WaveDetailField::Spawn(i) => if i < w.spawns.len() - 1 {
                    WaveEditorModel {
                        field: WaveDetailField::Spawn((i + 1) as usize),
                        spawn_field: SpawnField::UnitType,
                        ..self
                    }
                } else {
                    self
                },
            },
            None => self,
        }
    }

    /// Moves the detail selection up: to the previous group, or from the
    /// first group to the interval.
    pub open spec fn prev_field(self) -> Self {
        match self.field {
            WaveDetailField::SpawnInterval => self,
            WaveDetailField::Spawn(i) => if i == 0 {
                WaveEditorModel { field: WaveDetailField::SpawnInterval, ..self }
            } else {
                WaveEditorModel {
                    field: WaveDetailField::Spawn((i - 1) as usize),
                    spawn_field: SpawnField::UnitType,
                    ..self
                }
            },
        }
    }

    /// Selects the next spawn-group field while a group is selected.
    pub open spec fn next_spawn_field(self) -> Self {
        if self.field is Spawn {
            WaveEditorModel { spawn_field: self.spawn_field.following(), ..self }
        } else {
            self
        }
    }

    /// Selects the previous spawn-group field while a group is selected.
    pub open spec fn prev_spawn_field(self) -> Self {
        if self.field is Spawn {
            WaveEditorModel { spawn_field: self.spawn_field.preceding(), ..self }
        } else {
            self
        }
    }

    /// Switches the selected spawn group to the unit type after the one it
    /// names, wrapping around; nothing happens when it names no known type.
    pub open spec fn cycle_unit_for_current_spawn(self) -> Self {
        match (self.selected_wave, self.field) {
            (Some(wi), WaveDetailField::Spawn(si)) => {
                let w = self.waves[wi as int];
                if si < w.spawns.len() {
                    match unit_position(self.units, w.spawns[si as int].unit_id) {
                        Some(ci) => {
                            let next = (ci + 1) % (self.units.len() as int);
                            let s = UnitSpawnModel { unit_id: self.units[next].id, ..w.spawns[si as int] };
                            let nw = WaveModel { spawns: w.spawns.update(si as int, s), ..w };
                            WaveEditorModel {
                                status: "Changed unit to "@ + self.units[next].name,
                                ..self.replace_wave(wi, nw)
                            }
                        },
                        None => self,
                    }
                } else {
                    self
                }
            },
            _ => self,
        }
    }

    /// Starts editing the selected line of the shown wave.
    pub open spec fn start_editing(self) -> Self {
        match self.current {
            Some(w) => {
                let buffer = match self.field {
                    WaveDetailField::SpawnInterval => w.spawn_interval.text,
                    WaveDetailField::Spawn(i) => if i < w.spawns.len() {
                        match self.spawn_field {
                            SpawnField::UnitType => w.spawns[i as int].unit_id,
                            SpawnField::Count => decimal_text(w.spawns[i as int].count as int),
                            SpawnField::HealthMultiplier => w.spawns[i as int].health_multiplier.text,
                        }
                    } else {
                        self.buffer
                    },
                };
                WaveEditorModel {
                    editing: true,
                    buffer,
                    status: "Editing (Enter to save, Esc to cancel)"@,
                    ..self
                }
            },
            None => self,
        }
    }

    /// Applies the buffer to the selected line of the selected wave; on
    /// success editing ends, on failure the error is shown. The buffer is
    /// emptied either way.
    pub open spec fn confirm_edit(self, number: Option<F32Model>) -> Self {
        let s = match self.selected_wave {
            Some(wi) => match apply_wave_edit(
                self.units,
                self.waves[wi as int],
                self.field,
                self.spawn_field,
                self.buffer,
                number,
            ) {
                Ok((w, msg)) => WaveEditorModel {
                    status: msg,
                    editing: false,
                    ..self.replace_wave(wi, w)
                },
                Err(msg) => WaveEditorModel { status: msg, ..self },
            },
            None => self,
        };
        WaveEditorModel { buffer: Seq::empty(), ..s }
    }

    /// Abandons the edit.
    pub open spec fn cancel_edit(self) -> Self {
        WaveEditorModel {
            editing: false,
            buffer: Seq::empty(),
            status: "Edit cancelled"@,
            ..self
        }
    }

    /// Records that the configuration was written.
    pub open spec fn mark_saved(self) -> Self {
        WaveEditorModel { status: "✓ Saved successfully!"@, ..self }
    }

    /// Whether a key press is one the editor cannot take: moving through an
    /// empty list, moving down from a group of a wave that has none, or
    /// numbering a wave past the largest `i32`.
    pub open spec fn key_fails(self, key: Key) -> bool {
        &&& !self.editing
        &&& {
            ||| (key == Key::Up || key == Key::Down) && self.panel == SelectedPanel::Waves
                && self.waves.len() == 0
            ||| (key == Key::Up || key == Key::Down) && self.panel == SelectedPanel::Units
                && self.units.len() == 0
            ||| key == Key::Down && self.panel == SelectedPanel::WaveDetails && self.field is Spawn
                && self.current is Some && self.current->Some_0.spawns.len() == 0
            ||| key == Key::Char('a') && next_wave_number(self.waves) > i32::MAX
        }
    }

    /// What a key press does: the new editor and what is asked of the
    /// program around it.
    pub open spec fn handle_key(self, key: Key, number: Option<F32Model>) -> (Self, KeyAction) {
        let details = self.panel == SelectedPanel::WaveDetails;
        if self.editing {
            match key {
                Key::Enter => (self.confirm_edit(number), KeyAction::Continue),
                Key::Esc => (self.cancel_edit(), KeyAction::Continue),
                Key::Backspace => (
                    WaveEditorModel {
                        buffer: if self.buffer.len() > 0 {
                            self.buffer.drop_last()
                        } else {
                            self.buffer
                        },
                        ..self
                    },
                    KeyAction::Continue,
                ),
                Key::Char(c) => (
                    WaveEditorModel { buffer: self.buffer.push(c), ..self },
                    KeyAction::Continue,
                ),
                _ => (self, KeyAction::Continue),
            }
        } else {
            match key {
                Key::Char('q') => (self, KeyAction::Quit),
                Key::Char('w') => (self, KeyAction::Save),
                Key::Char('a') => (self.add_new_wave(), KeyAction::Continue),
                Key::Char('x') => if self.panel == SelectedPanel::Waves {
                    (self.delete_current_wave(), KeyAction::Continue)
                } else {
                    (self, KeyAction::Continue)
                },
                Key::Insert => if details {
                    (self.add_spawn_to_current_wave(), KeyAction::Continue)
                } else {
                    (self, KeyAction::Continue)
                },
                Key::Delete => if details {
                    (self.remove_current_spawn(), KeyAction::Continue)
                } else {
                    (self, KeyAction::Continue)
                },
                Key::Char(' ') => if details {
                    (self.cycle_unit_for_current_spawn(), KeyAction::Continue)
                } else {
                    (self, KeyAction::Continue)
                },
                Key::Enter => if details {
                    (self.start_editing(), KeyAction::Continue)
                } else {
                    (self, KeyAction::Continue)
                },
                Key::Down => match self.panel {
                    SelectedPanel::Waves => (self.next_wave(), KeyAction::Continue),
                    SelectedPanel::WaveDetails => (self.next_field(), KeyAction::Continue),
                    SelectedPanel::Units => (self.next_unit(), KeyAction::ReloadImages),
                },
                Key::Up => match self.panel {
                    SelectedPanel::Waves => (self.previous_wave(), KeyAction::Continue),
                    SelectedPanel::WaveDetails => (self.prev_field(), KeyAction::Continue),
                    SelectedPanel::Units => (self.previous_unit(), KeyAction::ReloadImages),
                },
                Key::Left => if details {
                    (self.prev_spawn_field(), KeyAction::Continue)
                } else {
                    (self, KeyAction::Continue)
                },
                Key::Right => if details {
                    (self.next_spawn_field(), KeyAction::Continue)
                } else {
                    (self, KeyAction::Continue)
                },
                Key::Tab => (
                    WaveEditorModel {
                        panel: match self.panel {
                            SelectedPanel::Waves => SelectedPanel::WaveDetails,
                            SelectedPanel::WaveDetails => SelectedPanel::Units,
                            SelectedPanel::Units => SelectedPanel::Waves,
                        },
                        ..self
                    },
                    KeyAction::Continue,
                ),
                _ => (self, KeyAction::Continue),
            }
        }
    }
}

} // verus!

verus! {

// ---------------------------------------------------------------------------
// The editor
// ---------------------------------------------------------------------------

/// The contents of a list of waves.
pub open spec fn wave_models(v: Seq<Wave>) -> Seq<WaveModel> {
    v.map_values(|w: Wave| w@)
}

/// The contents of a list of unit types.
pub open spec fn unit_models(v: Seq<UnitType>) -> Seq<UnitTypeModel> {
    v.map_values(|u: UnitType| u@)
}

/// The contents of an optional wave.
pub open spec fn opt_wave_model(w: Option<Wave>) -> Option<WaveModel> {
    match w {
        Some(w) => Some(w@),
        None => None,
    }
}

/// The wave configuration editor.
pub struct App {
    units: Vec<UnitType>,
    waves: Vec<Wave>,
    selected_panel: SelectedPanel,
    selected_wave: Option<usize>,
    selected_unit: Option<usize>,
    current_wave: Option<Wave>,
    status_message: String,
    selected_field: WaveDetailField,
    selected_spawn_field: SpawnField,
    editing: bool,
    edit_buffer: String,
}

impl View for App {
    type V = WaveEditorModel;

    closed spec fn view(&self) -> WaveEditorModel {
        WaveEditorModel {
            units: unit_models(self.units@),
            waves: wave_models(self.waves@),
            panel: self.selected_panel,
            selected_wave: self.selected_wave,
            selected_unit: self.selected_unit,
            current: opt_wave_model(self.current_wave),
            status: self.status_message@,
            field: self.selected_field,
            spawn_field: self.selected_spawn_field,
            editing: self.editing,
            buffer: self.edit_buffer@,
        }
    }
}

/// A spawn group of five of a unit at base health.
fn make_default_spawn(unit_id: String) -> (s: UnitSpawn)
    ensures
        s@ == default_spawn(unit_id@),
{
    UnitSpawn {
        unit_id,
        count: 5,
        health_multiplier: F32Value { bits: 0x3f80_0000, text: String::from_str("1") },
    }
}

/// The first position of a unit type with the given id.
pub fn find_unit(units: &Vec<UnitType>, id: &String) -> (r: Option<usize>)
    ensures
        match r {
            Some(i) => unit_position(unit_models(units@), id@) == Some(i as int) && i < units@.len(),
            None => unit_position(unit_models(units@), id@) is None,
        },
{
    let ghost us = unit_models(units@);
    let mut i: usize = 0;
    while i < units.len()
        invariant
            i <= units@.len(),
            us == unit_models(units@),
            forall|j: int| 0 <= j < i ==> us[j].id != id@,
        decreases units@.len() - i,
    {
        if same_text(units[i].id.as_str(), id.as_str()) {
            proof {
                assert(us[i as int].id == id@);
                let c = choose|k: int|
                    0 <= k < us.len() && us[k].id == id@ && forall|j: int|
                        0 <= j < k ==> us[j].id != id@;
                assert(0 <= i < us.len() && us[i as int].id == id@ && forall|j: int|
                    0 <= j < i ==> us[j].id != id@);
                if c < i {
                    assert(us[c].id != id@);
                } else if c > i {
                    assert(us[i as int].id != id@);
                }
            }
            return Some(i);
        }
        i = i + 1;
    }
    None
}

/// The label of a wave in the list.
pub fn wave_label(wave_number: i32) -> (r: String)
    ensures
        r@ == "Wave "@ + decimal_text(wave_number as int),
{
    let shown = format_i32(wave_number);
    join_text("Wave ", shown.as_str())
}

/// The size label of a wave in the list.
pub fn units_label(total: i32) -> (r: String)
    ensures
        r@ == decimal_text(total as int) + " units"@,
{
    let shown = format_i32(total);
    join_text(shown.as_str(), " units")
}

/// The highest wave number, when there are waves.
fn highest_number(waves: &Vec<Wave>) -> (r: Option<i32>)
    ensures
        match r {
            Some(v) => waves@.len() > 0 && v == highest_wave_number(wave_models(waves@)),
            None => waves@.len() == 0,
        },
{
    if waves.len() == 0 {
        return None;
    }
    let ghost ws = wave_models(waves@);
    let mut best: i32 = waves[0].wave_number;
    let mut i: usize = 1;
    assert(ws.take(1).len() == 1);
    while i < waves.len()
        invariant
            1 <= i <= waves@.len(),
            ws == wave_models(waves@),
            best == highest_wave_number(ws.take(i as int)),
        decreases waves@.len() - i,
    {
        let n = waves[i].wave_number;
        assert(ws.take(i + 1).drop_last() =~= ws.take(i as int));
        if n > best {
            best = n;
        }
        i = i + 1;
    }
    assert(ws.take(i as int) =~= ws);
    Some(best)
}

impl App {
    /// The editor opened on unit types and waves, the first of each
    /// selected.
    pub fn new(units: Vec<UnitType>, waves: Vec<Wave>) -> (app: App)
        ensures
            app@ == WaveEditorModel::opened(unit_models(units@), wave_models(waves@)),
            app@.wf(),
    {
        let mut app = App {
            units,
            waves,
            selected_panel: SelectedPanel::Waves,
            selected_wave: None,
            selected_unit: None,
            current_wave: None,
            status_message: String::from_str(
                "q:quit | w:save | a:new wave | x:delete | Tab:switch | ↑/↓:navigate | Enter:edit/save",
            ),
            selected_field: WaveDetailField::SpawnInterval,
            selected_spawn_field: SpawnField::UnitType,
            editing: false,
            edit_buffer: String::new(),
        };
        if app.waves.len() > 0 {
            app.selected_wave = Some(0);
            app.current_wave = Some(app.waves[0].duplicate());
        }
        if app.units.len() > 0 {
            app.selected_unit = Some(0);
        }
        proof {
            assert forall|w: int| 0 <= w < app@.waves.len() implies #[trigger] app@.waves[w].spawns.len()
                <= usize::MAX by {
                let x = app.waves@[w];
                assert(app@.waves[w] == x@);
                assert(x.spawns.len() <= usize::MAX);
                assert(x@.spawns.len() == x.spawns@.len());
            }
        }
        assert(app@ =~= WaveEditorModel::opened(unit_models(app.units@), wave_models(app.waves@)));
        app
    }

    /// The unit types.
    pub fn units(&self) -> (r: &Vec<UnitType>)
        ensures
            unit_models(r@) == self@.units,
    {
        &self.units
    }

    /// The waves.
    pub fn waves(&self) -> (r: &Vec<Wave>)
        ensures
            wave_models(r@) == self@.waves,
    {
        &self.waves
    }

    /// The selected wave.
    pub fn selected_wave(&self) -> (r: Option<usize>)
        ensures
            r == self@.selected_wave,
    {
        self.selected_wave
    }

    /// The selected unit type.
    pub fn selected_unit(&self) -> (r: Option<usize>)
        ensures
            r == self@.selected_unit,
    {
        self.selected_unit
    }

    /// The wave the details panel shows.
    pub fn current_wave(&self) -> (r: &Option<Wave>)
        ensures
            opt_wave_model(*r) == self@.current,
    {
        &self.current_wave
    }

    /// The panel that has the focus.
    pub fn selected_panel(&self) -> (r: SelectedPanel)
        ensures
            r == self@.panel,
    {
        self.selected_panel
    }

    /// The selected line of the wave details.
    pub fn selected_field(&self) -> (r: WaveDetailField)
        ensures
            r == self@.field,
    {
        self.selected_field
    }

    /// The selected field of the selected spawn group.
    pub fn selected_spawn_field(&self) -> (r: SpawnField)
        ensures
            r == self@.spawn_field,
    {
        self.selected_spawn_field
    }

    /// Whether a line is being edited.
    pub fn editing(&self) -> (r: bool)
        ensures
            r == self@.editing,
    {
        self.editing
    }

    /// The text being edited.
    pub fn edit_buffer(&self) -> (r: &String)
        ensures
            r@ == self@.buffer,
    {
        &self.edit_buffer
    }

    /// The status line.
    pub fn status_message(&self) -> (r: &String)
        ensures
            r@ == self@.status,
    {
        &self.status_message
    }

    /// Selects and shows wave `i`.
    fn select_wave(&mut self, i: usize)
        requires
            i < old(self).waves@.len(),
        ensures
            final(self)@ == old(self)@.select_wave(i),
    {
        self.selected_wave = Some(i);
        self.current_wave = Some(self.waves[i].duplicate());
        assert(final(self)@ =~= old(self)@.select_wave(i));
    }

    /// Replaces wave `i` and shows it.
    fn replace_wave(&mut self, i: usize, w: Wave)
        requires
            i < old(self).waves@.len(),
        ensures
            final(self)@ == old(self)@.replace_wave(i, w@),
            final(self).waves@.len() == old(self).waves@.len(),
    {
        let copy = w.duplicate();
        self.waves.set(i, w);
        self.current_wave = Some(copy);
        assert(wave_models(self.waves@) =~= old(self)@.waves.update(i as int, copy@));
        assert(final(self)@ =~= old(self)@.replace_wave(i, copy@));
    }

    /// Moves the wave selection down, wrapping around.
    pub fn next_wave(&mut self)
        requires
            old(self)@.wf(),
            old(self)@.waves.len() > 0,
        ensures
            final(self)@ == old(self)@.next_wave(),
            old(self)@.wf() ==> final(self)@.wf(),
    {
        assert(old(self)@.wf() ==> old(self)@.next_wave().wf()) by {
            if old(self)@.wf() {
                lemma_ops_keep_invariant(old(self)@, None);
            }
        }
        let i = match self.selected_wave {
            Some(i) => {
                if i >= self.waves.len() - 1 {
                    0
                } else {
                    i + 1
                }
            },
            None => 0,
        };
        self.select_wave(i);
    }

    /// Moves the wave selection up, wrapping around.
    pub fn previous_wave(&mut self)
        requires
            old(self)@.wf(),
            old(self)@.waves.len() > 0,
        ensures
            final(self)@ == old(self)@.previous_wave(),
            old(self)@.wf() ==> final(self)@.wf(),
    {
        assert(old(self)@.wf() ==> old(self)@.previous_wave().wf()) by {
            if old(self)@.wf() {
                lemma_ops_keep_invariant(old(self)@, None);
            }
        }
        let i = match self.selected_wave {
            Some(i) => {
                if i == 0 {
                    self.waves.len() - 1
                } else {
                    i - 1
                }
            },
            None => 0,
        };
        self.select_wave(i);
    }

    /// Moves the unit selection down, wrapping around.
    pub fn next_unit(&mut self)
        requires
            old(self)@.wf(),
            old(self)@.units.len() > 0,
        ensures
            final(self)@ == old(self)@.next_unit(),
            old(self)@.wf() ==> final(self)@.wf(),
    {
        assert(old(self)@.wf() ==> old(self)@.next_unit().wf()) by {
            if old(self)@.wf() {
                lemma_ops_keep_invariant(old(self)@, None);
            }
        }
        let i = match self.selected_unit {
            Some(i) => {
                if i >= self.units.len() - 1 {
                    0
                } else {
                    i + 1
                }
            },
            None => 0,
        };
        self.selected_unit = Some(i);
        assert(final(self)@ =~= old(self)@.next_unit());
    }

    /// Moves the unit selection up, wrapping around.
    pub fn previous_unit(&mut self)
        requires
            old(self)@.wf(),
            old(self)@.units.len() > 0,
        ensures
            final(self)@ == old(self)@.previous_unit(),
            old(self)@.wf() ==> final(self)@.wf(),
    {
        assert(old(self)@.wf() ==> old(self)@.previous_unit().wf()) by {
            if old(self)@.wf() {
                lemma_ops_keep_invariant(old(self)@, None);
            }
        }
        let i = match self.selected_unit {
            Some(i) => {
                if i == 0 {
                    self.units.len() - 1
                } else {
                    i - 1
                }
            },
            None => 0,
        };
        self.selected_unit = Some(i);
        assert(final(self)@ =~= old(self)@.previous_unit());
    }

    /// Records that the configuration was written.
    pub fn mark_saved(&mut self)
        ensures
            final(self)@ == old(self)@.mark_saved(),
            old(self)@.wf() ==> final(self)@.wf(),
    {
        assert(old(self)@.wf() ==> old(self)@.mark_saved().wf()) by {
            if old(self)@.wf() {
                lemma_ops_keep_invariant(old(self)@, None);
            }
        }
        self.status_message = String::from_str("✓ Saved successfully!");
        assert(final(self)@ =~= old(self)@.mark_saved());
    }

    /// Appends a wave numbered one past the highest and selects it.
    pub fn add_new_wave(&mut self)
        requires
            old(self)@.wf(),
            next_wave_number(old(self)@.waves) <= i32::MAX,
        ensures
            final(self)@ == old(self)@.add_new_wave(),
            old(self)@.wf() ==> final(self)@.wf(),
    {
        let new_wave_number: i32 = match highest_number(&self.waves) {
            Some(v) => v + 1,
            None => 1,
        };
        let mut spawns: Vec<UnitSpawn> = Vec::new();
        spawns.push(make_default_spawn(String::from_str("warrior")));
        let added = Wave {
            wave_number: new_wave_number,
            spawn_interval: F32Value { bits: 0x4000_0000, text: String::from_str("2") },
            spawns,
        };
        assert(added@ =~= new_wave(new_wave_number));
        let copy = added.duplicate();
        self.waves.push(added);
        self.selected_wave = Some(self.waves.len() - 1);
        assert(old(self)@.waves.len() < usize::MAX);
        assert(old(self)@.add_new_wave().wf()) by {
            lemma_ops_keep_invariant(old(self)@, None);
        }
        self.current_wave = Some(copy);
        let shown = format_i32(new_wave_number);
        self.status_message = join_text("Added Wave ", shown.as_str());
        assert(wave_models(self.waves@) =~= old(self)@.waves.push(copy@));
        assert(final(self)@ =~= old(self)@.add_new_wave());
    }

    /// Removes the selected wave.
    pub fn delete_current_wave(&mut self)
        requires
            old(self)@.wf(),
        ensures
            final(self)@ == old(self)@.delete_current_wave(),
            old(self)@.wf() ==> final(self)@.wf(),
    {
        assert(old(self)@.wf() ==> old(self)@.delete_current_wave().wf()) by {
            if old(self)@.wf() {
                lemma_ops_keep_invariant(old(self)@, None);
            }
        }
        if let Some(idx) = self.selected_wave {
            if self.waves.len() > 0 {
                self.waves.remove(idx);
                self.status_message = String::from_str("Wave deleted");
                assert(wave_models(self.waves@) =~= old(self)@.waves.remove(idx as int));
                if self.waves.len() == 0 {
                    self.current_wave = None;
                    self.selected_wave = None;
                } else {
                    let last = self.waves.len() - 1;
                    let new_idx = if idx < last {
                        idx
                    } else {
                        last
                    };
                    self.select_wave(new_idx);
                }
            }
        }
        assert(final(self)@ =~= old(self)@.delete_current_wave());
    }

    /// Adds a spawn group to the selected wave and selects it.
    pub fn add_spawn_to_current_wave(&mut self)
        requires
            old(self)@.wf(),
        ensures
            final(self)@ == old(self)@.add_spawn_to_current_wave(),
            old(self)@.wf() ==> final(self)@.wf(),
    {
        if let Some(idx) = self.selected_wave {
            let unit_id = if self.units.len() > 0 {
                self.units[0].id.clone()
            } else {
                String::from_str("warrior")
            };
            let mut w = self.waves[idx].duplicate();
            let new_spawn_idx = w.spawns.len();
            w.spawns.push(make_default_spawn(unit_id));
            assert(w.spawns.len() <= usize::MAX);
            assert(old(self)@.waves[idx as int].spawns.len() < usize::MAX);
            assert(old(self)@.add_spawn_to_current_wave().wf()) by {
                lemma_ops_keep_invariant(old(self)@, None);
            }
            assert(spawn_models(w.spawns@) =~= old(self)@.waves[idx as int].spawns.push(
                default_spawn(old(self)@.default_unit_id()),
            ));
            self.replace_wave(idx, w);
            self.selected_field = WaveDetailField::Spawn(new_spawn_idx);
            self.status_message = String::from_str("Added new spawn to wave");
        }
        assert(final(self)@ =~= old(self)@.add_spawn_to_current_wave());
    }

    /// Removes the selected spawn group of the selected wave.
    pub fn remove_current_spawn(&mut self)
        requires
            old(self)@.wf(),
        ensures
            final(self)@ == old(self)@.remove_current_spawn(),
            old(self)@.wf() ==> final(self)@.wf(),
    {
        assert(old(self)@.wf() ==> old(self)@.remove_current_spawn().wf()) by {
            if old(self)@.wf() {
                lemma_ops_keep_invariant(old(self)@, None);
            }
        }
        if let Some(wave_idx) = self.selected_wave {
            if let Some(spawn_idx) = self.selected_field.spawn_index() {
                if spawn_idx < self.waves[wave_idx].spawns.len() {
                    let mut w = self.waves[wave_idx].duplicate();
                    w.spawns.remove(spawn_idx);
                    assert(spawn_models(w.spawns@) =~= old(self)@.waves[wave_idx as int].spawns.remove(
                        spawn_idx as int,
                    ));
                    let left = w.spawns.len();
                    self.replace_wave(wave_idx, w);
                    if left == 0 {
                        self.selected_field = WaveDetailField::SpawnInterval;
                    } else if spawn_idx > 0 {
                        self.selected_field = WaveDetailField::Spawn(spawn_idx - 1);
                    } else {
                        self.selected_field = WaveDetailField::Spawn(0);
                    }
                    self.status_message = String::from_str("Removed spawn from wave");
                }
            }
        }
        assert(final(self)@ =~= old(self)@.remove_current_spawn());
    }

    /// Moves the detail selection down.
    pub fn next_field(&mut self)
        requires
            old(self)@.wf(),
            !(old(self)@.field is Spawn && old(self)@.current is Some
                && old(self)@.current->Some_0.spawns.len() == 0),
        ensures
            final(self)@ == old(self)@.next_field(),
            old(self)@.wf() ==> final(self)@.wf(),
    {
        assert(old(self)@.wf() ==> old(self)@.next_field().wf()) by {
            if old(self)@.wf() {
                lemma_ops_keep_invariant(old(self)@, None);
            }
        }
        if let Some(wave) = &self.current_wave {
            let n = wave.spawns.len();
            match self.selected_field {
                WaveDetailField::SpawnInterval => {
                    if n > 0 {
                        self.selected_field = WaveDetailField::Spawn(0);
                        self.selected_spawn_field = SpawnField::UnitType;
                    }
                },
                WaveDetailField::Spawn(idx) => {
                    if idx < n - 1 {
                        self.selected_field = WaveDetailField::Spawn(idx + 1);
                        self.selected_spawn_field = SpawnField::UnitType;
                    }
                },
            }
        }
        assert(final(self)@ =~= old(self)@.next_field());
    }

    /// Moves the detail selection up.
    pub fn prev_field(&mut self)
        requires
            old(self)@.wf(),
        ensures
            final(self)@ == old(self)@.prev_field(),
            old(self)@.wf() ==> final(self)@.wf(),
    {
        assert(old(self)@.wf() ==> old(self)@.prev_field().wf()) by {
            if old(self)@.wf() {
                lemma_ops_keep_invariant(old(self)@, None);
            }
        }
        match self.selected_field {
            WaveDetailField::SpawnInterval => {},
            WaveDetailField::Spawn(idx) => {
                if idx == 0 {
                    self.selected_field = WaveDetailField::SpawnInterval;
                } else {
                    self.selected_field = WaveDetailField::Spawn(idx - 1);
                    self.selected_spawn_field = SpawnField::UnitType;
                }
            },
        }
        assert(final(self)@ =~= old(self)@.prev_field());
    }

    /// Selects the next field of the selected spawn group.
    pub fn next_spawn_field(&mut self)
        requires
            old(self)@.wf(),
        ensures
            final(self)@ == old(self)@.next_spawn_field(),
            old(self)@.wf() ==> final(self)@.wf(),
    {
        assert(old(self)@.wf() ==> old(self)@.next_spawn_field().wf()) by {
            if old(self)@.wf() {
                lemma_ops_keep_invariant(old(self)@, None);
            }
        }
        if self.selected_field.is_spawn() {
            self.selected_spawn_field = self.selected_spawn_field.next();
        }
        assert(final(self)@ =~= old(self)@.next_spawn_field());
    }

    /// Selects the previous field of the selected spawn group.
    pub fn prev_spawn_field(&mut self)
        requires
            old(self)@.wf(),
        ensures
            final(self)@ == old(self)@.prev_spawn_field(),
            old(self)@.wf() ==> final(self)@.wf(),
    {
        assert(old(self)@.wf() ==> old(self)@.prev_spawn_field().wf()) by {
            if old(self)@.wf() {
                lemma_ops_keep_invariant(old(self)@, None);
            }
        }
        if self.selected_field.is_spawn() {
            self.selected_spawn_field = self.selected_spawn_field.prev();
        }
        assert(final(self)@ =~= old(self)@.prev_spawn_field());
    }

    /// Switches the selected spawn group to the next unit type.
    pub fn cycle_unit_for_current_spawn(&mut self)
        requires
            old(self)@.wf(),
        ensures
            final(self)@ == old(self)@.cycle_unit_for_current_spawn(),
            old(self)@.wf() ==> final(self)@.wf(),
    {
        assert(old(self)@.wf() ==> old(self)@.cycle_unit_for_current_spawn().wf()) by {
            if old(self)@.wf() {
                lemma_ops_keep_invariant(old(self)@, None);
            }
        }
        if let Some(wave_idx) = self.selected_wave {
            if let Some(spawn_idx) = self.selected_field.spawn_index() {
                if spawn_idx < self.waves[wave_idx].spawns.len() {
                    let found = find_unit(&self.units, &self.waves[wave_idx].spawns[spawn_idx].unit_id);
                    if let Some(current_idx) = found {
                        let next_idx = (current_idx + 1) % self.units.len();
                        let mut w = self.waves[wave_idx].duplicate();
                        let mut s = w.spawns[spawn_idx].duplicate();
                        s.unit_id = self.units[next_idx].id.clone();
                        w.spawns.set(spawn_idx, s);
                        assert(spawn_models(w.spawns@) =~= old(self)@.waves[wave_idx as int].spawns.update(
                            spawn_idx as int,
                            s@,
                        ));
                        let message = join_text("Changed unit to ", self.units[next_idx].name.as_str());
                        self.replace_wave(wave_idx, w);
                        self.status_message = message;
                    }
                }
            }
        }
        assert(final(self)@ =~= old(self)@.cycle_unit_for_current_spawn());
    }

    /// Starts editing the selected line of the shown wave.
    pub fn start_editing(&mut self)
        requires
            old(self)@.wf(),
        ensures
            final(self)@ == old(self)@.start_editing(),
            old(self)@.wf() ==> final(self)@.wf(),
    {
        assert(old(self)@.wf() ==> old(self)@.start_editing().wf()) by {
            if old(self)@.wf() {
                lemma_ops_keep_invariant(old(self)@, None);
            }
        }
        if let Some(wave) = &self.current_wave {
            let buffer = match self.selected_field {
                WaveDetailField::SpawnInterval => wave.spawn_interval.text.clone(),
                WaveDetailField::Spawn(idx) => {
                    if idx < wave.spawns.len() {
                        match self.selected_spawn_field {
                            SpawnField::UnitType => wave.spawns[idx].unit_id.clone(),
                            SpawnField::Count => format_i32(wave.spawns[idx].count),
                            SpawnField::HealthMultiplier => wave.spawns[idx].health_multiplier.text.clone(),
                        }
                    } else {
                        self.edit_buffer.clone()
                    }
                },
            };
            self.editing = true;
            self.edit_buffer = buffer;
            self.status_message = String::from_str("Editing (Enter to save, Esc to cancel)");
        }
        assert(final(self)@ =~= old(self)@.start_editing());
    }

    /// How the spawn-interval line is drawn.
    pub fn interval_mark(&self) -> (m: LineMark)
        ensures
            m == mark_for(
                self@.field == WaveDetailField::SpawnInterval && self@.panel
                    == SelectedPanel::WaveDetails,
                self@.editing,
            ),
    {
        line_mark(
            self.selected_field == WaveDetailField::SpawnInterval && self.selected_panel
                == SelectedPanel::WaveDetails,
            self.editing,
        )
    }

    /// How field `f` of spawn group `idx` is drawn.
    pub fn spawn_mark(&self, idx: usize, f: SpawnField) -> (m: LineMark)
        ensures
            m == mark_for(
                self@.field == WaveDetailField::Spawn(idx) && self@.panel
                    == SelectedPanel::WaveDetails && self@.spawn_field == f,
                self@.editing,
            ),
    {
        line_mark(
            self.selected_field == WaveDetailField::Spawn(idx) && self.selected_panel
                == SelectedPanel::WaveDetails && self.selected_spawn_field == f,
            self.editing,
        )
    }

    /// Whether some unit type has the given id.
    fn unit_exists(&self, id: &String) -> (r: bool)
        ensures
            r == has_unit(self@.units, id@),
    {
        let found = find_unit(&self.units, id);
        proof {
            if has_unit(self@.units, id@) {
                let k = choose|k: int| 0 <= k < self@.units.len() && self@.units[k].id == id@;
                assert(exists|i: int| 0 <= i < self@.units.len() && self@.units[i].id == id@);
            }
        }
        found.is_some()
    }

    /// Applies the edit buffer to the selected line of the selected wave.
    /// `number` is what the buffer parses to as a 32-bit float, when it
    /// does; it is read for the float fields only.
    pub fn confirm_edit(&mut self, number: Option<F32Value>)
        requires
            old(self)@.wf(),
        ensures
            final(self)@ == old(self)@.confirm_edit(opt_f32_model(number)),
            final(self)@.wf(),
    {
        assert(old(self)@.confirm_edit(opt_f32_model(number)).wf()) by {
            lemma_ops_keep_invariant(old(self)@, opt_f32_model(number));
        }
        if let Some(wave_idx) = self.selected_wave {
            let mut w = self.waves[wave_idx].duplicate();
            let result: Result<String, String> = match self.selected_field {
                WaveDetailField::SpawnInterval => {
                    match &number {
                        Some(value) => {
                            w.spawn_interval = value.duplicate();
                            Ok(join_text("Spawn interval set to ", value.text.as_str()))
                        },
                        None => Err(String::from_str("Invalid number")),
                    }
                },
                WaveDetailField::Spawn(spawn_idx) => {
                    if spawn_idx < w.spawns.len() {
                        let mut s = w.spawns[spawn_idx].duplicate();
                        let r: Result<String, String> = match self.selected_spawn_field {
                            SpawnField::UnitType => {
                                if self.unit_exists(&self.edit_buffer) {
                                    s.unit_id = self.edit_buffer.clone();
                                    Ok(String::from_str("Unit type updated"))
                                } else {
                                    let mut m = String::from_str("Unit '");
                                    push_text(&mut m, self.edit_buffer.as_str());
                                    push_text(&mut m, "' not found");
                                    Err(m)
                                }
                            },
                            SpawnField::Count => {
                                match parse_i32(self.edit_buffer.as_str()) {
                                    Some(value) => {
                                        s.count = value;
                                        let shown = format_i32(value);
                                        Ok(join_text("Count set to ", shown.as_str()))
                                    },
                                    None => Err(String::from_str("Invalid number")),
                                }
                            },
                            SpawnField::HealthMultiplier => {
                                match &number {
                                    Some(value) => {
                                        s.health_multiplier = value.duplicate();
                                        Ok(join_text("Health multiplier set to ", value.text.as_str()))
                                    },
                                    None => Err(String::from_str("Invalid number")),
                                }
                            },
                        };
                        let ghost expected = apply_spawn_edit(
                            old(self)@.units,
                            old(self)@.waves[wave_idx as int].spawns[spawn_idx as int],
                            old(self)@.spawn_field,
                            old(self)@.buffer,
                            opt_f32_model(number),
                        );
                        if r.is_ok() {
                            assert(expected is Ok);
                            assert(s@ =~= expected->Ok_0.0);
                            w.spawns.set(spawn_idx, s);
                            assert(spawn_models(w.spawns@) =~= old(self)@.waves[wave_idx as int].spawns.update(
                                spawn_idx as int,
                                expected->Ok_0.0,
                            ));
                        } else {
                            assert(expected is Err);
                        }
                        r
                    } else {
                        Err(String::from_str("Invalid spawn index"))
                    }
                },
            };
            let ghost expected = apply_wave_edit(
                old(self)@.units,
                old(self)@.waves[wave_idx as int],
                old(self)@.field,
                old(self)@.spawn_field,
                old(self)@.buffer,
                opt_f32_model(number),
            );
            match result {
                Ok(msg) => {
                    assert(expected is Ok);
                    assert(w@ =~= expected->Ok_0.0);
                    assert(msg@ =~= expected->Ok_0.1);
                    self.replace_wave(wave_idx, w);
                    self.status_message = msg;
                    self.editing = false;
                },
                Err(msg) => {
                    assert(expected is Err);
                    assert(msg@ =~= expected->Err_0);
                    self.status_message = msg;
                },
            }
        }
        self.edit_buffer = String::new();
        assert(final(self)@ =~= old(self)@.confirm_edit(opt_f32_model(number)));
    }

    /// Abandons the edit.
    pub fn cancel_edit(&mut self)
        ensures
            final(self)@ == old(self)@.cancel_edit(),
            old(self)@.wf() ==> final(self)@.wf(),
    {
        assert(old(self)@.wf() ==> old(self)@.cancel_edit().wf()) by {
            if old(self)@.wf() {
                lemma_ops_keep_invariant(old(self)@, None);
            }
        }
        self.editing = false;
        self.edit_buffer = String::new();
        self.status_message = String::from_str("Edit cancelled");
        assert(final(self)@ =~= old(self)@.cancel_edit());
    }
}

} // verus!

verus! {

impl App {
    /// Handles one key press. `number` is what the edit buffer parses to as
    /// a 32-bit float, when it does.
    pub fn handle_key(&mut self, key: Key, number: Option<F32Value>) -> (action: KeyAction)
        requires
            old(self)@.wf(),
            !old(self)@.key_fails(key),
        ensures
            (final(self)@, action) == old(self)@.handle_key(key, opt_f32_model(number)),
            final(self)@.wf(),
    {
        proof {
            lemma_ops_keep_invariant(self@, opt_f32_model(number));
        }
        let details = self.selected_panel == SelectedPanel::WaveDetails;
        if self.editing {
            match key {
                Key::Enter => {
                    self.confirm_edit(number);
                    KeyAction::Continue
                },
                Key::Esc => {
                    self.cancel_edit();
                    KeyAction::Continue
                },
                Key::Backspace => {
                    pop_char(&mut self.edit_buffer);
                    assert(final(self)@ =~= old(self)@.handle_key(key, opt_f32_model(number)).0);
                    KeyAction::Continue
                },
                Key::Char(c) => {
                    push_char(&mut self.edit_buffer, c);
                    assert(final(self)@ =~= old(self)@.handle_key(key, opt_f32_model(number)).0);
                    KeyAction::Continue
                },
                _ => KeyAction::Continue,
            }
        } else {
            match key {
                Key::Char('q') => KeyAction::Quit,
                Key::Char('w') => KeyAction::Save,
                Key::Char('a') => {
                    self.add_new_wave();
                    KeyAction::Continue
                },
                Key::Char('x') => {
                    if self.selected_panel == SelectedPanel::Waves {
                        self.delete_current_wave();
                    }
                    KeyAction::Continue
                },
                Key::Insert => {
                    if details {
                        self.add_spawn_to_current_wave();
                    }
                    KeyAction::Continue
                },
                Key::Delete => {
                    if details {
                        self.remove_current_spawn();
                    }
                    KeyAction::Continue
                },
                Key::Char(' ') => {
                    if details {
                        self.cycle_unit_for_current_spawn();
                    }
                    KeyAction::Continue
                },
                Key::Enter => {
                    if details {
                        self.start_editing();
                    }
                    KeyAction::Continue
                },
                Key::Down => {
                    match self.selected_panel {
                        SelectedPanel::Waves => {
                            self.next_wave();
                            KeyAction::Continue
                        },
                        SelectedPanel::WaveDetails => {
                            self.next_field();
                            KeyAction::Continue
                        },
                        SelectedPanel::Units => {
                            self.next_unit();
                            KeyAction::ReloadImages
                        },
                    }
                },
                Key::Up => {
                    match self.selected_panel {
                        SelectedPanel::Waves => {
                            self.previous_wave();
                            KeyAction::Continue
                        },
                        SelectedPanel::WaveDetails => {
                            self.prev_field();
                            KeyAction::Continue
                        },
                        SelectedPanel::Units => {
                            self.previous_unit();
                            KeyAction::ReloadImages
                        },
                    }
                },
                Key::Left => {
                    if details {
                        self.prev_spawn_field();
                    }
                    KeyAction::Continue
                },
                Key::Right => {
                    if details {
                        self.next_spawn_field();
                    }
                    KeyAction::Continue
                },
                Key::Tab => {
                    self.selected_panel =
                        match self.selected_panel {
                            SelectedPanel::Waves => SelectedPanel::WaveDetails,
                            SelectedPanel::WaveDetails => SelectedPanel::Units,
                            SelectedPanel::Units => SelectedPanel::Waves,
                        };
                    assert(final(self)@ =~= old(self)@.handle_key(key, opt_f32_model(number)).0);
                    KeyAction::Continue
                },
                _ => KeyAction::Continue,
            }
        }
    }
}

// ---------------------------------------------------------------------------
// Laws
// ---------------------------------------------------------------------------

/// Replacing the selected wave by one with a representable number of spawn
/// groups keeps the invariant.
proof fn lemma_replace_keeps_invariant(s: WaveEditorModel, i: usize, w: WaveModel)
    requires
        s.wf(),
        s.selected_wave == Some(i),
        w.spawns.len() <= usize::MAX,
    ensures
        s.replace_wave(i, w).wf(),
{
    let r = s.replace_wave(i, w);
    assert forall|k: int| 0 <= k < r.waves.len() implies #[trigger] r.waves[k].spawns.len()
        <= usize::MAX by {
        if k != i {
            assert(r.waves[k] == s.waves[k]);
        }
    }
}

/// A confirmed wave edit keeps the number of spawn groups.
proof fn lemma_wave_edit_keeps_spawn_count(
    units: Seq<UnitTypeModel>,
    w: WaveModel,
    field: WaveDetailField,
    spawn_field: SpawnField,
    buffer: Seq<char>,
    number: Option<F32Model>,
)
    ensures
        apply_wave_edit(units, w, field, spawn_field, buffer, number) matches Ok((nw, _))
            ==> nw.spawns.len() == w.spawns.len(),
{
}

/// Each operation of the editor keeps its invariant; adding a spawn group
/// needs room for one more.
pub proof fn lemma_ops_keep_invariant(s: WaveEditorModel, number: Option<F32Model>)
    requires
        s.wf(),
    ensures
        s.waves.len() > 0 ==> s.next_wave().wf() && s.previous_wave().wf(),
        s.units.len() > 0 ==> s.next_unit().wf() && s.previous_unit().wf(),
        next_wave_number(s.waves) <= i32::MAX && s.waves.len() < usize::MAX
            ==> s.add_new_wave().wf(),
        s.delete_current_wave().wf(),
        (s.selected_wave matches Some(i) ==> s.waves[i as int].spawns.len() < usize::MAX)
            ==> s.add_spawn_to_current_wave().wf(),
        s.remove_current_spawn().wf(),
        s.next_field().wf(),
        s.prev_field().wf(),
        s.next_spawn_field().wf(),
        s.prev_spawn_field().wf(),
        s.cycle_unit_for_current_spawn().wf(),
        s.start_editing().wf(),
        s.confirm_edit(number).wf(),
        s.cancel_edit().wf(),
        s.mark_saved().wf(),
{
    // adding a wave
    if next_wave_number(s.waves) <= i32::MAX && s.waves.len() < usize::MAX {
        let a = s.add_new_wave();
        assert forall|k: int| 0 <= k < a.waves.len() implies #[trigger] a.waves[k].spawns.len()
            <= usize::MAX by {
            if k < s.waves.len() {
                assert(a.waves[k] == s.waves[k]);
            }
        }
    }
    // deleting a wave
    if let Some(idx) = s.selected_wave {
        let d = s.delete_current_wave();
        let rest = s.waves.remove(idx as int);
        assert forall|k: int| 0 <= k < rest.len() implies #[trigger] rest[k].spawns.len()
            <= usize::MAX by {
            if k < idx {
                assert(rest[k] == s.waves[k]);
            } else {
                assert(rest[k] == s.waves[k + 1]);
            }
        }
        if rest.len() > 0 {
            let last = (rest.len() - 1) as usize;
            let ni = if idx < last { idx } else { last };
            assert(d.selected_wave == Some(ni));
        }
        // replacing the selected wave
        let w = s.waves[idx as int];
        if w.spawns.len() < usize::MAX {
            let nw = WaveModel { spawns: w.spawns.push(default_spawn(s.default_unit_id())), ..w };
            lemma_replace_keeps_invariant(s, idx, nw);
        }
        if let WaveDetailField::Spawn(si) = s.field {
            if si < w.spawns.len() {
                let nw = WaveModel { spawns: w.spawns.remove(si as int), ..w };
                lemma_replace_keeps_invariant(s, idx, nw);
                if let Some(ci) = unit_position(s.units, w.spawns[si as int].unit_id) {
                    let next = (ci + 1) % (s.units.len() as int);
                    let sp = UnitSpawnModel { unit_id: s.units[next].id, ..w.spawns[si as int] };
                    let nw2 = WaveModel { spawns: w.spawns.update(si as int, sp), ..w };
                    lemma_replace_keeps_invariant(s, idx, nw2);
                }
            }
        }
        lemma_wave_edit_keeps_spawn_count(s.units, w, s.field, s.spawn_field, s.buffer, number);
        if let Ok((nw, _)) = apply_wave_edit(s.units, w, s.field, s.spawn_field, s.buffer, number) {
            lemma_replace_keeps_invariant(s, idx, nw);
        }
    }
}

} // verus!

verus! {

/// Moving down and then up through a non-empty wave list comes back to the
/// same editor.
pub proof fn lemma_next_then_previous_wave(s: WaveEditorModel)
    requires
        s.wf(),
        s.waves.len() > 0,
    ensures
        s.next_wave().previous_wave() == s,
{
    let i = s.selected_wave->Some_0;
    let n = s.next_wave();
    if i >= s.waves.len() - 1 {
        assert(n.selected_wave == Some(0usize));
    } else {
        assert(n.selected_wave == Some((i + 1) as usize));
    }
    assert(n.previous_wave().selected_wave == s.selected_wave);
    assert(n.previous_wave() =~= s);
}

/// Moving down and then up through a non-empty unit list comes back to the
/// same editor.
pub proof fn lemma_next_then_previous_unit(s: WaveEditorModel)
    requires
        s.wf(),
        s.units.len() > 0,
    ensures
        s.next_unit().previous_unit() == s,
{
    let i = s.selected_unit->Some_0;
    let n = s.next_unit();
    if i >= s.units.len() - 1 {
        assert(n.selected_unit == Some(0usize));
    } else {
        assert(n.selected_unit == Some((i + 1) as usize));
    }
    assert(n.previous_unit() =~= s);
}

/// The highest wave number is at least every wave's number.
pub proof fn lemma_highest_is_upper_bound(waves: Seq<WaveModel>, i: int)
    requires
        0 <= i < waves.len(),
    ensures
        waves[i].wave_number <= highest_wave_number(waves),
    decreases waves.len(),
{
    if waves.len() > 1 && i < waves.len() - 1 {
        lemma_highest_is_upper_bound(waves.drop_last(), i);
    }
}

/// A new wave is numbered above every existing wave, so its number is not
/// taken.
pub proof fn lemma_new_wave_number_is_fresh(waves: Seq<WaveModel>, i: int)
    requires
        0 <= i < waves.len(),
    ensures
        waves[i].wave_number < next_wave_number(waves),
{
    lemma_highest_is_upper_bound(waves, i);
}

/// Adding a wave and deleting it again (the new wave is selected) gives
/// back the waves it started from.
pub proof fn lemma_add_then_delete_wave(s: WaveEditorModel)
    requires
        s.wf(),
    ensures
        s.add_new_wave().delete_current_wave().waves == s.waves,
{
    let a = s.add_new_wave();
    assert(a.waves.remove(s.waves.len() as int) =~= s.waves);
}

/// Adding a spawn group to the selected wave and removing it again (the
/// new group is selected) gives back the waves it started from.
pub proof fn lemma_add_then_remove_spawn(s: WaveEditorModel)
    requires
        s.wf(),
        s.selected_wave is Some,
    ensures
        s.add_spawn_to_current_wave().remove_current_spawn().waves == s.waves,
{
    let i = s.selected_wave->Some_0;
    let w = s.waves[i as int];
    let a = s.add_spawn_to_current_wave();
    let nw = WaveModel { spawns: w.spawns.push(default_spawn(s.default_unit_id())), ..w };
    assert(a.waves[i as int] == nw);
    assert(nw.spawns.remove(w.spawns.len() as int) =~= w.spawns);
    assert(a.remove_current_spawn().waves =~= s.waves);
}

/// After a spawn group is removed, the selected line still exists.
pub proof fn lemma_remove_spawn_keeps_selection_valid(s: WaveEditorModel)
    requires
        s.wf(),
        s.selected_wave is Some,
        s.field matches WaveDetailField::Spawn(si) && si < s.waves[s.selected_wave->Some_0 as int].spawns.len(),
    ensures
        ({
            let r = s.remove_current_spawn();
            r.field matches WaveDetailField::Spawn(k) ==> k < r.waves[r.selected_wave->Some_0 as int].spawns.len()
        }),
{
}

/// Cycling the unit of a spawn group leaves it naming a known unit type.
pub proof fn lemma_cycle_names_known_unit(s: WaveEditorModel)
    requires
        s.wf(),
        s.selected_wave is Some,
        s.field matches WaveDetailField::Spawn(si) && si < s.waves[s.selected_wave->Some_0 as int].spawns.len()
            && has_unit(s.units, s.waves[s.selected_wave->Some_0 as int].spawns[si as int].unit_id),
    ensures
        ({
            let r = s.cycle_unit_for_current_spawn();
            let wi = s.selected_wave->Some_0 as int;
            let si = s.field->Spawn_0 as int;
            has_unit(r.units, r.waves[wi].spawns[si].unit_id)
        }),
{
    let wi = s.selected_wave->Some_0 as int;
    let si = s.field->Spawn_0 as int;
    let id = s.waves[wi].spawns[si].unit_id;
    let ci = unit_position(s.units, id)->Some_0;
    let next = (ci + 1) % (s.units.len() as int);
    assert(0 <= next < s.units.len());
    let r = s.cycle_unit_for_current_spawn();
    assert(r.waves[wi].spawns[si].unit_id == s.units[next].id);
}

/// Confirming the text that editing started with leaves every wave as it
/// was, provided a float line's text parses back to its own value.
pub proof fn lemma_edit_roundtrip(s: WaveEditorModel, number: Option<F32Model>)
    requires
        s.wf(),
        s.selected_wave is Some,
        ({
            let w = s.waves[s.selected_wave->Some_0 as int];
            match s.field {
                WaveDetailField::SpawnInterval => number == Some(w.spawn_interval),
                WaveDetailField::Spawn(i) => i < w.spawns.len() && (s.spawn_field
                    == SpawnField::HealthMultiplier ==> number == Some(
                    w.spawns[i as int].health_multiplier,
                )),
            }
        }),
    ensures
        s.start_editing().confirm_edit(number).waves == s.waves,
{
    let wi = s.selected_wave->Some_0 as int;
    let w = s.waves[wi];
    if let WaveDetailField::Spawn(i) = s.field {
        let sp = w.spawns[i as int];
        if s.spawn_field == SpawnField::Count {
            crate::text::lemma_parse_format_roundtrip(sp.count);
        }
        assert(w.spawns.update(i as int, sp) =~= w.spawns);
    }
    assert(s.start_editing().confirm_edit(number).waves =~= s.waves);
}

/// Every key press the editor accepts keeps its invariant.
pub proof fn lemma_handle_key_keeps_invariant(s: WaveEditorModel, key: Key, number: Option<F32Model>)
    requires
        s.wf(),
        !s.key_fails(key),
        s.waves.len() < usize::MAX,
        s.selected_wave matches Some(i) ==> s.waves[i as int].spawns.len() < usize::MAX,
    ensures
        s.handle_key(key, number).0.wf(),
{
    lemma_ops_keep_invariant(s, number);
}

} // verus!

verus! {

/// Tab moves the focus round the three panels, so pressing it three times
/// returns it.
pub proof fn lemma_tab_three_times(s: WaveEditorModel, number: Option<F32Model>)
    requires
        !s.editing,
    ensures
        s.handle_key(Key::Tab, number).0.panel != s.panel,
        s.handle_key(Key::Tab, number).0.handle_key(Key::Tab, number).0.handle_key(
            Key::Tab,
            number,
        ).0 == s,
{
    let a = s.handle_key(Key::Tab, number).0;
    let b = a.handle_key(Key::Tab, number).0;
    assert(b.handle_key(Key::Tab, number).0 =~= s);
}

/// Stepping the spawn-group field forward and back, or back and forward,
/// returns to the same field; three steps forward go all the way round.
pub proof fn lemma_spawn_field_cycle(f: SpawnField)
    ensures
        f.following().preceding() == f,
        f.preceding().following() == f,
        f.following().following().following() == f,
{
}

/// Deleting the selected wave removes exactly that wave. When it was not
/// the last, the selection stays at the same position, now on the wave
/// that followed it; when it was the last, the new last wave is selected;
/// when it was the only one, nothing is selected.
pub proof fn lemma_delete_wave_keeps_position(s: WaveEditorModel, idx: usize)
    requires
        s.wf(),
        s.selected_wave == Some(idx),
    ensures
        ({
            let d = s.delete_current_wave();
            &&& d.waves.len() == s.waves.len() - 1
            &&& forall|j: int| 0 <= j < idx ==> #[trigger] d.waves[j] == s.waves[j]
            &&& forall|j: int| idx <= j < d.waves.len() ==> #[trigger] d.waves[j] == s.waves[j + 1]
            &&& (idx + 1 < s.waves.len() ==> d.selected_wave == Some(idx) && d.current == Some(
                s.waves[idx + 1],
            ))
            &&& (idx + 1 == s.waves.len() && idx > 0 ==> d.selected_wave == Some((idx - 1) as usize)
                && d.current == Some(s.waves[idx - 1]))
            &&& (s.waves.len() == 1 ==> d.selected_wave is None && d.current is None)
        }),
{
    let d = s.delete_current_wave();
    assert forall|j: int| idx <= j < d.waves.len() implies #[trigger] d.waves[j] == s.waves[j + 1] by {
    }
}

/// Removing the selected spawn group removes exactly that group from the
/// selected wave. While groups remain, the selection stays on a group: the
/// one before the removed group, or the first when the first was removed;
/// only when no group remains does it move to the spawn interval.
pub proof fn lemma_remove_spawn_selects_neighbour(s: WaveEditorModel, wi: usize, si: usize)
    requires
        s.wf(),
        s.selected_wave == Some(wi),
        s.field == WaveDetailField::Spawn(si),
        si < s.waves[wi as int].spawns.len(),
    ensures
        ({
            let r = s.remove_current_spawn();
            let before = s.waves[wi as int].spawns;
            let after = r.waves[wi as int].spawns;
            &&& r.waves.len() == s.waves.len()
            &&& after.len() == before.len() - 1
            &&& forall|j: int| 0 <= j < si ==> #[trigger] after[j] == before[j]
            &&& forall|j: int| si <= j < after.len() ==> #[trigger] after[j] == before[j + 1]
            &&& (after.len() > 0 && si > 0 ==> r.field == WaveDetailField::Spawn((si - 1) as usize))
            &&& (after.len() > 0 && si == 0 ==> r.field == WaveDetailField::Spawn(0))
            &&& (after.len() > 0 ==> (r.field matches WaveDetailField::Spawn(k) && k < after.len()))
            &&& (after.len() == 0 ==> r.field == WaveDetailField::SpawnInterval)
        }),
{
    let r = s.remove_current_spawn();
    let before = s.waves[wi as int].spawns;
    assert(r.waves[wi as int].spawns == before.remove(si as int));
}

} // verus!
