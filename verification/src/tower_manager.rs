//! The state of the tower configuration editor: a list of tower types, the
//! selected entry, the selected detail field and the text being edited.
//! Every operation is stated as a function on [`TowerEditorModel`].

use vstd::prelude::*;

use crate::config::{F32Model, F32Value, TowerType, TowerTypeModel};
use crate::input::{line_mark, mark_for, Key, KeyAction, LineMark};
use crate::text::{join_text, decimal_text, format_i32, format_u64, parse_i32, parsed_i32, pop_char, push_char};

verus! {

/// The two panels of the editor.
#[derive(Clone, Copy, PartialEq, Eq, Structural, Debug)]
pub enum SelectedPanel {
    Towers,
    TowerDetails,
}

/// The editable fields of a tower type, in display order.
#[derive(Clone, Copy, PartialEq, Eq, Structural, Debug)]
pub enum TowerField {
    Id,
    Name,
    SpritePath,
    ProjectileSprite,
    Cost,
    Range,
    Damage,
    FireRate,
    ProjectileSpeed,
    Description,
}

/// The fields in display order.
pub open spec fn field_order() -> Seq<TowerField> {
    seq![
        TowerField::Id,
        TowerField::Name,
        TowerField::SpritePath,
        TowerField::ProjectileSprite,
        TowerField::Cost,
        TowerField::Range,
        TowerField::Damage,
        TowerField::FireRate,
        TowerField::ProjectileSpeed,
        TowerField::Description,
    ]
}

impl TowerField {
    /// The position of the field in display order.
    pub open spec fn position(self) -> int {
        match self {
            TowerField::Id => 0,
            TowerField::Name => 1,
            TowerField::SpritePath => 2,
            TowerField::ProjectileSprite => 3,
            TowerField::Cost => 4,
            TowerField::Range => 5,
            TowerField::Damage => 6,
            TowerField::FireRate => 7,
            TowerField::ProjectileSpeed => 8,
            TowerField::Description => 9,
        }
    }

    /// The field at a position in display order.
    pub open spec fn at(i: int) -> TowerField {
        if i == 0 {
            TowerField::Id
        } else if i == 1 {
            TowerField::Name
        } else if i == 2 {
            TowerField::SpritePath
        } else if i == 3 {
            TowerField::ProjectileSprite
        } else if i == 4 {
            TowerField::Cost
        } else if i == 5 {
            TowerField::Range
        } else if i == 6 {
            TowerField::Damage
        } else if i == 7 {
            TowerField::FireRate
        } else if i == 8 {
            TowerField::ProjectileSpeed
        } else {
            TowerField::Description
        }
    }

    /// The field after this one, the last wrapping to the first.
    pub open spec fn following(self) -> TowerField {
        TowerField::at((self.position() + 1) % 10)
    }

    /// The field before this one, the first wrapping to the last.
    pub open spec fn preceding(self) -> TowerField {
        if self.position() == 0 {
            TowerField::at(9)
        } else {
            TowerField::at(self.position() - 1)
        }
    }

    /// All fields in display order.
    pub fn all() -> (r: Vec<TowerField>)
        ensures
            r@ == field_order(),
    {
        let r = vec![
            TowerField::Id,
            TowerField::Name,
            TowerField::SpritePath,
            TowerField::ProjectileSprite,
            TowerField::Cost,
            TowerField::Range,
            TowerField::Damage,
            TowerField::FireRate,
            TowerField::ProjectileSpeed,
            TowerField::Description,
        ];
        assert(r@ =~= field_order());
        r
    }

    /// Where this field stands in a list of fields that holds it.
    fn position_in(&self, all: &Vec<TowerField>) -> (i: usize)
        requires
            all@ == field_order(),
        ensures
            i == self.position(),
    {
        let mut i: usize = 0;
        while i < all.len()
            invariant
                all@ == field_order(),
                i <= all.len(),
                forall|k: int| 0 <= k < i ==> all@[k] != *self,
            decreases all.len() - i,
        {
            if all[i] == *self {
                return i;
            }
            i = i + 1;
        }
        assert(all@[self.position()] == *self);
        0
    }

    /// The next field in display order, wrapping around.
    pub fn next(&self) -> (r: TowerField)
        ensures
            r == self.following(),
    {
        let all = Self::all();
        let current_idx = self.position_in(&all);
        proof {
            lemma_field_order();
        }
        all[(current_idx + 1) % all.len()]
    }

    /// The previous field in display order, wrapping around.
    pub fn prev(&self) -> (r: TowerField)
        ensures
            r == self.preceding(),
    {
        let all = Self::all();
        let current_idx = self.position_in(&all);
        proof {
            lemma_field_order();
        }
        if current_idx == 0 {
            all[all.len() - 1]
        } else {
            all[current_idx - 1]
        }
    }
}

/// The display order lists the fields by position.
proof fn lemma_field_order()
    ensures
        field_order().len() == 10,
        forall|i: int| 0 <= i < 10 ==> #[trigger] field_order()[i] == TowerField::at(i),
        forall|f: TowerField| #[trigger] TowerField::at(f.position()) == f,
{
    assert forall|f: TowerField| #[trigger] TowerField::at(f.position()) == f by {
        match f {
            TowerField::Id => {},
            TowerField::Name => {},
            TowerField::SpritePath => {},
            TowerField::ProjectileSprite => {},
            TowerField::Cost => {},
            TowerField::Range => {},
            TowerField::Damage => {},
            TowerField::FireRate => {},
            TowerField::ProjectileSpeed => {},
            TowerField::Description => {},
        }
    }
}

// ---------------------------------------------------------------------------
// The model
// ---------------------------------------------------------------------------

/// The content of the editor.
#[verifier::ext_equal]
pub struct TowerEditorModel {
    pub towers: Seq<TowerTypeModel>,
    pub panel: SelectedPanel,
    pub selected: Option<usize>,
    pub current: Option<TowerTypeModel>,
    pub status: Seq<char>,
    pub field: TowerField,
    pub editing: bool,
    pub buffer: Seq<char>,
}

/// The status line shown when the editor opens.
pub open spec fn help_text() -> Seq<char> {
    "q:quit | w:save | a:new tower | x:delete | Tab:switch | ↑/↓:navigate | Enter:edit/save"@
}

/// The tower type added as the `n`-th entry.
pub open spec fn new_tower(n: nat) -> TowerTypeModel {
    TowerTypeModel {
        id: "tower_"@ + decimal_text(n as int),
        name: "New Tower "@ + decimal_text(n as int),
        sprite_path: "Decorations/Buildings/Blue Buildings/Tower.png"@,
        cost: 50,
        range: F32Model { bits: 0x4380_0000, text: "256"@ },
        damage: F32Model { bits: 0x41c8_0000, text: "25"@ },
        fire_rate: F32Model { bits: 0x3f00_0000, text: "0.5"@ },
        projectile_sprite: "Units/Blue Units/Archer/Arrow.png"@,
        projectile_speed: F32Model { bits: 0x4396_0000, text: "300"@ },
        description: "A new tower"@,
    }
}

/// The text a field of a tower shows when editing starts.
pub open spec fn field_text(t: TowerTypeModel, f: TowerField) -> Seq<char> {
    match f {
        TowerField::Id => t.id,
        TowerField::Name => t.name,
        TowerField::SpritePath => t.sprite_path,
        TowerField::ProjectileSprite => t.projectile_sprite,
        TowerField::Cost => decimal_text(t.cost as int),
        TowerField::Range => t.range.text,
        TowerField::Damage => t.damage.text,
        TowerField::FireRate => t.fire_rate.text,
        TowerField::ProjectileSpeed => t.projectile_speed.text,
        TowerField::Description => t.description,
    }
}

/// Whether a field holds a float.
pub open spec fn is_float_field(f: TowerField) -> bool {
    f == TowerField::Range || f == TowerField::Damage || f == TowerField::FireRate || f
        == TowerField::ProjectileSpeed
}

/// A float field set to a value, with its confirmation message.
pub open spec fn set_float(t: TowerTypeModel, f: TowerField, v: F32Model) -> (
    TowerTypeModel,
    Seq<char>,
) {
    match f {
        TowerField::Range => (TowerTypeModel { range: v, ..t }, "Range set to "@ + v.text),
        TowerField::Damage => (TowerTypeModel { damage: v, ..t }, "Damage set to "@ + v.text),
        TowerField::FireRate => (
            TowerTypeModel { fire_rate: v, ..t },
            "Fire rate set to "@ + v.text,
        ),
        _ => (TowerTypeModel { projectile_speed: v, ..t }, "Projectile speed set to "@ + v.text),
    }
}

/// The outcome of confirming `buffer` for field `f` of tower `t`: the
/// updated tower and a message, or an error message. `number` is what the
/// buffer parses to as a 32-bit float, when it does.
pub open spec fn apply_edit(
    t: TowerTypeModel,
    f: TowerField,
    buffer: Seq<char>,
    number: Option<F32Model>,
) -> Result<(TowerTypeModel, Seq<char>), Seq<char>> {
    match f {
        TowerField::Id => if buffer.len() > 0 {
            Ok((TowerTypeModel { id: buffer, ..t }, "ID updated"@))
        } else {
            Err("ID cannot be empty"@)
        },
        TowerField::Name => if buffer.len() > 0 {
            Ok((TowerTypeModel { name: buffer, ..t }, "Name updated"@))
        } else {
            Err("Name cannot be empty"@)
        },
        TowerField::SpritePath => if buffer.len() > 0 {
            Ok((TowerTypeModel { sprite_path: buffer, ..t }, "Sprite path updated"@))
        } else {
            Err("Sprite path cannot be empty"@)
        },
        TowerField::ProjectileSprite => if buffer.len() > 0 {
            Ok((TowerTypeModel { projectile_sprite: buffer, ..t }, "Projectile sprite updated"@))
        } else {
            Err("Projectile sprite cannot be empty"@)
        },
        TowerField::Cost => match parsed_i32(buffer) {
            Some(v) => Ok((TowerTypeModel { cost: v, ..t }, "Cost set to "@ + decimal_text(v as int))),
            None => Err("Invalid number"@),
        },
        TowerField::Description => Ok((TowerTypeModel { description: buffer, ..t }, "Description updated"@)),
        _ => match number {
            Some(v) => Ok(set_float(t, f, v)),
            None => Err("Invalid number"@),
        },
    }
}

impl TowerEditorModel {
    /// The editor's invariant: there is a selection exactly when there are
    /// towers, it points at a tower, and the details show that tower.
    pub open spec fn wf(self) -> bool {
        &&& self.towers.len() <= usize::MAX
        &&& (self.selected is None <==> self.towers.len() == 0)
        &&& (self.selected matches Some(i) ==> i < self.towers.len())
        &&& self.current == match self.selected {
            Some(i) => Some(self.towers[i as int]),
            None => None::<TowerTypeModel>,
        }
    }

    /// The editor with entry `i` selected.
    pub open spec fn select(self, i: usize) -> Self {
        TowerEditorModel { selected: Some(i), current: Some(self.towers[i as int]), ..self }
    }

    /// The editor as it opens on a list of towers.
    pub open spec fn opened(towers: Seq<TowerTypeModel>) -> Self {
        let base = TowerEditorModel {
            towers,
            panel: SelectedPanel::Towers,
            selected: None,
            current: None,
            status: help_text(),
            field: TowerField::Id,
            editing: false,
            buffer: Seq::empty(),
        };
        if towers.len() > 0 {
            base.select(0)
        } else {
            base
        }
    }

    /// Moves the selection down, from the last entry back to the first.
    pub open spec fn next_tower(self) -> Self {
        let i: usize = match self.selected {
            Some(i) => if i >= self.towers.len() - 1 {
                0
            } else {
                (i + 1) as usize
            },
            None => 0,
        };
        self.select(i)
    }

    /// Moves the selection up, from the first entry to the last.
    pub open spec fn previous_tower(self) -> Self {
        let i: usize = match self.selected {
            Some(i) => if i == 0 {
                (self.towers.len() - 1) as usize
            } else {
                (i - 1) as usize
            },
            None => 0,
        };
        self.select(i)
    }

    /// Appends a new tower type and selects it.
    pub open spec fn add_new_tower(self) -> Self {
        let t = new_tower(self.towers.len() + 1);
        TowerEditorModel {
            towers: self.towers.push(t),
            selected: Some(self.towers.len() as usize),
            current: Some(t),
            status: "Added "@ + t.id,
            ..self
        }
    }

    /// Removes the selected tower type; the selection stays at the same
    /// position, or moves to the new last entry.
    pub open spec fn delete_current_tower(self) -> Self {
        match self.selected {
            Some(idx) => if self.towers.len() > 0 {
                let towers = self.towers.remove(idx as int);
                let base = TowerEditorModel { towers, status: "Tower deleted"@, ..self };
                if towers.len() == 0 {
                    TowerEditorModel { selected: None, current: None, ..base }
                } else {
                    let last = (towers.len() - 1) as usize;
                    base.select(if idx < last { idx } else { last })
                }
            } else {
                self
            },
            None => self,
        }
    }

    /// Selects the next detail field.
    pub open spec fn next_field(self) -> Self {
        TowerEditorModel { field: self.field.following(), ..self }
    }

    /// Selects the previous detail field.
    pub open spec fn prev_field(self) -> Self {
        TowerEditorModel { field: self.field.preceding(), ..self }
    }

    /// Starts editing the selected field of the shown tower.
    pub open spec fn start_editing(self) -> Self {
        match self.current {
            Some(t) => TowerEditorModel {
                editing: true,
                buffer: field_text(t, self.field),
                status: "Editing (Enter to save, Esc to cancel)"@,
                ..self
            },
            None => self,
        }
    }

    /// Applies the edit buffer to the selected field; on success editing
    /// ends, on failure the error is shown and editing goes on. The buffer
    /// is emptied either way.
    pub open spec fn confirm_edit(self, number: Option<F32Model>) -> Self {
        let s = match self.selected {
            Some(idx) => match apply_edit(self.towers[idx as int], self.field, self.buffer, number) {
                Ok((t, msg)) => TowerEditorModel {
                    towers: self.towers.update(idx as int, t),
                    current: Some(t),
                    status: msg,
                    editing: false,
                    ..self
                },
                Err(msg) => TowerEditorModel { status: msg, ..self },
            },
            None => self,
        };
        TowerEditorModel { buffer: Seq::empty(), ..s }
    }

    /// Whether confirming changes an image path of the selected tower.
    pub open spec fn confirm_changes_images(self) -> bool {
        &&& self.selected is Some
        &&& (self.field == TowerField::SpritePath || self.field == TowerField::ProjectileSprite)
        &&& self.buffer.len() > 0
    }

    /// Abandons the edit.
    pub open spec fn cancel_edit(self) -> Self {
        TowerEditorModel {
            editing: false,
            buffer: Seq::empty(),
            status: "Edit cancelled"@,
            ..self
        }
    }

    /// Records that the configuration was written.
    pub open spec fn mark_saved(self) -> Self {
        TowerEditorModel { status: "✓ Saved successfully!"@, ..self }
    }

    /// Whether a key press is one the editor cannot take: moving through an
    /// empty tower list.
    pub open spec fn key_fails(self, key: Key) -> bool {
        &&& !self.editing
        &&& (key == Key::Up || key == Key::Down)
        &&& self.panel == SelectedPanel::Towers
        &&& self.towers.len() == 0
    }

    /// What a key press does: the new editor and what is asked of the
    /// program around it.
    pub open spec fn handle_key(self, key: Key, number: Option<F32Model>) -> (Self, KeyAction) {
        if self.editing {
            match key {
                Key::Enter => (
                    self.confirm_edit(number),
                    if self.confirm_changes_images() {
                        KeyAction::ReloadImages
                    } else {
                        KeyAction::Continue
                    },
                ),
                Key::Esc => (self.cancel_edit(), KeyAction::Continue),
                Key::Backspace => (
                    TowerEditorModel {
                        buffer: if self.buffer.len() > 0 {
                            self.buffer.drop_last()
                        } else {
                            self.buffer
                        },
                        ..self
                    },
                    KeyAction::Continue,
                ),
                Key::Char(c) => (
                    TowerEditorModel { buffer: self.buffer.push(c), ..self },
                    KeyAction::Continue,
                ),
                _ => (self, KeyAction::Continue),
            }
        } else {
            match key {
                Key::Char('q') => (self, KeyAction::Quit),
                Key::Char('w') => (self, KeyAction::Save),
                Key::Char('a') => (self.add_new_tower(), KeyAction::Continue),
                Key::Char('x') => if self.panel == SelectedPanel::Towers {
                    (self.delete_current_tower(), KeyAction::Continue)
                } else {
                    (self, KeyAction::Continue)
                },
                Key::Enter => if self.panel == SelectedPanel::TowerDetails {
                    (self.start_editing(), KeyAction::Continue)
                } else {
                    (self, KeyAction::Continue)
                },
                Key::Down => if self.panel == SelectedPanel::Towers {
                    (self.next_tower(), KeyAction::ReloadImages)
                } else {
                    (self.next_field(), KeyAction::Continue)
                },
                Key::Up => if self.panel == SelectedPanel::Towers {
                    (self.previous_tower(), KeyAction::ReloadImages)
                } else {
                    (self.prev_field(), KeyAction::Continue)
                },
                Key::Tab => (
                    TowerEditorModel {
                        panel: if self.panel == SelectedPanel::Towers {
                            SelectedPanel::TowerDetails
                        } else {
                            SelectedPanel::Towers
                        },
                        ..self
                    },
                    KeyAction::Continue,
                ),
                _ => (self, KeyAction::Continue),
            }
        }
    }
}

// ---------------------------------------------------------------------------
// The editor
// ---------------------------------------------------------------------------

/// The contents of a list of tower types.
pub open spec fn tower_models(v: Seq<TowerType>) -> Seq<TowerTypeModel> {
    v.map_values(|t: TowerType| t@)
}

/// The contents of an optional tower type.
pub open spec fn opt_tower_model(t: Option<TowerType>) -> Option<TowerTypeModel> {
    match t {
        Some(t) => Some(t@),
        None => None,
    }
}

/// The tower configuration editor.
pub struct App {
    towers: Vec<TowerType>,
    selected_panel: SelectedPanel,
    selected: Option<usize>,
    current_tower: Option<TowerType>,
    status_message: String,
    selected_field: TowerField,
    editing: bool,
    edit_buffer: String,
}

impl View for App {
    type V = TowerEditorModel;

    closed spec fn view(&self) -> TowerEditorModel {
        TowerEditorModel {
            towers: tower_models(self.towers@),
            panel: self.selected_panel,
            selected: self.selected,
            current: opt_tower_model(self.current_tower),
            status: self.status_message@,
            field: self.selected_field,
            editing: self.editing,
            buffer: self.edit_buffer@,
        }
    }
}

/// The tower type added as the `n`-th entry.
fn make_new_tower(n: usize) -> (t: TowerType)
    ensures
        t@ == new_tower(n as nat),
{
    let number = format_u64(n as u64);
    let t = TowerType {
        id: join_text("tower_", number.as_str()),
        name: join_text("New Tower ", number.as_str()),
        sprite_path: String::from_str("Decorations/Buildings/Blue Buildings/Tower.png"),
        cost: 50,
        range: F32Value { bits: 0x4380_0000, text: String::from_str("256") },
        damage: F32Value { bits: 0x41c8_0000, text: String::from_str("25") },
        fire_rate: F32Value { bits: 0x3f00_0000, text: String::from_str("0.5") },
        projectile_sprite: String::from_str("Units/Blue Units/Archer/Arrow.png"),
        projectile_speed: F32Value { bits: 0x4396_0000, text: String::from_str("300") },
        description: String::from_str("A new tower"),
    };
    assert(t@ =~= new_tower(n as nat));
    t
}

impl App {
    /// The editor opened on a list of tower types, the first selected.
    pub fn new(towers: Vec<TowerType>) -> (app: App)
        ensures
            app@ == TowerEditorModel::opened(tower_models(towers@)),
            app@.wf(),
    {
        let mut app = App {
            towers,
            selected_panel: SelectedPanel::Towers,
            selected: None,
            current_tower: None,
            status_message: String::from_str(
                "q:quit | w:save | a:new tower | x:delete | Tab:switch | ↑/↓:navigate | Enter:edit/save",
            ),
            selected_field: TowerField::Id,
            editing: false,
            edit_buffer: String::new(),
        };
        if app.towers.len() > 0 {
            app.selected = Some(0);
            app.current_tower = Some(app.towers[0].duplicate());
        }
        assert(app@ =~= TowerEditorModel::opened(tower_models(app.towers@)));
        app
    }

    /// The tower types.
    pub fn towers(&self) -> (r: &Vec<TowerType>)
        ensures
            tower_models(r@) == self@.towers,
    {
        &self.towers
    }

    /// The selected entry.
    pub fn selected(&self) -> (r: Option<usize>)
        ensures
            r == self@.selected,
    {
        self.selected
    }

    /// The tower the details panel shows.
    pub fn current_tower(&self) -> (r: &Option<TowerType>)
        ensures
            opt_tower_model(*r) == self@.current,
    {
        &self.current_tower
    }

    /// The panel that has the focus.
    pub fn selected_panel(&self) -> (r: SelectedPanel)
        ensures
            r == self@.panel,
    {
        self.selected_panel
    }

    /// The selected detail field.
    pub fn selected_field(&self) -> (r: TowerField)
        ensures
            r == self@.field,
    {
        self.selected_field
    }

    /// Whether a field is being edited.
    pub fn editing(&self) -> (r: bool)
        ensures
            r == self@.editing,
    {
        self.editing
    }

    /// The text being edited.
    pub fn edit_buffer(&self) -> (r: &String)
        ensures
            r@ == self@.buffer,
    {
        &self.edit_buffer
    }

    /// The status line.
    pub fn status_message(&self) -> (r: &String)
        ensures
            r@ == self@.status,
    {
        &self.status_message
    }

    /// Selects entry `i` and shows it.
    fn select(&mut self, i: usize)
        requires
            i < old(self).towers@.len(),
        ensures
            final(self)@ == old(self)@.select(i),
    {
        self.selected = Some(i);
        self.current_tower = Some(self.towers[i].duplicate());
        assert(final(self)@ =~= old(self)@.select(i));
    }

    /// Moves the selection down, wrapping from the last entry to the first.
    pub fn next_tower(&mut self)
        requires
            old(self)@.wf(),
            old(self)@.towers.len() > 0,
        ensures
            final(self)@ == old(self)@.next_tower(),
            final(self)@.wf(),
    {
        let i = match self.selected {
            Some(i) => {
                if i >= self.towers.len() - 1 {
                    0
                } else {
                    i + 1
                }
            },
            None => 0,
        };
        self.select(i);
    }

    /// Moves the selection up, wrapping from the first entry to the last.
    pub fn previous_tower(&mut self)
        requires
            old(self)@.wf(),
            old(self)@.towers.len() > 0,
        ensures
            final(self)@ == old(self)@.previous_tower(),
            final(self)@.wf(),
    {
        let i = match self.selected {
            Some(i) => {
                if i == 0 {
                    self.towers.len() - 1
                } else {
                    i - 1
                }
            },
            None => 0,
        };
        self.select(i);
    }

    /// Records that the configuration was written.
    pub fn mark_saved(&mut self)
        requires
            old(self)@.wf(),
        ensures
            final(self)@ == old(self)@.mark_saved(),
            final(self)@.wf(),
    {
        self.status_message = String::from_str("✓ Saved successfully!");
        assert(final(self)@ =~= old(self)@.mark_saved());
    }

    /// Appends a new tower type and selects it.
    pub fn add_new_tower(&mut self)
        requires
            old(self)@.wf(),
            old(self)@.towers.len() < usize::MAX,
        ensures
            final(self)@ == old(self)@.add_new_tower(),
            final(self)@.wf(),
    {
        let new_tower = make_new_tower(self.towers.len() + 1);
        let message = join_text("Added ", new_tower.id.as_str());
        let copy = new_tower.duplicate();
        self.towers.push(new_tower);
        self.selected = Some(self.towers.len() - 1);
        self.current_tower = Some(copy);
        self.status_message = message;
        assert(tower_models(self.towers@) =~= old(self)@.towers.push(copy@));
        assert(final(self)@ =~= old(self)@.add_new_tower());
    }

    /// Removes the selected tower type.
    pub fn delete_current_tower(&mut self)
        requires
            old(self)@.wf(),
        ensures
            final(self)@ == old(self)@.delete_current_tower(),
            final(self)@.wf(),
    {
        if let Some(idx) = self.selected {
            if self.towers.len() > 0 {
                self.towers.remove(idx);
                self.status_message = String::from_str("Tower deleted");
                assert(tower_models(self.towers@) =~= old(self)@.towers.remove(idx as int));
                if self.towers.len() == 0 {
                    self.current_tower = None;
                    self.selected = None;
                } else {
                    let last = self.towers.len() - 1;
                    let new_idx = if idx < last {
                        idx
                    } else {
                        last
                    };
                    self.select(new_idx);
                }
            }
        }
        assert(final(self)@ =~= old(self)@.delete_current_tower());
    }

    /// Selects the next detail field.
    pub fn next_field(&mut self)
        requires
            old(self)@.wf(),
        ensures
            final(self)@ == old(self)@.next_field(),
            final(self)@.wf(),
    {
        self.selected_field = self.selected_field.next();
        assert(final(self)@ =~= old(self)@.next_field());
    }

    /// Selects the previous detail field.
    pub fn prev_field(&mut self)
        requires
            old(self)@.wf(),
        ensures
            final(self)@ == old(self)@.prev_field(),
            final(self)@.wf(),
    {
        self.selected_field = self.selected_field.prev();
        assert(final(self)@ =~= old(self)@.prev_field());
    }

    /// Starts editing the selected field of the shown tower.
    pub fn start_editing(&mut self)
        requires
            old(self)@.wf(),
        ensures
            final(self)@ == old(self)@.start_editing(),
            final(self)@.wf(),
    {
        if let Some(tower) = &self.current_tower {
            let text = match self.selected_field {
                TowerField::Id => tower.id.clone(),
                TowerField::Name => tower.name.clone(),
                TowerField::SpritePath => tower.sprite_path.clone(),
                TowerField::ProjectileSprite => tower.projectile_sprite.clone(),
                TowerField::Cost => format_i32(tower.cost),
                TowerField::Range => tower.range.text.clone(),
                TowerField::Damage => tower.damage.text.clone(),
                TowerField::FireRate => tower.fire_rate.text.clone(),
                TowerField::ProjectileSpeed => tower.projectile_speed.text.clone(),
                TowerField::Description => tower.description.clone(),
            };
            self.editing = true;
            self.edit_buffer = text;
            self.status_message = String::from_str("Editing (Enter to save, Esc to cancel)");
        }
        assert(final(self)@ =~= old(self)@.start_editing());
    }

    /// Applies the edit buffer to the selected field of the selected tower.
    /// `number` is what the buffer parses to as a 32-bit float, when it does;
    /// it is read for the float fields only. Returns whether an image path
    /// of the selected tower changed.
    pub fn confirm_edit(&mut self, number: Option<F32Value>) -> (images_changed: bool)
        requires
            old(self)@.wf(),
        ensures
            final(self)@ == old(self)@.confirm_edit(opt_f32_model(number)),
            images_changed == old(self)@.confirm_changes_images(),
            final(self)@.wf(),
    {
        let mut images_changed = false;
        if let Some(tower_idx) = self.selected {
            let mut tower = self.towers[tower_idx].duplicate();
            let result: Result<String, String> = match self.selected_field {
                TowerField::Id => {
                    if self.edit_buffer.as_str().unicode_len() > 0 {
                        tower.id = self.edit_buffer.clone();
                        Ok(String::from_str("ID updated"))
                    } else {
                        Err(String::from_str("ID cannot be empty"))
                    }
                },
                TowerField::Name => {
                    if self.edit_buffer.as_str().unicode_len() > 0 {
                        tower.name = self.edit_buffer.clone();
                        Ok(String::from_str("Name updated"))
                    } else {
                        Err(String::from_str("Name cannot be empty"))
                    }
                },
                TowerField::SpritePath => {
                    if self.edit_buffer.as_str().unicode_len() > 0 {
                        tower.sprite_path = self.edit_buffer.clone();
                        images_changed = true;
                        Ok(String::from_str("Sprite path updated"))
                    } else {
                        Err(String::from_str("Sprite path cannot be empty"))
                    }
                },
                TowerField::ProjectileSprite => {
                    if self.edit_buffer.as_str().unicode_len() > 0 {
                        tower.projectile_sprite = self.edit_buffer.clone();
                        images_changed = true;
                        Ok(String::from_str("Projectile sprite updated"))
                    } else {
                        Err(String::from_str("Projectile sprite cannot be empty"))
                    }
                },
                TowerField::Cost => {
                    match parse_i32(self.edit_buffer.as_str()) {
                        Some(value) => {
                            tower.cost = value;
                            let shown = format_i32(value);
                            Ok(join_text("Cost set to ", shown.as_str()))
                        },
                        None => Err(String::from_str("Invalid number")),
                    }
                },
                TowerField::Description => {
                    tower.description = self.edit_buffer.clone();
                    Ok(String::from_str("Description updated"))
                },
                field => {
                    match &number {
                        Some(value) => {
                            let label = match field {
                                TowerField::Range => {
                                    tower.range = value.duplicate();
                                    "Range set to "
                                },
                                TowerField::Damage => {
                                    tower.damage = value.duplicate();
                                    "Damage set to "
                                },
                                TowerField::FireRate => {
                                    tower.fire_rate = value.duplicate();
                                    "Fire rate set to "
                                },
                                _ => {
                                    tower.projectile_speed = value.duplicate();
                                    "Projectile speed set to "
                                },
                            };
                            Ok(join_text(label, value.text.as_str()))
                        },
                        None => Err(String::from_str("Invalid number")),
                    }
                },
            };
            let ghost expected = apply_edit(
                old(self)@.towers[tower_idx as int],
                old(self)@.field,
                old(self)@.buffer,
                opt_f32_model(number),
            );
            match result {
                Ok(msg) => {
                    assert(expected is Ok);
                    assert(tower@ =~= expected->Ok_0.0);
                    assert(msg@ =~= expected->Ok_0.1);
                    let copy = tower.duplicate();
                    self.towers.set(tower_idx, tower);
                    self.current_tower = Some(copy);
                    self.status_message = msg;
                    self.editing = false;
                    assert(tower_models(self.towers@) =~= old(self)@.towers.update(
                        tower_idx as int,
                        copy@,
                    ));
                },
                Err(msg) => {
                    assert(expected is Err);
                    assert(msg@ =~= expected->Err_0);
                    images_changed = false;
                    self.status_message = msg;
                },
            }
        }
        self.edit_buffer = String::new();
        assert(final(self)@ =~= old(self)@.confirm_edit(opt_f32_model(number)));
        images_changed
    }

    /// Abandons the edit.
    pub fn cancel_edit(&mut self)
        requires
            old(self)@.wf(),
        ensures
            final(self)@ == old(self)@.cancel_edit(),
            final(self)@.wf(),
    {
        self.editing = false;
        self.edit_buffer = String::new();
        self.status_message = String::from_str("Edit cancelled");
        assert(final(self)@ =~= old(self)@.cancel_edit());
    }

    /// How the details line of field `f` is drawn: marked when it is the
    /// selected field of the focused details panel, with the edit text
    /// while editing.
    pub fn field_mark(&self, f: TowerField) -> (m: LineMark)
        ensures
            m == mark_for(
                self@.field == f && self@.panel == SelectedPanel::TowerDetails,
                self@.editing,
            ),
    {
        line_mark(
            self.selected_field == f && self.selected_panel == SelectedPanel::TowerDetails,
            self.editing,
        )
    }

    /// Handles one key press. `number` is what the edit buffer parses to as
    /// a 32-bit float, when it does.
    pub fn handle_key(&mut self, key: Key, number: Option<F32Value>) -> (action: KeyAction)
        requires
            old(self)@.wf(),
            !old(self)@.key_fails(key),
            old(self)@.towers.len() < usize::MAX,
        ensures
            (final(self)@, action) == old(self)@.handle_key(key, opt_f32_model(number)),
            final(self)@.wf(),
    {
        if self.editing {
            match key {
                Key::Enter => {
                    if self.confirm_edit(number) {
                        KeyAction::ReloadImages
                    } else {
                        KeyAction::Continue
                    }
                },
                Key::Esc => {
                    self.cancel_edit();
                    KeyAction::Continue
                },
                Key::Backspace => {
                    pop_char(&mut self.edit_buffer);
                    assert(final(self)@ =~= old(self)@.handle_key(key, opt_f32_model(number)).0);
                    KeyAction::Continue
                },
                Key::Char(c) => {
                    push_char(&mut self.edit_buffer, c);
                    assert(final(self)@ =~= old(self)@.handle_key(key, opt_f32_model(number)).0);
                    KeyAction::Continue
                },
                _ => KeyAction::Continue,
            }
        } else {
            match key {
                Key::Char('q') => KeyAction::Quit,
                Key::Char('w') => KeyAction::Save,
                Key::Char('a') => {
                    self.add_new_tower();
                    KeyAction::Continue
                },
                Key::Char('x') => {
                    if self.selected_panel == SelectedPanel::Towers {
                        self.delete_current_tower();
                    }
                    KeyAction::Continue
                },
                Key::Enter => {
                    if self.selected_panel == SelectedPanel::TowerDetails {
                        self.start_editing();
                    }
                    KeyAction::Continue
                },
                Key::Down => {
                    if self.selected_panel == SelectedPanel::Towers {
                        self.next_tower();
                        KeyAction::ReloadImages
                    } else {
                        self.next_field();
                        KeyAction::Continue
                    }
                },
                Key::Up => {
                    if self.selected_panel == SelectedPanel::Towers {
                        self.previous_tower();
                        KeyAction::ReloadImages
                    } else {
                        self.prev_field();
                        KeyAction::Continue
                    }
                },
                Key::Tab => {
                    self.selected_panel =
                        if self.selected_panel == SelectedPanel::Towers {
                            SelectedPanel::TowerDetails
                        } else {
                            SelectedPanel::Towers
                        };
                    assert(final(self)@ =~= old(self)@.handle_key(key, opt_f32_model(number)).0);
                    KeyAction::Continue
                },
                _ => KeyAction::Continue,
            }
        }
    }
}

/// The price label of a tower in the list: its cost followed by `g`.
pub fn cost_label(cost: i32) -> (r: String)
    ensures
        r@ == decimal_text(cost as int) + "g"@,
{
    let shown = format_i32(cost);
    join_text(shown.as_str(), "g")
}

/// The content of an optional float.
pub open spec fn opt_f32_model(v: Option<F32Value>) -> Option<F32Model> {
    match v {
        Some(v) => Some(v@),
        None => None,
    }
}

} // verus!

verus! {

// ---------------------------------------------------------------------------
// Laws
// ---------------------------------------------------------------------------

/// Moving down and then up through a non-empty tower list comes back to the
/// same editor.
pub proof fn lemma_next_then_previous(s: TowerEditorModel)
    requires
        s.wf(),
        s.towers.len() > 0,
    ensures
        s.next_tower().previous_tower() == s,
{
    let i = s.selected->Some_0;
    let n = s.next_tower();
    if i >= s.towers.len() - 1 {
        assert(n.selected == Some(0usize));
    } else {
        assert(n.selected == Some((i + 1) as usize));
    }
    assert(n.previous_tower().selected == s.selected);
    assert(n.previous_tower() =~= s);
}

/// Moving up and then down through a non-empty tower list comes back to the
/// same editor.
pub proof fn lemma_previous_then_next(s: TowerEditorModel)
    requires
        s.wf(),
        s.towers.len() > 0,
    ensures
        s.previous_tower().next_tower() == s,
{
    let i = s.selected->Some_0;
    let p = s.previous_tower();
    if i == 0 {
        assert(p.selected == Some((s.towers.len() - 1) as usize));
    } else {
        assert(p.selected == Some((i - 1) as usize));
    }
    assert(p.next_tower().selected == s.selected);
    assert(p.next_tower() =~= s);
}

/// Stepping to the next detail field and back, or back and then on, returns
/// to the same field.
pub proof fn lemma_field_step_inverse(f: TowerField)
    ensures
        f.following().preceding() == f,
        f.preceding().following() == f,
{
    match f {
        TowerField::Id => {},
        TowerField::Name => {},
        TowerField::SpritePath => {},
        TowerField::ProjectileSprite => {},
        TowerField::Cost => {},
        TowerField::Range => {},
        TowerField::Damage => {},
        TowerField::FireRate => {},
        TowerField::ProjectileSpeed => {},
        TowerField::Description => {},
    }
}

/// The field reached after `n` steps forward.
pub open spec fn steps_forward(f: TowerField, n: nat) -> TowerField
    decreases n,
{
    if n == 0 {
        f
    } else {
        steps_forward(f.following(), (n - 1) as nat)
    }
}

/// `n` steps forward land on the field `n` places further round the order.
pub proof fn lemma_steps_forward(f: TowerField, n: nat)
    ensures
        steps_forward(f, n) == TowerField::at((f.position() + n) % 10),
    decreases n,
{
    lemma_field_order();
    if n > 0 {
        lemma_steps_forward(f.following(), (n - 1) as nat);
        assert(f.following().position() == (f.position() + 1) % 10);
        assert((((f.position() + 1) % 10) + (n - 1)) % 10 == (f.position() + n) % 10);
    } else {
        assert(f.position() % 10 == f.position());
    }
}

/// Ten steps forward go all the way round the fields.
pub proof fn lemma_field_cycle(f: TowerField)
    ensures
        steps_forward(f, 10) == f,
{
    lemma_steps_forward(f, 10);
    lemma_field_order();
    assert((f.position() + 10) % 10 == f.position());
}

/// Every key press the editor accepts keeps its invariant, and keeps an
/// edit in progress tied to a selected tower.
pub proof fn lemma_handle_key_keeps_invariant(
    s: TowerEditorModel,
    key: Key,
    number: Option<F32Model>,
)
    requires
        s.wf(),
        !s.key_fails(key),
        s.editing ==> s.selected is Some,
        s.towers.len() < usize::MAX,
    ensures
        s.handle_key(key, number).0.wf(),
        s.handle_key(key, number).0.editing ==> s.handle_key(key, number).0.selected is Some,
{
    lemma_ops_keep_invariant(s, number);
}

/// Each operation of the editor keeps its invariant.
pub proof fn lemma_ops_keep_invariant(s: TowerEditorModel, number: Option<F32Model>)
    requires
        s.wf(),
    ensures
        s.towers.len() > 0 ==> s.next_tower().wf() && s.previous_tower().wf(),
        s.towers.len() < usize::MAX ==> s.add_new_tower().wf(),
        s.delete_current_tower().wf(),
        s.next_field().wf(),
        s.prev_field().wf(),
        s.start_editing().wf(),
        s.confirm_edit(number).wf(),
        s.cancel_edit().wf(),
        s.mark_saved().wf(),
{
    let a = s.add_new_tower();
    assert(a.towers[s.towers.len() as int] == new_tower(s.towers.len() + 1));
    let d = s.delete_current_tower();
    if s.selected is Some && d.towers.len() > 0 {
        let idx = s.selected->Some_0;
        let last = (d.towers.len() - 1) as usize;
        let ni = if idx < last { idx } else { last };
        assert(d.selected == Some(ni));
    }
}

/// Adding a tower and deleting it again (the new tower is selected) gives
/// back the list it started from.
pub proof fn lemma_add_then_delete(s: TowerEditorModel)
    requires
        s.wf(),
        s.towers.len() < usize::MAX,
    ensures
        s.add_new_tower().delete_current_tower().towers == s.towers,
{
    let a = s.add_new_tower();
    assert(a.selected == Some(s.towers.len() as usize));
    assert(a.towers.len() > 0);
    assert(a.towers.remove(s.towers.len() as int) =~= s.towers);
    assert(a.delete_current_tower().towers =~= s.towers);
}

/// Abandoning an edit leaves the tower list as it was.
pub proof fn lemma_cancel_keeps_towers(s: TowerEditorModel)
    ensures
        s.cancel_edit().towers == s.towers,
{
}

/// A confirmed edit changes only the selected tower, and a refused one
/// changes none.
pub proof fn lemma_confirm_touches_only_selected(
    s: TowerEditorModel,
    number: Option<F32Model>,
    j: int,
)
    requires
        s.wf(),
        0 <= j < s.towers.len(),
        s.selected != Some(j as usize) || apply_edit(
            s.towers[j],
            s.field,
            s.buffer,
            number,
        ) is Err,
    ensures
        s.confirm_edit(number).towers.len() == s.towers.len(),
        s.confirm_edit(number).towers[j] == s.towers[j],
{
}

/// Confirming the text that editing started with leaves every tower as it
/// was, provided a float field's text parses back to its own value.
pub proof fn lemma_edit_roundtrip(s: TowerEditorModel, number: Option<F32Model>)
    requires
        s.wf(),
        s.selected is Some,
        is_float_field(s.field) ==> number == Some(
            match s.field {
                TowerField::Range => s.towers[s.selected->Some_0 as int].range,
                TowerField::Damage => s.towers[s.selected->Some_0 as int].damage,
                TowerField::FireRate => s.towers[s.selected->Some_0 as int].fire_rate,
                _ => s.towers[s.selected->Some_0 as int].projectile_speed,
            },
        ),
    ensures
        s.start_editing().confirm_edit(number).towers == s.towers,
{
    let i = s.selected->Some_0 as int;
    let t = s.towers[i];
    if s.field == TowerField::Cost {
        crate::text::lemma_parse_format_roundtrip(t.cost);
    }
    assert(s.start_editing().confirm_edit(number).towers =~= s.towers);
}

} // verus!

verus! {

/// Tab moves the focus to the other panel, so pressing it twice returns it.
pub proof fn lemma_tab_twice(s: TowerEditorModel, number: Option<F32Model>)
    requires
        !s.editing,
    ensures
        s.handle_key(Key::Tab, number).1 == KeyAction::Continue,
        s.handle_key(Key::Tab, number).0.panel != s.panel,
        s.handle_key(Key::Tab, number).0.handle_key(Key::Tab, number).0 == s,
{
    assert(s.handle_key(Key::Tab, number).0.handle_key(Key::Tab, number).0 =~= s);
}

/// Typing a character and erasing it gives back the edit text.
pub proof fn lemma_type_then_erase(s: TowerEditorModel, c: char, number: Option<F32Model>)
    requires
        s.editing,
    ensures
        s.handle_key(Key::Char(c), number).0.handle_key(Key::Backspace, number).0 == s,
{
    let t = s.handle_key(Key::Char(c), number).0;
    assert(t.buffer.drop_last() =~= s.buffer);
    assert(t.handle_key(Key::Backspace, number).0 =~= s);
}

/// Editing the name of the shown tower: editing starts from the tower's
/// name, and confirming any non-empty text makes it the tower's name,
/// leaving its id, every other field and every other tower as they were.
pub proof fn lemma_name_edit(s: TowerEditorModel, idx: usize, text: Seq<char>, number: Option<F32Model>)
    requires
        s.wf(),
        s.selected == Some(idx),
        s.field == TowerField::Name,
        text.len() > 0,
    ensures
        s.start_editing().buffer == s.towers[idx as int].name,
        ({
            let old_t = s.towers[idx as int];
            let c = TowerEditorModel { buffer: text, ..s.start_editing() }.confirm_edit(number);
            let t = c.towers[idx as int];
            &&& c.towers.len() == s.towers.len()
            &&& t.name == text
            &&& t.id == old_t.id
            &&& t.sprite_path == old_t.sprite_path && t.cost == old_t.cost && t.range == old_t.range
            &&& t.damage == old_t.damage && t.fire_rate == old_t.fire_rate
            &&& t.projectile_sprite == old_t.projectile_sprite
            &&& t.projectile_speed == old_t.projectile_speed && t.description == old_t.description
            &&& forall|j: int| 0 <= j < s.towers.len() && j != idx ==> #[trigger] c.towers[j] == s.towers[j]
            &&& !c.editing
        }),
{
}

/// Editing the id of the shown tower: editing starts from the tower's id,
/// and confirming any non-empty text makes it the tower's id, leaving its
/// name and every other field as they were.
pub proof fn lemma_id_edit(s: TowerEditorModel, idx: usize, text: Seq<char>, number: Option<F32Model>)
    requires
        s.wf(),
        s.selected == Some(idx),
        s.field == TowerField::Id,
        text.len() > 0,
    ensures
        s.start_editing().buffer == s.towers[idx as int].id,
        ({
            let old_t = s.towers[idx as int];
            let c = TowerEditorModel { buffer: text, ..s.start_editing() }.confirm_edit(number);
            let t = c.towers[idx as int];
            &&& t.id == text
            &&& t.name == old_t.name
            &&& t.sprite_path == old_t.sprite_path && t.cost == old_t.cost && t.range == old_t.range
            &&& t.damage == old_t.damage && t.fire_rate == old_t.fire_rate
            &&& t.projectile_sprite == old_t.projectile_sprite
            &&& t.projectile_speed == old_t.projectile_speed && t.description == old_t.description
        }),
{
}

/// Deleting the selected tower removes exactly that tower. When it was not
/// the last, the selection stays at the same position, now on the tower
/// that followed it; when it was the last, the new last tower is selected;
/// when it was the only one, nothing is selected.
pub proof fn lemma_delete_tower_keeps_position(s: TowerEditorModel, idx: usize)
    requires
        s.wf(),
        s.selected == Some(idx),
    ensures
        ({
            let d = s.delete_current_tower();
            &&& d.towers.len() == s.towers.len() - 1
            &&& forall|j: int| 0 <= j < idx ==> #[trigger] d.towers[j] == s.towers[j]
            &&& forall|j: int| idx <= j < d.towers.len() ==> #[trigger] d.towers[j] == s.towers[j + 1]
            &&& (idx + 1 < s.towers.len() ==> d.selected == Some(idx) && d.current == Some(
                s.towers[idx + 1],
            ))
            &&& (idx + 1 == s.towers.len() && idx > 0 ==> d.selected == Some((idx - 1) as usize)
                && d.current == Some(s.towers[idx - 1]))
            &&& (s.towers.len() == 1 ==> d.selected is None && d.current is None)
        }),
{
}

/// Editing the cost of the shown tower: editing starts from the cost in
/// decimal; confirming text that reads as an `i32` sets the cost to it and
/// ends editing, leaving the other fields alone; other text changes no
/// tower and editing goes on.
pub proof fn lemma_cost_edit(s: TowerEditorModel, idx: usize, text: Seq<char>, number: Option<F32Model>)
    requires
        s.wf(),
        s.selected == Some(idx),
        s.field == TowerField::Cost,
    ensures
        s.start_editing().buffer == decimal_text(s.towers[idx as int].cost as int),
        ({
            let old_t = s.towers[idx as int];
            let c = TowerEditorModel { buffer: text, ..s.start_editing() }.confirm_edit(number);
            let t = c.towers[idx as int];
            &&& (parsed_i32(text) matches Some(v) ==> t.cost == v && t.id == old_t.id && t.name
                == old_t.name && t.range == old_t.range && !c.editing)
            &&& (parsed_i32(text) is None ==> c.towers == s.towers && c.editing)
        }),
{
}

} // verus!

