//! The configuration records the editors and the game share: tower types,
//! unit types and waves. Floating-point values are carried as their IEEE
//! bit pattern together with their display text; the library never computes
//! with them.

use vstd::prelude::*;

verus! {

/// A 32-bit float carried by the library: its bit pattern and the text its
/// `Display` gives.
#[derive(Clone, Debug, PartialEq)]
pub struct F32Value {
    pub bits: u32,
    pub text: String,
}

/// The mathematical content of an [`F32Value`].
#[verifier::ext_equal]
pub struct F32Model {
    pub bits: u32,
    pub text: Seq<char>,
}

impl View for F32Value {
    type V = F32Model;

    open spec fn view(&self) -> F32Model {
        F32Model { bits: self.bits, text: self.text@ }
    }
}

impl F32Value {
    /// A copy with the same content.
    pub fn duplicate(&self) -> (r: Self)
        ensures
            r@ == self@,
    {
        F32Value { bits: self.bits, text: self.text.clone() }
    }
}

/// A buildable tower type.
#[derive(Clone, Debug, PartialEq)]
pub struct TowerType {
    pub id: String,
    pub name: String,
    pub sprite_path: String,
    pub cost: i32,
    pub range: F32Value,
    pub damage: F32Value,
    pub fire_rate: F32Value,
    pub projectile_sprite: String,
    pub projectile_speed: F32Value,
    pub description: String,
}

/// The content of a [`TowerType`].
#[verifier::ext_equal]
pub struct TowerTypeModel {
    pub id: Seq<char>,
    pub name: Seq<char>,
    pub sprite_path: Seq<char>,
    pub cost: i32,
    pub range: F32Model,
    pub damage: F32Model,
    pub fire_rate: F32Model,
    pub projectile_sprite: Seq<char>,
    pub projectile_speed: F32Model,
    pub description: Seq<char>,
}

impl View for TowerType {
    type V = TowerTypeModel;

    open spec fn view(&self) -> TowerTypeModel {
        TowerTypeModel {
            id: self.id@,
            name: self.name@,
            sprite_path: self.sprite_path@,
            cost: self.cost,
            range: self.range@,
            damage: self.damage@,
            fire_rate: self.fire_rate@,
            projectile_sprite: self.projectile_sprite@,
            projectile_speed: self.projectile_speed@,
            description: self.description@,
        }
    }
}

impl TowerType {
    /// A copy with the same content.
    pub fn duplicate(&self) -> (r: Self)
        ensures
            r@ == self@,
    {
        TowerType {
            id: self.id.clone(),
            name: self.name.clone(),
            sprite_path: self.sprite_path.clone(),
            cost: self.cost,
            range: self.range.duplicate(),
            damage: self.damage.duplicate(),
            fire_rate: self.fire_rate.duplicate(),
            projectile_sprite: self.projectile_sprite.clone(),
            projectile_speed: self.projectile_speed.duplicate(),
            description: self.description.clone(),
        }
    }
}

/// An enemy unit type.
#[derive(Clone, Debug, PartialEq)]
pub struct UnitType {
    pub id: String,
    pub name: String,
    pub sprite_path: String,
    pub avatar_path: String,
    pub base_health: F32Value,
    pub base_speed: F32Value,
    pub damage_to_base: i32,
    pub gold_reward: i32,
    pub defense_type: String,
    pub frame_size: [u32; 2],
    pub frame_count: usize,
}

/// The content of a [`UnitType`].
#[verifier::ext_equal]
pub struct UnitTypeModel {
    pub id: Seq<char>,
    pub name: Seq<char>,
    pub sprite_path: Seq<char>,
    pub avatar_path: Seq<char>,
    pub base_health: F32Model,
    pub base_speed: F32Model,
    pub damage_to_base: i32,
    pub gold_reward: i32,
    pub defense_type: Seq<char>,
    pub frame_width: u32,
    pub frame_height: u32,
    pub frame_count: usize,
}

impl View for UnitType {
    type V = UnitTypeModel;

    open spec fn view(&self) -> UnitTypeModel {
        UnitTypeModel {
            id: self.id@,
            name: self.name@,
            sprite_path: self.sprite_path@,
            avatar_path: self.avatar_path@,
            base_health: self.base_health@,
            base_speed: self.base_speed@,
            damage_to_base: self.damage_to_base,
            gold_reward: self.gold_reward,
            defense_type: self.defense_type@,
            frame_width: self.frame_size[0],
            frame_height: self.frame_size[1],
            frame_count: self.frame_count,
        }
    }
}

/// One group of enemies in a wave: which unit, how many, and how much
/// tougher than the unit's base health.
#[derive(Clone, Debug, PartialEq)]
pub struct UnitSpawn {
    pub unit_id: String,
    pub count: i32,
    pub health_multiplier: F32Value,
}

/// The content of a [`UnitSpawn`].
#[verifier::ext_equal]
pub struct UnitSpawnModel {
    pub unit_id: Seq<char>,
    pub count: i32,
    pub health_multiplier: F32Model,
}

impl View for UnitSpawn {
    type V = UnitSpawnModel;

    open spec fn view(&self) -> UnitSpawnModel {
        UnitSpawnModel {
            unit_id: self.unit_id@,
            count: self.count,
            health_multiplier: self.health_multiplier@,
        }
    }
}

impl UnitSpawn {
    /// A copy with the same content.
    pub fn duplicate(&self) -> (r: Self)
        ensures
            r@ == self@,
    {
        UnitSpawn {
            unit_id: self.unit_id.clone(),
            count: self.count,
            health_multiplier: self.health_multiplier.duplicate(),
        }
    }
}

/// A wave: its number, the time between spawns and the groups it spawns.
#[derive(Clone, Debug, PartialEq)]
pub struct Wave {
    pub wave_number: i32,
    pub spawn_interval: F32Value,
    pub spawns: Vec<UnitSpawn>,
}

/// The content of a [`Wave`].
#[verifier::ext_equal]
pub struct WaveModel {
    pub wave_number: i32,
    pub spawn_interval: F32Model,
    pub spawns: Seq<UnitSpawnModel>,
}

/// The contents of a list of spawns.
pub open spec fn spawn_models(v: Seq<UnitSpawn>) -> Seq<UnitSpawnModel> {
    v.map_values(|s: UnitSpawn| s@)
}

impl View for Wave {
    type V = WaveModel;

    open spec fn view(&self) -> WaveModel {
        WaveModel {
            wave_number: self.wave_number,
            spawn_interval: self.spawn_interval@,
            spawns: spawn_models(self.spawns@),
        }
    }
}

/// A copy of a list of spawns with the same contents.
pub fn duplicate_spawns(v: &Vec<UnitSpawn>) -> (r: Vec<UnitSpawn>)
    ensures
        spawn_models(r@) == spawn_models(v@),
{
    let mut r: Vec<UnitSpawn> = Vec::new();
    let mut i: usize = 0;
    while i < v.len()
        invariant
            i <= v.len(),
            r@.len() == i,
            forall|k: int| 0 <= k < i ==> (#[trigger] r@[k])@ == v@[k]@,
        decreases v.len() - i,
    {
        let s = v[i].duplicate();
        r.push(s);
        i = i + 1;
    }
    assert(spawn_models(r@) =~= spawn_models(v@));
    r
}

impl Wave {
    /// A copy with the same content.
    pub fn duplicate(&self) -> (r: Self)
        ensures
            r@ == self@,
    {
        Wave {
            wave_number: self.wave_number,
            spawn_interval: self.spawn_interval.duplicate(),
            spawns: duplicate_spawns(&self.spawns),
        }
    }
}

} // verus!

verus! {

/// The number of enemies a list of spawn groups produces.
pub open spec fn spawn_total(spawns: Seq<UnitSpawnModel>) -> int
    decreases spawns.len(),
{
    if spawns.len() == 0 {
        0
    } else {
        spawn_total(spawns.drop_last()) + spawns.last().count
    }
}

impl Wave {
    /// The number of enemies the wave produces; the sum must fit an `i32`
    /// at every step, as it must for the sum to be computed at all.
    pub fn total_units(&self) -> (r: i32)
        requires
            forall|k: int|
                0 <= k <= self.spawns@.len() ==> i32::MIN <= #[trigger] spawn_total(
                    spawn_models(self.spawns@).take(k),
                ) <= i32::MAX,
        ensures
            r == spawn_total(self@.spawns),
    {
        let mut total: i32 = 0;
        let mut i: usize = 0;
        assert(spawn_models(self.spawns@).take(0) =~= Seq::<UnitSpawnModel>::empty());
        while i < self.spawns.len()
            invariant
                i <= self.spawns@.len(),
                total == spawn_total(spawn_models(self.spawns@).take(i as int)),
                forall|k: int|
                    0 <= k <= self.spawns@.len() ==> i32::MIN <= #[trigger] spawn_total(
                        spawn_models(self.spawns@).take(k),
                    ) <= i32::MAX,
            decreases self.spawns@.len() - i,
        {
            let ghost next = spawn_models(self.spawns@).take(i + 1);
            assert(next.drop_last() =~= spawn_models(self.spawns@).take(i as int));
            assert(spawn_total(next) <= i32::MAX);
            total = total + self.spawns[i].count;
            i = i + 1;
        }
        assert(spawn_models(self.spawns@).take(i as int) =~= self@.spawns);
        total
    }
}

} // verus!
