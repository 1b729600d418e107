//! Bookkeeping between server entity ids and local entity handles, and the
//! decisions taken when the server announces entities and components.
//! A local entity handle is carried as the 64-bit value of its bits.

use vstd::prelude::*;
use std::collections::HashMap;

use crate::systems::colors::{color_name, get_color_dir, PlayerColor};
use crate::text::{push_text, same_text};

verus! {

broadcast use vstd::std_specs::hash::group_hash_axioms;

/// Maps server entity ids to local entity handles and back.
pub struct EntityMap {
    pub server_to_bevy: HashMap<u64, u64>,
    pub bevy_to_server: HashMap<u64, u64>,
}

impl EntityMap {
    /// Whether the two maps are each other's inverse.
    pub open spec fn consistent(&self) -> bool {
        &&& forall|s: u64| #[trigger]
            self.server_to_bevy@.contains_key(s) ==> self.bevy_to_server@.contains_key(
                self.server_to_bevy@[s],
            ) && self.bevy_to_server@[self.server_to_bevy@[s]] == s
        &&& forall|e: u64| #[trigger]
            self.bevy_to_server@.contains_key(e) ==> self.server_to_bevy@.contains_key(
                self.bevy_to_server@[e],
            ) && self.server_to_bevy@[self.bevy_to_server@[e]] == e
    }

    /// An empty map.
    pub fn new() -> (m: EntityMap)
        ensures
            m.server_to_bevy@ == Map::<u64, u64>::empty(),
            m.bevy_to_server@ == Map::<u64, u64>::empty(),
            m.consistent(),
    {
        EntityMap { server_to_bevy: HashMap::new(), bevy_to_server: HashMap::new() }
    }

    /// Records that server entity `server_id` is local entity `bevy_entity`.
    pub fn insert(&mut self, server_id: u64, bevy_entity: u64)
        ensures
            final(self).server_to_bevy@ == old(self).server_to_bevy@.insert(server_id, bevy_entity),
            final(self).bevy_to_server@ == old(self).bevy_to_server@.insert(bevy_entity, server_id),
    {
        self.server_to_bevy.insert(server_id, bevy_entity);
        self.bevy_to_server.insert(bevy_entity, server_id);
    }

    /// Forgets server entity `server_id` and its local entity, which is
    /// returned; nothing changes when the id is unknown.
    pub fn remove_by_server_id(&mut self, server_id: u64) -> (r: Option<u64>)
        ensures
            match r {
                Some(e) => {
                    &&& old(self).server_to_bevy@.contains_key(server_id)
                    &&& e == old(self).server_to_bevy@[server_id]
                    &&& final(self).server_to_bevy@ == old(self).server_to_bevy@.remove(server_id)
                    &&& final(self).bevy_to_server@ == old(self).bevy_to_server@.remove(e)
                },
                None => {
                    &&& !old(self).server_to_bevy@.contains_key(server_id)
                    &&& final(self).server_to_bevy@ == old(self).server_to_bevy@
                    &&& final(self).bevy_to_server@ == old(self).bevy_to_server@
                },
            },
    {
        match self.server_to_bevy.remove(&server_id) {
            Some(bevy_entity) => {
                self.bevy_to_server.remove(&bevy_entity);
                Some(bevy_entity)
            },
            None => None,
        }
    }

    /// The local entity of a server entity, if known.
    pub fn get_bevy_entity(&self, server_id: u64) -> (r: Option<u64>)
        ensures
            r == if self.server_to_bevy@.contains_key(server_id) {
                Some(self.server_to_bevy@[server_id])
            } else {
                None
            },
    {
        match self.server_to_bevy.get(&server_id) {
            Some(e) => Some(*e),
            None => None,
        }
    }

    /// The server entity of a local entity, if known.
    pub fn get_server_id(&self, bevy_entity: u64) -> (r: Option<u64>)
        ensures
            r == if self.bevy_to_server@.contains_key(bevy_entity) {
                Some(self.bevy_to_server@[bevy_entity])
            } else {
                None
            },
    {
        match self.bevy_to_server.get(&bevy_entity) {
            Some(s) => Some(*s),
            None => None,
        }
    }
}

/// Looking an id up right after recording it finds the recorded entity,
/// in both directions.
pub proof fn lemma_insert_then_get(m: Map<u64, u64>, n: Map<u64, u64>, s: u64, e: u64)
    ensures
        m.insert(s, e).contains_key(s) && m.insert(s, e)[s] == e,
        n.insert(e, s).contains_key(e) && n.insert(e, s)[e] == s,
{
}

/// Recording a pair of ids that are both unknown keeps the two maps each
/// other's inverse, and so does forgetting a server id.
pub proof fn lemma_consistency_kept(
    before: EntityMap,
    after_insert: EntityMap,
    after_remove: EntityMap,
    s: u64,
    e: u64,
    removed: u64,
)
    requires
        before.consistent(),
        !before.server_to_bevy@.contains_key(s),
        !before.bevy_to_server@.contains_key(e),
        after_insert.server_to_bevy@ == before.server_to_bevy@.insert(s, e),
        after_insert.bevy_to_server@ == before.bevy_to_server@.insert(e, s),
        before.server_to_bevy@.contains_key(removed),
        after_remove.server_to_bevy@ == before.server_to_bevy@.remove(removed),
        after_remove.bevy_to_server@ == before.bevy_to_server@.remove(
            before.server_to_bevy@[removed],
        ),
    ensures
        after_insert.consistent(),
        after_remove.consistent(),
{
    let x = before.server_to_bevy@[removed];
    assert forall|t: u64| #[trigger]
        after_remove.server_to_bevy@.contains_key(t) implies after_remove.bevy_to_server@.contains_key(
        after_remove.server_to_bevy@[t],
    ) && after_remove.bevy_to_server@[after_remove.server_to_bevy@[t]] == t by {
        assert(before.server_to_bevy@.contains_key(t));
        let y = before.server_to_bevy@[t];
        assert(before.bevy_to_server@[y] == t);
        if y == x {
            assert(before.bevy_to_server@[x] == removed);
        }
    }
    assert forall|f: u64| #[trigger]
        after_remove.bevy_to_server@.contains_key(f) implies after_remove.server_to_bevy@.contains_key(
        after_remove.bevy_to_server@[f],
    ) && after_remove.server_to_bevy@[after_remove.bevy_to_server@[f]] == f by {
        assert(before.bevy_to_server@.contains_key(f));
        let t = before.bevy_to_server@[f];
        assert(before.server_to_bevy@[t] == f);
        if t == removed {
            assert(f == x);
        }
    }
    assert forall|t: u64| #[trigger]
        after_insert.server_to_bevy@.contains_key(t) implies after_insert.bevy_to_server@.contains_key(
        after_insert.server_to_bevy@[t],
    ) && after_insert.bevy_to_server@[after_insert.server_to_bevy@[t]] == t by {
        if t != s {
            let y = before.server_to_bevy@[t];
            assert(before.bevy_to_server@.contains_key(y));
        }
    }
    assert forall|f: u64| #[trigger]
        after_insert.bevy_to_server@.contains_key(f) implies after_insert.server_to_bevy@.contains_key(
        after_insert.bevy_to_server@[f],
    ) && after_insert.server_to_bevy@[after_insert.bevy_to_server@[f]] == f by {
        if f != e {
            let t = before.bevy_to_server@[f];
            assert(before.server_to_bevy@.contains_key(t));
        }
    }
}

/// The kinds of entity the server announces.
#[derive(Clone, Copy, PartialEq, Eq, Structural, Debug)]
pub enum EntityType {
    Tower,
    Enemy,
    Projectile,
    Unit,
}

/// Whether an announced entity gets a hidden placeholder: it is active,
/// not yet known, and a tower, enemy or projectile.
pub fn needs_placeholder(map: &EntityMap, active: bool, entity_id: u64, kind: EntityType) -> (r:
    bool)
    ensures
        r == (active && !map.server_to_bevy@.contains_key(entity_id) && kind != EntityType::Unit),
{
    if !active {
        return false;
    }
    if map.get_bevy_entity(entity_id).is_some() {
        return false;
    }
    match kind {
        EntityType::Unit => false,
        _ => true,
    }
}

/// The building sprite of a tower type: archer towers are archeries,
/// catapults barracks, holy towers monasteries, plain towers towers, and
/// anything else an archery.
pub open spec fn building_name(tower_type: Seq<char>) -> Seq<char> {
    if tower_type == "archer"@ {
        "Archery"@
    } else if tower_type == "catapult"@ {
        "Barracks"@
    } else if tower_type == "holy"@ {
        "Monastery"@
    } else if tower_type == "tower"@ {
        "Tower"@
    } else {
        "Archery"@
    }
}

/// The sprite path of a tower of a type in a player's colour.
pub open spec fn tower_building_path(tower_type: Seq<char>, color: PlayerColor) -> Seq<char> {
    "Decorations/Buildings/"@ + color_name(color) + " Buildings/"@ + building_name(tower_type)
        + ".png"@
}

/// The sprite path of a tower of a type in a player's colour.
pub fn tower_sprite_path(tower_type: &str, color: PlayerColor) -> (r: String)
    ensures
        r@ == tower_building_path(tower_type@, color),
{
    let building = if same_text(tower_type, "archer") {
        "Archery"
    } else if same_text(tower_type, "catapult") {
        "Barracks"
    } else if same_text(tower_type, "holy") {
        "Monastery"
    } else if same_text(tower_type, "tower") {
        "Tower"
    } else {
        "Archery"
    };
    let mut r = String::new();
    push_text(&mut r, "Decorations/Buildings/");
    push_text(&mut r, get_color_dir(color));
    push_text(&mut r, " Buildings/");
    push_text(&mut r, building);
    push_text(&mut r, ".png");
    assert(r@ =~= tower_building_path(tower_type@, color));
    r
}

} // verus!
