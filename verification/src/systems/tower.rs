//! Tower rules: sprites in the player's colour, what a choice on the tower
//! wheel costs and does, and when a tower upgrade is requested.

use vstd::prelude::*;

use crate::config::{TowerType, TowerTypeModel};
use crate::systems::colors::{color_name, get_color_dir, PlayerColor};
use crate::systems::entity_sync::EntityMap;
use crate::systems::game_state::GameState;
use crate::text::{replace, replace_all, same_text};
use crate::tower_manager::tower_models;

verus! {

/// The sprite path of a tower type for a player: its path with `Blue`
/// replaced by the player's colour.
pub fn get_tower_sprite_path(tower_type: &TowerType, color: PlayerColor) -> (r: String)
    ensures
        r@ == replace_all(tower_type.sprite_path@, "Blue"@, color_name(color)),
{
    proof {
        reveal_strlit("Blue");
    }
    replace(tower_type.sprite_path.as_str(), "Blue", get_color_dir(color))
}

/// The three tower upgrades.
#[derive(Clone, Copy, PartialEq, Eq, Structural, Debug)]
pub enum UpgradeType {
    Damage,
    Range,
    FireRate,
}

/// The wood a damage upgrade costs.
pub const UPGRADE_DAMAGE_COST: i32 = 30;

/// The wood a range upgrade costs.
pub const UPGRADE_RANGE_COST: i32 = 25;

/// The wood a fire-rate upgrade costs.
pub const UPGRADE_FIRE_RATE_COST: i32 = 35;

/// The wood an upgrade costs.
pub fn upgrade_cost(upgrade: UpgradeType) -> (cost: i32)
    ensures
        cost == match upgrade {
            UpgradeType::Damage => 30i32,
            UpgradeType::Range => 25i32,
            UpgradeType::FireRate => 35i32,
        },
{
    match upgrade {
        UpgradeType::Damage => UPGRADE_DAMAGE_COST,
        UpgradeType::Range => UPGRADE_RANGE_COST,
        UpgradeType::FireRate => UPGRADE_FIRE_RATE_COST,
    }
}

/// What pressing an upgrade button leads to.
#[derive(Clone, Copy, PartialEq, Eq, Structural, Debug)]
pub enum UpgradeRequest {
    /// The wood does not cover the cost.
    NotEnoughWood,
    /// No tower is selected.
    NoTowerSelected,
    /// The selected tower is not known to the server.
    UnknownTower,
    /// Ask the server to upgrade this server entity, and close the menu.
    Upgrade(u64),
}

/// Decides an upgrade request for the selected tower (a local entity
/// handle). The server takes the wood when it applies the upgrade.
pub fn decide_upgrade(wood: i32, wood_cost: i32, selected_tower: Option<u64>, map: &EntityMap) -> (r:
    UpgradeRequest)
    ensures
        r == if wood < wood_cost {
            UpgradeRequest::NotEnoughWood
        } else {
            match selected_tower {
                None => UpgradeRequest::NoTowerSelected,
                Some(e) => if map.bevy_to_server@.contains_key(e) {
                    UpgradeRequest::Upgrade(map.bevy_to_server@[e])
                } else {
                    UpgradeRequest::UnknownTower
                },
            }
        },
{
    if wood >= wood_cost {
        match selected_tower {
            Some(tower_entity) => match map.get_server_id(tower_entity) {
                Some(server_id) => UpgradeRequest::Upgrade(server_id),
                None => UpgradeRequest::UnknownTower,
            },
            None => UpgradeRequest::NoTowerSelected,
        }
    } else {
        UpgradeRequest::NotEnoughWood
    }
}

/// The option of the tower wheel that explores a fogged tile.
pub open spec fn explore_option() -> Seq<char> {
    "_explore"@
}

/// The first position of a tower type with the given id.
pub open spec fn tower_position(towers: Seq<TowerTypeModel>, id: Seq<char>) -> Option<int> {
    if exists|i: int| 0 <= i < towers.len() && towers[i].id == id {
        Some(
            choose|i: int|
                0 <= i < towers.len() && towers[i].id == id && forall|j: int|
                    0 <= j < i ==> towers[j].id != id,
        )
    } else {
        None
    }
}

/// The first position of a tower type with the given id.
pub fn find_tower_type(towers: &Vec<TowerType>, id: &str) -> (r: Option<usize>)
    ensures
        match r {
            Some(i) => tower_position(tower_models(towers@), id@) == Some(i as int) && i
                < towers@.len(),
            None => tower_position(tower_models(towers@), id@) is None,
        },
{
    let ghost ts = tower_models(towers@);
    let mut i: usize = 0;
    while i < towers.len()
        invariant
            i <= towers@.len(),
            ts == tower_models(towers@),
            forall|j: int| 0 <= j < i ==> ts[j].id != id@,
        decreases towers@.len() - i,
    {
        if same_text(towers[i].id.as_str(), id) {
            proof {
                let c = choose|k: int|
                    0 <= k < ts.len() && ts[k].id == id@ && forall|j: int|
                        0 <= j < k ==> ts[j].id != id@;
                assert(0 <= i < ts.len() && ts[i as int].id == id@ && forall|j: int|
                    0 <= j < i ==> ts[j].id != id@);
                if c < i {
                    assert(ts[c].id != id@);
                } else if c > i {
                    assert(ts[i as int].id != id@);
                }
            }
            return Some(i);
        }
        i = i + 1;
    }
    None
}

/// The first position of a tower type, when there is one, holds that type.
pub proof fn lemma_tower_position(towers: Seq<TowerTypeModel>, id: Seq<char>)
    ensures
        tower_position(towers, id) matches Some(i) ==> 0 <= i < towers.len() && towers[i].id == id,
{
    if exists|i: int| 0 <= i < towers.len() && towers[i].id == id {
        let k = choose|i: int| 0 <= i < towers.len() && towers[i].id == id;
        let p = |i: int| 0 <= i < towers.len() && towers[i].id == id;
        crate::search::lemma_first_witness(p, k);
        let m = choose|i: int| 0 <= i <= k && #[trigger] p(i) && forall|j: int| 0 <= j < i ==> !#[trigger] p(j);
        assert forall|j: int| 0 <= j < m implies towers[j].id != id by {
            assert(!p(j));
        }
        assert(0 <= m < towers.len() && towers[m].id == id && forall|j: int|
            0 <= j < m ==> towers[j].id != id);
    }
}

/// What a choice on the tower wheel does.
#[derive(Clone, Copy, PartialEq, Eq, Structural, Debug)]
pub enum WheelChoice {
    /// Reveal the fog around the wheel; the gold was paid.
    Explore,
    /// Ask the server to place the tower type at this position; it takes
    /// the gold.
    RequestPlacement(usize),
    /// Place the tower type at this position here; the gold was paid.
    PlaceLocally(usize),
    /// Nothing happens.
    Nothing,
}

/// The outcome of choosing `option_id` on the tower wheel with the given
/// gold: exploring when it is the explore option and the gold covers it;
/// for a known tower type whose cost the gold covers on an explored tile,
/// a placement, asked of the server when online and made here otherwise.
pub open spec fn wheel_outcome(
    option_id: Seq<char>,
    towers: Seq<TowerTypeModel>,
    gold: i32,
    explore_cost: i32,
    explored: bool,
    online: bool,
) -> (WheelChoice, i32) {
    if option_id == explore_option() {
        if gold >= explore_cost {
            (WheelChoice::Explore, (gold - explore_cost) as i32)
        } else {
            (WheelChoice::Nothing, gold)
        }
    } else {
        match tower_position(towers, option_id) {
            Some(i) => if gold >= towers[i].cost && explored {
                if online {
                    (WheelChoice::RequestPlacement(i as usize), gold)
                } else {
                    (WheelChoice::PlaceLocally(i as usize), (gold - towers[i].cost) as i32)
                }
            } else {
                (WheelChoice::Nothing, gold)
            },
            None => (WheelChoice::Nothing, gold),
        }
    }
}

/// Carries out a choice on the tower wheel, paying what it costs here.
pub fn choose_wheel_option(
    option_id: &str,
    towers: &Vec<TowerType>,
    state: &mut GameState,
    explore_cost: i32,
    explored: bool,
    online: bool,
) -> (choice: WheelChoice)
    requires
        option_id@ == explore_option() ==> old(state).gold - explore_cost <= i32::MAX,
        option_id@ != explore_option() && explored && !online ==> match tower_position(
            tower_models(towers@),
            option_id@,
        ) {
            Some(i) => old(state).gold - tower_models(towers@)[i].cost <= i32::MAX,
            None => true,
        },
    ensures
        ({
            let (c, gold) = wheel_outcome(
                option_id@,
                tower_models(towers@),
                old(state).gold,
                explore_cost,
                explored,
                online,
            );
            choice == c && *final(state) == (GameState { gold, ..*old(state) })
        }),
{
    let ghost ts = tower_models(towers@);
    if same_text(option_id, "_explore") {
        proof {
            reveal_strlit("_explore");
        }
        if state.gold >= explore_cost {
            state.gold = state.gold - explore_cost;
            return WheelChoice::Explore;
        }
        return WheelChoice::Nothing;
    }
    assert(option_id@ != explore_option());
    match find_tower_type(towers, option_id) {
        Some(i) => {
            let cost = towers[i].cost;
            assert(ts[i as int].cost == cost);
            assert(tower_position(ts, option_id@) == Some(i as int));
            if state.gold >= cost && explored {
                if online {
                    WheelChoice::RequestPlacement(i)
                } else {
                    state.gold = state.gold - cost;
                    WheelChoice::PlaceLocally(i)
                }
            } else {
                WheelChoice::Nothing
            }
        },
        None => WheelChoice::Nothing,
    }
}

/// The options the tower wheel offers at a tile: in the fog only the
/// explore option, elsewhere every tower type, in table order.
pub open spec fn wheel_option_ids(in_fog: bool, towers: Seq<TowerTypeModel>) -> Seq<Seq<char>> {
    if in_fog {
        seq![explore_option()]
    } else {
        towers.map_values(|t: TowerTypeModel| t.id)
    }
}

/// The options the tower wheel offers at a tile, by id.
pub fn wheel_options(in_fog: bool, towers: &Vec<TowerType>) -> (r: Vec<String>)
    ensures
        r@.map_values(|s: String| s@) == wheel_option_ids(in_fog, tower_models(towers@)),
{
    let mut r: Vec<String> = Vec::new();
    if in_fog {
        proof {
            reveal_strlit("_explore");
        }
        r.push(String::from_str("_explore"));
        assert(r@.map_values(|s: String| s@) =~= wheel_option_ids(in_fog, tower_models(towers@)));
        return r;
    }
    let ghost ts = tower_models(towers@);
    let mut i: usize = 0;
    while i < towers.len()
        invariant
            !in_fog,
            ts == tower_models(towers@),
            i <= towers@.len(),
            r@.map_values(|s: String| s@) =~= ts.take(i as int).map_values(|t: TowerTypeModel| t.id),
        decreases towers@.len() - i,
    {
        let id = towers[i].id.clone();
        assert(id@ == ts[i as int].id);
        let ghost before = r@;
        r.push(id);
        assert(r@.map_values(|s: String| s@) =~= before.map_values(|s: String| s@).push(ts[i as int].id));
        assert(ts.take(i + 1) =~= ts.take(i as int).push(ts[i as int]));
        assert(r@.map_values(|s: String| s@) =~= ts.take(i + 1).map_values(|t: TowerTypeModel| t.id));
        i = i + 1;
    }
    assert(ts.take(i as int) =~= ts);
    r
}

/// A choice on the tower wheel never leaves the gold below zero when it
/// starts at zero or more, and never raises it.
pub proof fn lemma_wheel_gold_bounds(
    option_id: Seq<char>,
    towers: Seq<TowerTypeModel>,
    gold: i32,
    explore_cost: i32,
    explored: bool,
    online: bool,
)
    requires
        gold >= 0,
        explore_cost >= 0,
        forall|i: int| 0 <= i < towers.len() ==> #[trigger] towers[i].cost >= 0,
    ensures
        ({
            let g = wheel_outcome(option_id, towers, gold, explore_cost, explored, online).1;
            0 <= g <= gold
        }),
{
    if option_id != explore_option() {
        lemma_tower_position(towers, option_id);
    }
}

/// A placement on the tower wheel, asked of the server or made here, is
/// chosen only for the tower type the option names, on an explored tile,
/// when the gold covers that type's cost; exploring only when the gold
/// covers the explore cost. Asking the server leaves the gold alone,
/// placing here pays the cost, exploring pays the explore cost, and
/// nothing happening leaves the gold alone.
pub proof fn lemma_wheel_choice_needs_gold(
    option_id: Seq<char>,
    towers: Seq<TowerTypeModel>,
    gold: i32,
    explore_cost: i32,
    explored: bool,
    online: bool,
)
    requires
        towers.len() <= usize::MAX,
        gold - explore_cost <= i32::MAX,
        forall|i: int| 0 <= i < towers.len() ==> gold - #[trigger] towers[i].cost <= i32::MAX,
    ensures
        ({
            let (c, g) = wheel_outcome(option_id, towers, gold, explore_cost, explored, online);
            match c {
                WheelChoice::RequestPlacement(i) => 0 <= i < towers.len() && towers[i as int].id
                    == option_id && gold >= towers[i as int].cost && explored && online && g == gold,
                WheelChoice::PlaceLocally(i) => 0 <= i < towers.len() && towers[i as int].id
                    == option_id && gold >= towers[i as int].cost && explored && !online && g == gold
                    - towers[i as int].cost,
                WheelChoice::Explore => option_id == explore_option() && gold >= explore_cost && g
                    == gold - explore_cost,
                WheelChoice::Nothing => g == gold,
            }
        }),
{
    if option_id != explore_option() {
        lemma_tower_position(towers, option_id);
    }
}

} // verus!

