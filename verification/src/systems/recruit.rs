//! Recruiting units at the castle: the units on offer and what recruiting
//! one costs.

use vstd::prelude::*;

use crate::systems::colors::{color_name, get_color_dir, PlayerColor};
use crate::systems::game_state::{try_spend, GameState};
use crate::text::{replace, replace_all};

verus! {

/// A unit the castle offers.
#[derive(Clone, Copy, Debug)]
pub struct RecruitableUnit {
    pub id: &'static str,
    pub name: &'static str,
    /// The sprite path, with `{color}` standing for the player's colour.
    pub sprite_path: &'static str,
    pub frame_size: (u32, u32),
    pub meat_cost: i32,
}

/// The content of a [`RecruitableUnit`].
pub struct RecruitableUnitModel {
    pub id: Seq<char>,
    pub name: Seq<char>,
    pub sprite_path: Seq<char>,
    pub frame_size: (u32, u32),
    pub meat_cost: i32,
}

impl View for RecruitableUnit {
    type V = RecruitableUnitModel;

    open spec fn view(&self) -> RecruitableUnitModel {
        RecruitableUnitModel {
            id: self.id@,
            name: self.name@,
            sprite_path: self.sprite_path@,
            frame_size: self.frame_size,
            meat_cost: self.meat_cost,
        }
    }
}

/// The units on offer, in menu order.
pub open spec fn recruitable_spec() -> Seq<RecruitableUnitModel> {
    seq![
        RecruitableUnitModel {
            id: "warrior"@,
            name: "WARRIOR"@,
            sprite_path: "Units/{color} Units/Warrior/Warrior_Idle.png"@,
            frame_size: (192, 192),
            meat_cost: 5,
        },
        RecruitableUnitModel {
            id: "lancer"@,
            name: "LANCER"@,
            sprite_path: "Units/{color} Units/Lancer/Lancer_Idle.png"@,
            frame_size: (320, 320),
            meat_cost: 3,
        },
        RecruitableUnitModel {
            id: "archer"@,
            name: "ARCHER"@,
            sprite_path: "Units/{color} Units/Archer/Archer_Idle.png"@,
            frame_size: (192, 192),
            meat_cost: 2,
        },
        RecruitableUnitModel {
            id: "monk"@,
            name: "MONK"@,
            sprite_path: "Units/{color} Units/Monk/Idle.png"@,
            frame_size: (192, 192),
            meat_cost: 3,
        },
    ]
}

/// The units on offer, in menu order.
pub fn recruitable_units() -> (r: Vec<RecruitableUnit>)
    ensures
        r@.map_values(|u: RecruitableUnit| u@) == recruitable_spec(),
{
    let r = vec![
        RecruitableUnit {
            id: "warrior",
            name: "WARRIOR",
            sprite_path: "Units/{color} Units/Warrior/Warrior_Idle.png",
            frame_size: (192, 192),
            meat_cost: 5,
        },
        RecruitableUnit {
            id: "lancer",
            name: "LANCER",
            sprite_path: "Units/{color} Units/Lancer/Lancer_Idle.png",
            frame_size: (320, 320),
            meat_cost: 3,
        },
        RecruitableUnit {
            id: "archer",
            name: "ARCHER",
            sprite_path: "Units/{color} Units/Archer/Archer_Idle.png",
            frame_size: (192, 192),
            meat_cost: 2,
        },
        RecruitableUnit {
            id: "monk",
            name: "MONK",
            sprite_path: "Units/{color} Units/Monk/Idle.png",
            frame_size: (192, 192),
            meat_cost: 3,
        },
    ];
    assert(r@.map_values(|u: RecruitableUnit| u@) =~= recruitable_spec());
    r
}

/// The sprite path of a unit on offer in the player's colour.
pub fn recruit_sprite_path(unit: &RecruitableUnit, color: PlayerColor) -> (r: String)
    ensures
        r@ == replace_all(unit.sprite_path@, "{color}"@, color_name(color)),
{
    proof {
        reveal_strlit("{color}");
    }
    replace(unit.sprite_path, "{color}", get_color_dir(color))
}

/// Recruits a unit when the meat covers its cost; tells whether it did.
pub fn try_recruit(state: &mut GameState, meat_cost: i32) -> (recruited: bool)
    requires
        old(state).meat - meat_cost <= i32::MAX,
    ensures
        recruited == (old(state).meat >= meat_cost),
        *final(state) == if recruited {
            GameState { meat: (old(state).meat - meat_cost) as i32, ..*old(state) }
        } else {
            *old(state)
        },
{
    try_spend(&mut state.meat, meat_cost)
}

} // verus!
