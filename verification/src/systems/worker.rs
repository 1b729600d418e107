//! Workers: the resource cycle from idle to gathering and back home, what a
//! delivery is worth, how resource nodes run out, the animation shown in
//! each phase, and the worker house.

use vstd::prelude::*;

use crate::systems::audio::SoundEffect;
use crate::systems::colors::{color_name, get_color_dir, PlayerColor};
use crate::systems::game_state::{try_spend, GameState};
use crate::text::{decimal_text, format_u64, push_text};

verus! {

/// The resources workers gather.
#[derive(Clone, Copy, PartialEq, Eq, Structural, Debug)]
pub enum ResourceType {
    Wood,
    Gold,
    Meat,
}

/// The phase of a worker's cycle.
#[derive(Clone, Copy, PartialEq, Eq, Structural, Debug)]
pub enum WorkerState {
    Idle,
    MovingToResource,
    Harvesting,
    ReturningWithResource,
}

/// What happened to a worker since the last step.
#[derive(Clone, Copy, PartialEq, Eq, Structural, Debug)]
pub enum WorkerEvent {
    /// The nearest resource node still standing is of this type.
    FoundResource(ResourceType),
    /// The worker came within reach of its target.
    Arrived,
    /// The harvest timer ran out and the home building exists.
    HarvestFinished,
}

/// A worker: its phase and what it carries or is about to gather.
#[derive(Clone, Copy, PartialEq, Eq, Structural, Debug)]
pub struct Worker {
    pub state: WorkerState,
    pub current_resource: Option<ResourceType>,
}

/// What a worker's step does to the player's resources.
pub open spec fn delivery(state: GameState, resource: Option<ResourceType>) -> GameState {
    match resource {
        Some(ResourceType::Wood) => GameState { wood: (state.wood + 1) as i32, ..state },
        Some(ResourceType::Gold) => GameState { gold: (state.gold + 5) as i32, ..state },
        Some(ResourceType::Meat) => GameState { meat: (state.meat + 1) as i32, ..state },
        None => state,
    }
}

/// Whether a delivery fits the resource counters.
pub open spec fn delivery_fits(state: GameState) -> bool {
    state.wood < i32::MAX && state.gold <= i32::MAX - 5 && state.meat < i32::MAX
}

/// The worker after an event: an idle worker heads for a found resource;
/// arriving there starts the harvest and arriving home delivers the load
/// and makes it idle; a finished harvest sends it home.
pub open spec fn worker_after(w: Worker, event: WorkerEvent) -> Worker {
    match (w.state, event) {
        (WorkerState::Idle, WorkerEvent::FoundResource(r)) => Worker {
            state: WorkerState::MovingToResource,
            current_resource: Some(r),
        },
        (WorkerState::MovingToResource, WorkerEvent::Arrived) => Worker {
            state: WorkerState::Harvesting,
            ..w
        },
        (WorkerState::ReturningWithResource, WorkerEvent::Arrived) => Worker {
            state: WorkerState::Idle,
            current_resource: None,
        },
        (WorkerState::Harvesting, WorkerEvent::HarvestFinished) => Worker {
            state: WorkerState::ReturningWithResource,
            ..w
        },
        _ => w,
    }
}

/// Whether the event delivers the worker's load.
pub open spec fn delivers(w: Worker, event: WorkerEvent) -> bool {
    w.state == WorkerState::ReturningWithResource && event == WorkerEvent::Arrived
}

/// Advances a worker by one event, delivering its load to the player's
/// resources when it arrives home. Returns the sound to play: the reward
/// when a load was delivered.
pub fn worker_step(w: &mut Worker, event: WorkerEvent, state: &mut GameState) -> (sound: Option<
    SoundEffect,
>)
    requires
        delivery_fits(*old(state)),
    ensures
        *final(w) == worker_after(*old(w), event),
        *final(state) == if delivers(*old(w), event) {
            delivery(*old(state), old(w).current_resource)
        } else {
            *old(state)
        },
        sound == if delivers(*old(w), event) && old(w).current_resource is Some {
            Some(SoundEffect::Reward)
        } else {
            None
        },
{
    match (w.state, event) {
        (WorkerState::Idle, WorkerEvent::FoundResource(r)) => {
            w.current_resource = Some(r);
            w.state = WorkerState::MovingToResource;
            None
        },
        (WorkerState::MovingToResource, WorkerEvent::Arrived) => {
            w.state = WorkerState::Harvesting;
            None
        },
        (WorkerState::ReturningWithResource, WorkerEvent::Arrived) => {
            let had_resource = w.current_resource.is_some();
            match w.current_resource {
                Some(ResourceType::Wood) => state.wood = state.wood + 1,
                Some(ResourceType::Gold) => state.gold = state.gold + 5,
                Some(ResourceType::Meat) => state.meat = state.meat + 1,
                None => {},
            }
            w.current_resource = None;
            w.state = WorkerState::Idle;
            if had_resource {
                Some(SoundEffect::Reward)
            } else {
                None
            }
        },
        (WorkerState::Harvesting, WorkerEvent::HarvestFinished) => {
            w.state = WorkerState::ReturningWithResource;
            None
        },
        _ => None,
    }
}

/// A whole trip (find, arrive, harvest, come home) brings exactly one load
/// of the found resource and leaves the worker idle again.
pub proof fn lemma_round_trip(w: Worker, r: ResourceType)
    requires
        w.state == WorkerState::Idle,
    ensures
        ({
            let a = worker_after(w, WorkerEvent::FoundResource(r));
            let b = worker_after(a, WorkerEvent::Arrived);
            let c = worker_after(b, WorkerEvent::HarvestFinished);
            &&& delivers(c, WorkerEvent::Arrived)
            &&& c.current_resource == Some(r)
            &&& worker_after(c, WorkerEvent::Arrived) == (Worker {
                state: WorkerState::Idle,
                current_resource: None,
            })
            &&& !delivers(w, WorkerEvent::FoundResource(r))
            &&& !delivers(a, WorkerEvent::Arrived)
            &&& !delivers(b, WorkerEvent::HarvestFinished)
        }),
{
}

/// A delivery of gold is worth five, of wood or meat one.
pub proof fn lemma_delivery_values(s: GameState)
    requires
        delivery_fits(s),
    ensures
        delivery(s, Some(ResourceType::Gold)).gold == s.gold + 5,
        delivery(s, Some(ResourceType::Wood)).wood == s.wood + 1,
        delivery(s, Some(ResourceType::Meat)).meat == s.meat + 1,
        delivery(s, None) == s,
{
}

/// What becomes of a resource node once its last unit is taken.
#[derive(Clone, Copy, PartialEq, Eq, Structural, Debug)]
pub enum Depletion {
    /// Units are left.
    Remains,
    /// A tree turns into a stump that stays on the map.
    Stump,
    /// A gold stone or a sheep disappears.
    Removed,
}

/// Takes one unit from a resource node and tells what becomes of it.
pub fn harvest_resource(remaining: &mut i32, resource_type: ResourceType) -> (d: Depletion)
    requires
        *old(remaining) > i32::MIN,
    ensures
        *final(remaining) == *old(remaining) - 1,
        d == if *final(remaining) > 0 {
            Depletion::Remains
        } else if resource_type == ResourceType::Wood {
            Depletion::Stump
        } else {
            Depletion::Removed
        },
{
    *remaining = *remaining - 1;
    if *remaining <= 0 {
        match resource_type {
            ResourceType::Wood => Depletion::Stump,
            ResourceType::Gold => Depletion::Removed,
            ResourceType::Meat => Depletion::Removed,
        }
    } else {
        Depletion::Remains
    }
}

/// The sound a worker makes on starting a harvest.
pub fn harvest_sound(w: &Worker) -> (s: Option<SoundEffect>)
    ensures
        s == if w.state == WorkerState::Harvesting {
            match w.current_resource {
                Some(ResourceType::Wood) => Some(SoundEffect::AxeHit),
                Some(ResourceType::Gold) => Some(SoundEffect::PickaxeHit),
                Some(ResourceType::Meat) => Some(SoundEffect::SheepHarvest),
                None => None,
            }
        } else {
            None
        },
{
    if w.state == WorkerState::Harvesting {
        match w.current_resource {
            Some(ResourceType::Wood) => Some(SoundEffect::AxeHit),
            Some(ResourceType::Gold) => Some(SoundEffect::PickaxeHit),
            Some(ResourceType::Meat) => Some(SoundEffect::SheepHarvest),
            None => None,
        }
    } else {
        None
    }
}

/// The pawn animation sheet for a phase and load, with its frame count.
pub open spec fn worker_sprite_spec(state: WorkerState, resource: Option<ResourceType>) -> (
    Seq<char>,
    usize,
) {
    match (state, resource) {
        (WorkerState::Idle, _) => ("Pawn_Idle.png"@, 8),
        (WorkerState::MovingToResource, Some(ResourceType::Wood)) => ("Pawn_Run Axe.png"@, 6),
        (WorkerState::MovingToResource, Some(ResourceType::Gold)) => ("Pawn_Run Pickaxe.png"@, 6),
        (WorkerState::MovingToResource, Some(ResourceType::Meat)) => ("Pawn_Run Knife.png"@, 6),
        (WorkerState::MovingToResource, None) => ("Pawn_Run.png"@, 8),
        (WorkerState::Harvesting, Some(ResourceType::Wood)) => ("Pawn_Interact Axe.png"@, 6),
        (WorkerState::Harvesting, Some(ResourceType::Gold)) => ("Pawn_Interact Pickaxe.png"@, 6),
        (WorkerState::Harvesting, Some(ResourceType::Meat)) => ("Pawn_Interact Knife.png"@, 4),
        (WorkerState::Harvesting, None) => ("Pawn_Idle.png"@, 8),
        (WorkerState::ReturningWithResource, Some(ResourceType::Wood)) => ("Pawn_Run Wood.png"@, 6),
        (WorkerState::ReturningWithResource, Some(ResourceType::Gold)) => ("Pawn_Run Gold.png"@, 6),
        (WorkerState::ReturningWithResource, Some(ResourceType::Meat)) => ("Pawn_Run Meat.png"@, 6),
        (WorkerState::ReturningWithResource, None) => ("Pawn_Run.png"@, 6),
    }
}

/// The pawn animation sheet for a worker, with its frame count.
pub fn worker_sprite(w: &Worker) -> (r: (&'static str, usize))
    ensures
        r.0@ == worker_sprite_spec(w.state, w.current_resource).0,
        r.1 == worker_sprite_spec(w.state, w.current_resource).1,
{
    match (w.state, w.current_resource) {
        (WorkerState::Idle, _) => ("Pawn_Idle.png", 8),
        (WorkerState::MovingToResource, Some(ResourceType::Wood)) => ("Pawn_Run Axe.png", 6),
        (WorkerState::MovingToResource, Some(ResourceType::Gold)) => ("Pawn_Run Pickaxe.png", 6),
        (WorkerState::MovingToResource, Some(ResourceType::Meat)) => ("Pawn_Run Knife.png", 6),
        (WorkerState::MovingToResource, None) => ("Pawn_Run.png", 8),
        (WorkerState::Harvesting, Some(ResourceType::Wood)) => ("Pawn_Interact Axe.png", 6),
        (WorkerState::Harvesting, Some(ResourceType::Gold)) => ("Pawn_Interact Pickaxe.png", 6),
        (WorkerState::Harvesting, Some(ResourceType::Meat)) => ("Pawn_Interact Knife.png", 4),
        (WorkerState::Harvesting, None) => ("Pawn_Idle.png", 8),
        (WorkerState::ReturningWithResource, Some(ResourceType::Wood)) => ("Pawn_Run Wood.png", 6),
        (WorkerState::ReturningWithResource, Some(ResourceType::Gold)) => ("Pawn_Run Gold.png", 6),
        (WorkerState::ReturningWithResource, Some(ResourceType::Meat)) => ("Pawn_Run Meat.png", 6),
        (WorkerState::ReturningWithResource, None) => ("Pawn_Run.png", 6),
    }
}

/// The next frame of an animation with `frame_count` frames, wrapping to
/// the first after the last.
pub fn next_frame(index: usize, frame_count: usize) -> (r: usize)
    requires
        frame_count > 0,
        index < usize::MAX,
    ensures
        r == (index + 1) % (frame_count as int),
        r < frame_count,
{
    (index + 1) % frame_count
}

/// The gold a worker costs at the house.
pub const WORKER_GOLD_COST: i32 = 50;

/// The worker house: how many workers it holds and has.
#[derive(Clone, Copy, PartialEq, Eq, Structural, Debug)]
pub struct WorkerBuilding {
    pub worker_capacity: u32,
    pub current_workers: u32,
}

/// Whether the house spawns a worker now: its timer ran out and it has room.
pub fn should_spawn_worker(building: &WorkerBuilding, timer_finished: bool) -> (r: bool)
    ensures
        r == (timer_finished && building.current_workers < building.worker_capacity),
{
    timer_finished && building.current_workers < building.worker_capacity
}

/// Counts a worker spawned by the house.
pub fn record_spawned_worker(building: &mut WorkerBuilding)
    requires
        old(building).current_workers < u32::MAX,
    ensures
        final(building).current_workers == old(building).current_workers + 1,
        final(building).worker_capacity == old(building).worker_capacity,
{
    building.current_workers = building.current_workers + 1;
}

/// Buys a worker at the house when the gold covers its cost: the gold is
/// paid and the house, when there is one, gets one more worker and one more
/// place. Returns whether the worker was bought, and the house.
pub fn build_worker(state: &mut GameState, building: Option<WorkerBuilding>, cost: i32) -> (r: (
    bool,
    Option<WorkerBuilding>,
))
    requires
        old(state).gold - cost <= i32::MAX,
        building matches Some(b) ==> b.current_workers < u32::MAX && b.worker_capacity < u32::MAX,
    ensures
        r.0 == (old(state).gold >= cost),
        *final(state) == if r.0 {
            GameState { gold: (old(state).gold - cost) as i32, ..*old(state) }
        } else {
            *old(state)
        },
        r.1 == match building {
            Some(b) => if r.0 {
                Some(
                    WorkerBuilding {
                        current_workers: (b.current_workers + 1) as u32,
                        worker_capacity: (b.worker_capacity + 1) as u32,
                    },
                )
            } else {
                Some(b)
            },
            None => None,
        },
{
    let bought = try_spend(&mut state.gold, cost);
    let building = match building {
        Some(b) => if bought {
            Some(
                WorkerBuilding {
                    current_workers: b.current_workers + 1,
                    worker_capacity: b.worker_capacity + 1,
                },
            )
        } else {
            Some(b)
        },
        None => None,
    };
    (bought, building)
}


// ---------------------------------------------------------------------------
// Placing the resources
// ---------------------------------------------------------------------------

/// How many units a fresh resource node holds: five trees' worth of wood,
/// eight of gold, three sheep.
pub fn initial_amount(resource_type: ResourceType) -> (n: i32)
    ensures
        n == match resource_type {
            ResourceType::Wood => 5i32,
            ResourceType::Gold => 8i32,
            ResourceType::Meat => 3i32,
        },
{
    match resource_type {
        ResourceType::Wood => 5,
        ResourceType::Gold => 8,
        ResourceType::Meat => 3,
    }
}

/// Whether a tile is in a list of tiles.
pub fn tile_listed(tiles: &Vec<(i32, i32)>, tile: (i32, i32)) -> (r: bool)
    ensures
        r == tiles@.contains(tile),
{
    let mut i: usize = 0;
    while i < tiles.len()
        invariant
            i <= tiles@.len(),
            forall|k: int| 0 <= k < i ==> tiles@[k] != tile,
        decreases tiles@.len() - i,
    {
        if tiles[i].0 == tile.0 && tiles[i].1 == tile.1 {
            assert(tiles@[i as int] == tile);
            return true;
        }
        i = i + 1;
    }
    false
}

/// The candidate tiles that are not blocked, in their order.
pub fn free_positions(candidates: &Vec<(i32, i32)>, blocked: &Vec<(i32, i32)>) -> (r: Vec<(i32, i32)>)
    ensures
        r@ == candidates@.filter(|p: (i32, i32)| !blocked@.contains(p)),
{
    let ghost pred = |p: (i32, i32)| !blocked@.contains(p);
    let mut r: Vec<(i32, i32)> = Vec::new();
    let mut i: usize = 0;
    proof {
        reveal(Seq::filter);
        assert(candidates@.take(0) =~= Seq::<(i32, i32)>::empty());
    }
    while i < candidates.len()
        invariant
            i <= candidates@.len(),
            pred == (|p: (i32, i32)| !blocked@.contains(p)),
            r@ == candidates@.take(i as int).filter(pred),
        decreases candidates@.len() - i,
    {
        let p = candidates[i];
        proof {
            reveal(Seq::filter);
            assert(candidates@.take(i + 1).drop_last() =~= candidates@.take(i as int));
            assert(candidates@.take(i + 1).last() == p);
        }
        if !tile_listed(blocked, p) {
            r.push(p);
        }
        i = i + 1;
    }
    assert(candidates@.take(i as int) =~= candidates@);
    r
}

/// The tiles trees are planted on before blocked tiles are left out.
pub open spec fn tree_candidates() -> Seq<(i32, i32)> {
    seq![
        (22, 15), (22, 14), (21, 16),
        (1, 1), (2, 2), (3, 1), (1, 3), (8, 1), (9, 2), (14, 1), (15, 2),
        (1, 6), (2, 7), (1, 13), (2, 14), (3, 15), (1, 17), (2, 18),
        (7, 18), (8, 19), (9, 18), (13, 18), (14, 19), (20, 18), (21, 19),
        (7, 1), (8, 2), (13, 1), (14, 2), (19, 1), (20, 2), (21, 1),
        (28, 2), (29, 3), (28, 17), (29, 18),
        (8, 7), (9, 8), (13, 8), (14, 7), (19, 8), (20, 7),
    ]
}

/// The tiles trees are planted on before blocked tiles are left out.
pub fn tree_positions() -> (r: Vec<(i32, i32)>)
    ensures
        r@ == tree_candidates(),
{
    let r = vec![
        (22, 15), (22, 14), (21, 16),
        (1, 1), (2, 2), (3, 1), (1, 3), (8, 1), (9, 2), (14, 1), (15, 2),
        (1, 6), (2, 7), (1, 13), (2, 14), (3, 15), (1, 17), (2, 18),
        (7, 18), (8, 19), (9, 18), (13, 18), (14, 19), (20, 18), (21, 19),
        (7, 1), (8, 2), (13, 1), (14, 2), (19, 1), (20, 2), (21, 1),
        (28, 2), (29, 3), (28, 17), (29, 18),
        (8, 7), (9, 8), (13, 8), (14, 7), (19, 8), (20, 7),
    ];
    assert(r@ =~= tree_candidates());
    r
}

/// The tiles of the gold stones.
pub fn gold_positions() -> (r: Vec<(i32, i32)>)
    ensures
        r@ == seq![(24i32, 17i32), (25i32, 17i32), (24i32, 18i32)],
{
    let r = vec![(24, 17), (25, 17), (24, 18)];
    assert(r@ =~= seq![(24i32, 17i32), (25i32, 17i32), (24i32, 18i32)]);
    r
}

/// The tiles of the sheep.
pub fn sheep_positions() -> (r: Vec<(i32, i32)>)
    ensures
        r@ == seq![(20i32, 12i32), (19i32, 13i32), (20i32, 14i32)],
{
    let r = vec![(20, 12), (19, 13), (20, 14)];
    assert(r@ =~= seq![(20i32, 12i32), (19i32, 13i32), (20i32, 14i32)]);
    r
}

/// The sprite of the `i`-th tree: the four tree pictures in turn.
pub fn tree_sprite(i: usize) -> (r: String)
    ensures
        r@ == "Terrain/Resources/Wood/Trees/Tree"@ + decimal_text((i % 4 + 1) as int) + ".png"@,
{
    let mut r = String::new();
    push_text(&mut r, "Terrain/Resources/Wood/Trees/Tree");
    let n = format_u64((i % 4 + 1) as u64);
    push_text(&mut r, n.as_str());
    push_text(&mut r, ".png");
    assert(r@ =~= "Terrain/Resources/Wood/Trees/Tree"@ + decimal_text((i % 4 + 1) as int) + ".png"@);
    r
}

/// The sprite of the `i`-th gold stone: the three large highlighted stones
/// in turn.
pub fn gold_sprite(i: usize) -> (r: String)
    ensures
        r@ == "Terrain/Resources/Gold/Gold Stones/Gold Stone "@ + decimal_text((i % 3 + 4) as int)
            + "_Highlight.png"@,
{
    let mut r = String::new();
    push_text(&mut r, "Terrain/Resources/Gold/Gold Stones/Gold Stone ");
    let n = format_u64((i % 3 + 4) as u64);
    push_text(&mut r, n.as_str());
    push_text(&mut r, "_Highlight.png");
    assert(r@ =~= "Terrain/Resources/Gold/Gold Stones/Gold Stone "@ + decimal_text(
        (i % 3 + 4) as int,
    ) + "_Highlight.png"@);
    r
}

/// The worker house a game starts with, in the player's colour: its tile,
/// room for one worker and none yet, and its picture.
pub fn worker_house(color: PlayerColor) -> (r: ((i32, i32), WorkerBuilding, String))
    ensures
        r.0 == (27i32, 6i32),
        r.1 == (WorkerBuilding { worker_capacity: 1, current_workers: 0 }),
        r.2@ == "Decorations/Buildings/"@ + color_name(color) + " Buildings/House1.png"@,
{
    let mut path = String::new();
    push_text(&mut path, "Decorations/Buildings/");
    push_text(&mut path, get_color_dir(color));
    push_text(&mut path, " Buildings/House1.png");
    assert(path@ =~= "Decorations/Buildings/"@ + color_name(color) + " Buildings/House1.png"@);
    ((27, 6), WorkerBuilding { worker_capacity: 1, current_workers: 0 }, path)
}

/// The pawn portrait the house menu shows, in the player's colour.
pub fn pawn_avatar_path(color: PlayerColor) -> (r: String)
    ensures
        r@ == "Units/"@ + color_name(color) + " Units/Pawn/Pawn_Avatar.png"@,
{
    let mut path = String::new();
    push_text(&mut path, "Units/");
    push_text(&mut path, get_color_dir(color));
    push_text(&mut path, " Units/Pawn/Pawn_Avatar.png");
    assert(path@ =~= "Units/"@ + color_name(color) + " Units/Pawn/Pawn_Avatar.png"@);
    path
}

/// Leaving out blocked tiles keeps only free tiles, each one a candidate.
pub proof fn lemma_free_positions_are_free(
    candidates: Seq<(i32, i32)>,
    blocked: Seq<(i32, i32)>,
    k: int,
)
    requires
        0 <= k < candidates.filter(|p: (i32, i32)| !blocked.contains(p)).len(),
    ensures
        ({
            let t = candidates.filter(|p: (i32, i32)| !blocked.contains(p))[k];
            !blocked.contains(t) && candidates.contains(t)
        }),
{
    let pred = |p: (i32, i32)| !blocked.contains(p);
    let f = candidates.filter(pred);
    candidates.lemma_filter_pred(pred, k);
    assert(f.contains(f[k]));
    candidates.lemma_filter_contains_rev(pred, f[k]);
}

} // verus!
