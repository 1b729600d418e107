//! The player's standing: lives, resources, score and wave, and how the
//! rules change it.

use vstd::prelude::*;

use crate::tui::{opt_bytes, same_identity};

verus! {

/// The player's standing.
#[derive(Clone, Copy, PartialEq, Eq, Structural, Debug)]
pub struct GameState {
    pub lives: i32,
    pub gold: i32,
    pub wood: i32,
    pub meat: i32,
    pub score: i32,
    pub wave: i32,
}

/// Whether the game is lost: no lives are left.
pub fn check_game_over(state: &GameState) -> (over: bool)
    ensures
        over == (state.lives <= 0),
{
    state.lives <= 0
}

/// An enemy reached the castle and takes its damage off the lives.
pub fn castle_hit(state: &mut GameState, damage_to_base: i32)
    requires
        i32::MIN <= old(state).lives - damage_to_base <= i32::MAX,
    ensures
        *final(state) == (GameState { lives: (old(state).lives - damage_to_base) as i32, ..*old(state) }),
{
    state.lives = state.lives - damage_to_base;
}

/// An enemy was killed: its reward goes to both gold and score.
pub fn award_kill(state: &mut GameState, gold_reward: i32)
    requires
        i32::MIN <= old(state).gold + gold_reward <= i32::MAX,
        i32::MIN <= old(state).score + gold_reward <= i32::MAX,
    ensures
        *final(state) == (GameState {
            gold: (old(state).gold + gold_reward) as i32,
            score: (old(state).score + gold_reward) as i32,
            ..*old(state)
        }),
{
    state.gold = state.gold + gold_reward;
    state.score = state.score + gold_reward;
}

/// Takes the server's lives and score; the player's resources are their own.
pub fn sync_game_state(state: &mut GameState, lives: i32, score: i32)
    ensures
        *final(state) == (GameState { lives, score, ..*old(state) }),
{
    state.lives = lives;
    state.score = score;
}

/// A user row of the server's user table as far as resources go: whose it
/// is, by identity, and the user's gold, wood and meat.
pub struct UserResources {
    pub identity: Vec<u8>,
    pub gold: i32,
    pub wood: i32,
    pub meat: i32,
}

/// The content of a [`UserResources`].
pub struct UserResourcesModel {
    pub identity: Seq<u8>,
    pub gold: i32,
    pub wood: i32,
    pub meat: i32,
}

impl View for UserResources {
    type V = UserResourcesModel;

    open spec fn view(&self) -> UserResourcesModel {
        UserResourcesModel { identity: self.identity@, gold: self.gold, wood: self.wood, meat: self.meat }
    }
}

/// The contents of a list of user rows.
pub open spec fn user_resource_models(rows: Seq<UserResources>) -> Seq<UserResourcesModel> {
    rows.map_values(|r: UserResources| r@)
}

/// The last of the rows that belongs to the user `me`, if any.
pub open spec fn last_row_of(rows: Seq<UserResourcesModel>, me: Seq<u8>) -> Option<UserResourcesModel>
    decreases rows.len(),
{
    if rows.len() == 0 {
        None
    } else if rows.last().identity == me {
        Some(rows.last())
    } else {
        last_row_of(rows.drop_last(), me)
    }
}

/// The standing after the server's updated user rows arrived: the player's
/// gold, wood and meat are those of the last row that is the player's own;
/// without such a row, or without knowing who the player is, nothing
/// changes.
pub open spec fn synced_resources(state: GameState, rows: Seq<UserResourcesModel>, me: Option<Seq<u8>>) -> GameState {
    match me {
        Some(id) => match last_row_of(rows, id) {
            Some(r) => GameState { gold: r.gold, wood: r.wood, meat: r.meat, ..state },
            None => state,
        },
        None => state,
    }
}

/// Takes the server's record of the player's resources from the updated
/// user rows `updates`, the player being the user `me` when known.
pub fn sync_player_resources(state: &mut GameState, updates: &Vec<UserResources>, me: &Option<Vec<u8>>)
    ensures
        *final(state) == synced_resources(*old(state), user_resource_models(updates@), opt_bytes(*me)),
{
    let ghost rows = user_resource_models(updates@);
    let ghost start = *state;
    match me {
        None => {},
        Some(id) => {
            let mut i: usize = 0;
            assert(rows.take(0) =~= Seq::<UserResourcesModel>::empty());
            while i < updates.len()
                invariant
                    rows == user_resource_models(updates@),
                    i <= updates@.len(),
                    *state == synced_resources(start, rows.take(i as int), Some(id@)),
                decreases updates@.len() - i,
            {
                let row = &updates[i];
                proof {
                    assert(rows.take(i + 1).drop_last() =~= rows.take(i as int));
                    assert(rows.take(i + 1).last() == row@);
                }
                if same_identity(&row.identity, id) {
                    state.gold = row.gold;
                    state.wood = row.wood;
                    state.meat = row.meat;
                }
                i = i + 1;
            }
            assert(rows.take(i as int) =~= rows);
        },
    }
}

/// Pays `cost` out of `balance` when it covers it; tells whether it did.
pub fn try_spend(balance: &mut i32, cost: i32) -> (paid: bool)
    requires
        *old(balance) - cost <= i32::MAX,
    ensures
        paid == (*old(balance) >= cost),
        paid ==> *final(balance) == *old(balance) - cost,
        !paid ==> *final(balance) == *old(balance),
{
    if *balance >= cost {
        *balance = *balance - cost;
        true
    } else {
        false
    }
}

/// Paying never drives a balance below zero when it starts at zero or
/// more, and a refused payment leaves it alone.
pub proof fn lemma_spending_keeps_balance_nonnegative(balance: int, cost: int)
    requires
        balance >= 0,
    ensures
        balance >= cost ==> balance - cost >= 0,
{
}

} // verus!
