//! The online-players panel: which players get a banner, in which order,
//! under which name, and the ribbon and avatar pictures of each colour.

use vstd::prelude::*;

use crate::order::{is_stable_order, stable_order_by_text, text_key_less};
use crate::systems::colors::PlayerColor;

verus! {

/// A player as the server's user table holds it.
pub struct PlayerEntry {
    pub name: Option<String>,
    pub online: bool,
    pub color: PlayerColor,
}

/// The content of a [`PlayerEntry`].
pub struct PlayerEntryModel {
    pub name: Option<Seq<char>>,
    pub online: bool,
    pub color: PlayerColor,
}

impl View for PlayerEntry {
    type V = PlayerEntryModel;

    open spec fn view(&self) -> PlayerEntryModel {
        PlayerEntryModel {
            name: match self.name {
                Some(n) => Some(n@),
                None => None,
            },
            online: self.online,
            color: self.color,
        }
    }
}

/// The contents of a list of players.
pub open spec fn player_models(players: Seq<PlayerEntry>) -> Seq<PlayerEntryModel> {
    players.map_values(|p: PlayerEntry| p@)
}

/// The name a banner shows, before it is put in capitals: the player's
/// name, or `Anonymous`.
pub open spec fn banner_label(name: Option<Seq<char>>) -> Seq<char> {
    match name {
        Some(n) => n,
        None => "Anonymous"@,
    }
}

/// The positions of the connected players, in table order.
pub open spec fn online_positions(players: Seq<PlayerEntryModel>) -> Seq<usize>
    decreases players.len(),
{
    if players.len() == 0 {
        Seq::empty()
    } else {
        let rest = online_positions(players.drop_last());
        if players.last().online {
            rest.push((players.len() - 1) as usize)
        } else {
            rest
        }
    }
}

/// Whether `shown` lists the connected players in banner order: by name,
/// players with the same name in table order.
pub open spec fn banner_order(players: Seq<PlayerEntryModel>, shown: Seq<usize>) -> bool {
    let online = online_positions(players);
    let labels = online.map_values(|i: usize| banner_label(players[i as int].name));
    exists|order: Seq<usize>|
        #[trigger] is_stable_order(order, online.len() as int, text_key_less(labels)) && shown.len()
            == online.len() && forall|j: int|
            0 <= j < online.len() ==> #[trigger] shown[j] == online[order[j] as int]
}

/// The name a banner shows, before it is put in capitals.
pub fn banner_name(name: &Option<String>) -> (r: String)
    ensures
        r@ == banner_label(match name {
            Some(n) => Some(n@),
            None => None,
        }),
{
    match name {
        Some(n) => n.clone(),
        None => String::from_str("Anonymous"),
    }
}

/// The players that get a banner, as positions in the table: the
/// connected ones, sorted by the name their banner shows.
pub fn online_banner_order(players: &Vec<PlayerEntry>) -> (r: Vec<usize>)
    ensures
        banner_order(player_models(players@), r@),
{
    let ghost ps = player_models(players@);
    let mut online: Vec<usize> = Vec::new();
    let mut names: Vec<String> = Vec::new();
    let mut i: usize = 0;
    assert(ps.take(0) =~= Seq::<PlayerEntryModel>::empty());
    while i < players.len()
        invariant
            ps == player_models(players@),
            i <= players@.len(),
            online@ == online_positions(ps.take(i as int)),
            names@.len() == online@.len(),
            forall|j: int|
                0 <= j < online@.len() ==> #[trigger] names@[j]@ == banner_label(
                    ps[online@[j] as int].name,
                ),
            forall|j: int| 0 <= j < online@.len() ==> #[trigger] online@[j] < i,
        decreases players@.len() - i,
    {
        proof {
            assert(ps.take(i + 1).drop_last() =~= ps.take(i as int));
            assert(ps.take(i + 1).last() == players@[i as int]@);
        }
        if players[i].online {
            let ghost before_names = names@;
            let ghost before_online = online@;
            online.push(i);
            names.push(banner_name(&players[i].name));
            assert forall|j: int| 0 <= j < online@.len() implies #[trigger] names@[j]@ == banner_label(
                ps[online@[j] as int].name,
            ) by {
                if j < before_online.len() {
                    assert(names@[j] == before_names[j]);
                    assert(online@[j] == before_online[j]);
                }
            }
        }
        i = i + 1;
    }
    assert(ps.take(i as int) =~= ps);
    let order = stable_order_by_text(&names);
    let ghost labels = online@.map_values(|k: usize| banner_label(ps[k as int].name));
    assert(names@.map_values(|s: String| s@) =~= labels);
    let mut r: Vec<usize> = Vec::new();
    let mut j: usize = 0;
    while j < order.len()
        invariant
            online@ == online_positions(ps),
            is_stable_order(order@, online@.len() as int, text_key_less(labels)),
            j <= order@.len(),
            r@.len() == j,
            forall|q: int| 0 <= q < j ==> #[trigger] r@[q] == online@[order@[q] as int],
        decreases order@.len() - j,
    {
        assert(order@[j as int] < online@.len());
        r.push(online[order[j]]);
        j = j + 1;
    }
    assert(is_stable_order(order@, online@.len() as int, text_key_less(labels)));
    r
}

/// The ribbon and avatar pictures of a player's banner.
pub fn banner_images(color: PlayerColor) -> (r: (&'static str, &'static str))
    ensures
        r.0@ == match color {
            PlayerColor::Blue => "UI Elements/UI Elements/Ribbons/Ribbon_Blue.png"@,
            PlayerColor::Yellow => "UI Elements/UI Elements/Ribbons/Ribbon_Yellow.png"@,
            PlayerColor::Purple => "UI Elements/UI Elements/Ribbons/Ribbon_Purple.png"@,
            PlayerColor::Black => "UI Elements/UI Elements/Ribbons/Ribbon_Black.png"@,
        },
        r.1@ == match color {
            PlayerColor::Blue => "UI Elements/UI Elements/Human Avatars/Avatar_Blue.png"@,
            PlayerColor::Yellow => "UI Elements/UI Elements/Human Avatars/Avatar_Yellow.png"@,
            PlayerColor::Purple => "UI Elements/UI Elements/Human Avatars/Avatar_Purple.png"@,
            PlayerColor::Black => "UI Elements/UI Elements/Human Avatars/Avatar_Black.png"@,
        },
{
    match color {
        PlayerColor::Blue => (
            "UI Elements/UI Elements/Ribbons/Ribbon_Blue.png",
            "UI Elements/UI Elements/Human Avatars/Avatar_Blue.png",
        ),
        PlayerColor::Yellow => (
            "UI Elements/UI Elements/Ribbons/Ribbon_Yellow.png",
            "UI Elements/UI Elements/Human Avatars/Avatar_Yellow.png",
        ),
        PlayerColor::Purple => (
            "UI Elements/UI Elements/Ribbons/Ribbon_Purple.png",
            "UI Elements/UI Elements/Human Avatars/Avatar_Purple.png",
        ),
        PlayerColor::Black => (
            "UI Elements/UI Elements/Ribbons/Ribbon_Black.png",
            "UI Elements/UI Elements/Human Avatars/Avatar_Black.png",
        ),
    }
}

} // verus!
