//! Player colours and the asset directories named after them.

use vstd::prelude::*;

use crate::text::push_text;

verus! {

/// The colour a player plays in.
#[derive(Clone, Copy, PartialEq, Eq, Structural, Debug)]
pub enum PlayerColor {
    Blue,
    Yellow,
    Purple,
    Black,
}

/// The name of a colour as asset directories spell it.
pub open spec fn color_name(c: PlayerColor) -> Seq<char> {
    match c {
        PlayerColor::Blue => "Blue"@,
        PlayerColor::Yellow => "Yellow"@,
        PlayerColor::Purple => "Purple"@,
        PlayerColor::Black => "Black"@,
    }
}

/// The colour's name for asset paths.
pub fn get_color_dir(color: PlayerColor) -> (r: &'static str)
    ensures
        r@ == color_name(color),
{
    match color {
        PlayerColor::Blue => "Blue",
        PlayerColor::Yellow => "Yellow",
        PlayerColor::Purple => "Purple",
        PlayerColor::Black => "Black",
    }
}

impl PlayerColor {
    /// The colour's name.
    pub fn as_str(&self) -> (r: &'static str)
        ensures
            r@ == color_name(*self),
    {
        get_color_dir(*self)
    }
}

/// The colour of the player, or blue when it is not known.
pub fn player_color_or_default(known: Option<PlayerColor>) -> (r: PlayerColor)
    ensures
        r == match known {
            Some(c) => c,
            None => PlayerColor::Blue,
        },
{
    match known {
        Some(c) => c,
        None => PlayerColor::Blue,
    }
}

/// The castle picture in a player's colour.
pub fn castle_sprite_path(color: PlayerColor) -> (r: String)
    ensures
        r@ == "Decorations/Buildings/"@ + color_name(color) + " Buildings/Castle.png"@,
{
    let mut r = String::new();
    push_text(&mut r, "Decorations/Buildings/");
    push_text(&mut r, get_color_dir(color));
    push_text(&mut r, " Buildings/Castle.png");
    assert(r@ =~= "Decorations/Buildings/"@ + color_name(color) + " Buildings/Castle.png"@);
    r
}

} // verus!
