//! Which of the in-game menus may open: the worker house menu, the recruit
//! menu, the tower wheel and the tower upgrade menu.

use vstd::prelude::*;

verus! {

/// Which in-game menus are open.
#[derive(Clone, Copy, PartialEq, Eq, Structural, Debug)]
pub struct MenuStates {
    pub house: bool,
    pub recruit: bool,
    pub wheel: bool,
    pub upgrade: bool,
}

impl MenuStates {
    /// Whether no menu is open.
    pub open spec fn none_open(self) -> bool {
        !self.house && !self.recruit && !self.wheel && !self.upgrade
    }

    /// The number of open menus.
    pub open spec fn open_count(self) -> int {
        (if self.house { 1int } else { 0 }) + (if self.recruit { 1int } else { 0 }) + (if self.wheel {
            1int
        } else {
            0
        }) + (if self.upgrade { 1int } else { 0 })
    }

    /// Whether a click may open the house menu: no menu is open.
    pub fn can_open_house(&self) -> (r: bool)
        ensures
            r == self.none_open(),
    {
        !(self.house || self.recruit || self.wheel || self.upgrade)
    }

    /// Whether a click may open the tower wheel: no menu is open.
    pub fn can_open_wheel(&self) -> (r: bool)
        ensures
            r == self.none_open(),
    {
        !self.wheel && !self.recruit && !self.house && !self.upgrade
    }

    /// Whether a click opens the tower wheel: no menu is open, and the tile
    /// is neither the castle's nor a road, nor next to a tower or the worker
    /// house (whose own menus take such clicks).
    pub fn wheel_may_open(&self, on_castle: bool, on_road: bool, near_building: bool) -> (r: bool)
        ensures
            r == (self.none_open() && !on_castle && !on_road && !near_building),
    {
        self.can_open_wheel() && !on_castle && !on_road && !near_building
    }

    /// Whether a click may open the upgrade menu: no menu is open.
    pub fn can_open_upgrade(&self) -> (r: bool)
        ensures
            r == self.none_open(),
    {
        !(self.upgrade || self.wheel || self.recruit || self.house)
    }

    /// Whether a click may open the recruit menu: neither it nor the tower
    /// wheel is open.
    pub fn can_open_recruit(&self) -> (r: bool)
        ensures
            r == (!self.recruit && !self.wheel),
    {
        !self.recruit && !self.wheel
    }
}

/// Opening the house menu, the tower wheel or the upgrade menu when it may
/// open leaves exactly one menu open.
pub proof fn lemma_single_menu(m: MenuStates)
    requires
        m.none_open(),
    ensures
        (MenuStates { house: true, ..m }).open_count() == 1,
        (MenuStates { wheel: true, ..m }).open_count() == 1,
        (MenuStates { upgrade: true, ..m }).open_count() == 1,
        (MenuStates { recruit: true, ..m }).open_count() == 1,
{
}

/// The recruit menu is the exception: it may open over the house or upgrade
/// menu, so two menus can be open at once.
pub proof fn lemma_recruit_may_stack()
    ensures
        ({
            let m = MenuStates { house: true, recruit: false, wheel: false, upgrade: false };
            !m.recruit && !m.wheel && (MenuStates { recruit: true, ..m }).open_count() == 2
        }),
{
}

} // verus!
