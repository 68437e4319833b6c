use vstd::prelude::*;

verus! {

/// Height state of one board cell, ordered from lowest to highest.
#[derive(Debug, PartialEq, Eq, Structural, Copy, Clone)]
pub enum TowerStates {
    Empty,
    Level1,
    Level2,
    Level3,
    Capped,
}

/// The height of a tower state as a number from 0 to 4.
pub open spec fn height(t: TowerStates) -> nat {
    match t {
        TowerStates::Empty => 0,
        TowerStates::Level1 => 1,
        TowerStates::Level2 => 2,
        TowerStates::Level3 => 3,
        TowerStates::Capped => 4,
    }
}

/// The state one level higher, or `None` for a capped tower.
pub open spec fn raised(t: TowerStates) -> Option<TowerStates> {
    match t {
        TowerStates::Empty => Some(TowerStates::Level1),
        TowerStates::Level1 => Some(TowerStates::Level2),
        TowerStates::Level2 => Some(TowerStates::Level3),
        TowerStates::Level3 => Some(TowerStates::Capped),
        TowerStates::Capped => None,
    }
}

impl TowerStates {
    /// The next height up; a capped tower cannot grow.
    pub fn increase(self) -> (r: Option<Self>)
        ensures
            r == raised(self),
            r is None <==> self == TowerStates::Capped,
            r is Some ==> height(r->0) == height(self) + 1,
    {
        match self {
            TowerStates::Empty => Some(TowerStates::Level1),
            TowerStates::Level1 => Some(TowerStates::Level2),
            TowerStates::Level2 => Some(TowerStates::Level3),
            TowerStates::Level3 => Some(TowerStates::Capped),
            TowerStates::Capped => None,
        }
    }

    pub fn to_int(self) -> (r: u8)
        ensures
            r == height(self),
    {
        match self {
            TowerStates::Empty => 0,
            TowerStates::Level1 => 1,
            TowerStates::Level2 => 2,
            TowerStates::Level3 => 3,
            TowerStates::Capped => 4,
        }
    }
}

/// Tower states compare by height.
pub open spec fn height_order(a: TowerStates, b: TowerStates) -> std::cmp::Ordering {
    if height(a) < height(b) {
        std::cmp::Ordering::Less
    } else if height(a) == height(b) {
        std::cmp::Ordering::Equal
    } else {
        std::cmp::Ordering::Greater
    }
}

impl PartialOrd for TowerStates {
    fn partial_cmp(&self, other: &Self) -> (r: Option<std::cmp::Ordering>) {
        let a = self.to_int();
        let b = other.to_int();
        if a < b {
            Some(std::cmp::Ordering::Less)
        } else if a == b {
            Some(std::cmp::Ordering::Equal)
        } else {
            Some(std::cmp::Ordering::Greater)
        }
    }
}

impl vstd::std_specs::cmp::PartialOrdSpecImpl for TowerStates {
    open spec fn obeys_partial_cmp_spec() -> bool {
        true
    }

    open spec fn partial_cmp_spec(&self, other: &Self) -> Option<std::cmp::Ordering> {
        Some(height_order(*self, *other))
    }
}

/// Which of a player's two workers acts.
#[derive(Debug, PartialEq, Eq, Structural, Copy, Clone)]
pub enum Worker {
    One,
    Two,
}

/// Whether a player slot still takes part in the game.
#[derive(Debug, PartialEq, Eq, Structural, Copy, Clone)]
pub enum Status {
    Playing,
    Dead,
}

} // verus!
