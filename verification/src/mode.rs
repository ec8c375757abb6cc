//! The closed game-mode enumeration and its mapping from foreign mode codes.

use vstd::prelude::*;

verus! {

/// The four game modes the engine understands.  The foreign caller selects
/// one with an integer code; every other code is an invalid-input condition.
#[derive(Clone, Copy, PartialEq, Eq, Structural, Debug)]
pub enum GameMode {
    Standard,
    Taiko,
    CatchTheBeat,
    Mania,
}

/// The mode selected by a foreign code: exactly the codes 0 through 3 are
/// accepted, in that order; everything else is rejected.
pub open spec fn mode_of_code(code: u32) -> Option<GameMode> {
    if code == 0 {
        Some(GameMode::Standard)
    } else if code == 1 {
        Some(GameMode::Taiko)
    } else if code == 2 {
        Some(GameMode::CatchTheBeat)
    } else if code == 3 {
        Some(GameMode::Mania)
    } else {
        None
    }
}

/// Maps a foreign mode code to the game mode it names, or `None` for any
/// code outside the closed set {0, 1, 2, 3}.
pub fn mode_from_code(code: u32) -> (r: Option<GameMode>)
    ensures
        r == mode_of_code(code),
{
    match code {
        0 => Some(GameMode::Standard),
        1 => Some(GameMode::Taiko),
        2 => Some(GameMode::CatchTheBeat),
        3 => Some(GameMode::Mania),
        _ => None,
    }
}

} // verus!
