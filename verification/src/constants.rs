use vstd::prelude::*;

verus! {

/// The game name that the Archipelago server knows this world by.
pub const GAME_NAME: &'static str = "Devil May Cry 2";

/// A position in the game world, in the game's own integer units.
#[derive(Clone, Copy, Debug, PartialEq, Eq, Structural)]
pub struct Coordinates {
    pub x: u32,
    pub y: u32,
    pub z: u32,
}

impl Coordinates {
    /// The coordinates that stand for "no position".
    pub fn empty() -> (c: Coordinates)
        ensures
            c == (Coordinates { x: 0, y: 0, z: 0 }),
    {
        Coordinates { x: 0, y: 0, z: 0 }
    }

    /// Whether a real position was recorded: only the `x` component decides.
    pub fn has_coords(&self) -> (r: bool)
        ensures
            r == (self.x > 0),
    {
        self.x > 0
    }
}

} // verus!
