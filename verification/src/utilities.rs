use vstd::prelude::*;

verus! {

/// Whether the game is on its main menu; the game state is not read yet, so
/// the client always takes it to be.
pub fn is_on_main_menu() -> (r: bool)
    ensures
        r,
{
    true
}

} // verus!
