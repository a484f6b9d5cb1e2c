//! What the session asks the shell around it to do.

use vstd::prelude::*;
use crate::dim::Opacity;
use crate::player::PlayerCommand;

verus! {

/// The time between two ticks, in milliseconds.
pub const TICK_MILLISECONDS: i32 = 1000;

/// One command for the shell. The session only decides; the shell
/// carries out, in the order given.
#[derive(Clone, Copy, Debug, PartialEq, Eq, Structural)]
pub enum Effect {
    /// Register a tick source that fires every `TICK_MILLISECONDS`, and
    /// report its handle back.
    StartTicking,
    /// Tear down the tick registration with this handle.
    StopTicking(i32),
    /// Switch the dimmed page style on or off.
    DimMode(bool),
    /// Switch the page style for a loaded video on or off.
    VideoActive(bool),
    /// Set the darkness of the overlay.
    Dim(Opacity),
    /// Send a command to the attached player.
    Player(PlayerCommand),
    /// Ask the host to suspend. Nothing is awaited.
    Suspend,
}

/// How often `wanted` occurs among `effects`.
pub open spec fn occurrences(effects: Seq<Effect>, wanted: Effect) -> nat
    decreases effects.len(),
{
    if effects.len() == 0 {
        0
    } else {
        occurrences(effects.drop_last(), wanted) + if effects.last() == wanted {
            1nat
        } else {
            0nat
        }
    }
}

/// Whether `effects` holds a command for the player.
pub open spec fn touches_player(effects: Seq<Effect>) -> bool {
    exists|i: int| 0 <= i < effects.len() && (#[trigger] effects[i]) is Player
}

/// Counting over two lists put together adds up.
pub proof fn lemma_occurrences_concat(front: Seq<Effect>, back: Seq<Effect>, wanted: Effect)
    ensures
        occurrences(front + back, wanted) == occurrences(front, wanted) + occurrences(
            back,
            wanted,
        ),
    decreases back.len(),
{
    if back.len() == 0 {
        assert(front + back =~= front);
    } else {
        assert((front + back).drop_last() =~= front + back.drop_last());
        lemma_occurrences_concat(front, back.drop_last(), wanted);
    }
}

} // verus!
