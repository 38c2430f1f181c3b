//! What can go wrong in a session.
use vstd::prelude::*;

verus! {

/// An error reported to the player. None of them ends the session.
#[derive(Debug, Clone, Copy, PartialEq, Eq, Structural)]
pub enum GameError {
    /// The puzzle engine could not produce a new puzzle; the board stays as it was.
    GenerationFailed,
    /// The board repeats a digit in a row, a column or a box.
    ValidationError,
    /// The board has more than one solution.
    SolveAmbiguous,
    /// The board has no solution.
    SolveImpossible,
    /// A generated puzzle arrived while none was asked for; it is ignored.
    NoPendingGeneration,
}

} // verus!
