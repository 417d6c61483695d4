use vstd::prelude::*;

use crate::player::Player;

verus! {

/// The contract a concrete game must implement for the search engine to
/// explore it. The four spec functions form the mathematical model of a
/// position — whose turn it is, which moves are legal, how the position is
/// scored, and which position a move leads to — and the executable methods
/// are each pinned to that model.
///
/// The spec functions default to an unspecified model, so a game written
/// outside Verus can implement just the five executable methods; nothing is
/// then known about that game, but the engine still runs on it. A verified
/// game overrides the model and proves its methods against it.
pub trait GameState: Sized {
    /// A game-defined move value. The engine never inspects its structure;
    /// it only passes moves back to the game that produced them.
    type Move;

    /// Which player is to move in this position.
    open spec fn turn(&self) -> Player {
        arbitrary()
    }

    /// The legal moves of this position, in the game's enumeration order.
    /// The order is significant: the engine breaks ties between equally
    /// scored moves in favour of the earlier one. An empty sequence marks a
    /// terminal position, one whose outcome is already decided.
    open spec fn moves(&self) -> Seq<Self::Move> {
        arbitrary()
    }

    /// The score of this very position from `player`'s point of view:
    /// strictly positive when `player` has already won, strictly negative
    /// when `player` has already lost, and neutral (commonly zero) for a
    /// drawn or still undecided position.
    open spec fn score(&self, player: Player) -> int {
        arbitrary()
    }

    /// The position reached from this one by playing `mov`.
    open spec fn play(self, mov: Self::Move) -> Self {
        arbitrary()
    }

    /// Returns which player is to move.
    fn next_player(&self) -> (p: Player)
        ensures
            p == self.turn(),
    ;

    /// Returns an independent copy of this position, so that one branch of
    /// the search tree can be explored without disturbing its siblings.
    fn clone_state(&self) -> (s: Self)
        ensures
            s == *self,
    ;

    /// Plays `mov` on this position in place, advancing whose turn is next.
    /// The move must be one produced by move enumeration on this position.
    fn apply_move(&mut self, mov: &Self::Move)
        requires
            old(self).moves().contains(*mov),
        ensures
            *final(self) == (*old(self)).play(*mov),
    ;

    /// Returns the legal moves of this position, in enumeration order.
    fn legal_moves(&self) -> (moves: Vec<Self::Move>)
        ensures
            moves@ == self.moves(),
    ;

    /// Returns the static evaluation of this position from `player`'s point
    /// of view.
    fn eval_score(&self, player: Player) -> (score: i32)
        ensures
            score as int == self.score(player),
    ;

    /// True iff the position has at least one legal move, i.e. is not
    /// terminal.
    fn can_move(&self) -> (c: bool)
        ensures
            c == (self.moves().len() > 0),
    {
        let moves = self.legal_moves();
        moves.len() > 0
    }
}

} // verus!
