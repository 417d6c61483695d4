use vstd::prelude::*;

verus! {

/// Identity of one of the two players. It tracks whose turn is active and
/// serves as the perspective from which a position is scored.
#[derive(Copy, Clone, Debug, PartialEq, Eq, Structural)]
pub enum Player {
    One,
    Two,
}

impl Player {
    /// The opponent of this player.
    pub open spec fn flip(self) -> Player {
        match self {
            Player::One => Player::Two,
            Player::Two => Player::One,
        }
    }

    /// Negation: returns the other player.
    pub fn not(self) -> (other: Player)
        ensures
            other == self.flip(),
    {
        match self {
            Player::One => Player::Two,
            Player::Two => Player::One,
        }
    }

    /// Numbers the players: `One` is 1 and `Two` is 2.
    pub fn into(self) -> (n: usize)
        ensures
            self == Player::One ==> n == 1,
            self == Player::Two ==> n == 2,
    {
        match self {
            Player::One => 1,
            Player::Two => 2,
        }
    }
}

} // verus!
