use vstd::prelude::*;

verus! {

/// What a cell of the board holds: a mark of either player, or nothing.
#[derive(Clone, Copy, Debug, PartialEq, Eq, Structural)]
pub enum TicTacSign {
    X,
    O,
    /// An empty cell.
    N,
}

/// Why an operation on a sign, a board or a game was refused.
#[derive(Clone, Copy, Debug, PartialEq, Eq, Structural)]
pub enum GameError {
    /// A column or row outside `[0, BOARD_DIM)`.
    OutOfBounds,
    /// A move on a cell that already holds a mark.
    CellOccupied,
    /// `flip` on an empty sign.
    InvalidOperation,
    /// A move after the game has ended.
    GameOver,
}

/// The other player's mark; the empty sign has no other player and stays as it is.
pub open spec fn flipped(s: TicTacSign) -> TicTacSign {
    match s {
        TicTacSign::X => TicTacSign::O,
        TicTacSign::O => TicTacSign::X,
        TicTacSign::N => TicTacSign::N,
    }
}

impl TicTacSign {
    /// The other player's mark; an error on the empty sign.
    pub fn flip(self) -> (r: Result<TicTacSign, GameError>)
        ensures
            self == TicTacSign::N ==> r == Err::<TicTacSign, GameError>(GameError::InvalidOperation),
            self != TicTacSign::N ==> r == Ok::<TicTacSign, GameError>(flipped(self)),
    {
        match self {
            TicTacSign::X => Ok(TicTacSign::O),
            TicTacSign::O => Ok(TicTacSign::X),
            TicTacSign::N => Err(GameError::InvalidOperation),
        }
    }

    /// Turns a player's mark into the other player's and returns the new value;
    /// the empty sign is refused and left as it is.
    pub fn flip_return(&mut self) -> (r: Result<TicTacSign, GameError>)
        ensures
            *old(self) == TicTacSign::N ==> r == Err::<TicTacSign, GameError>(
                GameError::InvalidOperation,
            ) && *final(self) == *old(self),
            *old(self) != TicTacSign::N ==> r == Ok::<TicTacSign, GameError>(flipped(*old(self)))
                && *final(self) == flipped(*old(self)),
    {
        match self.flip() {
            Ok(s) => {
                *self = s;
                Ok(s)
            },
            Err(e) => Err(e),
        }
    }

    pub fn is_x(self) -> (r: bool)
        ensures
            r == (self == TicTacSign::X),
    {
        matches!(self, TicTacSign::X)
    }

    pub fn is_o(self) -> (r: bool)
        ensures
            r == (self == TicTacSign::O),
    {
        matches!(self, TicTacSign::O)
    }

    pub fn is_n(self) -> (r: bool)
        ensures
            r == (self == TicTacSign::N),
    {
        matches!(self, TicTacSign::N)
    }
}

/// Flipping a player's mark twice gives the mark back, and the empty sign
/// cannot be flipped at all.
pub proof fn lemma_flip_involutive(s: TicTacSign)
    ensures
        s != TicTacSign::N ==> flipped(s) != TicTacSign::N && flipped(flipped(s)) == s,
        s == TicTacSign::N ==> flipped(s) == TicTacSign::N,
{
}

} // verus!
