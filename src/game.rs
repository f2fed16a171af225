//! The game: whose turn it is, whether play goes on, and the single entry
//! point through which moves are made.
use crate::board::{
    cell, cell_index, full, in_bounds, num_cells, strike_of, strike_view, winner_of, Board,
    TicTacWin,
};
use crate::sign::{flipped, GameError, TicTacSign};
use vstd::prelude::*;

verus! {

/// Whether moves are still taken.
#[derive(Clone, Copy, Debug, PartialEq, Eq, Structural)]
pub enum Game {
    Ongoing,
    Over,
}

impl Game {
    pub fn is_over(self) -> (r: bool)
        ensures
            r == (self == Game::Over),
    {
        matches!(self, Game::Over)
    }

    pub fn is_ongoing(self) -> (r: bool)
        ensures
            r == (self == Game::Ongoing),
    {
        matches!(self, Game::Ongoing)
    }
}

/// The model of a game.
pub struct GameView {
    pub phase: Game,
    /// The evaluation of the last accepted move: winner (empty if none) and strike line.
    pub outcome: Option<(TicTacSign, Option<Seq<(usize, usize)>>)>,
    pub cells: Seq<TicTacSign>,
    /// The mark of the player who moved last; the next move is made with the other one.
    pub turn: TicTacSign,
}

pub open spec fn win_view(w: TicTacWin) -> (TicTacSign, Option<Seq<(usize, usize)>>) {
    (w.winner, strike_view(w.strike))
}

pub open spec fn outcome_view(o: Option<TicTacWin>) -> Option<
    (TicTacSign, Option<Seq<(usize, usize)>>),
> {
    match o {
        Some(w) => Some(win_view(w)),
        None => None,
    }
}

/// A move has produced a winner.
pub open spec fn has_winner(v: GameView) -> bool {
    match v.outcome {
        Some((w, _)) => w != TicTacSign::N,
        None => false,
    }
}

/// The game is over exactly when someone has won or no cell is left.
pub open spec fn view_wf(v: GameView) -> bool {
    &&& v.cells.len() == num_cells()
    &&& v.turn != TicTacSign::N
    &&& (v.phase == Game::Over <==> (has_winner(v) || full(v.cells)))
}

/// A fresh game: an empty board, play going on, no outcome, and `O` as the last
/// mover so that `X` moves first.
pub open spec fn initial_view() -> GameView {
    GameView {
        phase: Game::Ongoing,
        outcome: None,
        cells: Seq::new(num_cells() as nat, |i: int| TicTacSign::N),
        turn: TicTacSign::O,
    }
}

/// What a reset makes of any game.
pub open spec fn after_reset(v: GameView) -> GameView {
    initial_view()
}

/// Why a move at `(col, row)` is refused, checked in this order; `None` if it is taken.
pub open spec fn move_error(v: GameView, col: int, row: int) -> Option<GameError> {
    if v.phase == Game::Over {
        Some(GameError::GameOver)
    } else if !in_bounds(col, row) {
        Some(GameError::OutOfBounds)
    } else if cell(v.cells, col, row) != TicTacSign::N {
        Some(GameError::CellOccupied)
    } else {
        None
    }
}

/// The game after a move at `(col, row)` is taken: the turn passes, the cell takes
/// the mover's mark, the move is evaluated, and the game ends on a win or a full board.
pub open spec fn after_move(v: GameView, col: int, row: int) -> GameView {
    let mover = flipped(v.turn);
    let cells = v.cells.update(cell_index(col, row), mover);
    let w = winner_of(cells, col, row);
    GameView {
        phase: if w != TicTacSign::N || full(cells) {
            Game::Over
        } else {
            Game::Ongoing
        },
        outcome: Some((w, strike_of(cells, col, row))),
        cells,
        turn: mover,
    }
}

/// A game of tic-tac-toe on a `BOARD_DIM` by `BOARD_DIM` board.
pub struct TicTacToe {
    game: Game,
    tic_tac_win: Option<TicTacWin>,
    board: Board,
    player_turn: TicTacSign,
}

impl View for TicTacToe {
    type V = GameView;

    closed spec fn view(&self) -> GameView {
        GameView {
            phase: self.game,
            outcome: outcome_view(self.tic_tac_win),
            cells: self.board@,
            turn: self.player_turn,
        }
    }
}

impl TicTacToe {
    pub closed spec fn wf(&self) -> bool {
        self.board.wf() && view_wf(self@)
    }

    pub fn new() -> (g: TicTacToe)
        ensures
            g.wf(),
            g@ == initial_view(),
    {
        let g = TicTacToe {
            game: Game::Ongoing,
            tic_tac_win: None,
            board: Board::new(),
            player_turn: TicTacSign::O,
        };
        proof {
            assert(!full(g.board@)) by {
                assert(g.board@[0] == TicTacSign::N);
            }
        }
        g
    }

    /// Plays the next player's mark at `(col, row)`. Refused, with nothing changed,
    /// once the game is over, outside the board, or on a cell that holds a mark.
    pub fn attempt_move(&mut self, col: usize, row: usize) -> (r: Result<(), GameError>)
        requires
            old(self).wf(),
        ensures
            final(self).wf(),
            match move_error(old(self)@, col as int, row as int) {
                Some(e) => r == Err::<(), GameError>(e) && final(self)@ == old(self)@,
                None => r == Ok::<(), GameError>(()) && final(self)@ == after_move(
                    old(self)@,
                    col as int,
                    row as int,
                ),
            },
    {
        if self.game.is_over() {
            return Err(GameError::GameOver);
        }
        let current = match self.board.get(col, row) {
            Ok(s) => s,
            Err(e) => return Err(e),
        };
        if !current.is_n() {
            return Err(GameError::CellOccupied);
        }
        let mover = match self.player_turn.flip_return() {
            Ok(s) => s,
            Err(e) => return Err(e),
        };
        match self.board.set(col, row, mover) {
            Ok(()) => {},
            Err(e) => return Err(e),
        }
        let outcome = self.board.which_player_won(col, row);
        if outcome.winner != TicTacSign::N || self.board.is_full() {
            self.game = Game::Over;
        }
        self.tic_tac_win = Some(outcome);
        Ok(())
    }

    /// Starts over: an empty board, play going on, no outcome, and `X` to move.
    pub fn reset(&mut self)
        requires
            old(self).wf(),
        ensures
            final(self).wf(),
            final(self)@ == after_reset(old(self)@),
    {
        self.board.reset();
        self.game = Game::Ongoing;
        self.tic_tac_win = None;
        self.player_turn = TicTacSign::O;
        proof {
            assert(!full(self.board@)) by {
                assert(self.board@[0] == TicTacSign::N);
            }
            assert(self@.cells =~= initial_view().cells);
        }
    }

    pub fn phase(&self) -> (r: Game)
        ensures
            r == self@.phase,
    {
        self.game
    }

    pub fn board(&self) -> (r: &Board)
        requires
            self.wf(),
        ensures
            r.wf(),
            r@ == self@.cells,
    {
        &self.board
    }

    /// The evaluation of the last accepted move, if any since the last reset.
    pub fn outcome(&self) -> (r: &Option<TicTacWin>)
        ensures
            outcome_view(*r) == self@.outcome,
    {
        &self.tic_tac_win
    }

    /// The mark of the player who moved last (`O` before the first move).
    pub fn player_turn(&self) -> (r: TicTacSign)
        ensures
            r == self@.turn,
    {
        self.player_turn
    }

    /// The mark that the next move will place.
    pub fn next_player(&self) -> (r: TicTacSign)
        requires
            self.wf(),
        ensures
            r == flipped(self@.turn),
            r != TicTacSign::N,
    {
        match self.player_turn {
            TicTacSign::X => TicTacSign::O,
            _ => TicTacSign::X,
        }
    }
}

/// After a reset the board is not full, play goes on, and a move at any cell of the
/// board is taken and places `X`.
pub proof fn lemma_reset_then_x_moves(v: GameView, col: int, row: int)
    requires
        in_bounds(col, row),
    ensures
        !full(after_reset(v).cells),
        after_reset(v).phase == Game::Ongoing,
        move_error(after_reset(v), col, row) is None,
        cell(after_move(after_reset(v), col, row).cells, col, row) == TicTacSign::X,
{
    let s = after_reset(v);
    assert(s.cells[0] == TicTacSign::N);
    assert(0 <= cell_index(col, row) < s.cells.len());
}

/// Resetting twice leaves the game as resetting once does.
pub proof fn lemma_reset_idempotent(v: GameView)
    ensures
        after_reset(after_reset(v)) == after_reset(v),
{
}

} // verus!
