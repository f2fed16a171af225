use tic_tac_toe::{Board, Game, GameError, TicTacSign, TicTacToe, BOARD_DIM};

fn play(g: &mut TicTacToe, moves: &[(usize, usize)]) {
    for &(c, r) in moves {
        assert_eq!(g.attempt_move(c, r), Ok(()));
    }
}

fn cells(b: &Board) -> Vec<TicTacSign> {
    let mut v = Vec::new();
    for c in 0..BOARD_DIM {
        for r in 0..BOARD_DIM {
            v.push(b.get(c, r).unwrap());
        }
    }
    v
}

#[test]
fn flip_swaps_players() {
    assert_eq!(TicTacSign::X.flip(), Ok(TicTacSign::O));
    assert_eq!(TicTacSign::O.flip(), Ok(TicTacSign::X));
    assert_eq!(TicTacSign::X.flip().unwrap().flip(), Ok(TicTacSign::X));
    assert_eq!(TicTacSign::O.flip().unwrap().flip(), Ok(TicTacSign::O));
}

#[test]
fn flip_empty_fails() {
    assert_eq!(TicTacSign::N.flip(), Err(GameError::InvalidOperation));
    let mut s = TicTacSign::N;
    assert_eq!(s.flip_return(), Err(GameError::InvalidOperation));
    assert_eq!(s, TicTacSign::N);
}

#[test]
fn flip_return_mutates() {
    let mut s = TicTacSign::O;
    assert_eq!(s.flip_return(), Ok(TicTacSign::X));
    assert_eq!(s, TicTacSign::X);
    assert!(s.is_x() && !s.is_o() && !s.is_n());
}

#[test]
fn new_board_is_empty_and_not_full() {
    let b = Board::new();
    assert!(cells(&b).iter().all(|s| *s == TicTacSign::N));
    assert!(!b.is_full());
}

#[test]
fn board_get_set_bounds() {
    let mut b = Board::new();
    assert_eq!(b.set(2, 1, TicTacSign::O), Ok(()));
    assert_eq!(b.get(2, 1), Ok(TicTacSign::O));
    assert_eq!(b.get(1, 2), Ok(TicTacSign::N));
    assert_eq!(b.get(3, 0), Err(GameError::OutOfBounds));
    assert_eq!(b.get(0, 3), Err(GameError::OutOfBounds));
    assert_eq!(b.set(0, 3, TicTacSign::X), Err(GameError::OutOfBounds));
}

#[test]
fn board_rows_and_columns() {
    let mut b = Board::new();
    b.set(0, 1, TicTacSign::X).unwrap();
    b.set(2, 1, TicTacSign::O).unwrap();
    b.set(1, 0, TicTacSign::O).unwrap();
    assert_eq!(b.row(1), Ok(vec![TicTacSign::X, TicTacSign::N, TicTacSign::O]));
    assert_eq!(b.column(1), Ok(vec![TicTacSign::O, TicTacSign::N, TicTacSign::N]));
    assert_eq!(b.row(3), Err(GameError::OutOfBounds));
    assert_eq!(b.column(3), Err(GameError::OutOfBounds));
}

#[test]
fn is_full_matches_cells() {
    let mut b = Board::new();
    for c in 0..BOARD_DIM {
        for r in 0..BOARD_DIM {
            assert!(!b.is_full());
            b.set(c, r, TicTacSign::X).unwrap();
        }
    }
    assert!(b.is_full());
    b.set(1, 1, TicTacSign::N).unwrap();
    assert!(!b.is_full());
    b.reset();
    assert!(cells(&b).iter().all(|s| *s == TicTacSign::N));
}

#[test]
fn reset_gives_fresh_game_and_x_moves_first() {
    let mut g = TicTacToe::new();
    play(&mut g, &[(0, 0), (1, 1)]);
    g.reset();
    assert_eq!(g.phase(), Game::Ongoing);
    assert!(!g.board().is_full());
    assert!(g.outcome().is_none());
    assert_eq!(g.next_player(), TicTacSign::X);
    assert_eq!(g.attempt_move(2, 2), Ok(()));
    assert_eq!(g.board().get(2, 2), Ok(TicTacSign::X));
}

#[test]
fn reset_twice_same_as_once() {
    let mut a = TicTacToe::new();
    play(&mut a, &[(0, 0), (1, 0), (1, 1)]);
    a.reset();
    let mut b = TicTacToe::new();
    play(&mut b, &[(2, 2)]);
    b.reset();
    b.reset();
    assert_eq!(a.phase(), b.phase());
    assert_eq!(a.player_turn(), b.player_turn());
    assert_eq!(cells(a.board()), cells(b.board()));
    assert!(a.outcome().is_none() && b.outcome().is_none());
}

#[test]
fn scenario_diagonal_win() {
    let mut g = TicTacToe::new();
    play(&mut g, &[(0, 0), (1, 0), (1, 1), (2, 0), (2, 2)]);
    assert_eq!(g.phase(), Game::Over);
    let w = g.outcome().as_ref().unwrap();
    assert_eq!(w.winner, TicTacSign::X);
    assert_eq!(w.strike, Some(vec![(0, 0), (1, 1), (2, 2)]));
}

#[test]
fn scenario_draw() {
    let mut g = TicTacToe::new();
    // X O X / X O O / O X X, by (col, row)
    play(
        &mut g,
        &[(0, 0), (1, 0), (2, 0), (1, 1), (0, 1), (2, 1), (1, 2), (0, 2), (2, 2)],
    );
    assert!(g.board().is_full());
    assert_eq!(g.phase(), Game::Over);
    let w = g.outcome().as_ref().unwrap();
    assert_eq!(w.winner, TicTacSign::N);
    assert_eq!(w.strike, None);
}

#[test]
fn scenario_occupied_cell_rejected() {
    let mut g = TicTacToe::new();
    play(&mut g, &[(1, 1)]);
    let before = cells(g.board());
    let turn = g.player_turn();
    assert_eq!(g.attempt_move(1, 1), Err(GameError::CellOccupied));
    assert_eq!(cells(g.board()), before);
    assert_eq!(g.player_turn(), turn);
    assert_eq!(g.phase(), Game::Ongoing);
}

#[test]
fn scenario_out_of_bounds_rejected() {
    let mut g = TicTacToe::new();
    play(&mut g, &[(0, 0)]);
    let before = cells(g.board());
    let turn = g.player_turn();
    assert_eq!(g.attempt_move(3, 0), Err(GameError::OutOfBounds));
    assert_eq!(g.attempt_move(0, 3), Err(GameError::OutOfBounds));
    assert_eq!(cells(g.board()), before);
    assert_eq!(g.player_turn(), turn);
    assert_eq!(g.phase(), Game::Ongoing);
}

#[test]
fn scenario_move_after_game_over_rejected() {
    let mut g = TicTacToe::new();
    play(&mut g, &[(0, 0), (1, 0), (1, 1), (2, 0), (2, 2)]);
    let before = cells(g.board());
    assert_eq!(g.attempt_move(0, 1), Err(GameError::GameOver));
    assert_eq!(g.attempt_move(3, 3), Err(GameError::GameOver));
    assert_eq!(cells(g.board()), before);
    let w = g.outcome().as_ref().unwrap();
    assert_eq!(w.winner, TicTacSign::X);
    assert_eq!(w.strike, Some(vec![(0, 0), (1, 1), (2, 2)]));
}

#[test]
fn scenario_row_precedes_column() {
    let mut b = Board::new();
    for &(c, r) in &[(1, 0), (2, 0), (0, 1), (0, 2), (0, 0)] {
        b.set(c, r, TicTacSign::X).unwrap();
    }
    let w = b.which_player_won(0, 0);
    assert_eq!(w.winner, TicTacSign::X);
    assert_eq!(w.strike, Some(vec![(0, 0), (1, 0), (2, 0)]));
}

#[test]
fn winning_last_move_on_full_board_is_a_win() {
    let mut g = TicTacToe::new();
    play(
        &mut g,
        &[(1, 0), (1, 1), (2, 0), (1, 2), (0, 1), (2, 1), (0, 2), (2, 2), (0, 0)],
    );
    assert!(g.board().is_full());
    assert_eq!(g.phase(), Game::Over);
    let w = g.outcome().as_ref().unwrap();
    assert_eq!(w.winner, TicTacSign::X);
    assert_eq!(w.strike, Some(vec![(0, 0), (1, 0), (2, 0)]));
}

#[test]
fn column_and_anti_diagonal_wins() {
    let mut b = Board::new();
    for r in 0..BOARD_DIM {
        b.set(2, r, TicTacSign::O).unwrap();
    }
    let w = b.which_player_won(2, 1);
    assert_eq!(w.winner, TicTacSign::O);
    assert_eq!(w.strike, Some(vec![(2, 0), (2, 1), (2, 2)]));

    let mut b = Board::new();
    for &(c, r) in &[(2, 0), (1, 1), (0, 2)] {
        b.set(c, r, TicTacSign::X).unwrap();
    }
    let w = b.which_player_won(1, 1);
    assert_eq!(w.winner, TicTacSign::X);
    assert_eq!(w.strike, Some(vec![(2, 0), (1, 1), (0, 2)]));
    let w = b.which_player_won(2, 0);
    assert_eq!(w.strike, Some(vec![(2, 0), (1, 1), (0, 2)]));
}

#[test]
fn no_line_no_winner() {
    let mut b = Board::new();
    b.set(0, 0, TicTacSign::X).unwrap();
    b.set(1, 0, TicTacSign::X).unwrap();
    let w = b.which_player_won(1, 0);
    assert_eq!(w.winner, TicTacSign::N);
    assert_eq!(w.strike, None);
}

#[test]
fn turns_alternate() {
    let mut g = TicTacToe::new();
    assert_eq!(g.player_turn(), TicTacSign::O);
    play(&mut g, &[(0, 0)]);
    assert_eq!(g.player_turn(), TicTacSign::X);
    assert_eq!(g.next_player(), TicTacSign::O);
    play(&mut g, &[(1, 1)]);
    assert_eq!(g.board().get(1, 1), Ok(TicTacSign::O));
    assert_eq!(g.next_player(), TicTacSign::X);
    assert!(g.phase().is_ongoing() && !g.phase().is_over());
}
