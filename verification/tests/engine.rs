use tictactoe::board::{Board, Cell};
use tictactoe::game::{GameState, GameStatus, MoveError, Player, position_from_input};

fn count(b: &Board, t: Cell) -> usize {
    b.cells.iter().filter(|&&c| c == t).count()
}

fn play_1based(g: &mut GameState, inputs: &[usize]) {
    for &n in inputs {
        let pos = position_from_input(n).expect("input in 1..=9");
        g.apply_move(pos).expect("legal move");
    }
}

#[test]
fn fresh_game_state() {
    let g = GameState::new();
    assert_eq!(g.status, GameStatus::InProgress);
    assert_eq!(g.current_player, Player::O);
    assert!(g.board.cells.iter().all(|&c| c == Cell::Empty));
    assert!(!g.board.is_full());
}

#[test]
fn position_mapping_bounds() {
    assert_eq!(position_from_input(1), Some(0));
    assert_eq!(position_from_input(2), Some(1));
    assert_eq!(position_from_input(9), Some(8));
    assert_eq!(position_from_input(0), None);
    assert_eq!(position_from_input(10), None);
    assert_eq!(position_from_input(usize::MAX), None);
}

#[test]
fn first_move_places_mark_at_top_left() {
    let mut g = GameState::new();
    assert_eq!(g.apply_move(0), Ok(()));
    assert_eq!(g.board.cells[0], Cell::O);
    assert_eq!(g.board.render(), " O  .  . \n .  .  . \n .  .  . \n");
}

#[test]
fn last_position_maps_to_bottom_right() {
    let mut g = GameState::new();
    assert_eq!(g.apply_move(8), Ok(()));
    assert_eq!(g.board.cells[8], Cell::O);
    assert_eq!(g.board.render(), " .  .  . \n .  .  . \n .  .  O \n");
}

#[test]
fn out_of_range_rejected() {
    let mut g = GameState::new();
    let r = g.apply_move(9);
    assert_eq!(r, Err(MoveError::OutOfRange));
    assert_eq!(MoveError::OutOfRange.message(), "Invalid board position.");
    assert_eq!(g.apply_move(usize::MAX), Err(MoveError::OutOfRange));
    assert_eq!(g.current_player, Player::O);
    assert!(g.board.cells.iter().all(|&c| c == Cell::Empty));
}

#[test]
fn occupied_rejected() {
    // O takes the top-left cell; X tries the same cell and is rejected,
    // then plays the next cell, which is accepted.
    let mut g = GameState::new();
    assert_eq!(g.apply_move(0), Ok(()));
    assert_eq!(g.current_player, Player::X);
    let r = g.apply_move(0);
    assert_eq!(r, Err(MoveError::Occupied));
    assert_eq!(MoveError::Occupied.message(), "Cell already occupied.");
    assert_eq!(g.current_player, Player::X);
    assert_eq!(count(&g.board, Cell::O), 1);
    assert_eq!(g.board.cells[0], Cell::O);
    assert_eq!(count(&g.board, Cell::X), 0);
    assert_eq!(g.apply_move(1), Ok(()));
    assert_eq!(g.board.cells[1], Cell::X);
}

#[test]
fn rejection_is_no_op() {
    let mut g = GameState::new();
    g.apply_move(4).unwrap();
    let board_before = g.board;
    let player_before = g.current_player;
    let status_before = g.status;
    assert!(g.apply_move(4).is_err());
    assert!(g.apply_move(9).is_err());
    assert_eq!(g.board, board_before);
    assert_eq!(g.current_player, player_before);
    assert_eq!(g.status, status_before);
}

#[test]
fn cell_monotonicity() {
    let mut g = GameState::new();
    let mut previous = g.board;
    for pos in [0usize, 1, 2, 3, 6, 5, 8, 7, 4] {
        g.apply_move(pos).unwrap();
        for i in 0..9 {
            if previous.cells[i] != Cell::Empty {
                assert_eq!(g.board.cells[i], previous.cells[i]);
            }
        }
        previous = g.board;
    }
}

#[test]
fn mark_counts_balanced() {
    let mut g = GameState::new();
    for pos in [0usize, 1, 2, 3, 6, 5, 8, 7, 4] {
        g.apply_move(pos).unwrap();
        let o = count(&g.board, Cell::O) as i64;
        let x = count(&g.board, Cell::X) as i64;
        assert!(o - x == 0 || o - x == 1);
    }
}

#[test]
fn turn_alternation() {
    let mut g = GameState::new();
    assert_eq!(g.current_player, Player::O);
    g.apply_move(0).unwrap();
    assert_eq!(g.current_player, Player::X);
    g.apply_move(4).unwrap();
    assert_eq!(g.current_player, Player::O);
    assert_eq!(Player::O.other(), Player::X);
    assert_eq!(Player::X.other(), Player::O);
}

#[test]
fn row_win_for_o() {
    let mut g = GameState::new();
    play_1based(&mut g, &[1, 4, 2, 5]);
    assert_eq!(g.status, GameStatus::InProgress);
    play_1based(&mut g, &[3]);
    assert_eq!(g.status, GameStatus::Won(Player::O));
    assert_eq!(g.current_player, Player::O);
    assert_eq!(g.board.render(), " O  O  O \n X  X  . \n .  .  . \n");
}

#[test]
fn column_win_for_x() {
    // X collects the left column while O stays off its own lines.
    let mut g = GameState::new();
    play_1based(&mut g, &[2, 1, 3, 4, 6]);
    assert_eq!(g.status, GameStatus::InProgress);
    play_1based(&mut g, &[7]);
    assert_eq!(g.status, GameStatus::Won(Player::X));
    assert!(g.check_win(Player::X));
    assert!(!g.check_win(Player::O));
}

#[test]
fn early_line_ends_game() {
    // O's marks at inputs 5, 2, 8 complete the middle column on the fifth
    // move, so the game ends there and the sixth move is rejected.
    let mut g = GameState::new();
    play_1based(&mut g, &[5, 1, 2, 4, 8]);
    assert_eq!(g.status, GameStatus::Won(Player::O));
    let pos = position_from_input(7).unwrap();
    assert_eq!(g.apply_move(pos), Err(MoveError::GameOver));
}

#[test]
fn diagonal_win_for_o() {
    let mut g = GameState::new();
    play_1based(&mut g, &[1, 2, 5, 3]);
    assert_eq!(g.status, GameStatus::InProgress);
    play_1based(&mut g, &[9]);
    assert_eq!(g.status, GameStatus::Won(Player::O));
    assert!(g.check_win(Player::O));
    assert!(!g.check_win(Player::X));
}

#[test]
fn draw_game() {
    let mut g = GameState::new();
    play_1based(&mut g, &[1, 2, 3, 5, 8, 4, 6, 9]);
    assert_eq!(g.status, GameStatus::InProgress);
    play_1based(&mut g, &[7]);
    assert_eq!(g.status, GameStatus::Draw);
    assert!(g.board.is_full());
    assert!(!g.check_win(Player::X));
    assert!(!g.check_win(Player::O));
}

#[test]
fn ninth_move_win_beats_draw() {
    // The ninth move both fills the board and completes both diagonals for
    // O: the result is a win, not a draw.
    let mut g = GameState::new();
    for pos in [0usize, 1, 2, 3, 6, 5, 8, 7] {
        g.apply_move(pos).unwrap();
        assert_eq!(g.status, GameStatus::InProgress);
    }
    g.apply_move(4).unwrap();
    assert!(g.board.is_full());
    assert_eq!(g.status, GameStatus::Won(Player::O));
}

#[test]
fn post_termination_rejection() {
    let mut g = GameState::new();
    play_1based(&mut g, &[1, 4, 2, 5, 3]);
    assert_eq!(g.status, GameStatus::Won(Player::O));
    let board_before = g.board;
    for pos in [0usize, 5, 8, 9, 100] {
        let r = g.apply_move(pos);
        assert_eq!(r, Err(MoveError::GameOver));
    }
    assert_eq!(MoveError::GameOver.message(), "Game is already over.");
    assert_eq!(g.board, board_before);
    assert_eq!(g.status, GameStatus::Won(Player::O));
}

#[test]
fn win_exclusivity_in_finished_games() {
    let mut g = GameState::new();
    play_1based(&mut g, &[1, 4, 2, 5, 3]);
    assert!(g.check_win(Player::O));
    assert!(!g.check_win(Player::X));

    let mut h = GameState::new();
    play_1based(&mut h, &[2, 1, 3, 4, 6, 7]);
    assert!(h.check_win(Player::X));
    assert!(!h.check_win(Player::O));
}
