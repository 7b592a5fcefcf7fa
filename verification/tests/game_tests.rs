use tictactoe::game::CellState;
use tictactoe::game::GameState;
use tictactoe::game::Outcome;

fn board_with_marks(marks: &[(CellState, usize)]) -> GameState {
    let mut g = GameState::new();
    for &(m, i) in marks {
        g.place(m, i);
    }
    g
}

#[test]
fn new_game_is_empty_and_x_moves_first() {
    let g = GameState::new();
    for i in 0..9 {
        assert_eq!(g.cells[i], None);
    }
    assert_eq!(g.current_player, CellState::X);
    assert_eq!(g.evaluate_outcome(), Outcome::InProgress);
    assert_eq!(g.get_winner(), None);
    assert!(!g.is_draw());
}

#[test]
fn winner_found_on_each_of_the_eight_lines() {
    let lines: [(usize, usize, usize); 8] = [
        (0, 1, 2),
        (3, 4, 5),
        (6, 7, 8),
        (0, 3, 6),
        (1, 4, 7),
        (2, 5, 8),
        (0, 4, 8),
        (2, 4, 6),
    ];
    for &(a, b, c) in &lines {
        let g = board_with_marks(&[
            (CellState::X, a),
            (CellState::X, b),
            (CellState::X, c),
        ]);
        assert_eq!(g.get_winner(), Some((CellState::X, a, c)));
        assert_eq!(g.evaluate_outcome(), Outcome::Win(CellState::X, a, c));
    }
}

#[test]
fn winner_reports_o_marks_too() {
    let g = board_with_marks(&[
        (CellState::O, 2),
        (CellState::O, 5),
        (CellState::O, 8),
    ]);
    assert_eq!(g.get_winner(), Some((CellState::O, 2, 8)));
}

#[test]
fn first_complete_line_in_scan_order_wins() {
    // Rows 0 and 1 are both complete; the scan must report row 0.
    let g = board_with_marks(&[
        (CellState::X, 0),
        (CellState::X, 1),
        (CellState::X, 2),
        (CellState::X, 3),
        (CellState::X, 4),
        (CellState::X, 5),
    ]);
    assert_eq!(g.get_winner(), Some((CellState::X, 0, 2)));
}

#[test]
fn diagonal_beats_later_antidiagonal_in_scan_order() {
    // Both diagonals complete around a shared center; the scan order puts
    // the main diagonal (0, 4, 8) first.
    let g = board_with_marks(&[
        (CellState::X, 0),
        (CellState::X, 2),
        (CellState::X, 4),
        (CellState::X, 6),
        (CellState::X, 8),
    ]);
    assert_eq!(g.get_winner(), Some((CellState::X, 0, 8)));
}

#[test]
fn full_board_without_line_is_a_draw() {
    // X O X / X X O / O X O: no row, column or diagonal is uniform.
    let g = board_with_marks(&[
        (CellState::X, 0),
        (CellState::O, 1),
        (CellState::X, 2),
        (CellState::X, 3),
        (CellState::X, 4),
        (CellState::O, 5),
        (CellState::O, 6),
        (CellState::X, 7),
        (CellState::O, 8),
    ]);
    assert!(g.is_draw());
    assert_eq!(g.get_winner(), None);
    assert_eq!(g.evaluate_outcome(), Outcome::Draw);
}

#[test]
fn win_takes_priority_over_full_board() {
    // A full board whose last row is uniform is a win, not a draw.
    let g = board_with_marks(&[
        (CellState::X, 0),
        (CellState::O, 1),
        (CellState::X, 2),
        (CellState::O, 3),
        (CellState::X, 4),
        (CellState::O, 5),
        (CellState::X, 6),
        (CellState::X, 7),
        (CellState::X, 8),
    ]);
    assert!(g.is_draw());
    assert_eq!(g.evaluate_outcome(), Outcome::Win(CellState::X, 6, 8));
}

#[test]
fn partially_filled_board_is_not_a_draw() {
    let g = board_with_marks(&[(CellState::X, 0), (CellState::O, 4)]);
    assert!(!g.is_draw());
    assert_eq!(g.evaluate_outcome(), Outcome::InProgress);
}

#[test]
fn placement_toggles_turn_once() {
    let mut g = GameState::new();
    g.place(g.current_player, 0);
    assert_eq!(g.cells[0], Some(CellState::X));
    assert_eq!(g.current_player, CellState::O);
    g.place(g.current_player, 4);
    assert_eq!(g.cells[4], Some(CellState::O));
    assert_eq!(g.current_player, CellState::X);
}

#[test]
fn placement_on_occupied_cell_is_a_silent_noop() {
    let mut g = GameState::new();
    g.place(CellState::X, 0);
    g.place(CellState::O, 0);
    assert_eq!(g.cells[0], Some(CellState::X));
    assert_eq!(g.current_player, CellState::O);
    g.place(CellState::O, 0);
    g.place(CellState::O, 0);
    assert_eq!(g.cells[0], Some(CellState::X));
    assert_eq!(g.current_player, CellState::O);
}

#[test]
fn reset_clears_cells_and_restores_first_turn() {
    let mut g = board_with_marks(&[
        (CellState::X, 0),
        (CellState::O, 1),
        (CellState::X, 8),
    ]);
    assert_eq!(g.current_player, CellState::O);
    g.reset();
    for i in 0..9 {
        assert_eq!(g.cells[i], None);
    }
    assert_eq!(g.current_player, CellState::X);
}

#[test]
fn switch_alternates_between_the_two_marks() {
    let mut m = CellState::X;
    m.switch();
    assert_eq!(m, CellState::O);
    m.switch();
    assert_eq!(m, CellState::X);
}
