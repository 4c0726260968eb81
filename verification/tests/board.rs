use array_board::board::ArrayBoard;
use array_board::board::Cell;
use array_board::board::GameState;
use array_board::board::HEIGHT;
use array_board::board::WIDTH;

#[test]
fn initial_state_all_cells_empty() {
    let b = ArrayBoard::new();
    for idx in 0..42 {
        assert!(b.cell_at_index(idx).is_empty());
    }
    assert!(b.player1);
    assert_eq!(b.state, GameState::Playing);
    assert_eq!(b.moves(), 0);
}

#[test]
fn placement_sets_cell_and_increments_counter() {
    for x in 0..WIDTH {
        for y in 0..HEIGHT {
            let mut b = ArrayBoard::new();
            b.set_player1(x, y);
            assert_eq!(b.cell_at(x, y), Cell::Player1);
            assert_eq!(b.moves(), 1);
            for idx in 0..42 {
                if idx != x + y * WIDTH {
                    assert_eq!(b.cell_at_index(idx), Cell::Empty);
                }
            }
        }
    }
}

#[test]
fn placement_works_for_both_players() {
    for x in 0..WIDTH {
        for y in 0..HEIGHT {
            let mut b = ArrayBoard::new();
            b.set_player2(x, y);
            assert_eq!(b.cell_at(x, y), Cell::Player2);
            assert_eq!(b.moves(), 1);
            for idx in 0..42 {
                if idx != x + y * WIDTH {
                    assert_eq!(b.cell_at_index(idx), Cell::Empty);
                }
            }
        }
    }
}

#[test]
fn overwrite_keeps_most_recent_occupant() {
    let mut b = ArrayBoard::new();
    b.set_player1(4, 2);
    b.set_player2(4, 2);
    assert_eq!(b.cell_at(4, 2), Cell::Player2);
    assert_eq!(b.moves(), 2);
    b.set_player1(4, 2);
    assert_eq!(b.cell_at(4, 2), Cell::Player1);
    assert_eq!(b.moves(), 3);
}

#[test]
fn placement_leaves_flag_and_state_alone() {
    let mut b = ArrayBoard::new();
    b.player1 = false;
    b.state = GameState::Draw;
    b.set_player1(0, 0);
    b.set_player2(6, 5);
    assert!(!b.player1);
    assert_eq!(b.state, GameState::Draw);
    assert_eq!(b.moves(), 2);
}

#[test]
fn index_mapping_is_a_bijection() {
    // Splitting an offset recovers the pair it came from.
    for idx in 0..42 {
        let x = idx % WIDTH;
        let y = idx / WIDTH;
        assert!(x < WIDTH && y < HEIGHT);
        assert_eq!(x + y * WIDTH, idx);
    }
    // Distinct in-bounds pairs give distinct offsets.
    let mut seen = [false; 42];
    for x in 0..WIDTH {
        for y in 0..HEIGHT {
            let idx = x + y * WIDTH;
            assert!(idx < 42);
            assert!(!seen[idx]);
            seen[idx] = true;
        }
    }
    assert!(seen.iter().all(|&s| s));
}

#[test]
fn scenario_three_placements_in_one_column() {
    let mut b = ArrayBoard::new();
    b.set_player1(3, 0);
    b.set_player2(3, 1);
    b.set_player1(3, 2);
    assert_eq!(b.cell_at_index(3), Cell::Player1);
    assert_eq!(b.cell_at_index(10), Cell::Player2);
    assert_eq!(b.cell_at_index(17), Cell::Player1);
    assert_eq!(b.moves(), 3);
    let mut empties: usize = 0;
    for idx in 0..42 {
        if b.cell_at_index(idx).is_empty() {
            empties += 1;
        }
    }
    assert_eq!(empties, 39);
}

#[test]
fn cell_is_empty_only_for_empty() {
    assert!(Cell::Empty.is_empty());
    assert!(!Cell::Player1.is_empty());
    assert!(!Cell::Player2.is_empty());
}
