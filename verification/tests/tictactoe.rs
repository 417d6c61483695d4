use turk::{minimax, GameState, Player, Solve};

#[derive(Clone, Debug, PartialEq, Eq)]
struct TicTacToe {
    cells: [Option<Player>; 9],
    turn: Player,
}

impl TicTacToe {
    fn empty() -> TicTacToe {
        TicTacToe { cells: [None; 9], turn: Player::One }
    }

    fn from_cells(ones: &[usize], twos: &[usize], turn: Player) -> TicTacToe {
        let mut board = TicTacToe::empty();
        for &i in ones {
            board.cells[i] = Some(Player::One);
        }
        for &i in twos {
            board.cells[i] = Some(Player::Two);
        }
        board.turn = turn;
        board
    }

    fn lines() -> [[usize; 3]; 8] {
        [
            [0, 1, 2],
            [3, 4, 5],
            [6, 7, 8],
            [0, 3, 6],
            [1, 4, 7],
            [2, 5, 8],
            [0, 4, 8],
            [2, 4, 6],
        ]
    }

    fn winner(&self) -> Option<Player> {
        for line in TicTacToe::lines() {
            if let Some(p) = self.cells[line[0]] {
                if self.cells[line[1]] == Some(p) && self.cells[line[2]] == Some(p) {
                    return Some(p);
                }
            }
        }
        None
    }
}

impl GameState for TicTacToe {
    type Move = usize;

    fn next_player(&self) -> Player {
        self.turn
    }

    fn clone_state(&self) -> TicTacToe {
        self.clone()
    }

    fn apply_move(&mut self, mov: &usize) {
        self.cells[*mov] = Some(self.turn);
        self.turn = self.turn.not();
    }

    fn legal_moves(&self) -> Vec<usize> {
        let mut moves: Vec<usize> = Vec::new();
        if self.winner().is_none() {
            for i in 0..9usize {
                if self.cells[i].is_none() {
                    moves.push(i);
                }
            }
        }
        moves
    }

    fn eval_score(&self, player: Player) -> i32 {
        match self.winner() {
            Some(w) => {
                if w == player {
                    1
                } else {
                    -1
                }
            }
            None => 0,
        }
    }
}

#[test]
fn terminal_position_returns_static_eval_and_no_move() {
    // Player One has completed the top row; no legal moves remain.
    let won = TicTacToe::from_cells(&[0, 1, 2], &[3, 4], Player::Two);
    assert!(!won.can_move());
    assert_eq!(minimax(&won, Player::One, 0), (1, None));
    assert_eq!(minimax(&won, Player::One, 1), (1, None));
    assert_eq!(minimax(&won, Player::One, 7), (1, None));
    assert_eq!(minimax(&won, Player::Two, 0), (-1, None));
    assert_eq!(minimax(&won, Player::Two, 5), (-1, None));
    assert_eq!(won.solve(3), None);

    // A full board with no winner: a draw, also terminal.
    let drawn = TicTacToe::from_cells(&[0, 2, 3, 7, 8], &[1, 4, 5, 6], Player::Two);
    assert_eq!(drawn.winner(), None);
    assert!(!drawn.can_move());
    assert_eq!(minimax(&drawn, Player::One, 4), (0, None));
    assert_eq!(minimax(&drawn, Player::Two, 4), (0, None));
    assert_eq!(drawn.solve(4), None);
}

#[test]
fn depth_zero_returns_static_eval_without_expanding() {
    // A mid-game, clearly non-terminal position.
    let board = TicTacToe::from_cells(&[0, 4], &[1], Player::Two);
    assert!(board.can_move());
    assert_eq!(minimax(&board, Player::One, 0), (0, None));
    assert_eq!(minimax(&board, Player::Two, 0), (0, None));
    assert_eq!(board.solve(0), None);
}

#[test]
fn repeated_solves_are_identical() {
    let board = TicTacToe::from_cells(&[0], &[4], Player::One);
    let first = minimax(&board, Player::One, 5);
    let second = minimax(&board, Player::One, 5);
    assert_eq!(first, second);
    assert_eq!(board.solve(5), board.solve(5));
    assert_eq!(board.solve(5), first.1);
}

#[test]
fn equal_scores_keep_first_enumerated_move() {
    // At depth 1 from the empty board every move scores 0, so the first
    // enumerated cell must be kept.
    let empty = TicTacToe::empty();
    assert_eq!(minimax(&empty, Player::One, 1), (0, Some(0)));

    // Two winning completions exist, at cells 2 and 6; cell 2 is enumerated
    // first among the equally winning moves and must be chosen.
    let two_wins = TicTacToe::from_cells(&[0, 1, 3], &[4, 8], Player::One);
    assert_eq!(minimax(&two_wins, Player::One, 1), (1, Some(2)));
}

#[test]
fn completes_open_row_for_immediate_win() {
    // Player One holds two cells of the top row; the third is empty.
    let board = TicTacToe::from_cells(&[0, 1], &[3, 4], Player::One);
    assert_eq!(minimax(&board, Player::One, 1), (1, Some(2)));
    assert_eq!(minimax(&board, Player::One, 5), (1, Some(2)));
    assert_eq!(board.solve(1), Some(2));
}

#[test]
fn blocks_opponent_threat() {
    // Player Two threatens to complete the top row at cell 2; Player One
    // has no win of their own and must block.
    let board = TicTacToe::from_cells(&[4, 7], &[0, 1], Player::One);
    assert_eq!(minimax(&board, Player::One, 2), (0, Some(2)));
    assert_eq!(minimax(&board, Player::One, 3), (0, Some(2)));
    assert_eq!(board.solve(2), Some(2));
}

#[test]
fn optimal_play_from_empty_board_is_a_draw() {
    // The classical solved-game result: searched to full depth, the empty
    // board is worth 0 from both perspectives.
    let empty = TicTacToe::empty();
    assert_eq!(minimax(&empty, Player::One, 9).0, 0);
    assert_eq!(minimax(&empty, Player::Two, 9).0, 0);

    // Two optimal players finish with a drawn board.
    let mut board = TicTacToe::empty();
    let mut plies: usize = 0;
    while let Some(mov) = board.solve(9) {
        board.apply_move(&mov);
        plies += 1;
        assert!(plies <= 9);
    }
    assert!(!board.can_move());
    assert_eq!(board.winner(), None);
    assert_eq!(board.eval_score(Player::One), 0);
    assert_eq!(board.eval_score(Player::Two), 0);
}

#[test]
fn solve_returns_a_move_exactly_when_expansion_is_possible() {
    let empty = TicTacToe::empty();
    assert_eq!(empty.solve(0), None);
    assert!(empty.solve(1).is_some());
    let won = TicTacToe::from_cells(&[2, 4, 6], &[1, 3], Player::Two);
    assert_eq!(won.solve(0), None);
    assert_eq!(won.solve(6), None);
}

#[test]
fn can_move_reflects_move_enumeration() {
    assert!(TicTacToe::empty().can_move());
    let won = TicTacToe::from_cells(&[0, 4, 8], &[1, 3], Player::Two);
    assert!(won.legal_moves().is_empty());
    assert!(!won.can_move());
}
