use chessboard::board::{ChessPiece, Color, Game, Piece};
use chessboard::step::StepOutcome;

fn fresh() -> Game {
    Game::new()
}

fn empty_board() -> Vec<Option<ChessPiece>> {
    vec![None; 64]
}

fn piece(piece: Piece, color: Color) -> Option<ChessPiece> {
    Some(ChessPiece { piece, color })
}

fn back_rank_kinds() -> [Piece; 8] {
    [
        Piece::Rook,
        Piece::Knight,
        Piece::Bishop,
        Piece::Queen,
        Piece::King,
        Piece::Bishop,
        Piece::Knight,
        Piece::Rook,
    ]
}

#[test]
fn initial_setup() {
    let game = fresh();
    let back = back_rank_kinds();
    assert_eq!(game.board.len(), 64);
    assert_eq!(game.turn, Color::White);
    for c in 0..8 {
        assert_eq!(game.board[c], piece(back[c], Color::Black));
        assert_eq!(game.board[8 + c], piece(Piece::Pawn, Color::Black));
        assert_eq!(game.board[48 + c], piece(Piece::Pawn, Color::White));
        assert_eq!(game.board[56 + c], piece(back[c], Color::White));
    }
    for r in 2..6 {
        for c in 0..8 {
            assert_eq!(game.board[r * 8 + c], None);
        }
    }
}

#[test]
fn generator_bounds() {
    let game = fresh();
    for ((fr, fc), (tr, tc)) in game.generate_moves() {
        assert!(fr < 8 && fc < 8 && tr < 8 && tc < 8);
    }
}

#[test]
fn generator_ownership() {
    let mut game = fresh();
    for turn in [Color::White, Color::Black] {
        game.turn = turn;
        for ((fr, fc), (tr, tc)) in game.generate_moves() {
            let src = game.board[fr * 8 + fc].expect("source square must be occupied");
            assert_eq!(src.color, turn);
            if let Some(dst) = game.board[tr * 8 + tc] {
                assert_ne!(dst.color, turn);
            }
        }
    }
}

#[test]
fn generator_deterministic() {
    let game = fresh();
    let first = game.generate_moves();
    let second = game.generate_moves();
    assert_eq!(first, second);
}

#[test]
fn selection_is_first_candidate() {
    let game = fresh();
    let moves = game.generate_moves();
    assert!(!moves.is_empty());
    assert_eq!(game.get_ai_move(), Some(moves[0]));
    // White's first piece in scan order is the pawn at (6, 0); its first
    // direction offset (+1, 0) is blocked by the rook at (7, 0), so the
    // first candidate steps back to (5, 0).
    assert_eq!(game.get_ai_move(), Some(((6, 0), (5, 0))));
}

#[test]
fn move_application() {
    let mut game = fresh();
    let moved = game.board[48];
    game.make_move(((6, 0), (5, 0)));
    assert_eq!(game.board[40], moved);
    assert_eq!(game.board[48], None);
    assert_eq!(game.turn, Color::White);

    // A destination that was occupied is simply replaced: no capture log.
    let attacker = game.board[40];
    game.make_move(((5, 0), (1, 0)));
    assert_eq!(game.board[8], attacker);
    assert_eq!(game.board[40], None);
}

#[test]
fn empty_candidates_reported_as_checkmate() {
    // Genuinely no pieces at all for the side to move.
    let mut game = Game { board: empty_board(), turn: Color::White };
    assert_eq!(game.get_ai_move(), None);
    assert!(game.is_checkmate());
    match game.play_step(0, 300, 0, 40) {
        StepOutcome::StoppedByCheckmate(winner, _) => assert_eq!(winner, Color::Black),
        other => panic!("expected a checkmate stop, got {:?}", outcome_name(&other)),
    }
}

#[test]
fn blocked_pieces_reported_as_checkmate() {
    // Another empty-candidate scenario: White pawns fill column 0, so
    // every pawn is blocked by its own side or the board edge. The same
    // signal fires identically.
    let mut board = empty_board();
    for r in 0..8 {
        board[r * 8] = piece(Piece::Pawn, Color::White);
    }
    let mut game = Game { board, turn: Color::White };
    assert_eq!(game.get_ai_move(), None);
    assert!(game.is_checkmate());
    match game.play_step(0, 300, 0, 40) {
        StepOutcome::StoppedByCheckmate(winner, _) => assert_eq!(winner, Color::Black),
        other => panic!("expected a checkmate stop, got {:?}", outcome_name(&other)),
    }
}

#[test]
fn is_checkmate_matches_generator() {
    let game = fresh();
    assert_eq!(game.is_checkmate(), game.get_ai_move().is_none());
    let empty = Game { board: empty_board(), turn: Color::Black };
    assert_eq!(empty.is_checkmate(), empty.get_ai_move().is_none());
    assert!(empty.is_checkmate());
}

fn outcome_name(outcome: &StepOutcome) -> &'static str {
    match outcome {
        StepOutcome::StoppedByTime => "StoppedByTime",
        StepOutcome::StoppedByMoveLimit => "StoppedByMoveLimit",
        StepOutcome::StoppedByCheckmate(_, _) => "StoppedByCheckmate",
        StepOutcome::Moved(_) => "Moved",
    }
}

#[test]
fn time_limit_stops_first() {
    // The time check has priority over everything, even a zero move limit.
    let mut game = fresh();
    let before = game.board.clone();
    match game.play_step(300, 300, 0, 0) {
        StepOutcome::StoppedByTime => {},
        other => panic!("expected a time stop, got {:?}", outcome_name(&other)),
    }
    assert_eq!(game.board, before);
    assert_eq!(game.turn, Color::White);
}

#[test]
fn scenario_move_limit_zero() {
    // Time limit 300 s, move limit 0: the loop stops immediately on the
    // move-limit condition, the board is unchanged from the initial
    // setup, and no move is applied. The limit checks precede rendering,
    // so no rendering is produced either.
    let mut game = fresh();
    let initial = Game::new();
    let mut renders = 0;
    match game.play_step(0, 300, 0, 0) {
        StepOutcome::StoppedByMoveLimit => {},
        StepOutcome::Moved(_) | StepOutcome::StoppedByCheckmate(_, _) => renders += 1,
        other => panic!("expected a move-limit stop, got {:?}", outcome_name(&other)),
    }
    assert_eq!(renders, 0);
    assert_eq!(game.board, initial.board);
    assert_eq!(game.turn, Color::White);
}

#[test]
fn scenario_move_limit_one() {
    // Move limit 1: exactly one move is applied (White's first candidate,
    // the pawn step (6,0) -> (5,0)), the turn becomes Black, and the next
    // iteration stops on the move-limit condition.
    let mut game = fresh();
    let mut count = 0;
    let mut renders = 0;
    loop {
        match game.play_step(0, 300, count, 1) {
            StepOutcome::Moved(_) => {
                renders += 1;
                count += 1;
            },
            StepOutcome::StoppedByMoveLimit => break,
            other => panic!("expected moves then a move-limit stop, got {:?}", outcome_name(&other)),
        }
    }
    assert_eq!(count, 1);
    assert_eq!(renders, 1);
    assert_eq!(game.turn, Color::Black);
    assert_eq!(game.board[40], piece(Piece::Pawn, Color::White));
    assert_eq!(game.board[48], None);
}

#[test]
fn render_initial_board() {
    let game = fresh();
    let text: String = game.render().into_iter().collect();
    let expected = "r n b q k b n r \n\
                    p p p p p p p p \n\
                    . . . . . . . . \n\
                    . . . . . . . . \n\
                    . . . . . . . . \n\
                    . . . . . . . . \n\
                    P P P P P P P P \n\
                    R N B Q K B N R \n\n";
    assert_eq!(text, expected);
}

#[test]
fn render_rides_along_with_the_outcome() {
    // The rendering handed back by a step shows the board as it stood
    // before the move of that step.
    let game = fresh();
    let expected = game.render();
    let mut stepped = fresh();
    match stepped.play_step(0, 300, 0, 40) {
        StepOutcome::Moved(rend) => assert_eq!(rend, expected),
        other => panic!("expected a move, got {:?}", outcome_name(&other)),
    }
}
