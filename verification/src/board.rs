//! The board model: piece kinds, sides, the 8x8 grid in row-major order,
//! the standard initial position, move application and turn switching.

use vstd::prelude::*;

verus! {

/// The six chess piece kinds. No move counters, no "has moved" flag.
#[derive(Clone, Copy, PartialEq, Eq, Structural, Debug)]
pub enum Piece {
    Pawn,
    Rook,
    Knight,
    Bishop,
    Queen,
    King,
}

/// The two sides, used both as piece owner and as turn indicator.
#[derive(Clone, Copy, PartialEq, Eq, Structural, Debug)]
pub enum Color {
    White,
    Black,
}

/// A square occupant: a piece kind together with its owning side.
#[derive(Clone, Copy, PartialEq, Eq, Structural, Debug)]
pub struct ChessPiece {
    pub piece: Piece,
    pub color: Color,
}

/// The game state: the 8x8 board, stored row-major as 64 optional
/// occupants (index `row * 8 + col`), and the side to move.
pub struct Game {
    pub board: Vec<Option<ChessPiece>>,
    pub turn: Color,
}

/// Both coordinates lie on the 8x8 board.
pub open spec fn in_bounds(r: int, c: int) -> bool {
    0 <= r < 8 && 0 <= c < 8
}

/// The row-major index of the square at row `r`, column `c`.
pub open spec fn square_index(r: int, c: int) -> int {
    r * 8 + c
}

/// The occupant of the square at row `r`, column `c`.
pub open spec fn at(b: Seq<Option<ChessPiece>>, r: int, c: int) -> Option<ChessPiece> {
    b[square_index(r, c)]
}

/// The opposing side.
pub open spec fn other(c: Color) -> Color {
    match c {
        Color::White => Color::Black,
        Color::Black => Color::White,
    }
}

/// A well-formed board holds exactly one occupant slot per square.
pub open spec fn board_wf(b: Seq<Option<ChessPiece>>) -> bool {
    b.len() == 64
}

/// The back-rank piece kind at column `c`: Rook, Knight, Bishop, Queen,
/// King, Bishop, Knight, Rook.
pub open spec fn back_rank(c: int) -> Piece {
    if c == 0 || c == 7 {
        Piece::Rook
    } else if c == 1 || c == 6 {
        Piece::Knight
    } else if c == 2 || c == 5 {
        Piece::Bishop
    } else if c == 3 {
        Piece::Queen
    } else {
        Piece::King
    }
}

/// The occupant of square `i` (row-major) in the standard starting
/// position: Black's back rank on row 0, Black pawns on row 1, White
/// pawns on row 6, White's back rank on row 7, all else empty.
pub open spec fn initial_square(i: int) -> Option<ChessPiece> {
    let r = i / 8;
    let c = i % 8;
    if r == 0 {
        Some(ChessPiece { piece: back_rank(c), color: Color::Black })
    } else if r == 1 {
        Some(ChessPiece { piece: Piece::Pawn, color: Color::Black })
    } else if r == 6 {
        Some(ChessPiece { piece: Piece::Pawn, color: Color::White })
    } else if r == 7 {
        Some(ChessPiece { piece: back_rank(c), color: Color::White })
    } else {
        None
    }
}

/// The standard starting board.
pub open spec fn initial_board() -> Seq<Option<ChessPiece>> {
    Seq::new(64, |i: int| initial_square(i))
}

/// The board after moving the occupant of `m.0` to `m.1`: the destination
/// takes the source's occupant and the source is cleared, with no other
/// square touched.
pub open spec fn applied(
    b: Seq<Option<ChessPiece>>,
    m: ((usize, usize), (usize, usize)),
) -> Seq<Option<ChessPiece>> {
    b.update(square_index(m.1.0 as int, m.1.1 as int), b[square_index(m.0.0 as int, m.0.1 as int)])
        .update(square_index(m.0.0 as int, m.0.1 as int), None)
}

/// The initial-setup law: on the standard starting board, row 1 is all
/// Black pawns, row 6 all White pawns, rows 0 and 7 the Black and White
/// back ranks (Rook, Knight, Bishop, Queen, King, Bishop, Knight, Rook),
/// and every other square is empty.
pub proof fn lemma_initial_setup()
    ensures
        board_wf(initial_board()),
        forall|c: int|
            0 <= c < 8 ==> at(initial_board(), 0, c) == Some(
                ChessPiece { piece: back_rank(c), color: Color::Black },
            ),
        forall|c: int|
            0 <= c < 8 ==> at(initial_board(), 1, c) == Some(
                ChessPiece { piece: Piece::Pawn, color: Color::Black },
            ),
        forall|c: int|
            0 <= c < 8 ==> at(initial_board(), 6, c) == Some(
                ChessPiece { piece: Piece::Pawn, color: Color::White },
            ),
        forall|c: int|
            0 <= c < 8 ==> at(initial_board(), 7, c) == Some(
                ChessPiece { piece: back_rank(c), color: Color::White },
            ),
        forall|r: int, c: int| 2 <= r < 6 && 0 <= c < 8 ==> at(initial_board(), r, c) is None,
{
    assert forall|r: int, c: int| 0 <= r < 8 && 0 <= c < 8 implies (#[trigger] square_index(r, c))
        / 8 == r && square_index(r, c) % 8 == c by {
        vstd::arithmetic::div_mod::lemma_fundamental_div_mod_converse(r * 8 + c, 8, r, c);
    }
}

/// The back-rank piece kind at column `c`.
fn back_piece(c: usize) -> (r: Piece)
    requires
        c < 8,
    ensures
        r == back_rank(c as int),
{
    if c == 0 || c == 7 {
        Piece::Rook
    } else if c == 1 || c == 6 {
        Piece::Knight
    } else if c == 2 || c == 5 {
        Piece::Bishop
    } else if c == 3 {
        Piece::Queen
    } else {
        Piece::King
    }
}

impl Game {
    /// The board has exactly 64 square slots.
    pub open spec fn wf(self) -> bool {
        board_wf(self.board@)
    }

    /// A fresh game: the standard starting position with White to move.
    pub fn new() -> (g: Game)
        ensures
            g.wf(),
            g.board@ == initial_board(),
            g.turn == Color::White,
    {
        let mut b: Vec<Option<ChessPiece>> = Vec::new();
        let mut i: usize = 0;
        while i < 64
            invariant
                i <= 64,
                b@.len() == i,
                forall|j: int| 0 <= j < i ==> b@[j] == initial_square(j),
            decreases 64 - i,
        {
            let r: usize = i / 8;
            let c: usize = i % 8;
            let occupant: Option<ChessPiece> = if r == 0 {
                Some(ChessPiece { piece: back_piece(c), color: Color::Black })
            } else if r == 1 {
                Some(ChessPiece { piece: Piece::Pawn, color: Color::Black })
            } else if r == 6 {
                Some(ChessPiece { piece: Piece::Pawn, color: Color::White })
            } else if r == 7 {
                Some(ChessPiece { piece: back_piece(c), color: Color::White })
            } else {
                None
            };
            b.push(occupant);
            i = i + 1;
        }
        proof {
            assert(b@ =~= initial_board());
        }
        Game { board: b, turn: Color::White }
    }

    /// Move the occupant of `mv.0` to `mv.1` and clear the source. No
    /// capture bookkeeping: whatever stood at the destination is simply
    /// replaced. The turn does not change here.
    pub fn make_move(&mut self, mv: ((usize, usize), (usize, usize)))
        requires
            old(self).wf(),
            mv.0.0 < 8,
            mv.0.1 < 8,
            mv.1.0 < 8,
            mv.1.1 < 8,
        ensures
            final(self).wf(),
            final(self).board@ == applied(old(self).board@, mv),
            final(self).turn == old(self).turn,
            mv.0 != mv.1 ==> at(final(self).board@, mv.1.0 as int, mv.1.1 as int) == at(
                old(self).board@,
                mv.0.0 as int,
                mv.0.1 as int,
            ),
            mv.0 != mv.1 ==> at(final(self).board@, mv.0.0 as int, mv.0.1 as int) is None,
    {
        let ((fr, fc), (tr, tc)) = mv;
        let from_i: usize = fr * 8 + fc;
        let to_i: usize = tr * 8 + tc;
        let v: Option<ChessPiece> = self.board[from_i];
        self.board[to_i] = v;
        self.board[from_i] = None;
    }

    /// Hand the turn to the opposing side; the board is untouched.
    pub fn switch_turn(&mut self)
        ensures
            final(self).turn == other(old(self).turn),
            final(self).board == old(self).board,
    {
        self.turn = match self.turn {
            Color::White => Color::Black,
            Color::Black => Color::White,
        };
    }
}

} // verus!
