//! Rendering a board snapshot to characters: one code per square
//! (uppercase for White, lowercase for Black, a dot for empty), each
//! followed by a space, one line per row, then a trailing blank line.

use vstd::prelude::*;

use crate::board::{at, ChessPiece, Color, Game, Piece};

verus! {

/// The one-character code of a square occupant: P/R/N/B/Q/K for White,
/// p/r/n/b/q/k for Black, '.' for an empty square.
pub open spec fn symbol(square: Option<ChessPiece>) -> char {
    match square {
        None => '.',
        Some(pc) => match (pc.piece, pc.color) {
            (Piece::Pawn, Color::White) => 'P',
            (Piece::Pawn, Color::Black) => 'p',
            (Piece::Rook, Color::White) => 'R',
            (Piece::Rook, Color::Black) => 'r',
            (Piece::Knight, Color::White) => 'N',
            (Piece::Knight, Color::Black) => 'n',
            (Piece::Bishop, Color::White) => 'B',
            (Piece::Bishop, Color::Black) => 'b',
            (Piece::Queen, Color::White) => 'Q',
            (Piece::Queen, Color::Black) => 'q',
            (Piece::King, Color::White) => 'K',
            (Piece::King, Color::Black) => 'k',
        },
    }
}

/// The characters for the first `c` squares of row `r`: each square's
/// code followed by a space.
pub open spec fn render_row_upto(b: Seq<Option<ChessPiece>>, r: int, c: int) -> Seq<char>
    decreases c,
{
    if c <= 0 {
        Seq::empty()
    } else {
        render_row_upto(b, r, c - 1).push(symbol(at(b, r, c - 1))).push(' ')
    }
}

/// The characters for the first `r` rows, each row ended by a newline.
pub open spec fn render_upto(b: Seq<Option<ChessPiece>>, r: int) -> Seq<char>
    decreases r,
{
    if r <= 0 {
        Seq::empty()
    } else {
        render_upto(b, r - 1) + render_row_upto(b, r - 1, 8).push('\n')
    }
}

/// The full rendering of a board: eight rows, then a trailing blank line.
pub open spec fn rendered(b: Seq<Option<ChessPiece>>) -> Seq<char> {
    render_upto(b, 8).push('\n')
}

/// The one-character code of a square occupant.
fn symbol_char(square: Option<ChessPiece>) -> (r: char)
    ensures
        r == symbol(square),
{
    match square {
        None => '.',
        Some(pc) => match (pc.piece, pc.color) {
            (Piece::Pawn, Color::White) => 'P',
            (Piece::Pawn, Color::Black) => 'p',
            (Piece::Rook, Color::White) => 'R',
            (Piece::Rook, Color::Black) => 'r',
            (Piece::Knight, Color::White) => 'N',
            (Piece::Knight, Color::Black) => 'n',
            (Piece::Bishop, Color::White) => 'B',
            (Piece::Bishop, Color::Black) => 'b',
            (Piece::Queen, Color::White) => 'Q',
            (Piece::Queen, Color::Black) => 'q',
            (Piece::King, Color::White) => 'K',
            (Piece::King, Color::Black) => 'k',
        },
    }
}

impl Game {
    /// The human-readable grid for the current board, as characters:
    /// purely observational, the board is only read.
    pub fn render(&self) -> (out: Vec<char>)
        requires
            self.wf(),
        ensures
            out@ == rendered(self.board@),
    {
        let mut out: Vec<char> = Vec::new();
        let mut rr: usize = 0;
        while rr < 8
            invariant
                rr <= 8,
                self.wf(),
                out@ == render_upto(self.board@, rr as int),
            decreases 8 - rr,
        {
            let mut cc: usize = 0;
            while cc < 8
                invariant
                    rr < 8,
                    cc <= 8,
                    self.wf(),
                    out@ == render_upto(self.board@, rr as int)
                        + render_row_upto(self.board@, rr as int, cc as int),
                decreases 8 - cc,
            {
                let s = symbol_char(self.board[rr * 8 + cc]);
                out.push(s);
                out.push(' ');
                proof {
                    assert(out@ =~= render_upto(self.board@, rr as int)
                        + render_row_upto(self.board@, rr as int, cc as int + 1));
                }
                cc = cc + 1;
            }
            out.push('\n');
            proof {
                assert(out@ =~= render_upto(self.board@, rr as int + 1));
            }
            rr = rr + 1;
        }
        out.push('\n');
        out
    }
}

} // verus!
