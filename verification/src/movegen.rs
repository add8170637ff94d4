//! The move generator: per-piece direction tables, the candidate-move
//! sequence in board scan order, and deterministic first-candidate
//! selection.

use vstd::prelude::*;

use crate::board::{
    at, board_wf, in_bounds, square_index, Color, ChessPiece, Game, Piece,
};

verus! {

/// A candidate move: source square, then destination square, each as
/// (row, column).
pub type Move = ((usize, usize), (usize, usize));

/// The fixed direction-offset table (row delta, column delta) for a piece
/// kind. Every move is a single step at one of these offsets: no sliding.
/// Pawns step forward and backward by one square, not side-aware.
pub open spec fn piece_dirs(p: Piece) -> Seq<(isize, isize)> {
    match p {
        Piece::Pawn => seq![(1isize, 0isize), (-1isize, 0isize)],
        Piece::Rook => seq![(1isize, 0isize), (-1isize, 0isize), (0isize, 1isize), (0isize, -1isize)],
        Piece::Bishop => seq![(1isize, 1isize), (1isize, -1isize), (-1isize, 1isize), (-1isize, -1isize)],
        Piece::Queen => seq![
            (1isize, 0isize),
            (-1isize, 0isize),
            (0isize, 1isize),
            (0isize, -1isize),
            (1isize, 1isize),
            (1isize, -1isize),
            (-1isize, 1isize),
            (-1isize, -1isize),
        ],
        Piece::King => seq![
            (1isize, 0isize),
            (-1isize, 0isize),
            (0isize, 1isize),
            (0isize, -1isize),
            (1isize, 1isize),
            (1isize, -1isize),
            (-1isize, 1isize),
            (-1isize, -1isize),
        ],
        Piece::Knight => seq![
            (2isize, 1isize),
            (2isize, -1isize),
            (-2isize, 1isize),
            (-2isize, -1isize),
            (1isize, 2isize),
            (1isize, -2isize),
            (-1isize, 2isize),
            (-1isize, -2isize),
        ],
    }
}

/// The square at (r, c) holds a piece of side `me`.
pub open spec fn source_owned(b: Seq<Option<ChessPiece>>, me: Color, r: int, c: int) -> bool {
    at(b, r, c) matches Some(pc) && pc.color == me
}

/// The square at (r, c) is open to side `me`: empty or held by the
/// opposing side.
pub open spec fn dest_open(b: Seq<Option<ChessPiece>>, me: Color, r: int, c: int) -> bool {
    match at(b, r, c) {
        None => true,
        Some(pc) => pc.color != me,
    }
}

/// A pseudo-legal candidate for side `me`: both squares in bounds, the
/// source held by `me`, the destination empty or held by the opponent.
pub open spec fn candidate_ok(b: Seq<Option<ChessPiece>>, me: Color, m: Move) -> bool {
    &&& in_bounds(m.0.0 as int, m.0.1 as int)
    &&& in_bounds(m.1.0 as int, m.1.1 as int)
    &&& source_owned(b, me, m.0.0 as int, m.0.1 as int)
    &&& dest_open(b, me, m.1.0 as int, m.1.1 as int)
}

/// The candidates from square (r, c) through the first `k` entries of the
/// direction table of piece kind `p`, in table order.
pub open spec fn dir_moves(
    b: Seq<Option<ChessPiece>>,
    me: Color,
    r: int,
    c: int,
    p: Piece,
    k: int,
) -> Seq<Move>
    decreases k,
{
    if k <= 0 {
        Seq::empty()
    } else {
        let rest = dir_moves(b, me, r, c, p, k - 1);
        let d = piece_dirs(p)[k - 1];
        let nr = r + d.0 as int;
        let nc = c + d.1 as int;
        if in_bounds(nr, nc) && dest_open(b, me, nr, nc) {
            rest.push(((r as usize, c as usize), (nr as usize, nc as usize)))
        } else {
            rest
        }
    }
}

/// The candidates from square (r, c): the full direction table of the
/// piece standing there when it belongs to `me`, nothing otherwise.
pub open spec fn square_moves(b: Seq<Option<ChessPiece>>, me: Color, r: int, c: int) -> Seq<Move> {
    match at(b, r, c) {
        Some(pc) => if pc.color == me {
            dir_moves(b, me, r, c, pc.piece, piece_dirs(pc.piece).len() as int)
        } else {
            Seq::empty()
        },
        None => Seq::empty(),
    }
}

/// The candidates from the first `c` squares of row `r`, in column order.
pub open spec fn row_moves_upto(b: Seq<Option<ChessPiece>>, me: Color, r: int, c: int) -> Seq<Move>
    decreases c,
{
    if c <= 0 {
        Seq::empty()
    } else {
        row_moves_upto(b, me, r, c - 1) + square_moves(b, me, r, c - 1)
    }
}

/// The candidates from the first `r` rows, in row-major order.
pub open spec fn rows_moves_upto(b: Seq<Option<ChessPiece>>, me: Color, r: int) -> Seq<Move>
    decreases r,
{
    if r <= 0 {
        Seq::empty()
    } else {
        rows_moves_upto(b, me, r - 1) + row_moves_upto(b, me, r - 1, 8)
    }
}

/// All candidate moves for side `me`, in board scan order (row-major,
/// then direction-table order). A pure function of board and side.
pub open spec fn candidates(b: Seq<Option<ChessPiece>>, me: Color) -> Seq<Move> {
    rows_moves_upto(b, me, 8)
}

/// The direction table of `p` as a vector, with each offset small enough
/// that adding it to a board coordinate cannot overflow.
fn directions(p: Piece) -> (r: Vec<(isize, isize)>)
    ensures
        r@ == piece_dirs(p),
        forall|k: int|
            0 <= k < r@.len() ==> -2 <= (#[trigger] r@[k]).0 <= 2 && -2 <= r@[k].1 <= 2,
{
    match p {
        Piece::Pawn => {
            let v: Vec<(isize, isize)> = vec![(1isize, 0isize), (-1isize, 0isize)];
            proof {
                assert(v@ =~= piece_dirs(p));
            }
            v
        },
        Piece::Rook => {
            let v: Vec<(isize, isize)> = vec![
                (1isize, 0isize),
                (-1isize, 0isize),
                (0isize, 1isize),
                (0isize, -1isize),
            ];
            proof {
                assert(v@ =~= piece_dirs(p));
            }
            v
        },
        Piece::Bishop => {
            let v: Vec<(isize, isize)> = vec![
                (1isize, 1isize),
                (1isize, -1isize),
                (-1isize, 1isize),
                (-1isize, -1isize),
            ];
            proof {
                assert(v@ =~= piece_dirs(p));
            }
            v
        },
        Piece::Queen => {
            let v: Vec<(isize, isize)> = vec![
                (1isize, 0isize),
                (-1isize, 0isize),
                (0isize, 1isize),
                (0isize, -1isize),
                (1isize, 1isize),
                (1isize, -1isize),
                (-1isize, 1isize),
                (-1isize, -1isize),
            ];
            proof {
                assert(v@ =~= piece_dirs(p));
            }
            v
        },
        Piece::King => {
            let v: Vec<(isize, isize)> = vec![
                (1isize, 0isize),
                (-1isize, 0isize),
                (0isize, 1isize),
                (0isize, -1isize),
                (1isize, 1isize),
                (1isize, -1isize),
                (-1isize, 1isize),
                (-1isize, -1isize),
            ];
            proof {
                assert(v@ =~= piece_dirs(p));
            }
            v
        },
        Piece::Knight => {
            let v: Vec<(isize, isize)> = vec![
                (2isize, 1isize),
                (2isize, -1isize),
                (-2isize, 1isize),
                (-2isize, -1isize),
                (1isize, 2isize),
                (1isize, -2isize),
                (-1isize, 2isize),
                (-1isize, -2isize),
            ];
            proof {
                assert(v@ =~= piece_dirs(p));
            }
            v
        },
    }
}

impl Game {
    /// Every candidate move for the side to move, in board scan order.
    /// The result is pinned to `candidates`, a pure function of board and
    /// side, so two calls on an unmodified game return the identical list;
    /// and every entry is a pseudo-legal candidate.
    pub fn generate_moves(&self) -> (r: Vec<Move>)
        requires
            self.wf(),
        ensures
            r@ == candidates(self.board@, self.turn),
            forall|t: int|
                0 <= t < r@.len() ==> candidate_ok(self.board@, self.turn, #[trigger] r@[t]),
    {
        let mut moves: Vec<Move> = Vec::new();
        let mut rr: usize = 0;
        while rr < 8
            invariant
                rr <= 8,
                self.wf(),
                moves@ == rows_moves_upto(self.board@, self.turn, rr as int),
                forall|t: int|
                    0 <= t < moves@.len() ==> candidate_ok(
                        self.board@,
                        self.turn,
                        #[trigger] moves@[t],
                    ),
            decreases 8 - rr,
        {
            let mut cc: usize = 0;
            while cc < 8
                invariant
                    rr < 8,
                    cc <= 8,
                    self.wf(),
                    moves@ == rows_moves_upto(self.board@, self.turn, rr as int)
                        + row_moves_upto(self.board@, self.turn, rr as int, cc as int),
                    forall|t: int|
                        0 <= t < moves@.len() ==> candidate_ok(
                            self.board@,
                            self.turn,
                            #[trigger] moves@[t],
                        ),
                decreases 8 - cc,
            {
                let idx: usize = rr * 8 + cc;
                if let Some(piece) = self.board[idx] {
                    if piece.color == self.turn {
                        let dirs = directions(piece.piece);
                        let mut k: usize = 0;
                        while k < dirs.len()
                            invariant
                                rr < 8,
                                cc < 8,
                                k <= dirs.len(),
                                self.wf(),
                                at(self.board@, rr as int, cc as int) == Some(piece),
                                piece.color == self.turn,
                                dirs@ == piece_dirs(piece.piece),
                                forall|t: int|
                                    0 <= t < dirs@.len() ==> -2 <= (#[trigger] dirs@[t]).0 <= 2
                                        && -2 <= dirs@[t].1 <= 2,
                                moves@ == rows_moves_upto(self.board@, self.turn, rr as int)
                                    + row_moves_upto(self.board@, self.turn, rr as int, cc as int)
                                    + dir_moves(
                                    self.board@,
                                    self.turn,
                                    rr as int,
                                    cc as int,
                                    piece.piece,
                                    k as int,
                                ),
                                forall|t: int|
                                    0 <= t < moves@.len() ==> candidate_ok(
                                        self.board@,
                                        self.turn,
                                        #[trigger] moves@[t],
                                    ),
                            decreases dirs.len() - k,
                        {
                            let (di, dj) = dirs[k];
                            let ni: isize = rr as isize + di;
                            let nj: isize = cc as isize + dj;
                            if ni >= 0 && ni < 8 && nj >= 0 && nj < 8 {
                                let nu: usize = ni as usize;
                                let nv: usize = nj as usize;
                                let dest = self.board[nu * 8 + nv];
                                let open = match dest {
                                    None => true,
                                    Some(q) => q.color != piece.color,
                                };
                                if open {
                                    moves.push(((rr, cc), (nu, nv)));
                                }
                            }
                            proof {
                                assert(moves@ =~= rows_moves_upto(self.board@, self.turn, rr as int)
                                    + row_moves_upto(self.board@, self.turn, rr as int, cc as int)
                                    + dir_moves(
                                    self.board@,
                                    self.turn,
                                    rr as int,
                                    cc as int,
                                    piece.piece,
                                    k as int + 1,
                                ));
                            }
                            k = k + 1;
                        }
                    }
                }
                proof {
                    assert(moves@ =~= rows_moves_upto(self.board@, self.turn, rr as int)
                        + row_moves_upto(self.board@, self.turn, rr as int, cc as int + 1));
                }
                cc = cc + 1;
            }
            proof {
                assert(moves@ =~= rows_moves_upto(self.board@, self.turn, rr as int + 1));
            }
            rr = rr + 1;
        }
        moves
    }

    /// The chosen move: the first candidate in scan order, or `None` when
    /// no candidate exists. No evaluation, heuristic, or randomness.
    pub fn get_ai_move(&self) -> (r: Option<Move>)
        requires
            self.wf(),
        ensures
            candidates(self.board@, self.turn).len() == 0 <==> r is None,
            candidates(self.board@, self.turn).len() > 0 ==> r == Some(
                candidates(self.board@, self.turn)[0],
            ),
            r matches Some(m) ==> candidate_ok(self.board@, self.turn, m),
    {
        let moves = self.generate_moves();
        if moves.len() == 0 {
            None
        } else {
            Some(moves[0])
        }
    }

    /// The terminal signal: true exactly when the side to move has no
    /// candidate moves. Reused by the game loop as its "checkmate" report.
    pub fn is_checkmate(&self) -> (r: bool)
        requires
            self.wf(),
        ensures
            r == (candidates(self.board@, self.turn).len() == 0),
    {
        !self.get_ai_move().is_some()
    }
}

} // verus!
