use vstd::prelude::*;
use crate::attack_tables::{knight_attacks, bishop_attacks, rook_attacks, queen_attacks,
    get_knight_attack_table, get_bishop_attack_table, get_rook_attack_table, get_queen_attack_table};
use crate::bitboard::popcount;
use crate::definitions::Color;
use crate::position::{Position, bit_at};

verus! {

/// Bound on the magnitude of an evaluation, well inside the band below mate scores.
pub const EVAL_LIMIT: i32 = 40000;

/// Material value of a piece type (pawn 100 up to king 10000).
pub open spec fn material(kind: int) -> int {
    if kind == 0 {
        100
    } else if kind == 1 {
        300
    } else if kind == 2 {
        350
    } else if kind == 3 {
        500
    } else if kind == 4 {
        1000
    } else {
        10000
    }
}

/// Placement bonus of a piece type on a square, from White's side of the board.
pub open spec fn pst(kind: int, sq: int) -> int {
    if kind == 0 {
        if sq == 8 || sq == 9 || sq == 10 || sq == 13 || sq == 14 || sq == 15 || sq == 19 || sq == 20 || sq == 21 {
            30
        } else         if sq == 16 || sq == 17 || sq == 18 || sq == 22 || sq == 23 || sq == 27 || sq == 28 || sq == 35 || sq == 36 {
            20
        } else         if sq == 0 || sq == 1 || sq == 2 || sq == 3 || sq == 4 || sq == 5 || sq == 6 || sq == 7 {
            90
        } else         if sq == 24 || sq == 25 || sq == 26 || sq == 29 || sq == 30 || sq == 31 || sq == 34 {
            10
        } else         if sq == 32 || sq == 33 || sq == 37 || sq == 38 || sq == 39 || sq == 43 || sq == 44 {
            5
        } else         if sq == 11 || sq == 12 {
            40
        } else         if sq == 51 || sq == 52 {
            -10
        } else {
            0
        }
    } else if kind == 1 {
        if sq == 0 || sq == 7 || sq == 8 || sq == 15 || sq == 16 || sq == 23 || sq == 24 || sq == 31 || sq == 32 || sq == 39 || sq == 40 || sq == 47 || sq == 48 || sq == 55 || sq == 56 || sq == 63 {
            -5
        } else         if sq == 18 || sq == 19 || sq == 20 || sq == 21 || sq == 26 || sq == 29 || sq == 34 || sq == 37 || sq == 42 || sq == 45 {
            20
        } else         if sq == 11 || sq == 12 || sq == 25 || sq == 30 || sq == 33 || sq == 38 || sq == 43 || sq == 44 {
            10
        } else         if sq == 17 || sq == 22 || sq == 41 || sq == 46 {
            5
        } else         if sq == 27 || sq == 28 || sq == 35 || sq == 36 {
            30
        } else         if sq == 57 || sq == 62 {
            -10
        } else {
            0
        }
    } else if kind == 2 {
        if sq == 19 || sq == 20 || sq == 26 || sq == 29 || sq == 34 || sq == 37 || sq == 41 || sq == 46 {
            10
        } else         if sq == 27 || sq == 28 || sq == 35 || sq == 36 {
            20
        } else         if sq == 49 || sq == 54 {
            30
        } else         if sq == 58 || sq == 61 {
            -10
        } else {
            0
        }
    } else if kind == 3 {
        if sq == 0 || sq == 1 || sq == 2 || sq == 3 || sq == 4 || sq == 5 || sq == 6 || sq == 7 || sq == 8 || sq == 9 || sq == 10 || sq == 11 || sq == 12 || sq == 13 || sq == 14 || sq == 15 {
            50
        } else         if sq == 19 || sq == 20 || sq == 27 || sq == 28 || sq == 35 || sq == 36 || sq == 43 || sq == 44 || sq == 51 || sq == 52 || sq == 59 || sq == 60 {
            20
        } else         if sq == 18 || sq == 21 || sq == 26 || sq == 29 || sq == 34 || sq == 37 || sq == 42 || sq == 45 || sq == 50 || sq == 53 {
            10
        } else {
            0
        }
    } else if kind == 5 {
        if sq == 10 || sq == 11 || sq == 12 || sq == 13 || sq == 17 || sq == 18 || sq == 21 || sq == 22 || sq == 25 || sq == 30 || sq == 33 || sq == 38 || sq == 42 || sq == 45 || sq == 49 || sq == 50 || sq == 54 || sq == 58 {
            5
        } else         if sq == 19 || sq == 20 || sq == 26 || sq == 29 || sq == 34 || sq == 37 || sq == 43 || sq == 44 || sq == 62 {
            10
        } else         if sq == 27 || sq == 28 || sq == 35 || sq == 36 {
            20
        } else         if sq == 51 || sq == 52 {
            -5
        } else         if sq == 60 {
            -15
        } else {
            0
        }
    } else {
        0
    }
}


/// The squares a knight, bishop, rook or queen on `sq` reaches; none for the other types.
pub open spec fn mobility_set(kind: int, sq: u64, occ: u64) -> u64 {
    if kind == 1 {
        knight_attacks(sq)
    } else if kind == 2 {
        bishop_attacks(sq, occ)
    } else if kind == 3 {
        rook_attacks(sq, occ)
    } else if kind == 4 {
        queen_attacks(sq, occ)
    } else {
        0
    }
}

/// The square seen from the other side of the board (rank mirrored).
pub open spec fn mirror(sq: int) -> int {
    (7 - sq / 8) * 8 + sq % 8
}

/// What piece `p` on `sq` is worth to White: material, placement and mobility, negated for Black.
pub open spec fn piece_value(p: int, sq: int, occ: u64) -> int {
    let kind = p % 6;
    let psq = if p < 6 { sq } else { mirror(sq) };
    let v = material(kind) + pst(kind, psq) + popcount(mobility_set(kind, sq as u64, occ)) as int;
    if p < 6 { v } else { -v }
}

/// The sum of `piece_value` over the first `k` (piece, square) pairs that hold a piece.
pub open spec fn eval_sum(bbs: Seq<u64>, occ: u64, k: nat) -> int
    decreases k,
{
    if k == 0 {
        0
    } else {
        let i = (k - 1) as nat;
        let p = (i / 64) as int;
        let sq = (i % 64) as int;
        eval_sum(bbs, occ, i) + if bit_at(bbs[p], sq as u64) { piece_value(p, sq, occ) } else { 0 }
    }
}

pub open spec fn clamp_eval(s: int) -> int {
    if s > EVAL_LIMIT {
        EVAL_LIMIT as int
    } else if s < -EVAL_LIMIT {
        -EVAL_LIMIT as int
    } else {
        s
    }
}

/// The evaluation from the side to move's point of view.
pub open spec fn side_eval(pos: Position) -> int {
    if pos.active_player == Color::White { white_eval(pos) } else { -white_eval(pos) }
}

/// The evaluation from White's side, bounded by `EVAL_LIMIT`.
pub open spec fn white_eval(pos: Position) -> int {
    clamp_eval(eval_sum(pos.bbs(), pos.all_occupancies.bits, 768))
}

fn pst_value(kind: u8, sq: u8) -> (r: i32)
    ensures
        r == pst(kind as int, sq as int),
{
    if kind == 0 {
        if sq == 8 || sq == 9 || sq == 10 || sq == 13 || sq == 14 || sq == 15 || sq == 19 || sq == 20 || sq == 21 {
            30
        } else         if sq == 16 || sq == 17 || sq == 18 || sq == 22 || sq == 23 || sq == 27 || sq == 28 || sq == 35 || sq == 36 {
            20
        } else         if sq == 0 || sq == 1 || sq == 2 || sq == 3 || sq == 4 || sq == 5 || sq == 6 || sq == 7 {
            90
        } else         if sq == 24 || sq == 25 || sq == 26 || sq == 29 || sq == 30 || sq == 31 || sq == 34 {
            10
        } else         if sq == 32 || sq == 33 || sq == 37 || sq == 38 || sq == 39 || sq == 43 || sq == 44 {
            5
        } else         if sq == 11 || sq == 12 {
            40
        } else         if sq == 51 || sq == 52 {
            -10
        } else {
            0
        }
    } else if kind == 1 {
        if sq == 0 || sq == 7 || sq == 8 || sq == 15 || sq == 16 || sq == 23 || sq == 24 || sq == 31 || sq == 32 || sq == 39 || sq == 40 || sq == 47 || sq == 48 || sq == 55 || sq == 56 || sq == 63 {
            -5
        } else         if sq == 18 || sq == 19 || sq == 20 || sq == 21 || sq == 26 || sq == 29 || sq == 34 || sq == 37 || sq == 42 || sq == 45 {
            20
        } else         if sq == 11 || sq == 12 || sq == 25 || sq == 30 || sq == 33 || sq == 38 || sq == 43 || sq == 44 {
            10
        } else         if sq == 17 || sq == 22 || sq == 41 || sq == 46 {
            5
        } else         if sq == 27 || sq == 28 || sq == 35 || sq == 36 {
            30
        } else         if sq == 57 || sq == 62 {
            -10
        } else {
            0
        }
    } else if kind == 2 {
        if sq == 19 || sq == 20 || sq == 26 || sq == 29 || sq == 34 || sq == 37 || sq == 41 || sq == 46 {
            10
        } else         if sq == 27 || sq == 28 || sq == 35 || sq == 36 {
            20
        } else         if sq == 49 || sq == 54 {
            30
        } else         if sq == 58 || sq == 61 {
            -10
        } else {
            0
        }
    } else if kind == 3 {
        if sq == 0 || sq == 1 || sq == 2 || sq == 3 || sq == 4 || sq == 5 || sq == 6 || sq == 7 || sq == 8 || sq == 9 || sq == 10 || sq == 11 || sq == 12 || sq == 13 || sq == 14 || sq == 15 {
            50
        } else         if sq == 19 || sq == 20 || sq == 27 || sq == 28 || sq == 35 || sq == 36 || sq == 43 || sq == 44 || sq == 51 || sq == 52 || sq == 59 || sq == 60 {
            20
        } else         if sq == 18 || sq == 21 || sq == 26 || sq == 29 || sq == 34 || sq == 37 || sq == 42 || sq == 45 || sq == 50 || sq == 53 {
            10
        } else {
            0
        }
    } else if kind == 5 {
        if sq == 10 || sq == 11 || sq == 12 || sq == 13 || sq == 17 || sq == 18 || sq == 21 || sq == 22 || sq == 25 || sq == 30 || sq == 33 || sq == 38 || sq == 42 || sq == 45 || sq == 49 || sq == 50 || sq == 54 || sq == 58 {
            5
        } else         if sq == 19 || sq == 20 || sq == 26 || sq == 29 || sq == 34 || sq == 37 || sq == 43 || sq == 44 || sq == 62 {
            10
        } else         if sq == 27 || sq == 28 || sq == 35 || sq == 36 {
            20
        } else         if sq == 51 || sq == 52 {
            -5
        } else         if sq == 60 {
            -15
        } else {
            0
        }
    } else {
        0
    }
}

fn material_value(kind: u8) -> (r: i32)
    ensures
        r == material(kind as int),
{
    if kind == 0 {
        100
    } else if kind == 1 {
        300
    } else if kind == 2 {
        350
    } else if kind == 3 {
        500
    } else if kind == 4 {
        1000
    } else {
        10000
    }
}

proof fn lemma_pst_bound(kind: int, sq: int)
    ensures
        -50 <= pst(kind, sq) <= 90,
{
}

impl Position {
    /// Centipawn score from the side to move's point of view.
    pub fn evaluate(&self) -> (r: i32)
        ensures
            r == (if self.active_player == Color::White { white_eval(*self) } else { -white_eval(*self) }),
            -EVAL_LIMIT <= r <= EVAL_LIMIT,
    {
        let occ = self.all_occupancies;
        let mut score: i32 = 0;
        let mut i: usize = 0;
        while i < 768
            invariant
                i <= 768,
                score == eval_sum(self.bbs(), occ.bits, i as nat),
                -10200 * (i as int) <= score <= 10200 * (i as int),
                occ == self.all_occupancies,
            decreases 768 - i,
        {
            let p: usize = i / 64;
            let sq: u8 = (i % 64) as u8;
            let b = self.bitboards[p].bits;
            proof {
                assert(self.bbs()[p as int] == b);
            }
            if (b >> (sq as u64)) & 1 == 1 {
                let kind: u8 = (p % 6) as u8;
                let psq: u8 = if p < 6 { sq } else { (7 - sq / 8) * 8 + sq % 8 };
                let mob: u32 = if kind == 1 {
                    get_knight_attack_table(sq).count()
                } else if kind == 2 {
                    get_bishop_attack_table(sq, occ).count()
                } else if kind == 3 {
                    get_rook_attack_table(sq, occ).count()
                } else if kind == 4 {
                    get_queen_attack_table(sq, occ).count()
                } else {
                    0
                };
                proof {
                    lemma_pst_bound(kind as int, psq as int);
                    crate::bitboard::lemma_popcount_bound(mobility_set(kind as int, sq as u64, occ.bits));
                }
                let v: i32 = material_value(kind) + pst_value(kind, psq) + mob as i32;
                if p < 6 {
                    score = score + v;
                } else {
                    score = score - v;
                }
            }
            i = i + 1;
        }
        let clamped: i32 = if score > EVAL_LIMIT {
            EVAL_LIMIT
        } else if score < -EVAL_LIMIT {
            -EVAL_LIMIT
        } else {
            score
        };
        if self.active_player == Color::White {
            clamped
        } else {
            -clamped
        }
    }
}

} // verus!
