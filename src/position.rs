use vstd::prelude::*;
use crate::attack_tables::{pawn_attacks, knight_attacks, king_attacks, rook_attacks, bishop_attacks, queen_attacks, get_pawn_attack_table, get_knight_attack_table, get_king_attack_table, get_rook_attack_table, get_bishop_attack_table, get_queen_attack_table};
use crate::bitboard::Bitboard;
use crate::definitions::{Color, Piece, PieceType, Square, opposite_color};
use crate::keys::{ZobristKeys, nth_key, random64, PIECE_SEED, ENPASSANT_SEED, CASTLE_SEED, SIDE_SEED};

verus! {

/// Whether bit `s` of `b` is set.
pub open spec fn bit_at(b: u64, s: u64) -> bool {
    (b >> s) & 1 == 1
}

/// XOR of the keys of the first `k` (piece, square) pairs, in the order
/// `64 * piece + square`, whose bit is set in the given piece bitboards.
pub open spec fn piece_hash(bbs: Seq<u64>, k: nat) -> u64
    decreases k,
{
    if k == 0 {
        0
    } else {
        let i = (k - 1) as nat;
        let h = piece_hash(bbs, i);
        if bit_at(bbs[(i / 64) as int], (i % 64) as u64) {
            h ^ nth_key(PIECE_SEED, i)
        } else {
            h
        }
    }
}

/// The full Zobrist hash of a board state: pieces, castling state, side to move
/// (mixed in when Black moves) and en-passant square (mixed in when set).
pub open spec fn zobrist_of(bbs: Seq<u64>, castling: u8, black_to_move: bool, ep: int) -> u64 {
    piece_hash(bbs, 768) ^ nth_key(CASTLE_SEED, castling as nat) ^ (if black_to_move {
        random64(SIDE_SEED).0
    } else {
        0u64
    }) ^ (if ep < 64 {
        nth_key(ENPASSANT_SEED, ep as nat)
    } else {
        0u64
    })
}

/// The occupancy invariant over piece bitboards `s` and occupancies `w`, `b`, `a`.
pub open spec fn occupancy_words_ok(s: Seq<u64>, w: u64, b: u64, a: u64) -> bool {
    &&& s.len() == 12
    &&& forall|p: int, q: int| 0 <= p < q < 12 ==> #[trigger] s[p] & #[trigger] s[q] == 0
    &&& w == s[0] | s[1] | s[2] | s[3] | s[4] | s[5]
    &&& b == s[6] | s[7] | s[8] | s[9] | s[10] | s[11]
    &&& w & b == 0
    &&& a == w | b
}

/// Whether a piece of color `by` in the piece bitboards `bbs` attacks square `sq`, with the
/// sliders blocked by the occupancy `occ`.
pub open spec fn attacked_in(bbs: Seq<u64>, occ: u64, sq: u64, by: Color) -> bool {
    let b = color_base(by);
    ||| pawn_attacks(sq, by != Color::White) & bbs[b] != 0
    ||| knight_attacks(sq) & bbs[b + 1] != 0
    ||| king_attacks(sq) & bbs[b + 5] != 0
    ||| rook_attacks(sq, occ) & bbs[b + 3] != 0
    ||| bishop_attacks(sq, occ) & bbs[b + 2] != 0
    ||| queen_attacks(sq, occ) & bbs[b + 4] != 0
}

/// The (lowest) king of color `c` in `bbs` stands on a square that the other color attacks.
pub open spec fn in_check_in(bbs: Seq<u64>, occ: u64, c: Color) -> bool {
    let k = vstd::std_specs::bits::u64_trailing_zeros(bbs[color_base(c) + 5]) as u64;
    k < 64 && attacked_in(bbs, occ, k, spec_opposite(c))
}

/// Index of the first piece of a color (0 for White, 6 for Black).
pub open spec fn color_base(c: Color) -> int {
    if c == Color::White { 0 } else { 6 }
}

pub open spec fn spec_opposite(c: Color) -> Color {
    if c == Color::White { Color::Black } else { Color::White }
}

#[derive(Clone, Copy)]
pub struct Position {
    pub bitboards: [Bitboard; 12],
    pub white_occupancies: Bitboard,
    pub black_occupancies: Bitboard,
    pub all_occupancies: Bitboard,
    pub active_player: Color,
    pub enpassant_square: Square,
    pub castling_ability: u8,
    pub full_moves: u16,
    pub half_moves: u8,
    pub zobrist_hash: u64,
}

impl Position {
    /// The twelve piece bitboards as words.
    pub open spec fn bbs(&self) -> Seq<u64> {
        Seq::new(12, |i: int| self.bitboards@[i].bits)
    }

    pub open spec fn bb(&self, p: int) -> u64 {
        self.bitboards@[p].bits
    }

    /// The hash this position should carry, recomputed from its fields.
    pub open spec fn spec_hash(&self) -> u64 {
        zobrist_of(self.bbs(), self.castling_ability, self.active_player == Color::Black,
            self.enpassant_square.index())
    }

    /// Occupancy: each color's six bitboards are pairwise disjoint and their union is
    /// that color's occupancy; the two colors are disjoint and together make up `all`.
    pub open spec fn occupancy_ok(&self) -> bool {
        occupancy_words_ok(self.bbs(), self.white_occupancies.bits, self.black_occupancies.bits,
            self.all_occupancies.bits)
    }

    /// The castling rights fit in four bits, the hash matches a recomputation, and `all` is the
    /// union of the two color occupancies.
    pub open spec fn wf(&self) -> bool {
        &&& self.castling_ability < 16
        &&& self.zobrist_hash == self.spec_hash()
        &&& self.all_occupancies.bits == self.white_occupancies.bits | self.black_occupancies.bits
    }

    /// Whether a piece of color `by` attacks square `sq`, with the sliders blocked by `all`.
    pub open spec fn spec_attacked(&self, sq: u64, by: Color) -> bool {
        attacked_in(self.bbs(), self.all_occupancies.bits, sq, by)
    }

    /// The lowest square of the king of color `c`, 64 when there is none.
    pub open spec fn spec_king_square(&self, c: Color) -> u64 {
        vstd::std_specs::bits::u64_trailing_zeros(self.bb(color_base(c) + 5)) as u64
    }

    /// A king of color `c` stands on a square attacked by the other color.
    pub open spec fn spec_in_check(&self, c: Color) -> bool {
        in_check_in(self.bbs(), self.all_occupancies.bits, c)
    }

    pub fn get_bitboard(&self, piece_index: usize) -> (r: Bitboard)
        requires
            piece_index < 12,
        ensures
            r == self.bitboards@[piece_index as int],
    {
        self.bitboards[piece_index]
    }

    pub fn get_piece_bitboard(&self, piece: Piece) -> (r: Bitboard)
        requires
            piece.index() < 12,
        ensures
            r == self.bitboards@[piece.index()],
    {
        self.bitboards[piece.to_index() as usize]
    }

    pub fn get_piece_color_bitboard(&self, piece_type: PieceType, color: Color) -> (r: Bitboard)
        ensures
            r == self.bitboards@[color_base(color) + piece_type.index()],
    {
        let t: usize = match piece_type {
            PieceType::Pawn => 0,
            PieceType::Knight => 1,
            PieceType::Bishop => 2,
            PieceType::Rook => 3,
            PieceType::Queen => 4,
            PieceType::King => 5,
        };
        if color == Color::Black {
            self.bitboards[t + 6]
        } else {
            self.bitboards[t]
        }
    }

    pub fn get_color_bitboard(&self, color: Color) -> (r: Bitboard)
        ensures
            r == (if color == Color::White { self.white_occupancies } else { self.black_occupancies }),
    {
        if color == Color::White {
            self.white_occupancies
        } else {
            self.black_occupancies
        }
    }

    /// The square of the king of `color`; 64 when that color has no king.
    pub fn king_position(&self, color: Color) -> (r: u8)
        ensures
            r as u64 == self.spec_king_square(color),
            r <= 64,
    {
        let base: usize = if color == Color::White { 0 } else { 6 };
        self.bitboards[base + 5].least_significant()
    }

    /// Whether any piece of `by_color` attacks `square`.
    pub fn is_square_attacked(&self, square: u8, by_color: Color) -> (r: bool)
        requires
            square < 64,
        ensures
            r == self.spec_attacked(square as u64, by_color),
    {
        let b: usize = if by_color == Color::White { 0 } else { 6 };
        let occ = self.all_occupancies;
        get_pawn_attack_table(square, opposite_color(by_color)).and(self.bitboards[b]).is_not_empty()
            || get_knight_attack_table(square).and(self.bitboards[b + 1]).is_not_empty()
            || get_king_attack_table(square).and(self.bitboards[b + 5]).is_not_empty()
            || get_rook_attack_table(square, occ).and(self.bitboards[b + 3]).is_not_empty()
            || get_bishop_attack_table(square, occ).and(self.bitboards[b + 2]).is_not_empty()
            || get_queen_attack_table(square, occ).and(self.bitboards[b + 4]).is_not_empty()
    }

    /// Whether the king of `color` is attacked; a side without a king is never in check.
    pub fn is_in_check(&self, color: Color) -> (r: bool)
        ensures
            r == self.spec_in_check(color),
    {
        let k = self.king_position(color);
        if k >= 64 {
            false
        } else {
            self.is_square_attacked(k, opposite_color(color))
        }
    }

    /// Recomputes the Zobrist hash of the position from its fields.
    pub fn make_zobrist_hash(&self, keys: &ZobristKeys) -> (r: u64)
        requires
            keys.wf(),
            self.castling_ability < 16,
        ensures
            r == self.spec_hash(),
    {
        let mut hash: u64 = 0;
        let mut i: usize = 0;
        while i < 768
            invariant
                i <= 768,
                keys.wf(),
                hash == piece_hash(self.bbs(), i as nat),
            decreases 768 - i,
        {
            let b = self.bitboards[i / 64].bits;
            proof {
                assert(self.bbs()[(i / 64) as int] == b);
            }
            if (b >> ((i % 64) as u64)) & 1 == 1 {
                hash = hash ^ keys.piece[i];
            }
            i = i + 1;
        }
        let side_key: u64 = if self.active_player == Color::Black { keys.side } else { 0 };
        let ep = self.enpassant_square.to_u8();
        let ep_key: u64 = if ep < 64 { keys.enpassant[ep as usize] } else { 0 };
        hash = hash ^ keys.castle[self.castling_ability as usize] ^ side_key ^ ep_key;
        hash
    }
}

} // verus!
