use vstd::prelude::*;
use crate::bitboard::Bitboard;
use crate::definitions::{Color, Move, Square, opposite_color};
use crate::keys::{ZobristKeys, nth_key, random64, PIECE_SEED, CASTLE_SEED, SIDE_SEED};
use crate::position::{Position, piece_hash, bit_at, color_base, spec_opposite};

verus! {

/// The castling rights that survive a move touching `sq`: touching e1 clears both white
/// rights, a1 the white queen side, h1 the white king side, and likewise on rank 8.
pub open spec fn castling_mask(sq: u64) -> u8 {
    if sq == 0 {
        7
    } else if sq == 4 {
        3
    } else if sq == 7 {
        11
    } else if sq == 56 {
        13
    } else if sq == 60 {
        12
    } else if sq == 63 {
        14
    } else {
        15
    }
}

pub fn castling_rights_mask(sq: u8) -> (r: u8)
    ensures
        r == castling_mask(sq as u64),
{
    if sq == 0 {
        7
    } else if sq == 4 {
        3
    } else if sq == 7 {
        11
    } else if sq == 56 {
        13
    } else if sq == 60 {
        12
    } else if sq == 63 {
        14
    } else {
        15
    }
}

/// The square between the origin and target of a double push by `side` that lands on `to`.
pub open spec fn behind(to: u64, side: Color) -> int {
    if side == Color::White { to + 8 } else { to - 8 }
}

/// Squares, pieces and flags of `m` are in range for a move by `side`.
pub open spec fn move_in_range(m: Move, side: Color) -> bool {
    &&& m.from_sq < 64
    &&& m.to_sq < 64
    &&& color_base(side) <= m.piece.index() < color_base(side) + 6
    &&& m.promotion.index() <= 12
    &&& (m.is_enpassant || m.is_double_push) ==> 0 <= behind(m.to_sq as u64, side) < 64
}

/// Piece bitboards with square `sq` of bitboard `p` flipped (unchanged when `p` is not a
/// piece index).
pub open spec fn toggled(s: Seq<u64>, p: int, sq: int) -> Seq<u64> {
    if 0 <= p < s.len() && 0 <= sq < 64 {
        s.update(p, s[p] ^ (1u64 << (sq as u64)))
    } else {
        s
    }
}

/// A word with bit `sq` flipped.
pub open spec fn flip(x: u64, sq: int) -> u64 {
    x ^ (1u64 << (sq as u64))
}

/// The first of the bitboards `p..end` that holds square `to`, or 12.
pub open spec fn first_holding(bbs: Seq<u64>, to: u64, p: int, end: int) -> int
    decreases end - p,
{
    if p >= end {
        12
    } else if bbs[p] & (1u64 << to) != 0 {
        p
    } else {
        first_holding(bbs, to, p + 1, end)
    }
}

/// The rook that castling onto `to` moves, with its origin and target; (12, 0, 0) for a
/// square that is no castling target.
pub open spec fn rook_squares(to: int) -> (int, int, int) {
    if to == 62 {
        (3, 63, 61)
    } else if to == 58 {
        (3, 56, 59)
    } else if to == 6 {
        (9, 7, 5)
    } else if to == 2 {
        (9, 0, 3)
    } else {
        (12, 0, 0)
    }
}

/// The opponent piece a capture removes from the target square: the first of the opponent's
/// non-king bitboards that holds it, or 12.
pub open spec fn captured_on(pos: Position, m: Move) -> int {
    let b = color_base(spec_opposite(pos.active_player));
    first_holding(pos.bbs(), m.to_sq as u64, b, b + 5)
}

/// The piece bitboards after `m`: the mover leaves its origin for its target, a captured
/// piece (or the pawn taken en passant) leaves its square, a promoting pawn turns into the
/// promotion piece, and a castling king brings its rook.
pub open spec fn moved_bbs(pos: Position, m: Move) -> Seq<u64> {
    let side = pos.active_player;
    let p = m.piece.index();
    let to = m.to_sq as int;
    let s1 = toggled(toggled(pos.bbs(), p, m.from_sq as int), p, to);
    let s2 = if m.is_capture {
        if m.is_enpassant {
            toggled(s1, color_base(spec_opposite(side)), behind(to as u64, side))
        } else {
            toggled(s1, captured_on(pos, m), to)
        }
    } else {
        s1
    };
    let promo = m.promotion.index();
    if promo < 12 {
        toggled(toggled(s2, p, to), promo, to)
    } else if m.is_castling {
        let r = rook_squares(to);
        toggled(toggled(s2, r.0, r.1), r.0, r.2)
    } else {
        s2
    }
}

/// The mover's occupancy after `m`.
pub open spec fn moved_own(pos: Position, m: Move) -> u64 {
    let own = if pos.active_player == Color::White { pos.white_occupancies.bits } else { pos.black_occupancies.bits };
    let o1 = flip(flip(own, m.from_sq as int), m.to_sq as int);
    let r = rook_squares(m.to_sq as int);
    if m.promotion.index() >= 12 && m.is_castling && r.0 < 12 {
        flip(flip(o1, r.1), r.2)
    } else {
        o1
    }
}

/// The opponent's occupancy after `m`.
pub open spec fn moved_opp(pos: Position, m: Move) -> u64 {
    let side = pos.active_player;
    let opp = if side == Color::White { pos.black_occupancies.bits } else { pos.white_occupancies.bits };
    if m.is_capture {
        if m.is_enpassant {
            flip(opp, behind(m.to_sq as u64, side))
        } else if captured_on(pos, m) < 12 {
            flip(opp, m.to_sq as int)
        } else {
            opp
        }
    } else {
        opp
    }
}

/// What a move overwrites, kept to take it back.
#[derive(Clone, Copy, PartialEq, Eq, Structural, Debug)]
pub struct Undo {
    /// The piece captured on the target square, 12 for none.
    pub captured: usize,
    pub enpassant_square: Square,
    pub castling_ability: u8,
    pub full_moves: u16,
    pub half_moves: u8,
    pub zobrist_hash: u64,
}

pub open spec fn undo_of(pos: Position, m: Move) -> Undo {
    Undo {
        captured: captured_on(pos, m) as usize,
        enpassant_square: pos.enpassant_square,
        castling_ability: pos.castling_ability,
        full_moves: pos.full_moves,
        half_moves: pos.half_moves,
        zobrist_hash: pos.zobrist_hash,
    }
}

/// The piece bitboards before `m` by `side`, from those after it: the flips of
/// `moved_bbs` undone in reverse order.
pub open spec fn unmoved_bbs(after: Seq<u64>, m: Move, side: Color, captured: int) -> Seq<u64> {
    let p = m.piece.index();
    let to = m.to_sq as int;
    let promo = m.promotion.index();
    let s2 = if promo < 12 {
        toggled(toggled(after, promo, to), p, to)
    } else if m.is_castling {
        let r = rook_squares(to);
        toggled(toggled(after, r.0, r.2), r.0, r.1)
    } else {
        after
    };
    let s1 = if m.is_capture {
        if m.is_enpassant {
            toggled(s2, color_base(spec_opposite(side)), behind(to as u64, side))
        } else {
            toggled(s2, captured, to)
        }
    } else {
        s2
    };
    toggled(toggled(s1, p, to), p, m.from_sq as int)
}

/// The mover's occupancy before `m`, from the one after it.
pub open spec fn unmoved_own(after: u64, m: Move) -> u64 {
    let r = rook_squares(m.to_sq as int);
    let o1 = if m.promotion.index() >= 12 && m.is_castling && r.0 < 12 {
        flip(flip(after, r.2), r.1)
    } else {
        after
    };
    flip(flip(o1, m.to_sq as int), m.from_sq as int)
}

/// The opponent's occupancy before `m` by `side`, from the one after it.
pub open spec fn unmoved_opp(after: u64, m: Move, side: Color, captured: int) -> u64 {
    if m.is_capture {
        if m.is_enpassant {
            flip(after, behind(m.to_sq as u64, side))
        } else if captured < 12 {
            flip(after, m.to_sq as int)
        } else {
            after
        }
    } else {
        after
    }
}

/// The board part of `after` is what `m` makes of `pos`: piece bitboards, occupancies and
/// side to move.
pub open spec fn made(pos: Position, m: Move, after: Position) -> bool {
    &&& after.bbs() == moved_bbs(pos, m)
    &&& after.white_occupancies.bits == (if pos.active_player == Color::White {
        moved_own(pos, m)
    } else {
        moved_opp(pos, m)
    })
    &&& after.black_occupancies.bits == (if pos.active_player == Color::Black {
        moved_own(pos, m)
    } else {
        moved_opp(pos, m)
    })
    &&& after.all_occupancies.bits == after.white_occupancies.bits | after.black_occupancies.bits
    &&& after.active_player == spec_opposite(pos.active_player)
}

/// `back` is what taking `m` back from `after` with `undo` gives.
pub open spec fn unmade(after: Position, m: Move, undo: Undo, back: Position) -> bool {
    &&& back.active_player == spec_opposite(after.active_player)
    &&& back.bbs() == unmoved_bbs(after.bbs(), m, back.active_player, undo.captured as int)
    &&& back.white_occupancies.bits == (if back.active_player == Color::White {
        unmoved_own(after.white_occupancies.bits, m)
    } else {
        unmoved_opp(after.white_occupancies.bits, m, back.active_player, undo.captured as int)
    })
    &&& back.black_occupancies.bits == (if back.active_player == Color::Black {
        unmoved_own(after.black_occupancies.bits, m)
    } else {
        unmoved_opp(after.black_occupancies.bits, m, back.active_player, undo.captured as int)
    })
    &&& back.all_occupancies.bits == back.white_occupancies.bits | back.black_occupancies.bits
    &&& back.enpassant_square == undo.enpassant_square
    &&& back.castling_ability == undo.castling_ability
    &&& back.full_moves == undo.full_moves
    &&& back.half_moves == undo.half_moves
    &&& back.zobrist_hash == undo.zobrist_hash
}

proof fn lemma_first_holding_range(bbs: Seq<u64>, to: u64, p: int, end: int)
    requires
        0 <= p,
    ensures
        first_holding(bbs, to, p, end) == 12 || p <= first_holding(bbs, to, p, end) < end,
    decreases end - p,
{
    if p < end && bbs[p] & (1u64 << to) == 0 {
        lemma_first_holding_range(bbs, to, p + 1, end);
    }
}

proof fn lemma_toggled_twice(s: Seq<u64>, p: int, sq: int)
    ensures
        toggled(toggled(s, p, sq), p, sq) == s,
{
    if 0 <= p < s.len() && 0 <= sq < 64 {
        let b = 1u64 << (sq as u64);
        let x = s[p];
        assert((x ^ b) ^ b == x) by (bit_vector);
        assert(toggled(toggled(s, p, sq), p, sq) =~= s);
    }
}

proof fn lemma_flip_twice(x: u64, sq: int)
    ensures
        flip(flip(x, sq), sq) == x,
{
    let b = 1u64 << (sq as u64);
    assert((x ^ b) ^ b == x) by (bit_vector);
}

/// Taking a move back with the record taken before it restores the position bit for bit:
/// piece bitboards, occupancies, side to move, en-passant square, castling rights, clocks
/// and hash.
pub proof fn lemma_make_unmake_round_trip(pos: Position, m: Move, after: Position, back: Position)
    requires
        pos.wf(),
        move_in_range(m, pos.active_player),
        made(pos, m, after),
        unmade(after, m, undo_of(pos, m), back),
    ensures
        back.bbs() == pos.bbs(),
        back.white_occupancies == pos.white_occupancies,
        back.black_occupancies == pos.black_occupancies,
        back.all_occupancies == pos.all_occupancies,
        back.active_player == pos.active_player,
        back.enpassant_square == pos.enpassant_square,
        back.castling_ability == pos.castling_ability,
        back.full_moves == pos.full_moves,
        back.half_moves == pos.half_moves,
        back.zobrist_hash == pos.zobrist_hash,
{
    let side = pos.active_player;
    let p = m.piece.index();
    let to = m.to_sq as int;
    let from = m.from_sq as int;
    let promo = m.promotion.index();
    let r = rook_squares(to);
    let c = captured_on(pos, m);
    lemma_first_holding_range(pos.bbs(), m.to_sq as u64, color_base(spec_opposite(side)), color_base(spec_opposite(side)) + 5);
    assert(undo_of(pos, m).captured as int == c);
    assert(back.active_player == side);
    let s1 = toggled(toggled(pos.bbs(), p, from), p, to);
    let s2 = if m.is_capture {
        if m.is_enpassant {
            toggled(s1, color_base(spec_opposite(side)), behind(to as u64, side))
        } else {
            toggled(s1, c, to)
        }
    } else {
        s1
    };
    let s3 = moved_bbs(pos, m);
    let u2 = if promo < 12 {
        toggled(toggled(s3, promo, to), p, to)
    } else if m.is_castling {
        toggled(toggled(s3, r.0, r.2), r.0, r.1)
    } else {
        s3
    };
    if promo < 12 {
        lemma_toggled_twice(toggled(s2, p, to), promo, to);
        lemma_toggled_twice(s2, p, to);
    } else if m.is_castling {
        lemma_toggled_twice(toggled(s2, r.0, r.1), r.0, r.2);
        lemma_toggled_twice(s2, r.0, r.1);
    }
    assert(u2 == s2);
    let u1 = if m.is_capture {
        if m.is_enpassant {
            toggled(u2, color_base(spec_opposite(side)), behind(to as u64, side))
        } else {
            toggled(u2, c, to)
        }
    } else {
        u2
    };
    if m.is_capture {
        if m.is_enpassant {
            lemma_toggled_twice(s1, color_base(spec_opposite(side)), behind(to as u64, side));
        } else {
            lemma_toggled_twice(s1, c, to);
        }
    }
    assert(u1 == s1);
    lemma_toggled_twice(toggled(pos.bbs(), p, from), p, to);
    lemma_toggled_twice(pos.bbs(), p, from);
    assert(back.bbs() == unmoved_bbs(s3, m, side, c));
    assert(back.bbs() == pos.bbs());

    let own = if side == Color::White { pos.white_occupancies.bits } else { pos.black_occupancies.bits };
    let opp = if side == Color::White { pos.black_occupancies.bits } else { pos.white_occupancies.bits };
    let o1 = flip(flip(own, from), to);
    if promo >= 12 && m.is_castling && r.0 < 12 {
        lemma_flip_twice(flip(o1, r.1), r.2);
        lemma_flip_twice(o1, r.1);
    }
    lemma_flip_twice(flip(own, from), to);
    lemma_flip_twice(own, from);
    assert(unmoved_own(moved_own(pos, m), m) == own);
    if m.is_capture {
        if m.is_enpassant {
            lemma_flip_twice(opp, behind(to as u64, side));
        } else if c < 12 {
            lemma_flip_twice(opp, to);
        }
    }
    assert(unmoved_opp(moved_opp(pos, m), m, side, c) == opp);
    if side == Color::White {
        assert(back.white_occupancies.bits == pos.white_occupancies.bits);
        assert(back.black_occupancies.bits == pos.black_occupancies.bits);
    } else {
        assert(back.white_occupancies.bits == pos.white_occupancies.bits);
        assert(back.black_occupancies.bits == pos.black_occupancies.bits);
    }
}

proof fn lemma_xor_algebra(a: u64, b: u64, c: u64)
    ensures
        a ^ b ^ c == a ^ c ^ b,
        a ^ 0 == a,
        a ^ b ^ b == a,
        (a ^ b) ^ c == a ^ (b ^ c),
{
    assert(a ^ b ^ c == a ^ c ^ b) by (bit_vector);
    assert(a ^ 0 == a) by (bit_vector);
    assert(a ^ b ^ b == a) by (bit_vector);
    assert((a ^ b) ^ c == a ^ (b ^ c)) by (bit_vector);
}

proof fn lemma_toggle_bit(x: u64, s: u64, t: u64)
    requires
        s < 64,
        t < 64,
    ensures
        bit_at(x ^ (1u64 << s), t) == (bit_at(x, t) != (s == t)),
{
    assert(bit_at(x ^ (1u64 << s), t) == (bit_at(x, t) != (s == t))) by (bit_vector)
        requires
            s < 64,
            t < 64,
    ;
}

/// Flipping one bit of one piece bitboard changes the piece part of the hash by that key.
pub proof fn lemma_piece_hash_toggle(bbs: Seq<u64>, p: int, s: u64, k: nat)
    requires
        bbs.len() == 12,
        0 <= p < 12,
        s < 64,
        k <= 768,
    ensures
        piece_hash(bbs.update(p, bbs[p] ^ (1u64 << s)), k) == piece_hash(bbs, k) ^ (if 64 * p + s < k {
            nth_key(PIECE_SEED, (64 * p + s) as nat)
        } else {
            0u64
        }),
    decreases k,
{
    let nb = bbs.update(p, bbs[p] ^ (1u64 << s));
    if k == 0 {
        lemma_xor_algebra(0, 0, 0);
    } else {
        let i = (k - 1) as nat;
        lemma_piece_hash_toggle(bbs, p, s, i);
        let a = piece_hash(bbs, i);
        let key = nth_key(PIECE_SEED, i);
        let t = if 64 * p + s < i { nth_key(PIECE_SEED, (64 * p + s) as nat) } else { 0u64 };
        let q = (i / 64) as int;
        let sq = (i % 64) as u64;
        if q == p {
            lemma_toggle_bit(bbs[p], s, sq);
        }
        assert(bit_at(nb[q], sq) == (bit_at(bbs[q], sq) != (i == 64 * p + s)));
        lemma_xor_algebra(a, t, key);
        lemma_xor_algebra(a, key, 0);
        lemma_xor_algebra(a, 0, key);
        if i == 64 * p + s {
            assert(t == 0);
            if bit_at(bbs[q], sq) {
                assert(a ^ key ^ key == a);
            }
        }
    }
}

/// The fields of a position other than the piece bitboards and the hash.
pub open spec fn same_but_pieces(a: Position, b: Position) -> bool {
    &&& a.white_occupancies == b.white_occupancies
    &&& a.black_occupancies == b.black_occupancies
    &&& a.all_occupancies == b.all_occupancies
    &&& a.active_player == b.active_player
    &&& a.enpassant_square == b.enpassant_square
    &&& a.castling_ability == b.castling_ability
    &&& a.full_moves == b.full_moves
    &&& a.half_moves == b.half_moves
}

impl Position {
    /// Flips square `sq` of piece bitboard `p` and mixes that piece-square key into the hash.
    fn toggle_piece(&mut self, p: usize, sq: u8, keys: &ZobristKeys)
        requires
            p < 12,
            sq < 64,
            keys.wf(),
        ensures
            final(self).bitboards@ == old(self).bitboards@.update(
                p as int,
                Bitboard { bits: old(self).bb(p as int) ^ (1u64 << sq) },
            ),
            final(self).zobrist_hash ^ piece_hash(final(self).bbs(), 768) == old(self).zobrist_hash
                ^ piece_hash(old(self).bbs(), 768),
            same_but_pieces(*final(self), *old(self)),
            final(self).bbs() == toggled(old(self).bbs(), p as int, sq as int),
    {
        let ghost before = *self;
        let nb = Bitboard { bits: self.bitboards[p].bits ^ (1u64 << sq) };
        self.bitboards[p] = nb;
        let key = keys.piece[64 * p + sq as usize];
        self.zobrist_hash = self.zobrist_hash ^ key;
        proof {
            let ob = before.bbs();
            assert(self.bbs() =~= ob.update(p as int, ob[p as int] ^ (1u64 << sq)));
            lemma_piece_hash_toggle(ob, p as int, sq as u64, 768);
            let h = before.zobrist_hash;
            let ph = piece_hash(ob, 768);
            assert((h ^ key) ^ (ph ^ key) == h ^ ph) by (bit_vector);
        }
    }

    /// The first of the opponent's non-king bitboards that holds `to`, or 12 when none does.
    pub fn captured_piece(&self, to: u8, side: Color) -> (r: usize)
        requires
            to < 64,
        ensures
            r == first_holding(self.bbs(), to as u64, color_base(spec_opposite(side)), color_base(spec_opposite(side)) + 5),
            r == 12 || (color_base(spec_opposite(side)) <= r < color_base(spec_opposite(side)) + 5),
    {
        let start: usize = if side == Color::White { 6 } else { 0 };
        let mut p: usize = start;
        while p < start + 5
            invariant
                start == color_base(spec_opposite(side)),
                start <= p <= start + 5,
                to < 64,
                first_holding(self.bbs(), to as u64, start as int, start + 5) == first_holding(self.bbs(), to as u64, p as int, start + 5),
            decreases start + 5 - p,
        {
            proof {
                assert(self.bbs()[p as int] == self.bitboards@[p as int].bits);
            }
            if self.bitboards[p].bits & (1u64 << to) != 0 {
                return p;
            }
            p = p + 1;
        }
        12
    }

    /// Toggles square `sq` in the occupancy of `side`.
    fn toggle_occupancy(&mut self, side: Color, sq: u8)
        requires
            sq < 64,
        ensures
            final(self).bitboards == old(self).bitboards,
            final(self).zobrist_hash == old(self).zobrist_hash,
            final(self).active_player == old(self).active_player,
            final(self).enpassant_square == old(self).enpassant_square,
            final(self).castling_ability == old(self).castling_ability,
            final(self).full_moves == old(self).full_moves,
            final(self).half_moves == old(self).half_moves,
            side == Color::White ==> final(self).white_occupancies.bits == flip(old(self).white_occupancies.bits, sq as int)
                && final(self).black_occupancies == old(self).black_occupancies,
            side == Color::Black ==> final(self).black_occupancies.bits == flip(old(self).black_occupancies.bits, sq as int)
                && final(self).white_occupancies == old(self).white_occupancies,
    {
        if side == Color::White {
            self.white_occupancies = Bitboard { bits: self.white_occupancies.bits ^ (1u64 << sq) };
        } else {
            self.black_occupancies = Bitboard { bits: self.black_occupancies.bits ^ (1u64 << sq) };
        }
    }

    /// Moves the rook that accompanies a castling king of `side` landing on `to`.
    fn move_castling_rook(&mut self, to: u8, side: Color, keys: &ZobristKeys)
        requires
            to < 64,
            keys.wf(),
        ensures
            final(self).zobrist_hash ^ piece_hash(final(self).bbs(), 768) == old(self).zobrist_hash
                ^ piece_hash(old(self).bbs(), 768),
            final(self).active_player == old(self).active_player,
            final(self).enpassant_square == old(self).enpassant_square,
            final(self).castling_ability == old(self).castling_ability,
            final(self).full_moves == old(self).full_moves,
            final(self).half_moves == old(self).half_moves,
            ({
                let r = rook_squares(to as int);
                &&& final(self).bbs() == toggled(toggled(old(self).bbs(), r.0, r.1), r.0, r.2)
                &&& side == Color::White ==> final(self).white_occupancies.bits == (if r.0 < 12 {
                    flip(flip(old(self).white_occupancies.bits, r.1), r.2)
                } else {
                    old(self).white_occupancies.bits
                }) && final(self).black_occupancies == old(self).black_occupancies
                &&& side == Color::Black ==> final(self).black_occupancies.bits == (if r.0 < 12 {
                    flip(flip(old(self).black_occupancies.bits, r.1), r.2)
                } else {
                    old(self).black_occupancies.bits
                }) && final(self).white_occupancies == old(self).white_occupancies
            }),
    {
        let (r, rf, rt): (usize, u8, u8) = if to == 62 {
            (3, 63, 61)
        } else if to == 58 {
            (3, 56, 59)
        } else if to == 6 {
            (9, 7, 5)
        } else if to == 2 {
            (9, 0, 3)
        } else {
            (12, 0, 0)
        };
        if r < 12 {
            self.toggle_piece(r, rf, keys);
            self.toggle_piece(r, rt, keys);
            self.toggle_occupancy(side, rf);
            self.toggle_occupancy(side, rt);
        }
    }

    /// Plays `cmove`; see `make_move`.
    #[verifier::rlimit(60)]
    fn apply_move(&mut self, cmove: &Move, keys: &ZobristKeys) -> (r: bool)
        requires
            keys.wf(),
            old(self).wf(),
            move_in_range(*cmove, old(self).active_player),
        ensures
            final(self).wf(),
            r == !final(self).spec_in_check(old(self).active_player),
            final(self).active_player == spec_opposite(old(self).active_player),
            final(self).enpassant_square.index() == (if cmove.is_double_push {
                behind(cmove.to_sq as u64, old(self).active_player)
            } else {
                64
            }),
            final(self).castling_ability == old(self).castling_ability & castling_mask(cmove.from_sq as u64)
                & castling_mask(cmove.to_sq as u64),
            final(self).half_moves == (if cmove.piece.index() % 6 == 0 || cmove.is_capture {
                0u8
            } else if old(self).half_moves < 255 {
                (old(self).half_moves + 1) as u8
            } else {
                255u8
            }),
            final(self).full_moves == (if old(self).active_player == Color::Black && old(self).full_moves
                < 65535 {
                (old(self).full_moves + 1) as u16
            } else {
                old(self).full_moves
            }),
            final(self).all_occupancies.bits == final(self).white_occupancies.bits
                | final(self).black_occupancies.bits,
            final(self).bbs() == moved_bbs(*old(self), *cmove),
            final(self).white_occupancies.bits == (if old(self).active_player == Color::White {
                moved_own(*old(self), *cmove)
            } else {
                moved_opp(*old(self), *cmove)
            }),
            final(self).black_occupancies.bits == (if old(self).active_player == Color::Black {
                moved_own(*old(self), *cmove)
            } else {
                moved_opp(*old(self), *cmove)
            }),
    {
        let ghost start = *self;
        let ghost rest = self.zobrist_hash ^ piece_hash(self.bbs(), 768);
        let from = cmove.from_sq;
        let to = cmove.to_sq;
        let piece = cmove.piece.to_index() as usize;
        let side = self.active_player;
        let opponent = opposite_color(side);

        let victim = self.captured_piece(to, side);

        self.toggle_piece(piece, from, keys);
        self.toggle_piece(piece, to, keys);
        self.toggle_occupancy(side, from);
        self.toggle_occupancy(side, to);

        if cmove.is_capture {
            if cmove.is_enpassant {
                let victim_sq: u8 = if side == Color::White { to + 8 } else { to - 8 };
                let pawn: usize = if side == Color::White { 6 } else { 0 };
                self.toggle_piece(pawn, victim_sq, keys);
                self.toggle_occupancy(opponent, victim_sq);
            } else {
                if victim < 12 {
                    self.toggle_piece(victim, to, keys);
                    self.toggle_occupancy(opponent, to);
                }
            }
        }

        let promotion = cmove.promotion.to_index() as usize;
        if promotion < 12 {
            self.toggle_piece(piece, to, keys);
            self.toggle_piece(promotion, to, keys);
        } else if cmove.is_castling {
            self.move_castling_rook(to, side, keys);
        }
        self.all_occupancies = Bitboard { bits: self.white_occupancies.bits | self.black_occupancies.bits };

        if piece == 0 || piece == 6 || cmove.is_capture {
            self.half_moves = 0;
        } else if self.half_moves < 255 {
            self.half_moves = self.half_moves + 1;
        }

        let old_castle_key = keys.castle[self.castling_ability as usize];
        let old_ep = self.enpassant_square.to_u8();
        let old_ep_key: u64 = if old_ep < 64 { keys.enpassant[old_ep as usize] } else { 0 };

        if cmove.is_double_push {
            let ep: u8 = if side == Color::White { to + 8 } else { to - 8 };
            self.enpassant_square = Square::from_u8(ep);
        } else {
            self.enpassant_square = Square::NoSquare;
        }
        let new_ep = self.enpassant_square.to_u8();
        let new_ep_key: u64 = if new_ep < 64 { keys.enpassant[new_ep as usize] } else { 0 };

        let c0 = self.castling_ability;
        self.castling_ability = c0 & castling_rights_mask(to) & castling_rights_mask(from);
        proof {
            let m1 = castling_mask(to as u64);
            let m2 = castling_mask(from as u64);
            assert(c0 & m1 & m2 == c0 & m2 & m1) by (bit_vector);
            assert(c0 < 16 ==> c0 & m1 & m2 < 16) by (bit_vector);
        }
        let new_castle_key = keys.castle[self.castling_ability as usize];

        if side == Color::Black && self.full_moves < 65535 {
            self.full_moves = self.full_moves + 1;
        }
        self.active_player = opponent;
        let ghost hb = self.zobrist_hash;
        self.zobrist_hash = self.zobrist_hash ^ old_castle_key ^ old_ep_key ^ new_castle_key ^ new_ep_key ^ keys.side;
        proof {
            let h0 = start.zobrist_hash;
            let p0 = piece_hash(start.bbs(), 768);
            let p1 = piece_hash(self.bbs(), 768);
            let sk = random64(SIDE_SEED).0;
            let s0: u64 = if start.active_player == Color::Black { sk } else { 0u64 };
            let s1: u64 = if self.active_player == Color::Black { sk } else { 0u64 };
            assert(s1 == s0 ^ sk) by {
                lemma_xor_algebra(sk, sk, 0);
                lemma_xor_algebra(0, sk, 0);
                assert(sk ^ sk == 0) by (bit_vector);
                assert(0u64 ^ sk == sk) by (bit_vector);
            }
            let h = self.zobrist_hash;
            assert(hb ^ p1 == h0 ^ p0);
            assert(h0 == p0 ^ old_castle_key ^ s0 ^ old_ep_key);
            assert(h == p1 ^ new_castle_key ^ s1 ^ new_ep_key) by (bit_vector)
                requires
                    h0 == p0 ^ old_castle_key ^ s0 ^ old_ep_key,
                    hb ^ p1 == h0 ^ p0,
                    s1 == s0 ^ sk,
                    h == hb ^ old_castle_key ^ old_ep_key ^ new_castle_key ^ new_ep_key ^ sk,
            ;
        }
        !self.is_in_check(side)
    }

    /// Plays `cmove` for the side to move and tells whether it was legal, that is whether the
    /// mover's king is not attacked afterwards. An illegal result leaves a position that the
    /// caller discards, or takes back with `unmake_move` (the search plays moves on copies).
    pub fn make_move(&mut self, cmove: &Move, keys: &ZobristKeys) -> (r: bool)
        requires
            keys.wf(),
            old(self).wf(),
            move_in_range(*cmove, old(self).active_player),
        ensures
            final(self).wf(),
            r == !final(self).spec_in_check(old(self).active_player),
            final(self).active_player == spec_opposite(old(self).active_player),
            final(self).enpassant_square.index() == (if cmove.is_double_push {
                behind(cmove.to_sq as u64, old(self).active_player)
            } else {
                64
            }),
            final(self).castling_ability == old(self).castling_ability & castling_mask(cmove.from_sq as u64)
                & castling_mask(cmove.to_sq as u64),
            final(self).half_moves == (if cmove.piece.index() % 6 == 0 || cmove.is_capture {
                0u8
            } else if old(self).half_moves < 255 {
                (old(self).half_moves + 1) as u8
            } else {
                255u8
            }),
            final(self).full_moves == (if old(self).active_player == Color::Black && old(self).full_moves
                < 65535 {
                (old(self).full_moves + 1) as u16
            } else {
                old(self).full_moves
            }),
            final(self).all_occupancies.bits == final(self).white_occupancies.bits
                | final(self).black_occupancies.bits,
            old(self).occupancy_ok() && crate::occupancy::move_fits(*old(self), *cmove)
                ==> final(self).occupancy_ok(),
            r == crate::occupancy::legal_after(*old(self), *cmove),
            final(self).bbs() == moved_bbs(*old(self), *cmove),
            final(self).white_occupancies.bits == (if old(self).active_player == Color::White {
                moved_own(*old(self), *cmove)
            } else {
                moved_opp(*old(self), *cmove)
            }),
            final(self).black_occupancies.bits == (if old(self).active_player == Color::Black {
                moved_own(*old(self), *cmove)
            } else {
                moved_opp(*old(self), *cmove)
            }),
    {
        let ghost start = *self;
        let r = self.apply_move(cmove, keys);
        proof {
            if start.occupancy_ok() && crate::occupancy::move_fits(start, *cmove) {
                assert(made(start, *cmove, *self));
                crate::occupancy::lemma_occupancy_preserved(start, *cmove, *self);
            }
        }
        r
    }

    /// Passes the turn: the side to move flips and the en-passant square is cleared, with the
    /// hash kept in step.
    pub fn make_null_move(&mut self, keys: &ZobristKeys)
        requires
            keys.wf(),
            old(self).wf(),
        ensures
            final(self).wf(),
            final(self).bitboards == old(self).bitboards,
            final(self).active_player == spec_opposite(old(self).active_player),
            final(self).enpassant_square == Square::NoSquare,
            final(self).castling_ability == old(self).castling_ability,
            final(self).all_occupancies == old(self).all_occupancies,
            final(self).white_occupancies == old(self).white_occupancies,
            final(self).black_occupancies == old(self).black_occupancies,
            final(self).half_moves == old(self).half_moves,
    {
        let ghost start = *self;
        let ep = self.enpassant_square.to_u8();
        let ep_key: u64 = if ep < 64 { keys.enpassant[ep as usize] } else { 0 };
        self.active_player = opposite_color(self.active_player);
        self.enpassant_square = Square::NoSquare;
        self.zobrist_hash = self.zobrist_hash ^ keys.side ^ ep_key;
        proof {
            let p0 = piece_hash(start.bbs(), 768);
            assert(self.bbs() == start.bbs());
            let c = nth_key(CASTLE_SEED, start.castling_ability as nat);
            let sk = random64(SIDE_SEED).0;
            let s0: u64 = if start.active_player == Color::Black { sk } else { 0u64 };
            let s1: u64 = if self.active_player == Color::Black { sk } else { 0u64 };
            assert(s1 == s0 ^ sk) by {
                assert(sk ^ sk == 0) by (bit_vector);
                assert(0u64 ^ sk == sk) by (bit_vector);
            }
            let h0 = start.zobrist_hash;
            let h = self.zobrist_hash;
            assert(h == p0 ^ c ^ s1 ^ 0u64) by (bit_vector)
                requires
                    h0 == p0 ^ c ^ s0 ^ ep_key,
                    s1 == s0 ^ sk,
                    h == h0 ^ sk ^ ep_key,
            ;
        }
    }

    /// What `unmake_move` needs to take `cmove` back: the captured piece and the fields a move
    /// overwrites.
    pub fn undo_info(&self, cmove: &Move) -> (r: Undo)
        requires
            cmove.to_sq < 64,
        ensures
            r == undo_of(*self, *cmove),
    {
        let captured = self.captured_piece(cmove.to_sq, self.active_player);
        Undo {
            captured,
            enpassant_square: self.enpassant_square,
            castling_ability: self.castling_ability,
            full_moves: self.full_moves,
            half_moves: self.half_moves,
            zobrist_hash: self.zobrist_hash,
        }
    }

    /// Takes back `cmove`, played from the position that `undo` was taken of.
    pub fn unmake_move(&mut self, cmove: &Move, undo: &Undo, keys: &ZobristKeys)
        requires
            keys.wf(),
            move_in_range(*cmove, spec_opposite(old(self).active_player)),
            undo.captured <= 12,
        ensures
            final(self).active_player == spec_opposite(old(self).active_player),
            final(self).bbs() == unmoved_bbs(old(self).bbs(), *cmove, final(self).active_player, undo.captured as int),
            final(self).white_occupancies.bits == (if final(self).active_player == Color::White {
                unmoved_own(old(self).white_occupancies.bits, *cmove)
            } else {
                unmoved_opp(old(self).white_occupancies.bits, *cmove, final(self).active_player, undo.captured as int)
            }),
            final(self).black_occupancies.bits == (if final(self).active_player == Color::Black {
                unmoved_own(old(self).black_occupancies.bits, *cmove)
            } else {
                unmoved_opp(old(self).black_occupancies.bits, *cmove, final(self).active_player, undo.captured as int)
            }),
            final(self).all_occupancies.bits == final(self).white_occupancies.bits | final(self).black_occupancies.bits,
            final(self).enpassant_square == undo.enpassant_square,
            final(self).castling_ability == undo.castling_ability,
            final(self).full_moves == undo.full_moves,
            final(self).half_moves == undo.half_moves,
            final(self).zobrist_hash == undo.zobrist_hash,
            unmade(*old(self), *cmove, *undo, *final(self)),
    {
        let side = opposite_color(self.active_player);
        let opponent = self.active_player;
        let from = cmove.from_sq;
        let to = cmove.to_sq;
        let piece = cmove.piece.to_index() as usize;
        let promotion = cmove.promotion.to_index() as usize;
        if promotion < 12 {
            self.toggle_piece(promotion, to, keys);
            self.toggle_piece(piece, to, keys);
        } else if cmove.is_castling {
            let (r, rf, rt): (usize, u8, u8) = if to == 62 {
                (3, 63, 61)
            } else if to == 58 {
                (3, 56, 59)
            } else if to == 6 {
                (9, 7, 5)
            } else if to == 2 {
                (9, 0, 3)
            } else {
                (12, 0, 0)
            };
            if r < 12 {
                self.toggle_occupancy(side, rt);
                self.toggle_occupancy(side, rf);
                self.toggle_piece(r, rt, keys);
                self.toggle_piece(r, rf, keys);
            }
        }
        if cmove.is_capture {
            if cmove.is_enpassant {
                let victim_sq: u8 = if side == Color::White { to + 8 } else { to - 8 };
                let pawn: usize = if side == Color::White { 6 } else { 0 };
                self.toggle_occupancy(opponent, victim_sq);
                self.toggle_piece(pawn, victim_sq, keys);
            } else if undo.captured < 12 {
                self.toggle_occupancy(opponent, to);
                self.toggle_piece(undo.captured, to, keys);
            }
        }
        self.toggle_occupancy(side, to);
        self.toggle_occupancy(side, from);
        self.toggle_piece(piece, to, keys);
        self.toggle_piece(piece, from, keys);
        self.all_occupancies = Bitboard { bits: self.white_occupancies.bits | self.black_occupancies.bits };
        self.active_player = side;
        self.enpassant_square = undo.enpassant_square;
        self.castling_ability = undo.castling_ability;
        self.full_moves = undo.full_moves;
        self.half_moves = undo.half_moves;
        self.zobrist_hash = undo.zobrist_hash;
    }
}

} // verus!
