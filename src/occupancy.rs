use vstd::prelude::*;
use crate::definitions::Move;
use crate::make_move::{behind, captured_on, flip, made, moved_bbs, moved_own, moved_opp, move_in_range, rook_squares,
    toggled, first_holding};
use crate::position::{Position, bit_at, color_base, spec_opposite, occupancy_words_ok, in_check_in};
use crate::definitions::Color;

verus! {

/// Bitboard `p` of `s` holds square `sq`.
pub open spec fn holds(s: Seq<u64>, p: int, sq: int) -> bool {
    bit_at(s[p], sq as u64)
}

/// Occupancy at one square: at most one piece bitboard holds it, and it is in the white
/// (black) occupancy exactly when a white (black) piece holds it.
pub open spec fn square_ok(s: Seq<u64>, w: u64, b: u64, sq: int) -> bool {
    &&& forall|p: int, q: int| 0 <= p < q < 12 ==> !(#[trigger] holds(s, p, sq) && #[trigger] holds(s, q, sq))
    &&& bit_at(w, sq as u64) == exists|p: int| 0 <= p < 6 && #[trigger] holds(s, p, sq)
    &&& bit_at(b, sq as u64) == exists|p: int| 6 <= p < 12 && #[trigger] holds(s, p, sq)
}

pub open spec fn board_ok(s: Seq<u64>, w: u64, b: u64) -> bool {
    s.len() == 12 && forall|sq: int| 0 <= sq < 64 ==> #[trigger] square_ok(s, w, b, sq)
}

proof fn lemma_bit_ops(x: u64, y: u64, sq: u64)
    requires
        sq < 64,
    ensures
        bit_at(x & y, sq) == (bit_at(x, sq) && bit_at(y, sq)),
        bit_at(x | y, sq) == (bit_at(x, sq) || bit_at(y, sq)),
        bit_at(x ^ y, sq) == (bit_at(x, sq) != bit_at(y, sq)),
        !bit_at(0, sq),
{
    assert(bit_at(x & y, sq) == (bit_at(x, sq) && bit_at(y, sq))) by (bit_vector)
        requires
            sq < 64,
    ;
    assert(bit_at(x | y, sq) == (bit_at(x, sq) || bit_at(y, sq))) by (bit_vector)
        requires
            sq < 64,
    ;
    assert(bit_at(x ^ y, sq) == (bit_at(x, sq) != bit_at(y, sq))) by (bit_vector)
        requires
            sq < 64,
    ;
    assert(!bit_at(0, sq)) by (bit_vector);
}

/// A word with no set bit among its 64 is zero.
proof fn lemma_zero_ext(x: u64)
    requires
        forall|sq: int| 0 <= sq < 64 ==> !#[trigger] bit_at(x, sq as u64),
    ensures
        x == 0,
{
    if x != 0 {
        vstd::std_specs::bits::axiom_u64_trailing_zeros(x);
        let k = vstd::std_specs::bits::u64_trailing_zeros(x) as u64;
        assert(bit_at(x, k));
    }
}

/// Two words that agree on all 64 bits are equal.
proof fn lemma_eq_ext(x: u64, y: u64)
    requires
        forall|sq: int| 0 <= sq < 64 ==> #[trigger] bit_at(x, sq as u64) == bit_at(y, sq as u64),
    ensures
        x == y,
{
    assert forall|sq: int| 0 <= sq < 64 implies !#[trigger] bit_at(x ^ y, sq as u64) by {
        lemma_bit_ops(x, y, sq as u64);
    }
    lemma_zero_ext(x ^ y);
    assert(x ^ y == 0 ==> x == y) by (bit_vector);
}

proof fn lemma_or6_bit(s: Seq<u64>, base: int, sq: int)
    requires
        s.len() == 12,
        base == 0 || base == 6,
        0 <= sq < 64,
    ensures
        bit_at(s[base] | s[base + 1] | s[base + 2] | s[base + 3] | s[base + 4] | s[base + 5], sq as u64)
            == exists|p: int| base <= p < base + 6 && #[trigger] holds(s, p, sq),
{
    let x0 = s[base];
    let x1 = s[base + 1];
    let x2 = s[base + 2];
    let x3 = s[base + 3];
    let x4 = s[base + 4];
    let x5 = s[base + 5];
    let k = sq as u64;
    lemma_bit_ops(x0, x1, k);
    lemma_bit_ops(x0 | x1, x2, k);
    lemma_bit_ops(x0 | x1 | x2, x3, k);
    lemma_bit_ops(x0 | x1 | x2 | x3, x4, k);
    lemma_bit_ops(x0 | x1 | x2 | x3 | x4, x5, k);
    if exists|p: int| base <= p < base + 6 && #[trigger] holds(s, p, sq) {
        let p = choose|p: int| base <= p < base + 6 && #[trigger] holds(s, p, sq);
        assert(p == base || p == base + 1 || p == base + 2 || p == base + 3 || p == base + 4 || p == base + 5);
    }
    if bit_at(x0 | x1 | x2 | x3 | x4 | x5, k) {
        if bit_at(x0, k) {
            assert(holds(s, base, sq));
        } else if bit_at(x1, k) {
            assert(holds(s, base + 1, sq));
        } else if bit_at(x2, k) {
            assert(holds(s, base + 2, sq));
        } else if bit_at(x3, k) {
            assert(holds(s, base + 3, sq));
        } else if bit_at(x4, k) {
            assert(holds(s, base + 4, sq));
        } else {
            assert(holds(s, base + 5, sq));
        }
    }
}

/// The word-level occupancy invariant holds exactly when it holds square by square.
pub proof fn lemma_occupancy_by_square(s: Seq<u64>, w: u64, b: u64, a: u64)
    requires
        s.len() == 12,
        a == w | b,
    ensures
        occupancy_words_ok(s, w, b, a) <==> board_ok(s, w, b),
{
    let w6 = s[0] | s[1] | s[2] | s[3] | s[4] | s[5];
    let b6 = s[6] | s[7] | s[8] | s[9] | s[10] | s[11];
    if occupancy_words_ok(s, w, b, a) {
        assert forall|sq: int| 0 <= sq < 64 implies #[trigger] square_ok(s, w, b, sq) by {
            lemma_or6_bit(s, 0, sq);
            lemma_or6_bit(s, 6, sq);
            assert forall|p: int, q: int| 0 <= p < q < 12 implies !(#[trigger] holds(s, p, sq) && #[trigger] holds(
                s,
                q,
                sq,
            )) by {
                lemma_bit_ops(s[p], s[q], sq as u64);
                assert(s[p] & s[q] == 0);
                lemma_bit_ops(0, 0, sq as u64);
            }
        }
    }
    if board_ok(s, w, b) {
        assert forall|p: int, q: int| 0 <= p < q < 12 implies #[trigger] s[p] & #[trigger] s[q] == 0 by {
            assert forall|sq: int| 0 <= sq < 64 implies !#[trigger] bit_at(s[p] & s[q], sq as u64) by {
                assert(square_ok(s, w, b, sq));
                lemma_bit_ops(s[p], s[q], sq as u64);
                assert(!(holds(s, p, sq) && holds(s, q, sq)));
            }
            lemma_zero_ext(s[p] & s[q]);
        }
        assert forall|sq: int| 0 <= sq < 64 implies #[trigger] bit_at(w, sq as u64) == bit_at(w6, sq as u64) by {
            assert(square_ok(s, w, b, sq));
            lemma_or6_bit(s, 0, sq);
        }
        lemma_eq_ext(w, w6);
        assert forall|sq: int| 0 <= sq < 64 implies #[trigger] bit_at(b, sq as u64) == bit_at(b6, sq as u64) by {
            assert(square_ok(s, w, b, sq));
            lemma_or6_bit(s, 6, sq);
        }
        lemma_eq_ext(b, b6);
        assert forall|sq: int| 0 <= sq < 64 implies !#[trigger] bit_at(w & b, sq as u64) by {
            assert(square_ok(s, w, b, sq));
            lemma_bit_ops(w, b, sq as u64);
            if bit_at(w, sq as u64) && bit_at(b, sq as u64) {
                let p = choose|p: int| 0 <= p < 6 && #[trigger] holds(s, p, sq);
                let q = choose|q: int| 6 <= q < 12 && #[trigger] holds(s, q, sq);
                assert(!(holds(s, p, sq) && holds(s, q, sq)));
            }
        }
        lemma_zero_ext(w & b);
    }
}

/// `m` fits `pos`: the mover stands on its origin; a capture (en passant aside) finds an
/// opponent piece other than the king on the target, any other move an empty target; an
/// en-passant capture finds an opponent pawn behind the target; a promotion is a pawn of the
/// mover becoming one of its knight, bishop, rook or queen; a castling move finds its own rook
/// at home and the rook's target empty, on squares apart from the king's.
pub open spec fn move_fits(pos: Position, m: Move) -> bool {
    let side = pos.active_player;
    let s = pos.bbs();
    let p = m.piece.index();
    let f = m.from_sq as int;
    let t = m.to_sq as int;
    let ob = color_base(spec_opposite(side));
    let promo = m.promotion.index();
    let r = rook_squares(t);
    &&& move_in_range(m, side)
    &&& f != t
    &&& holds(s, p, f)
    &&& (m.is_capture && !m.is_enpassant) ==> captured_on(pos, m) < 12
    &&& !(m.is_capture && !m.is_enpassant) ==> !bit_at(pos.all_occupancies.bits, t as u64)
    &&& (m.is_capture && m.is_enpassant) ==> holds(s, ob, behind(t as u64, side)) && behind(t as u64, side) != f
        && promo >= 12
    &&& promo < 12 ==> p == color_base(side) && color_base(side) + 1 <= promo <= color_base(side) + 4
    &&& (promo >= 12 && m.is_castling && r.0 < 12) ==> !m.is_capture && r.0 == color_base(side) + 3 && holds(
        s,
        r.0,
        r.1,
    ) && !bit_at(pos.all_occupancies.bits, r.2 as u64) && r.1 != f && r.1 != t && r.2 != f && r.2 != t
}

proof fn lemma_holds_toggled(s: Seq<u64>, q: int, t: int, p: int, sq: int)
    requires
        s.len() == 12,
        0 <= p < 12,
        0 <= sq < 64,
    ensures
        toggled(s, q, t).len() == 12,
        holds(toggled(s, q, t), p, sq) == (holds(s, p, sq) != (p == q && sq == t && 0 <= t < 64)),
{
    if 0 <= q < 12 && 0 <= t < 64 && p == q {
        let x = s[p];
        let a = t as u64;
        let k = sq as u64;
        assert(bit_at(x ^ (1u64 << a), k) == (bit_at(x, k) != (k == a))) by (bit_vector)
            requires
                a < 64,
                k < 64,
        ;
    }
}

proof fn lemma_bit_flip(x: u64, a: int, sq: int)
    requires
        0 <= a < 64,
        0 <= sq < 64,
    ensures
        bit_at(flip(x, a), sq as u64) == (bit_at(x, sq as u64) != (sq == a)),
{
    let b = a as u64;
    let k = sq as u64;
    assert(bit_at(x ^ (1u64 << b), k) == (bit_at(x, k) != (k == b))) by (bit_vector)
        requires
            b < 64,
            k < 64,
    ;
}

proof fn lemma_first_holding_holds(s: Seq<u64>, to: u64, p: int, end: int)
    requires
        0 <= p,
        end <= s.len(),
        to < 64,
    ensures
        first_holding(s, to, p, end) == 12 || (p <= first_holding(s, to, p, end) < end && holds(
            s,
            first_holding(s, to, p, end),
            to as int,
        )),
    decreases end - p,
{
    if p < end {
        let x = s[p];
        assert((x & (1u64 << to) != 0) == bit_at(x, to)) by (bit_vector)
            requires
                to < 64,
        ;
        if x & (1u64 << to) == 0 {
            lemma_first_holding_holds(s, to, p + 1, end);
        }
    }
}

/// The white and black occupancies after `m`.
pub open spec fn moved_white(pos: Position, m: Move) -> u64 {
    if pos.active_player == Color::White { moved_own(pos, m) } else { moved_opp(pos, m) }
}

pub open spec fn moved_black(pos: Position, m: Move) -> u64 {
    if pos.active_player == Color::Black { moved_own(pos, m) } else { moved_opp(pos, m) }
}

/// Playing `m` leaves the mover's king unattacked: `m` is legal once it fits the position.
pub open spec fn legal_after(pos: Position, m: Move) -> bool {
    !in_check_in(moved_bbs(pos, m), moved_white(pos, m) | moved_black(pos, m), pos.active_player)
}

#[verifier::rlimit(60)]
proof fn lemma_square_after_move(pos: Position, m: Move, sq: int)
    requires
        board_ok(pos.bbs(), pos.white_occupancies.bits, pos.black_occupancies.bits),
        pos.all_occupancies.bits == pos.white_occupancies.bits | pos.black_occupancies.bits,
        move_fits(pos, m),
        0 <= sq < 64,
    ensures
        square_ok(moved_bbs(pos, m), moved_white(pos, m), moved_black(pos, m), sq),
{
    let s = pos.bbs();
    let w = pos.white_occupancies.bits;
    let b = pos.black_occupancies.bits;
    let side = pos.active_player;
    let pc = m.piece.index();
    let f = m.from_sq as int;
    let t = m.to_sq as int;
    let ob = color_base(spec_opposite(side));
    let promo = m.promotion.index();
    let r = rook_squares(t);
    let castles = promo >= 12 && m.is_castling && r.0 < 12;
    let ep = m.is_capture && m.is_enpassant;
    let capn = m.is_capture && !m.is_enpassant;
    let e = behind(t as u64, side);
    let c = captured_on(pos, m);
    assert(square_ok(s, w, b, sq));
    let has = exists|p: int| 0 <= p < 12 && #[trigger] holds(s, p, sq);
    let op: int = if has { choose|p: int| 0 <= p < 12 && #[trigger] holds(s, p, sq) } else { 12 };
    assert forall|p: int| 0 <= p < 12 implies #[trigger] holds(s, p, sq) == (p == op) by {
        if holds(s, p, sq) && p != op {
            if p < op {
                assert(!(holds(s, p, sq) && holds(s, op, sq)));
            } else {
                assert(!(holds(s, op, sq) && holds(s, p, sq)));
            }
        }
    }
    assert(bit_at(w, sq as u64) == (op < 6)) by {
        if op < 6 {
            assert(holds(s, op, sq));
        }
    }
    assert(bit_at(b, sq as u64) == (6 <= op < 12)) by {
        if 6 <= op < 12 {
            assert(holds(s, op, sq));
        }
    }
    if capn {
        lemma_first_holding_holds(s, t as u64, ob, ob + 5);
    }
    if !capn && sq == t {
        lemma_bit_ops(w, b, sq as u64);
        assert(op == 12);
    }
    if castles && sq == r.2 {
        lemma_bit_ops(w, b, sq as u64);
        assert(op == 12);
    }
    let np: int = if sq == f {
        12
    } else if sq == t {
        if promo < 12 { promo } else { pc }
    } else if ep && sq == e {
        12
    } else if castles && sq == r.1 {
        12
    } else if castles && sq == r.2 {
        r.0
    } else {
        op
    };
    let s1a = toggled(s, pc, f);
    let s1 = toggled(s1a, pc, t);
    let s2 = if m.is_capture {
        if m.is_enpassant {
            toggled(s1, ob, e)
        } else {
            toggled(s1, c, t)
        }
    } else {
        s1
    };
    let s3 = moved_bbs(pos, m);
    assert forall|p: int| 0 <= p < 12 implies #[trigger] holds(s3, p, sq) == (p == np) by {
        lemma_holds_toggled(s, pc, f, p, sq);
        lemma_holds_toggled(s1a, pc, t, p, sq);
        lemma_holds_toggled(s1, ob, e, p, sq);
        lemma_holds_toggled(s1, c, t, p, sq);
        lemma_holds_toggled(s2, pc, t, p, sq);
        lemma_holds_toggled(toggled(s2, pc, t), promo, t, p, sq);
        lemma_holds_toggled(s2, r.0, r.1, p, sq);
        lemma_holds_toggled(toggled(s2, r.0, r.1), r.0, r.2, p, sq);
    }
    lemma_holds_toggled(s, pc, f, 0, sq);
    lemma_holds_toggled(s1a, pc, t, 0, sq);
    lemma_holds_toggled(s2, pc, t, 0, sq);
    lemma_holds_toggled(s2, r.0, r.1, 0, sq);
    assert(s3.len() == 12);
    assert forall|p: int, q: int| 0 <= p < q < 12 implies !(#[trigger] holds(s3, p, sq) && #[trigger] holds(
        s3,
        q,
        sq,
    )) by {}

    let own = if side == Color::White { w } else { b };
    let opp = if side == Color::White { b } else { w };
    lemma_bit_flip(own, f, sq);
    lemma_bit_flip(flip(own, f), t, sq);
    let o1 = flip(flip(own, f), t);
    if castles {
        lemma_bit_flip(o1, r.1, sq);
        lemma_bit_flip(flip(o1, r.1), r.2, sq);
    }
    if ep {
        lemma_bit_flip(opp, e, sq);
    }
    if capn && c < 12 {
        lemma_bit_flip(opp, t, sq);
    }
    let w2 = moved_white(pos, m);
    let b2 = moved_black(pos, m);
    assert(bit_at(w2, sq as u64) == (np < 6));
    assert(bit_at(b2, sq as u64) == (6 <= np < 12));
    assert(bit_at(w2, sq as u64) == exists|p: int| 0 <= p < 6 && #[trigger] holds(s3, p, sq)) by {
        if np < 6 {
            assert(holds(s3, np, sq));
        }
    }
    assert(bit_at(b2, sq as u64) == exists|p: int| 6 <= p < 12 && #[trigger] holds(s3, p, sq)) by {
        if 6 <= np < 12 {
            assert(holds(s3, np, sq));
        }
    }
}

/// Every move that fits the position keeps the occupancy invariant: for each color the six
/// piece bitboards stay pairwise disjoint and their union stays that color's occupancy, the
/// two occupancies stay disjoint, and `all` stays their union.
pub proof fn lemma_occupancy_preserved(pos: Position, m: Move, after: Position)
    requires
        pos.occupancy_ok(),
        move_fits(pos, m),
        made(pos, m, after),
    ensures
        after.occupancy_ok(),
{
    let w = pos.white_occupancies.bits;
    let b = pos.black_occupancies.bits;
    lemma_occupancy_by_square(pos.bbs(), w, b, pos.all_occupancies.bits);
    assert(after.bbs() == moved_bbs(pos, m));
    assert(after.white_occupancies.bits == moved_white(pos, m));
    assert(after.black_occupancies.bits == moved_black(pos, m));
    assert forall|sq: int| 0 <= sq < 64 implies #[trigger] square_ok(
        after.bbs(),
        after.white_occupancies.bits,
        after.black_occupancies.bits,
        sq,
    ) by {
        lemma_square_after_move(pos, m, sq);
    }
    lemma_occupancy_by_square(
        after.bbs(),
        after.white_occupancies.bits,
        after.black_occupancies.bits,
        after.all_occupancies.bits,
    );
}

/// The empty board satisfies the occupancy invariant.
pub proof fn lemma_empty_board_ok(s: Seq<u64>)
    requires
        s.len() == 12,
        forall|p: int| 0 <= p < 12 ==> s[p] == 0,
    ensures
        board_ok(s, 0, 0),
{
    assert forall|sq: int| 0 <= sq < 64 implies #[trigger] square_ok(s, 0, 0, sq) by {
        lemma_bit_ops(0, 0, sq as u64);
        assert forall|p: int| 0 <= p < 12 implies !#[trigger] holds(s, p, sq) by {
            lemma_bit_ops(0, 0, sq as u64);
        }
    }
}

/// Putting piece `idx` on an empty square `sq` keeps the occupancy invariant.
pub proof fn lemma_place_piece(s: Seq<u64>, w: u64, b: u64, idx: int, sq: int)
    requires
        board_ok(s, w, b),
        0 <= idx < 12,
        0 <= sq < 64,
        !bit_at(w | b, sq as u64),
    ensures
        board_ok(
            s.update(idx, s[idx] | (1u64 << (sq as u64))),
            if idx < 6 { w | (1u64 << (sq as u64)) } else { w },
            if idx < 6 { b } else { b | (1u64 << (sq as u64)) },
        ),
{
    let bit = 1u64 << (sq as u64);
    let s2 = s.update(idx, s[idx] | bit);
    let w2 = if idx < 6 { w | bit } else { w };
    let b2 = if idx < 6 { b } else { b | bit };
    assert forall|k: int| 0 <= k < 64 implies #[trigger] square_ok(s2, w2, b2, k) by {
        assert(square_ok(s, w, b, k));
        let a = sq as u64;
        let kk = k as u64;
        assert forall|x: u64| #[trigger] bit_at(x | (1u64 << a), kk) == (bit_at(x, kk) || kk == a) by {
            assert(bit_at(x | (1u64 << a), kk) == (bit_at(x, kk) || kk == a)) by (bit_vector)
                requires
                    a < 64,
                    kk < 64,
            ;
        }
        assert forall|p: int| 0 <= p < 12 implies #[trigger] holds(s2, p, k) == (holds(s, p, k) || (p == idx
            && k == sq)) by {
            assert(bit_at(s[p] | (1u64 << a), kk) == (bit_at(s[p], kk) || kk == a));
        }
        assert(bit_at(w2, kk) == (bit_at(w, kk) || (idx < 6 && k == sq)));
        assert(bit_at(b2, kk) == (bit_at(b, kk) || (idx >= 6 && k == sq)));
        if k == sq {
            lemma_bit_ops(w, b, a);
            assert forall|p: int| 0 <= p < 12 implies !#[trigger] holds(s, p, k) by {
                if holds(s, p, k) {
                    if p < 6 {
                        assert(exists|q: int| 0 <= q < 6 && #[trigger] holds(s, q, k));
                    } else {
                        assert(exists|q: int| 6 <= q < 12 && #[trigger] holds(s, q, k));
                    }
                }
            }
            assert(holds(s2, idx, k));
            assert forall|p: int| 0 <= p < 12 implies #[trigger] holds(s2, p, k) == (p == idx) by {}
            if idx < 6 {
                assert(exists|q: int| 0 <= q < 6 && #[trigger] holds(s2, q, k));
            } else {
                assert(exists|q: int| 6 <= q < 12 && #[trigger] holds(s2, q, k));
            }
        } else {
            assert forall|p: int| 0 <= p < 12 implies #[trigger] holds(s2, p, k) == holds(s, p, k) by {}
            if exists|q: int| 0 <= q < 6 && #[trigger] holds(s, q, k) {
                let q = choose|q: int| 0 <= q < 6 && #[trigger] holds(s, q, k);
                assert(holds(s2, q, k));
            }
            if exists|q: int| 0 <= q < 6 && #[trigger] holds(s2, q, k) {
                let q = choose|q: int| 0 <= q < 6 && #[trigger] holds(s2, q, k);
                assert(holds(s, q, k));
            }
            if exists|q: int| 6 <= q < 12 && #[trigger] holds(s, q, k) {
                let q = choose|q: int| 6 <= q < 12 && #[trigger] holds(s, q, k);
                assert(holds(s2, q, k));
            }
            if exists|q: int| 6 <= q < 12 && #[trigger] holds(s2, q, k) {
                let q = choose|q: int| 6 <= q < 12 && #[trigger] holds(s2, q, k);
                assert(holds(s, q, k));
            }
        }
    }
}

/// Setting bit `a` of `x` leaves every other bit as it was.
pub proof fn lemma_bit_or_single(x: u64, a: int, k: int)
    requires
        0 <= a < 64,
        0 <= k < 64,
    ensures
        bit_at(x | (1u64 << (a as u64)), k as u64) == (bit_at(x, k as u64) || k == a),
{
    let aa = a as u64;
    let kk = k as u64;
    assert(bit_at(x | (1u64 << aa), kk) == (bit_at(x, kk) || kk == aa)) by (bit_vector)
        requires
            aa < 64,
            kk < 64,
    ;
}

proof fn lemma_holds_mask(x: u64, sq: u64)
    requires
        sq < 64,
    ensures
        bit_at(x, sq) == (x & (1u64 << sq) != 0),
{
    assert(bit_at(x, sq) == (x & (1u64 << sq) != 0)) by (bit_vector)
        requires
            sq < 64,
    ;
}

/// Checks at run time what `move_fits` states.
pub fn move_fits_check(pos: &Position, m: &Move) -> (r: bool)
    ensures
        r == move_fits(*pos, *m),
{
    let side = pos.active_player;
    if !crate::move_generator::is_move_in_range(m, side) {
        return false;
    }
    let base: usize = if side == Color::White { 0 } else { 6 };
    let ob: usize = 6 - base;
    let f = m.from_sq;
    let t = m.to_sq;
    let p = m.piece.to_index() as usize;
    let promo = m.promotion.to_index() as usize;
    let all = pos.all_occupancies.bits;
    proof {
        assert(pos.bbs()[p as int] == pos.bitboards@[p as int].bits);
        lemma_holds_mask(pos.bitboards@[p as int].bits, f as u64);
        lemma_holds_mask(all, t as u64);
    }
    if f == t || pos.bitboards[p].bits & (1u64 << f) == 0 {
        return false;
    }
    let capn = m.is_capture && !m.is_enpassant;
    if capn {
        if pos.captured_piece(t, side) >= 12 {
            return false;
        }
    } else if all & (1u64 << t) != 0 {
        return false;
    }
    if m.is_capture && m.is_enpassant {
        let e: u8 = if side == Color::White { t + 8 } else { t - 8 };
        proof {
            assert(pos.bbs()[ob as int] == pos.bitboards@[ob as int].bits);
            lemma_holds_mask(pos.bitboards@[ob as int].bits, e as u64);
        }
        if pos.bitboards[ob].bits & (1u64 << e) == 0 || e == f || promo < 12 {
            return false;
        }
    }
    if promo < 12 && (p != base || promo < base + 1 || promo > base + 4) {
        return false;
    }
    if promo >= 12 && m.is_castling {
        let (r, rf, rt): (usize, u8, u8) = if t == 62 {
            (3, 63, 61)
        } else if t == 58 {
            (3, 56, 59)
        } else if t == 6 {
            (9, 7, 5)
        } else if t == 2 {
            (9, 0, 3)
        } else {
            (12, 0, 0)
        };
        if r < 12 {
            proof {
                assert(pos.bbs()[r as int] == pos.bitboards@[r as int].bits);
                lemma_holds_mask(pos.bitboards@[r as int].bits, rf as u64);
                lemma_holds_mask(all, rt as u64);
            }
            if m.is_capture || r != base + 3 || pos.bitboards[r].bits & (1u64 << rf) == 0 || all & (1u64 << rt)
                != 0 || rf == f || rf == t || rt == f || rt == t {
                return false;
            }
        }
    }
    true
}

} // verus!
