use vstd::prelude::*;
use vstd::string::StringSliceAdditionalSpecFns;
use crate::bitboard::Bitboard;
use crate::definitions::{Color, Square, char_to_piece, piece_of_char, square_of_bytes, square_from_bytes};
use crate::keys::ZobristKeys;
use crate::position::{Position, bit_at};
use crate::occupancy::{holds, board_ok, lemma_bit_or_single, lemma_empty_board_ok, lemma_occupancy_by_square, lemma_place_piece};

verus! {

/// The first index at or after `i` that holds no space (or the end).
pub open spec fn skip_spaces(b: Seq<u8>, i: int) -> int
    decreases b.len() - i,
{
    if i >= b.len() || b[i] != 32 {
        i
    } else {
        skip_spaces(b, i + 1)
    }
}

/// The first index at or after `i` that holds a space (or the end).
pub open spec fn token_end(b: Seq<u8>, i: int) -> int
    decreases b.len() - i,
{
    if i >= b.len() || b[i] == 32 {
        i
    } else {
        token_end(b, i + 1)
    }
}

/// The bounds of the first space-separated token at or after `i`.
pub open spec fn token_at(b: Seq<u8>, i: int) -> (int, int) {
    (skip_spaces(b, i), token_end(b, skip_spaces(b, i)))
}

/// The first token at or after `i`: leading spaces are skipped, the token ends before
/// the next space or at the end.
fn next_token(b: &[u8], i: usize) -> (r: (usize, usize))
    requires
        i <= b@.len(),
    ensures
        r.0 as int == token_at(b@, i as int).0,
        r.1 as int == token_at(b@, i as int).1,
        i <= r.0 <= r.1 <= b@.len(),
{
    let mut s: usize = i;
    while s < b.len() && b[s] == 32
        invariant
            i <= s <= b@.len(),
            skip_spaces(b@, s as int) == skip_spaces(b@, i as int),
        decreases b@.len() - s,
    {
        s = s + 1;
    }
    let mut e: usize = s;
    while e < b.len() && b[e] != 32
        invariant
            s <= e <= b@.len(),
            token_end(b@, e as int) == token_end(b@, s as int),
        decreases b@.len() - e,
    {
        e = e + 1;
    }
    (s, e)
}

/// The state after reading the placement characters `b[s..k]`: the squares filled so far
/// (a8 first) and the rank separators seen, or -1 squares once a character is wrong. A digit
/// 1 to 8 skips that many squares and a piece letter fills one, neither past the end of the
/// current rank; `/` closes a full rank, at most seven times.
pub open spec fn placement_state(b: Seq<u8>, s: int, k: int) -> (int, int)
    decreases k - s,
{
    if k <= s {
        (0, 0)
    } else {
        let st = placement_state(b, s, k - 1);
        let c = st.0;
        let ranks = st.1;
        let ch = b[k - 1];
        if c < 0 {
            (-1, ranks)
        } else if 49 <= ch <= 56 {
            if c + (ch - 48) > 8 * (ranks + 1) { (-1, ranks) } else { (c + (ch - 48), ranks) }
        } else if ch == 47 {
            if c == 8 * (ranks + 1) && ranks < 7 { (c, ranks + 1) } else { (-1, ranks) }
        } else if piece_of_char(ch as char) == -1 || c >= 8 * (ranks + 1) {
            (-1, ranks)
        } else {
            (c + 1, ranks)
        }
    }
}

/// The piece that the placement characters `b[s..k]` put on square `sq`, or 12.
pub open spec fn placed_piece(b: Seq<u8>, s: int, k: int, sq: int) -> int
    decreases k - s,
{
    if k <= s {
        12
    } else {
        let st = placement_state(b, s, k - 1);
        let ch = b[k - 1];
        if st.0 == sq && placement_state(b, s, k).0 == sq + 1 && !(49 <= ch <= 56) {
            piece_of_char(ch as char)
        } else {
            placed_piece(b, s, k - 1, sq)
        }
    }
}

/// A full placement: eight ranks of eight squares.
pub open spec fn placement_ok(b: Seq<u8>, t: (int, int)) -> bool {
    placement_state(b, t.0, t.1) == (64int, 7int)
}

proof fn lemma_placement_stays_wrong(b: Seq<u8>, s: int, k: int, e: int)
    requires
        s <= k <= e,
        placement_state(b, s, k).0 < 0,
    ensures
        placement_state(b, s, e).0 < 0,
    decreases e - k,
{
    if k < e {
        lemma_placement_stays_wrong(b, s, k, e - 1);
    }
}

proof fn lemma_placement_bounds(b: Seq<u8>, s: int, k: int)
    requires
        s <= k,
    ensures
        placement_state(b, s, k).0 >= 0 ==> 0 <= placement_state(b, s, k).1 <= 7 && placement_state(b, s, k).0
            <= 8 * (placement_state(b, s, k).1 + 1),
        placement_state(b, s, k).1 >= 0,
    decreases k - s,
{
    if k > s {
        lemma_placement_bounds(b, s, k - 1);
    }
}

/// Squares not yet reached hold no placed piece.
proof fn lemma_placed_beyond(b: Seq<u8>, s: int, k: int, sq: int)
    requires
        s <= k,
        placement_state(b, s, k).0 >= 0,
        sq >= placement_state(b, s, k).0,
    ensures
        placed_piece(b, s, k, sq) == 12,
    decreases k - s,
{
    if k > s {
        let st = placement_state(b, s, k - 1);
        if st.0 < 0 {
            lemma_placement_stays_wrong(b, s, k - 1, k);
        } else {
            lemma_placed_beyond(b, s, k - 1, sq);
        }
    }
}

/// An en-passant field: absent, `-`, or a square name.
pub open spec fn enpassant_ok(b: Seq<u8>, t: (int, int)) -> bool {
    t.0 == t.1 || (t.1 == t.0 + 1 && b[t.0] == 45) || (t.1 == t.0 + 2 && square_of_bytes(b.subrange(t.0, t.1)) < 64)
}

/// A clock field: absent, or digits whose value is at most `max`.
pub open spec fn number_ok(b: Seq<u8>, t: (int, int), max: int) -> bool {
    t.0 == t.1 || ((forall|k: int| t.0 <= k < t.1 ==> 48 <= #[trigger] b[k] <= 57) && decimal(b, t.0, t.1) <= max)
}

/// Whether `b[t.0..t.1]` holds byte `c`.
pub open spec fn token_has(b: Seq<u8>, t: (int, int), c: u8) -> bool {
    exists|k: int| t.0 <= k < t.1 && b[k] == c
}

/// The six FEN fields, each found after the previous one.
pub open spec fn fen_fields(b: Seq<u8>) -> Seq<(int, int)> {
    let t1 = token_at(b, 0);
    let t2 = token_at(b, t1.1);
    let t3 = token_at(b, t2.1);
    let t4 = token_at(b, t3.1);
    let t5 = token_at(b, t4.1);
    let t6 = token_at(b, t5.1);
    seq![t1, t2, t3, t4, t5, t6]
}

/// A record `new_from_fen` accepts: a full placement, a side field, an en-passant field
/// that is absent, `-` or a square, and clock fields that are absent or numbers in range.
pub open spec fn fen_ok(b: Seq<u8>) -> bool {
    let f = fen_fields(b);
    &&& f[0].0 < f[0].1
    &&& placement_ok(b, f[0])
    &&& f[1].0 < f[1].1
    &&& enpassant_ok(b, f[3])
    &&& number_ok(b, f[4], 255)
    &&& number_ok(b, f[5], 65535)
}

/// The decimal value of the digits `b[s..e]`.
pub open spec fn decimal(b: Seq<u8>, s: int, e: int) -> int
    decreases e - s,
{
    if e <= s {
        0
    } else {
        10 * decimal(b, s, e - 1) + (b[e - 1] - 48)
    }
}

/// Parses the digits `b[s..e]` as a number of at most `max`; `None` on an empty token,
/// a non-digit, or a larger value.
fn parse_decimal(b: &[u8], s: usize, e: usize, max: u32) -> (r: Option<u32>)
    requires
        s <= e <= b@.len(),
        max <= 65535,
    ensures
        r is Some ==> r->0 == decimal(b@, s as int, e as int) && r->0 <= max && s < e,
        r is Some <==> (s < e && (forall|k: int| s <= k < e ==> 48 <= #[trigger] b@[k] <= 57)
            && decimal(b@, s as int, e as int) <= max),
{
    if s == e {
        return None;
    }
    let mut v: u32 = 0;
    let mut k: usize = s;
    while k < e
        invariant
            s <= k <= e <= b@.len(),
            max <= 65535,
            v == decimal(b@, s as int, k as int),
            v <= max,
            forall|j: int| s <= j < k ==> 48 <= #[trigger] b@[j] <= 57,
        decreases e - k,
    {
        let c = b[k];
        if c < 48 || c > 57 {
            return None;
        }
        let nv: u32 = 10 * v + (c - 48) as u32;
        if nv > max {
            proof {
                if forall|j: int| s <= j < e ==> 48 <= #[trigger] b@[j] <= 57 {
                    lemma_decimal_grows(b@, s as int, (k + 1) as int, e as int);
                }
            }
            return None;
        }
        v = nv;
        k = k + 1;
    }
    Some(v)
}

proof fn lemma_decimal_grows(b: Seq<u8>, s: int, k: int, e: int)
    requires
        s <= k <= e <= b.len(),
        forall|j: int| s <= j < e ==> 48 <= #[trigger] b[j] <= 57,
    ensures
        decimal(b, s, k) <= decimal(b, s, e),
    decreases e - k,
{
    if k < e {
        lemma_decimal_grows(b, s, k, e - 1);
        assert(decimal(b, s, e - 1) >= 0) by {
            lemma_decimal_nonneg(b, s, e - 1);
        }
    }
}

proof fn lemma_decimal_nonneg(b: Seq<u8>, s: int, e: int)
    requires
        s <= e <= b.len(),
        forall|j: int| s <= j < e ==> 48 <= #[trigger] b[j] <= 57,
    ensures
        decimal(b, s, e) >= 0,
    decreases e - s,
{
    if s < e {
        lemma_decimal_nonneg(b, s, e - 1);
    }
}

/// Whether the bytes `b[s..e]` hold `c`.
fn token_contains(b: &[u8], s: usize, e: usize, c: u8) -> (r: bool)
    requires
        s <= e <= b@.len(),
    ensures
        r == exists|k: int| s <= k < e && b@[k] == c,
{
    let mut k: usize = s;
    while k < e
        invariant
            s <= k <= e <= b@.len(),
            forall|j: int| s <= j < k ==> b@[j] != c,
        decreases e - k,
    {
        if b[k] == c {
            return true;
        }
        k = k + 1;
    }
    false
}

impl Position {
    /// The standard initial position, White to move with all castling rights.
    pub fn new_from_start_pos(keys: &ZobristKeys) -> (r: Position)
        requires
            keys.wf(),
        ensures
            r.wf(),
            r.occupancy_ok(),
            r.bbs() == seq![0x00FF000000000000u64, 0x4200000000000000u64, 0x2400000000000000u64, 0x8100000000000000u64, 0x0800000000000000u64, 0x1000000000000000u64, 0xFF00u64, 0x42u64, 0x24u64, 0x81u64, 0x8u64, 0x10u64],
            r.white_occupancies.bits == 0xFFFF000000000000u64,
            r.black_occupancies.bits == 0xFFFFu64,
            r.all_occupancies.bits == 0xFFFF00000000FFFFu64,
            r.active_player == Color::White,
            r.castling_ability == 15,
            r.enpassant_square == Square::NoSquare,
            r.half_moves == 0,
            r.full_moves == 1,
    {
        let bitboards: [Bitboard; 12] = [Bitboard { bits: 0x00FF000000000000u64 }, Bitboard { bits: 0x4200000000000000u64 }, Bitboard { bits: 0x2400000000000000u64 }, Bitboard { bits: 0x8100000000000000u64 }, Bitboard { bits: 0x0800000000000000u64 }, Bitboard { bits: 0x1000000000000000u64 }, Bitboard { bits: 0xFF00u64 }, Bitboard { bits: 0x42u64 }, Bitboard { bits: 0x24u64 }, Bitboard { bits: 0x81u64 }, Bitboard { bits: 0x8u64 }, Bitboard { bits: 0x10u64 }];
        let mut pos = Position {
            bitboards,
            white_occupancies: Bitboard { bits: 0xFFFF000000000000u64 },
            black_occupancies: Bitboard { bits: 0xFFFFu64 },
            all_occupancies: Bitboard { bits: 0xFFFF00000000FFFFu64 },
            active_player: Color::White,
            enpassant_square: Square::NoSquare,
            castling_ability: 15,
            full_moves: 1,
            half_moves: 0,
            zobrist_hash: 0,
        };
        pos.zobrist_hash = pos.make_zobrist_hash(keys);
        proof {
        let x0: u64 = 0x00FF000000000000u64;
        let x1: u64 = 0x4200000000000000u64;
        let x2: u64 = 0x2400000000000000u64;
        let x3: u64 = 0x8100000000000000u64;
        let x4: u64 = 0x0800000000000000u64;
        let x5: u64 = 0x1000000000000000u64;
        let x6: u64 = 0xFF00u64;
        let x7: u64 = 0x42u64;
        let x8: u64 = 0x24u64;
        let x9: u64 = 0x81u64;
        let x10: u64 = 0x8u64;
        let x11: u64 = 0x10u64;
            let s = pos.bbs();
            assert(s =~= seq![x0, x1, x2, x3, x4, x5, x6, x7, x8, x9, x10, x11]);
            assert(x0 & x1 == 0 &&
                x0 & x2 == 0 &&
                x0 & x3 == 0 &&
                x0 & x4 == 0 &&
                x0 & x5 == 0 &&
                x0 & x6 == 0 &&
                x0 & x7 == 0 &&
                x0 & x8 == 0 &&
                x0 & x9 == 0 &&
                x0 & x10 == 0 &&
                x0 & x11 == 0 &&
                x1 & x2 == 0 &&
                x1 & x3 == 0 &&
                x1 & x4 == 0 &&
                x1 & x5 == 0 &&
                x1 & x6 == 0 &&
                x1 & x7 == 0 &&
                x1 & x8 == 0 &&
                x1 & x9 == 0 &&
                x1 & x10 == 0 &&
                x1 & x11 == 0 &&
                x2 & x3 == 0 &&
                x2 & x4 == 0 &&
                x2 & x5 == 0 &&
                x2 & x6 == 0 &&
                x2 & x7 == 0 &&
                x2 & x8 == 0 &&
                x2 & x9 == 0 &&
                x2 & x10 == 0 &&
                x2 & x11 == 0 &&
                x3 & x4 == 0 &&
                x3 & x5 == 0 &&
                x3 & x6 == 0 &&
                x3 & x7 == 0 &&
                x3 & x8 == 0 &&
                x3 & x9 == 0 &&
                x3 & x10 == 0 &&
                x3 & x11 == 0 &&
                x4 & x5 == 0 &&
                x4 & x6 == 0 &&
                x4 & x7 == 0 &&
                x4 & x8 == 0 &&
                x4 & x9 == 0 &&
                x4 & x10 == 0 &&
                x4 & x11 == 0 &&
                x5 & x6 == 0 &&
                x5 & x7 == 0 &&
                x5 & x8 == 0 &&
                x5 & x9 == 0 &&
                x5 & x10 == 0 &&
                x5 & x11 == 0 &&
                x6 & x7 == 0 &&
                x6 & x8 == 0 &&
                x6 & x9 == 0 &&
                x6 & x10 == 0 &&
                x6 & x11 == 0 &&
                x7 & x8 == 0 &&
                x7 & x9 == 0 &&
                x7 & x10 == 0 &&
                x7 & x11 == 0 &&
                x8 & x9 == 0 &&
                x8 & x10 == 0 &&
                x8 & x11 == 0 &&
                x9 & x10 == 0 &&
                x9 & x11 == 0 &&
                x10 & x11 == 0) by (bit_vector)
                requires
                    x0 == 0x00FF000000000000u64,
                    x1 == 0x4200000000000000u64,
                    x2 == 0x2400000000000000u64,
                    x3 == 0x8100000000000000u64,
                    x4 == 0x0800000000000000u64,
                    x5 == 0x1000000000000000u64,
                    x6 == 0xFF00u64,
                    x7 == 0x42u64,
                    x8 == 0x24u64,
                    x9 == 0x81u64,
                    x10 == 0x8u64,
                    x11 == 0x10u64,
            ;
            assert(x0 | x1 | x2 | x3 | x4 | x5 == 0xFFFF000000000000u64 && x6 | x7 | x8 | x9 | x10 | x11 == 0xFFFFu64
                && 0xFFFF000000000000u64 & 0xFFFFu64 == 0 && 0xFFFF000000000000u64 | 0xFFFFu64 == 0xFFFF00000000FFFFu64)
                by (bit_vector)
                requires
                    x0 == 0x00FF000000000000u64,
                    x1 == 0x4200000000000000u64,
                    x2 == 0x2400000000000000u64,
                    x3 == 0x8100000000000000u64,
                    x4 == 0x0800000000000000u64,
                    x5 == 0x1000000000000000u64,
                    x6 == 0xFF00u64,
                    x7 == 0x42u64,
                    x8 == 0x24u64,
                    x9 == 0x81u64,
                    x10 == 0x8u64,
                    x11 == 0x10u64,
            ;
            assert forall|p: int, q: int| 0 <= p < q < 12 implies #[trigger] s[p] & #[trigger] s[q] == 0 by {
                if p == 0 && q == 1 {
                    assert(x0 & x1 == 0);
                } else if p == 0 && q == 2 {
                    assert(x0 & x2 == 0);
                } else if p == 0 && q == 3 {
                    assert(x0 & x3 == 0);
                } else if p == 0 && q == 4 {
                    assert(x0 & x4 == 0);
                } else if p == 0 && q == 5 {
                    assert(x0 & x5 == 0);
                } else if p == 0 && q == 6 {
                    assert(x0 & x6 == 0);
                } else if p == 0 && q == 7 {
                    assert(x0 & x7 == 0);
                } else if p == 0 && q == 8 {
                    assert(x0 & x8 == 0);
                } else if p == 0 && q == 9 {
                    assert(x0 & x9 == 0);
                } else if p == 0 && q == 10 {
                    assert(x0 & x10 == 0);
                } else if p == 0 && q == 11 {
                    assert(x0 & x11 == 0);
                } else if p == 1 && q == 2 {
                    assert(x1 & x2 == 0);
                } else if p == 1 && q == 3 {
                    assert(x1 & x3 == 0);
                } else if p == 1 && q == 4 {
                    assert(x1 & x4 == 0);
                } else if p == 1 && q == 5 {
                    assert(x1 & x5 == 0);
                } else if p == 1 && q == 6 {
                    assert(x1 & x6 == 0);
                } else if p == 1 && q == 7 {
                    assert(x1 & x7 == 0);
                } else if p == 1 && q == 8 {
                    assert(x1 & x8 == 0);
                } else if p == 1 && q == 9 {
                    assert(x1 & x9 == 0);
                } else if p == 1 && q == 10 {
                    assert(x1 & x10 == 0);
                } else if p == 1 && q == 11 {
                    assert(x1 & x11 == 0);
                } else if p == 2 && q == 3 {
                    assert(x2 & x3 == 0);
                } else if p == 2 && q == 4 {
                    assert(x2 & x4 == 0);
                } else if p == 2 && q == 5 {
                    assert(x2 & x5 == 0);
                } else if p == 2 && q == 6 {
                    assert(x2 & x6 == 0);
                } else if p == 2 && q == 7 {
                    assert(x2 & x7 == 0);
                } else if p == 2 && q == 8 {
                    assert(x2 & x8 == 0);
                } else if p == 2 && q == 9 {
                    assert(x2 & x9 == 0);
                } else if p == 2 && q == 10 {
                    assert(x2 & x10 == 0);
                } else if p == 2 && q == 11 {
                    assert(x2 & x11 == 0);
                } else if p == 3 && q == 4 {
                    assert(x3 & x4 == 0);
                } else if p == 3 && q == 5 {
                    assert(x3 & x5 == 0);
                } else if p == 3 && q == 6 {
                    assert(x3 & x6 == 0);
                } else if p == 3 && q == 7 {
                    assert(x3 & x7 == 0);
                } else if p == 3 && q == 8 {
                    assert(x3 & x8 == 0);
                } else if p == 3 && q == 9 {
                    assert(x3 & x9 == 0);
                } else if p == 3 && q == 10 {
                    assert(x3 & x10 == 0);
                } else if p == 3 && q == 11 {
                    assert(x3 & x11 == 0);
                } else if p == 4 && q == 5 {
                    assert(x4 & x5 == 0);
                } else if p == 4 && q == 6 {
                    assert(x4 & x6 == 0);
                } else if p == 4 && q == 7 {
                    assert(x4 & x7 == 0);
                } else if p == 4 && q == 8 {
                    assert(x4 & x8 == 0);
                } else if p == 4 && q == 9 {
                    assert(x4 & x9 == 0);
                } else if p == 4 && q == 10 {
                    assert(x4 & x10 == 0);
                } else if p == 4 && q == 11 {
                    assert(x4 & x11 == 0);
                } else if p == 5 && q == 6 {
                    assert(x5 & x6 == 0);
                } else if p == 5 && q == 7 {
                    assert(x5 & x7 == 0);
                } else if p == 5 && q == 8 {
                    assert(x5 & x8 == 0);
                } else if p == 5 && q == 9 {
                    assert(x5 & x9 == 0);
                } else if p == 5 && q == 10 {
                    assert(x5 & x10 == 0);
                } else if p == 5 && q == 11 {
                    assert(x5 & x11 == 0);
                } else if p == 6 && q == 7 {
                    assert(x6 & x7 == 0);
                } else if p == 6 && q == 8 {
                    assert(x6 & x8 == 0);
                } else if p == 6 && q == 9 {
                    assert(x6 & x9 == 0);
                } else if p == 6 && q == 10 {
                    assert(x6 & x10 == 0);
                } else if p == 6 && q == 11 {
                    assert(x6 & x11 == 0);
                } else if p == 7 && q == 8 {
                    assert(x7 & x8 == 0);
                } else if p == 7 && q == 9 {
                    assert(x7 & x9 == 0);
                } else if p == 7 && q == 10 {
                    assert(x7 & x10 == 0);
                } else if p == 7 && q == 11 {
                    assert(x7 & x11 == 0);
                } else if p == 8 && q == 9 {
                    assert(x8 & x9 == 0);
                } else if p == 8 && q == 10 {
                    assert(x8 & x10 == 0);
                } else if p == 8 && q == 11 {
                    assert(x8 & x11 == 0);
                } else if p == 9 && q == 10 {
                    assert(x9 & x10 == 0);
                } else if p == 9 && q == 11 {
                    assert(x9 & x11 == 0);
                } else if p == 10 && q == 11 {
                    assert(x10 & x11 == 0);
                } else {
                }
            }
        }
        pos
    }

    /// Parses a FEN record: placement, side, castling, en passant, half-move clock and
    /// move number; the last four may be left out and then read as "-", "-", 0 and 1.
    /// A placement that is not eight `/`-separated ranks of eight squares (digits 1 to 8 and
    /// piece letters), a missing side, an en-passant field that is neither `-` nor a square, or
    /// a clock or move number that is not a number in range, gives `None`.
    pub fn new_from_fen(input: &str, keys: &ZobristKeys) -> (r: Option<Position>)
        requires
            keys.wf(),
        ensures
            r is Some <==> fen_ok(input.spec_bytes()),
            r is Some ==> r->0.wf() && r->0.occupancy_ok(),
            r is Some ==> ({
                let b = input.spec_bytes();
                let f = fen_fields(b);
                let p = r->0;
                &&& forall|q: int, k: int|
                    0 <= q < 12 && 0 <= k < 64 ==> bit_at(#[trigger] p.bb(q), k as u64) == (#[trigger] placed_piece(
                        b,
                        f[0].0,
                        f[0].1,
                        k,
                    ) == q)
                &&& p.active_player == (if f[1].1 == f[1].0 + 1 && b[f[1].0] == 119 {
                    Color::White
                } else {
                    Color::Black
                })
                &&& p.castling_ability == (if token_has(b, f[2], 75) { 1u8 } else { 0u8 }) + (if token_has(b, f[2], 81) {
                    2u8
                } else {
                    0u8
                }) + (if token_has(b, f[2], 107) { 4u8 } else { 0u8 }) + (if token_has(b, f[2], 113) {
                    8u8
                } else {
                    0u8
                })
                &&& p.enpassant_square.index() == (if f[3].1 == f[3].0 + 2 {
                    square_of_bytes(b.subrange(f[3].0, f[3].1))
                } else {
                    64
                })
                &&& p.half_moves as int == (if f[4].0 == f[4].1 { 0 } else { decimal(b, f[4].0, f[4].1) })
                &&& p.full_moves as int == (if f[5].0 == f[5].1 { 1 } else { decimal(b, f[5].0, f[5].1) })
            }),
    {
        let b = input.as_bytes();
        let mut bitboards: [Bitboard; 12] = [Bitboard { bits: 0 }; 12];
        let mut white: u64 = 0;
        let mut black: u64 = 0;
        let mut all: u64 = 0;

        let (ps, pe) = next_token(b, 0);
        if ps == pe {
            return None;
        }
        let mut sq: u32 = 0;
        let mut ranks: u32 = 0;
        let mut i: usize = ps;
        proof {
            assert(0u64 | 0u64 == 0u64) by (bit_vector);
            let s0 = Seq::new(12, |k: int| bitboards@[k].bits);
            lemma_empty_board_ok(s0);
            assert forall|k: int| 0 <= k < 64 implies !#[trigger] bit_at(all, k as u64) by {
                let kk = k as u64;
                assert(!bit_at(0u64, kk)) by (bit_vector);
            }
            assert forall|p: int, k: int| 0 <= p < 12 && 0 <= k < 64 implies bit_at(#[trigger] bitboards@[p].bits, k as u64) == (
            #[trigger] placed_piece(b@, ps as int, ps as int, k) == p) by {
                let kk = k as u64;
                assert(!bit_at(0u64, kk)) by (bit_vector);
            }
        }
        while i < pe
            invariant
                ps <= i <= pe <= b@.len(),
                sq <= 8 * (ranks + 1),
                ranks <= 7,
                all == white | black,
                board_ok(Seq::new(12, |k: int| bitboards@[k].bits), white, black),
                forall|k: int| sq <= k < 64 ==> !#[trigger] bit_at(all, k as u64),
                sq as int == placement_state(b@, ps as int, i as int).0,
                ranks as int == placement_state(b@, ps as int, i as int).1,
                forall|p: int, k: int|
                    0 <= p < 12 && 0 <= k < 64 ==> bit_at(#[trigger] bitboards@[p].bits, k as u64) == (
                    #[trigger] placed_piece(b@, ps as int, i as int, k) == p),
                b@ == input.spec_bytes(),
                ps as int == token_at(b@, 0).0,
                pe as int == token_at(b@, 0).1,
            decreases pe - i,
        {
            let c = b[i];
            let limit: u32 = 8 * (ranks + 1);
            if 49 <= c && c <= 56 {
                let d: u32 = (c - 48) as u32;
                if sq + d > limit {
                    proof {
                        lemma_placement_stays_wrong(b@, ps as int, i + 1, pe as int);
                    }
                    return None;
                }
                proof {
                    assert forall|q: int, k: int| 0 <= q < 12 && 0 <= k < 64 implies bit_at(
                        #[trigger] bitboards@[q].bits,
                        k as u64,
                    ) == (#[trigger] placed_piece(b@, ps as int, i + 1, k) == q) by {
                        assert(placed_piece(b@, ps as int, i + 1, k) == placed_piece(b@, ps as int, i as int, k));
                    }
                }
                sq = sq + d;
            } else if c == 47 {
                if sq != limit || ranks >= 7 {
                    proof {
                        lemma_placement_stays_wrong(b@, ps as int, i + 1, pe as int);
                    }
                    return None;
                }
                proof {
                    assert forall|q: int, k: int| 0 <= q < 12 && 0 <= k < 64 implies bit_at(
                        #[trigger] bitboards@[q].bits,
                        k as u64,
                    ) == (#[trigger] placed_piece(b@, ps as int, i + 1, k) == q) by {
                        assert(placed_piece(b@, ps as int, i + 1, k) == placed_piece(b@, ps as int, i as int, k));
                    }
                }
                ranks = ranks + 1;
            } else {
                let piece = char_to_piece(c as char);
                match piece {
                    None => {
                        proof {
                            lemma_placement_stays_wrong(b@, ps as int, i + 1, pe as int);
                        }
                        return None;
                    },
                    Some(p) => {
                        if sq >= limit {
                            proof {
                                lemma_placement_stays_wrong(b@, ps as int, i + 1, pe as int);
                            }
                            return None;
                        }
                        let bit: u64 = 1u64 << (sq as u64);
                        let idx = p.to_index() as usize;
                        let ghost s_before = Seq::new(12, |k: int| bitboards@[k].bits);
                        proof {
                            lemma_place_piece(s_before, white, black, idx as int, sq as int);
                            assert forall|k: int| sq + 1 <= k < 64 implies !#[trigger] bit_at(all | bit, k as u64) by {
                                lemma_bit_or_single(all, sq as int, k);
                            }
                            lemma_placed_beyond(b@, ps as int, i as int, sq as int);
                        }
                        bitboards[idx] = Bitboard { bits: bitboards[idx].bits | bit };
                        proof {
                            let s_after = Seq::new(12, |k: int| bitboards@[k].bits);
                            assert(s_after =~= s_before.update(idx as int, s_before[idx as int] | bit));
                            assert forall|q: int, k: int| 0 <= q < 12 && 0 <= k < 64 implies bit_at(
                                #[trigger] bitboards@[q].bits,
                                k as u64,
                            ) == (#[trigger] placed_piece(b@, ps as int, i + 1, k) == q) by {
                                lemma_bit_or_single(s_before[q], sq as int, k);
                                assert(bit_at(s_before[q], k as u64) == (placed_piece(b@, ps as int, i as int, k) == q));
                            }
                        }
                        if idx < 6 {
                            proof {
                                assert((white | bit) | black == (white | black) | bit) by (bit_vector);
                            }
                            white = white | bit;
                        } else {
                            proof {
                                assert(white | (black | bit) == (white | black) | bit) by (bit_vector);
                            }
                            black = black | bit;
                        }
                        all = all | bit;
                        sq = sq + 1;
                    },
                }
            }
            i = i + 1;
        }
        if sq != 64 || ranks != 7 {
            return None;
        }

        let (ss, se) = next_token(b, pe);
        if ss == se {
            return None;
        }
        let active_player = if se - ss == 1 && b[ss] == 119 { Color::White } else { Color::Black };

        let (cs, ce) = next_token(b, se);
        let wk: u8 = if token_contains(b, cs, ce, 75) { 1 } else { 0 };
        let wq: u8 = if token_contains(b, cs, ce, 81) { 2 } else { 0 };
        let bk: u8 = if token_contains(b, cs, ce, 107) { 4 } else { 0 };
        let bq: u8 = if token_contains(b, cs, ce, 113) { 8 } else { 0 };
        let castling_ability: u8 = wk + wq + bk + bq;

        let (es, ee) = next_token(b, ce);
        let enpassant_square = if es == ee || (ee - es == 1 && b[es] == 45) {
            Square::NoSquare
        } else if ee - es == 2 {
            let two = [b[es], b[es + 1]];
            proof {
                assert(two@ =~= b@.subrange(es as int, ee as int));
            }
            let e = square_from_bytes(two.as_slice());
            if e == Square::NoSquare {
                return None;
            }
            e
        } else {
            return None;
        };

        let (hs, he) = next_token(b, ee);
        let half_moves: u8 = if hs == he {
            0
        } else {
            match parse_decimal(b, hs, he, 255) {
                Some(v) => v as u8,
                None => {
                    return None;
                },
            }
        };
        let (fs, fe) = next_token(b, he);
        let full_moves: u16 = if fs == fe {
            1
        } else {
            match parse_decimal(b, fs, fe, 65535) {
                Some(v) => v as u16,
                None => {
                    return None;
                },
            }
        };

        let mut pos = Position {
            bitboards,
            white_occupancies: Bitboard { bits: white },
            black_occupancies: Bitboard { bits: black },
            all_occupancies: Bitboard { bits: all },
            active_player,
            enpassant_square,
            castling_ability,
            full_moves,
            half_moves,
            zobrist_hash: 0,
        };
        pos.zobrist_hash = pos.make_zobrist_hash(keys);
        proof {
            assert(pos.bbs() =~= Seq::new(12, |k: int| bitboards@[k].bits));
            lemma_occupancy_by_square(pos.bbs(), white, black, all);
        }
        Some(pos)
    }
}

} // verus!
