use vstd::prelude::*;
use crate::bitboard::Bitboard;
use crate::definitions::Color;

verus! {

/// Squares a pawn of the given color on `sq` attacks (its two forward diagonals).
pub open spec fn pawn_attacks(sq: u64, white: bool) -> u64 {
    let base = 1u64 << sq;
    let file = sq % 8;
    if white {
        (if file != 7 { base >> 7u64 } else { 0 }) | (if file != 0 { base >> 9u64 } else { 0 })
    } else {
        (if file != 0 { base << 7u64 } else { 0 }) | (if file != 7 { base << 9u64 } else { 0 })
    }
}

/// Squares a knight on `sq` attacks.
pub open spec fn knight_attacks(sq: u64) -> u64 {
    let base = 1u64 << sq;
    let rank = sq / 8;
    let file = sq % 8;
    (if rank > 1 && file < 7 { base >> 15u64 } else { 0 })
    | (if rank > 0 && file < 6 { base >> 6u64 } else { 0 })
    | (if rank < 7 && file < 6 { base << 10u64 } else { 0 })
    | (if rank < 6 && file < 7 { base << 17u64 } else { 0 })
    | (if rank > 1 && file > 0 { base >> 17u64 } else { 0 })
    | (if rank > 0 && file > 1 { base >> 10u64 } else { 0 })
    | (if rank < 7 && file > 1 { base << 6u64 } else { 0 })
    | (if rank < 6 && file > 0 { base << 15u64 } else { 0 })
}

/// Squares a king on `sq` attacks.
pub open spec fn king_attacks(sq: u64) -> u64 {
    let base = 1u64 << sq;
    let rank = sq / 8;
    let file = sq % 8;
    (if rank > 0 { base >> 8u64 } else { 0 })
    | (if file > 0 { base >> 1u64 } else { 0 })
    | (if rank < 7 { base << 8u64 } else { 0 })
    | (if file < 7 { base << 1u64 } else { 0 })
    | (if file > 0 && rank > 0 { base >> 9u64 } else { 0 })
    | (if file < 7 && rank > 0 { base >> 7u64 } else { 0 })
    | (if file > 0 && rank < 7 { base << 7u64 } else { 0 })
    | (if file < 7 && rank < 7 { base << 9u64 } else { 0 })
}

/// The squares a slider on (`rank`, `file`) reaches stepping by (`dr`, `df`), at most `n`
/// steps: every empty square up to and including the first occupied one.
pub open spec fn ray(rank: int, file: int, dr: int, df: int, occ: u64, n: nat) -> u64
    decreases n,
{
    if n == 0 {
        0
    } else {
        let r = rank + dr;
        let f = file + df;
        if r < 0 || r > 7 || f < 0 || f > 7 {
            0
        } else {
            let b = 1u64 << ((r * 8 + f) as u64);
            if occ & b != 0 {
                b
            } else {
                b | ray(r, f, dr, df, occ, (n - 1) as nat)
            }
        }
    }
}

pub open spec fn rook_attacks(sq: u64, occ: u64) -> u64 {
    let r = (sq / 8) as int;
    let f = (sq % 8) as int;
    ray(r, f, -1, 0, occ, 7) | ray(r, f, 1, 0, occ, 7) | ray(r, f, 0, -1, occ, 7) | ray(r, f, 0, 1, occ, 7)
}

pub open spec fn bishop_attacks(sq: u64, occ: u64) -> u64 {
    let r = (sq / 8) as int;
    let f = (sq % 8) as int;
    ray(r, f, -1, -1, occ, 7) | ray(r, f, -1, 1, occ, 7) | ray(r, f, 1, -1, occ, 7) | ray(r, f, 1, 1, occ, 7)
}

pub open spec fn queen_attacks(sq: u64, occ: u64) -> u64 {
    rook_attacks(sq, occ) | bishop_attacks(sq, occ)
}

fn ray_walk(rank: i8, file: i8, dr: i8, df: i8, occ: u64, n: u8) -> (r: u64)
    requires
        0 <= rank <= 7,
        0 <= file <= 7,
        -1 <= dr <= 1,
        -1 <= df <= 1,
    ensures
        r == ray(rank as int, file as int, dr as int, df as int, occ, n as nat),
    decreases n,
{
    if n == 0 {
        return 0;
    }
    let r: i8 = rank + dr;
    let f: i8 = file + df;
    if r < 0 || r > 7 || f < 0 || f > 7 {
        0
    } else {
        let b: u64 = 1u64 << ((r * 8 + f) as u64);
        if occ & b != 0 {
            b
        } else {
            b | ray_walk(r, f, dr, df, occ, n - 1)
        }
    }
}

pub fn get_pawn_attack_table(square: u8, color: Color) -> (r: Bitboard)
    requires
        square < 64,
    ensures
        r.bits == pawn_attacks(square as u64, color == Color::White),
{
    let base: u64 = 1u64 << square;
    let file: u8 = square % 8;
    if color == Color::White {
        Bitboard::from_u64(
            (if file != 7 { base >> 7u64 } else { 0 }) | (if file != 0 { base >> 9u64 } else { 0 }),
        )
    } else {
        Bitboard::from_u64(
            (if file != 0 { base << 7u64 } else { 0 }) | (if file != 7 { base << 9u64 } else { 0 }),
        )
    }
}

pub fn get_knight_attack_table(square: u8) -> (r: Bitboard)
    requires
        square < 64,
    ensures
        r.bits == knight_attacks(square as u64),
{
    let base: u64 = 1u64 << square;
    let rank: u8 = square / 8;
    let file: u8 = square % 8;
    Bitboard::from_u64(
        (if rank > 1 && file < 7 { base >> 15u64 } else { 0 })
        | (if rank > 0 && file < 6 { base >> 6u64 } else { 0 })
        | (if rank < 7 && file < 6 { base << 10u64 } else { 0 })
        | (if rank < 6 && file < 7 { base << 17u64 } else { 0 })
        | (if rank > 1 && file > 0 { base >> 17u64 } else { 0 })
        | (if rank > 0 && file > 1 { base >> 10u64 } else { 0 })
        | (if rank < 7 && file > 1 { base << 6u64 } else { 0 })
        | (if rank < 6 && file > 0 { base << 15u64 } else { 0 }),
    )
}

pub fn get_king_attack_table(square: u8) -> (r: Bitboard)
    requires
        square < 64,
    ensures
        r.bits == king_attacks(square as u64),
{
    let base: u64 = 1u64 << square;
    let rank: u8 = square / 8;
    let file: u8 = square % 8;
    Bitboard::from_u64(
        (if rank > 0 { base >> 8u64 } else { 0 })
        | (if file > 0 { base >> 1u64 } else { 0 })
        | (if rank < 7 { base << 8u64 } else { 0 })
        | (if file < 7 { base << 1u64 } else { 0 })
        | (if file > 0 && rank > 0 { base >> 9u64 } else { 0 })
        | (if file < 7 && rank > 0 { base >> 7u64 } else { 0 })
        | (if file > 0 && rank < 7 { base << 7u64 } else { 0 })
        | (if file < 7 && rank < 7 { base << 9u64 } else { 0 }),
    )
}

pub fn get_rook_attack_table(square: u8, occ: Bitboard) -> (r: Bitboard)
    requires
        square < 64,
    ensures
        r.bits == rook_attacks(square as u64, occ.bits),
{
    let rank: i8 = (square / 8) as i8;
    let file: i8 = (square % 8) as i8;
    let o: u64 = occ.bits;
    Bitboard::from_u64(
        ray_walk(rank, file, -1, 0, o, 7) | ray_walk(rank, file, 1, 0, o, 7) | ray_walk(rank, file, 0, -1, o, 7)
            | ray_walk(rank, file, 0, 1, o, 7),
    )
}

pub fn get_bishop_attack_table(square: u8, occ: Bitboard) -> (r: Bitboard)
    requires
        square < 64,
    ensures
        r.bits == bishop_attacks(square as u64, occ.bits),
{
    let rank: i8 = (square / 8) as i8;
    let file: i8 = (square % 8) as i8;
    let o: u64 = occ.bits;
    Bitboard::from_u64(
        ray_walk(rank, file, -1, -1, o, 7) | ray_walk(rank, file, -1, 1, o, 7) | ray_walk(rank, file, 1, -1, o, 7)
            | ray_walk(rank, file, 1, 1, o, 7),
    )
}

pub fn get_queen_attack_table(square: u8, occ: Bitboard) -> (r: Bitboard)
    requires
        square < 64,
    ensures
        r.bits == queen_attacks(square as u64, occ.bits),
{
    let rook = get_rook_attack_table(square, occ);
    let bishop = get_bishop_attack_table(square, occ);
    Bitboard::from_u64(rook.bits | bishop.bits)
}

} // verus!
