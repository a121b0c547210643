use vstd::prelude::*;

verus! {

pub const PIECE_SEED: u32 = 2828886037;
pub const ENPASSANT_SEED: u32 = 862131765;
pub const CASTLE_SEED: u32 = 3667794840;
pub const SIDE_SEED: u32 = 4084590338;

/// One xorshift step on the seed widened to 64 bits, truncated back to 32.
pub open spec fn xorshift32(state: u32) -> u32 {
    let a = (state as u64) ^ ((state as u64) << 13u64);
    let b = a ^ (a >> 17u64);
    let c = b ^ (b << 5u64);
    c as u32
}

/// Four chained xorshift draws combined into one 64-bit key, with the last draw as the new state.
pub open spec fn random64(state: u32) -> (u64, u32) {
    let n1 = xorshift32(state);
    let n2 = xorshift32(n1);
    let n3 = xorshift32(n2);
    let n4 = xorshift32(n3);
    ((n1 as u64) | ((n2 as u64) << 16u64) | ((n3 as u64) << 32u64) | ((n4 as u64) << 48u64), n4)
}

/// The state after `n` keys were drawn from `seed`.
pub open spec fn state_after(seed: u32, n: nat) -> u32
    decreases n,
{
    if n == 0 {
        seed
    } else {
        random64(state_after(seed, (n - 1) as nat)).1
    }
}

/// The `n`-th key (from 0) drawn from `seed`.
pub open spec fn nth_key(seed: u32, n: nat) -> u64 {
    random64(state_after(seed, n)).0
}

pub fn get_random_u32_number(state: u32) -> (r: u32)
    ensures
        r == xorshift32(state),
{
    let mut num: u64 = state as u64;
    num = num ^ (num << 13u64);
    num = num ^ (num >> 17u64);
    num = num ^ (num << 5u64);
    num as u32
}

pub fn get_random_u64_number(state: u32) -> (r: (u64, u32))
    ensures
        r == random64(state),
{
    let n1 = get_random_u32_number(state);
    let n2 = get_random_u32_number(n1);
    let n3 = get_random_u32_number(n2);
    let n4 = get_random_u32_number(n3);
    ((n1 as u64) | ((n2 as u64) << 16u64) | ((n3 as u64) << 32u64) | ((n4 as u64) << 48u64), n4)
}

/// The first `count` keys drawn from `seed`.
fn draw_keys(seed: u32, count: usize) -> (r: Vec<u64>)
    ensures
        r@.len() == count,
        forall|i: int| 0 <= i < count ==> r@[i] == nth_key(seed, i as nat),
{
    let mut keys: Vec<u64> = Vec::new();
    let mut state: u32 = seed;
    let mut i: usize = 0;
    while i < count
        invariant
            i <= count,
            keys@.len() == i,
            state == state_after(seed, i as nat),
            forall|j: int| 0 <= j < i ==> keys@[j] == nth_key(seed, j as nat),
        decreases count - i,
    {
        let res = get_random_u64_number(state);
        keys.push(res.0);
        state = res.1;
        i = i + 1;
    }
    keys
}

/// Keys for the sixteen castling-rights states.
pub fn generate_castle_keys() -> (r: Vec<u64>)
    ensures
        r@.len() == 16,
        forall|i: int| 0 <= i < 16 ==> r@[i] == nth_key(CASTLE_SEED, i as nat),
{
    draw_keys(CASTLE_SEED, 16)
}

/// Keys for the en-passant target, one per square.
pub fn generate_enpassant_keys() -> (r: Vec<u64>)
    ensures
        r@.len() == 64,
        forall|i: int| 0 <= i < 64 ==> r@[i] == nth_key(ENPASSANT_SEED, i as nat),
{
    draw_keys(ENPASSANT_SEED, 64)
}

/// Keys for each piece on each square, at index `64 * piece + square`.
pub fn generate_piece_keys() -> (r: Vec<u64>)
    ensures
        r@.len() == 768,
        forall|i: int| 0 <= i < 768 ==> r@[i] == nth_key(PIECE_SEED, i as nat),
{
    draw_keys(PIECE_SEED, 768)
}

/// The Zobrist keys: piece-on-square, en-passant square, castling state and side to move.
pub struct ZobristKeys {
    pub piece: Vec<u64>,
    pub enpassant: Vec<u64>,
    pub castle: Vec<u64>,
    pub side: u64,
}

impl ZobristKeys {
    pub open spec fn wf(&self) -> bool {
        &&& self.piece@.len() == 768
        &&& self.enpassant@.len() == 64
        &&& self.castle@.len() == 16
        &&& forall|i: int| 0 <= i < 768 ==> self.piece@[i] == nth_key(PIECE_SEED, i as nat)
        &&& forall|i: int| 0 <= i < 64 ==> self.enpassant@[i] == nth_key(ENPASSANT_SEED, i as nat)
        &&& forall|i: int| 0 <= i < 16 ==> self.castle@[i] == nth_key(CASTLE_SEED, i as nat)
        &&& self.side == random64(SIDE_SEED).0
    }

    pub fn new() -> (r: ZobristKeys)
        ensures
            r.wf(),
    {
        ZobristKeys {
            piece: generate_piece_keys(),
            enpassant: generate_enpassant_keys(),
            castle: generate_castle_keys(),
            side: get_random_u64_number(SIDE_SEED).0,
        }
    }
}

} // verus!
