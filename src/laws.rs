use vstd::prelude::*;
use crate::make_move::castling_mask;

verus! {

/// The castling rights after a sequence of moves, each given by its origin and target.
pub open spec fn rights_after(rights: u8, moves: Seq<(u64, u64)>) -> u8
    decreases moves.len(),
{
    if moves.len() == 0 {
        rights
    } else {
        let last = moves.last();
        rights_after(rights, moves.drop_last()) & castling_mask(last.0) & castling_mask(last.1)
    }
}

/// One move never adds a castling right: the rights after it are a subset of those before.
pub proof fn lemma_castling_rights_shrink(rights: u8, from: u64, to: u64)
    ensures
        (rights & castling_mask(from) & castling_mask(to)) & !rights == 0,
        (rights & castling_mask(from) & castling_mask(to)) <= rights,
{
    let a = castling_mask(from);
    let b = castling_mask(to);
    assert((rights & a & b) & !rights == 0) by (bit_vector);
    assert((rights & a & b) <= rights) by (bit_vector);
}

/// Castling rights never grow along a game: after any longer stretch of the same move
/// history the rights are a subset of those after a shorter one.
pub proof fn lemma_castling_rights_monotone(rights: u8, moves: Seq<(u64, u64)>, k: int)
    requires
        0 <= k <= moves.len(),
    ensures
        rights_after(rights, moves) & !rights_after(rights, moves.take(k)) == 0,
    decreases moves.len() - k,
{
    if k == moves.len() {
        assert(moves.take(k) =~= moves);
        let x = rights_after(rights, moves);
        assert(x & !x == 0) by (bit_vector);
    } else {
        let shorter = moves.drop_last();
        lemma_castling_rights_monotone(rights, shorter, k);
        assert(shorter.take(k) =~= moves.take(k));
        let last = moves.last();
        let y = rights_after(rights, shorter);
        let z = rights_after(rights, moves.take(k));
        let a = castling_mask(last.0);
        let b = castling_mask(last.1);
        assert((y & a & b) & !z == 0) by (bit_vector)
            requires
                y & !z == 0,
        ;
    }
}

} // verus!
