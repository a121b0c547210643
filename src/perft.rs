use vstd::prelude::*;
use crate::definitions::{MoveTypes, SearchContext};
use crate::keys::ZobristKeys;
use crate::move_generator::MoveGenerator;
use crate::position::Position;

verus! {

/// The number of legal move sequences of `depth` plies from `pos` (1 at depth 0), saturating
/// at `u64::MAX`.
pub fn perft(pos: &Position, depth: u8, keys: &ZobristKeys, ctx: &SearchContext) -> (r: u64)
    requires
        pos.wf(),
        keys.wf(),
        ctx.wf(),
    ensures
        depth == 0 ==> r == 1,
    decreases depth,
{
    if depth == 0 {
        return 1;
    }
    let mut nodes: u64 = 0;
    let mut moves = MoveGenerator::new(pos, MoveTypes::All, false, 0);
    loop
        invariant
            pos.wf(),
            keys.wf(),
            ctx.wf(),
            moves.wf(),
            moves.pos@ == *pos,
            moves.remaining() >= 0,
            depth > 0,
        decreases moves.remaining(),
    {
        let m = match moves.next_move(pos, ctx) {
            None => {
                break;
            },
            Some(m) => m,
        };
        let mut child = *pos;
        if child.make_move(&m, keys) {
            let sub = perft(&child, depth - 1, keys, ctx);
            nodes = if nodes <= u64::MAX - sub { nodes + sub } else { u64::MAX };
        }
    }
    nodes
}

} // verus!
