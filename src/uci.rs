use vstd::prelude::*;
use vstd::string::StringSliceAdditionalSpecFns;
use crate::definitions::{Move, MoveTypes, Piece, SearchContext};
use crate::keys::ZobristKeys;
use crate::make_move::move_in_range;
use crate::move_generator::MoveGenerator;
use crate::position::Position;
use crate::occupancy::{legal_after, move_fits};

verus! {

/// A square as text: file letter then rank digit (`e4`).
pub open spec fn square_text(sq: int) -> Seq<u8> {
    seq![(97 + sq % 8) as u8, (56 - sq / 8) as u8]
}

/// The promotion suffix: `q`, `r`, `b` or `n`, empty for other moves.
pub open spec fn promotion_text(p: Piece) -> Seq<u8> {
    if p.index() >= 12 {
        seq![]
    } else if p.index() % 6 == 4 {
        seq![113u8]
    } else if p.index() % 6 == 3 {
        seq![114u8]
    } else if p.index() % 6 == 2 {
        seq![98u8]
    } else if p.index() % 6 == 1 {
        seq![110u8]
    } else {
        seq![]
    }
}

/// A move in UCI notation: origin, target, promotion (`e7e8q`, `e1g1`).
pub open spec fn uci_text(m: Move) -> Seq<u8> {
    square_text(m.from_sq as int) + square_text(m.to_sq as int) + promotion_text(m.promotion)
}

fn push_square(out: &mut Vec<u8>, sq: u8)
    requires
        sq < 64,
    ensures
        final(out)@ == old(out)@ + square_text(sq as int),
{
    out.push(97 + sq % 8);
    out.push(56 - sq / 8);
    proof {
        assert(final(out)@ =~= old(out)@ + square_text(sq as int));
    }
}

impl Move {
    /// The move in UCI notation, as bytes.
    pub fn to_uci(&self) -> (r: Vec<u8>)
        requires
            self.from_sq < 64,
            self.to_sq < 64,
        ensures
            r@ == uci_text(*self),
    {
        let mut out: Vec<u8> = Vec::new();
        push_square(&mut out, self.from_sq);
        push_square(&mut out, self.to_sq);
        let p = self.promotion.to_index();
        let ghost before = out@;
        if p < 12 {
            let k = p % 6;
            if k == 4 {
                out.push(113);
            } else if k == 3 {
                out.push(114);
            } else if k == 2 {
                out.push(98);
            } else if k == 1 {
                out.push(110);
            }
        }
        proof {
            assert(out@ =~= before + promotion_text(self.promotion));
            assert(before =~= square_text(self.from_sq as int) + square_text(self.to_sq as int));
        }
        out
    }
}

fn bytes_equal(a: &Vec<u8>, b: &[u8]) -> (r: bool)
    ensures
        r == (a@ == b@),
{
    if a.len() != b.len() {
        return false;
    }
    let mut i: usize = 0;
    while i < a.len()
        invariant
            a@.len() == b@.len(),
            i <= a@.len(),
            forall|j: int| 0 <= j < i ==> a@[j] == b@[j],
        decreases a@.len() - i,
    {
        if a[i] != b[i] {
            return false;
        }
        i = i + 1;
    }
    proof {
        assert(a@ =~= b@);
    }
    true
}

impl Position {
    /// The legal move of the side to move whose UCI notation is `input`, if there is one.
    pub fn parse_move(&self, input: &str, keys: &ZobristKeys) -> (r: Option<Move>)
        requires
            self.wf(),
            keys.wf(),
        ensures
            r is Some ==> move_in_range(r->0, self.active_player) && move_fits(*self, r->0) && legal_after(*self, r->0)
                && uci_text(r->0) == input.spec_bytes(),
    {
        let text = input.as_bytes();
        let ctx = SearchContext::new();
        let mut moves = MoveGenerator::new(self, MoveTypes::All, false, 0);
        loop
            invariant
                self.wf(),
                keys.wf(),
                ctx.wf(),
                moves.wf(),
                moves.pos@ == *self,
                moves.remaining() >= 0,
                text@ == input.spec_bytes(),
            decreases moves.remaining(),
        {
            let m = match moves.next_move(self, &ctx) {
                None => {
                    break;
                },
                Some(m) => m,
            };
            let uci = m.to_uci();
            if bytes_equal(&uci, text) {
                let mut child = *self;
                if child.make_move(&m, keys) {
                    return Some(m);
                }
            }
        }
        None
    }
}

} // verus!
