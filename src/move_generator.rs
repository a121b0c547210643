use vstd::prelude::*;
use crate::attack_tables::{get_pawn_attack_table, get_knight_attack_table, get_king_attack_table,
    get_rook_attack_table, get_bishop_attack_table, get_queen_attack_table};
use crate::bitboard::Bitboard;
use crate::definitions::{Color, GenPhase, Move, MoveTypes, Piece, SearchContext, MAX_PLY};
use crate::make_move::move_in_range;
use crate::position::{Position, color_base};
use crate::occupancy::{move_fits, move_fits_check};

verus! {

/// A capture, or a promotion: the moves the first generation phase yields.
pub open spec fn is_noisy(m: Move) -> bool {
    m.is_capture || m.promotion != Piece::NoPiece
}

/// Checks at run time what `move_in_range` states.
pub fn is_move_in_range(m: &Move, side: Color) -> (r: bool)
    ensures
        r == move_in_range(*m, side),
{
    let base: u8 = if side == Color::White { 0 } else { 6 };
    let p = m.piece.to_index();
    if m.from_sq >= 64 || m.to_sq >= 64 || p < base || p >= base + 6 {
        return false;
    }
    if m.is_enpassant || m.is_double_push {
        if side == Color::White {
            m.to_sq < 56
        } else {
            m.to_sq >= 8
        }
    } else {
        true
    }
}

/// The type (0 pawn to 5 king) of the last of the bitboards `start..k` that holds `to`,
/// counted from `start`; 0 when none does.
pub open spec fn victim_upto(bbs: Seq<u64>, to: u64, start: int, k: int) -> int
    decreases k - start,
{
    if k <= start {
        0
    } else if bbs[k - 1] & (1u64 << to) != 0 {
        k - 1 - start
    } else {
        victim_upto(bbs, to, start, k - 1)
    }
}

/// Ordering score of a move: captures and promotions score from 1000 up (captures by most
/// valuable victim, then least valuable attacker), quiet moves below: the first killer
/// 900, the second 800, others their history score capped at 700.
pub fn score_move(m: &Move, pos: &Position, ctx: &SearchContext, ply: usize) -> (r: u16)
    requires
        ctx.wf(),
        ply < MAX_PLY,
        m.piece.index() < 12,
        m.to_sq < 64,
    ensures
        is_noisy(*m) ==> 1000 <= r <= 1056,
        !is_noisy(*m) ==> r <= 900,
        m.is_capture ==> {
            let start = if m.piece.index() < 6 { 6int } else { 0int };
            let victim = if m.is_enpassant { 0 } else { victim_upto(pos.bbs(), m.to_sq as u64, start, start + 6) };
            r == 1000 + 10 * victim + (6 - m.piece.index() % 6)
        },
        !m.is_capture && m.promotion.index() < 12 ==> r == 1000 + 10 * (m.promotion.index() % 6),
        !is_noisy(*m) ==> r == (if m.same_move(ctx.killer_moves@[2 * ply as int]) {
            900
        } else if m.same_move(ctx.killer_moves@[2 * ply + 1]) {
            800
        } else {
            let h = ctx.history_moves@[64 * m.piece.index() + m.to_sq];
            if h > 700 { 700 } else { h as int }
        }),
{
    let attacker: u16 = (m.piece.to_index() % 6) as u16;
    if m.is_capture {
        let mut victim: u16 = 0;
        if !m.is_enpassant {
            let start: usize = if m.piece.to_index() < 6 { 6 } else { 0 };
            let mut p: usize = start;
            while p < start + 6
                invariant
                    start == 0 || start == 6,
                    start == (if m.piece.index() < 6 { 6int } else { 0int }),
                    start <= p <= start + 6,
                    victim <= 5,
                    m.to_sq < 64,
                    victim as int == victim_upto(pos.bbs(), m.to_sq as u64, start as int, p as int),
                decreases start + 6 - p,
            {
                proof {
                    assert(pos.bbs()[p as int] == pos.bitboards@[p as int].bits);
                }
                if pos.bitboards[p].bits & (1u64 << m.to_sq) != 0 {
                    victim = (p - start) as u16;
                }
                p = p + 1;
            }
        }
        1000 + 10 * victim + (6 - attacker)
    } else if m.promotion.to_index() < 12 {
        1000 + 10 * ((m.promotion.to_index() % 6) as u16)
    } else {
        let k0 = ctx.killer_moves[2 * ply];
        let k1 = ctx.killer_moves[2 * ply + 1];
        if m.equals(&k0) {
            900
        } else if m.equals(&k1) {
            800
        } else {
            let h = ctx.history_moves[64 * (m.piece.to_index() as usize) + m.to_sq as usize];
            if h > 700 { 700 } else { h as u16 }
        }
    }
}

/// A lazy generator of the pseudo-legal moves of one position, in two phases: captures and
/// promotions first, then (for `MoveTypes::All`) quiet moves and castling. A seeded move
/// comes first and is not yielded again. Every move it yields fits the position (see
/// `move_fits`); a candidate that does not, which a consistent position never produces (a
/// capture of the king, say), is left out.
pub struct MoveGenerator {
    pub move_types: MoveTypes,
    pub phase: GenPhase,
    pub is_sorting: bool,
    pub side: Color,
    pub ply: usize,
    pub pv_move: Move,
    pub extract_index: usize,
    pub move_list: Vec<Move>,
    /// The position the moves are generated for.
    pub pos: Ghost<Position>,
    /// Where the quiet moves start in the list; 1000001 until they are generated.
    pub quiet_from: Ghost<int>,
}

impl MoveGenerator {
    pub open spec fn wf(&self) -> bool {
        &&& self.extract_index <= self.move_list@.len()
        &&& self.ply < MAX_PLY
        &&& forall|i: int| 0 <= i < self.move_list@.len() ==> move_in_range(#[trigger] self.move_list@[i], self.side)
        &&& self.move_types == MoveTypes::Quiescence ==> forall|i: int|
            0 <= i < self.move_list@.len() ==> is_noisy(#[trigger] self.move_list@[i])
        &&& self.move_list@.len() <= 1000000
        &&& self.side == self.pos@.active_player
        &&& forall|i: int| 0 <= i < self.move_list@.len() ==> move_fits(self.pos@, #[trigger] self.move_list@[i])
        &&& self.in_quiet() ==> self.quiet_from@ <= self.extract_index && self.phase == GenPhase::Done
        &&& !self.in_quiet() ==> self.quiet_from@ == 1000001
        &&& self.quiet_from@ >= 0
        &&& forall|i: int| self.quiet_from@ <= i < self.move_list@.len() ==> !is_noisy(#[trigger] self.move_list@[i])
        &&& forall|i: int|
            0 <= i < self.move_list@.len() && i < self.quiet_from@ && !(i == 0 && !self.pv_move.is_null())
                ==> is_noisy(#[trigger] self.move_list@[i])
        &&& !self.pv_move.is_null() ==> self.move_list@.len() >= 1 && self.move_list@[0] == self.pv_move && (
        self.extract_index == 0 ==> self.move_list@.len() == 1)
    }

    /// The quiet moves have been generated: every move from `quiet_from` on is quiet, and
    /// every earlier one but the seeded move is a capture or promotion.
    pub open spec fn in_quiet(&self) -> bool {
        self.quiet_from@ <= 1000000
    }

    /// Decreases with every move handed out; bounds how many more can come.
    pub open spec fn remaining(&self) -> int {
        (if self.phase == GenPhase::Interesting {
            2int
        } else if self.phase == GenPhase::Quiet {
            1int
        } else {
            0int
        }) * 2000000 + 1000000 - self.extract_index
    }

    pub open spec fn same_config(&self, o: &MoveGenerator) -> bool {
        &&& self.move_types == o.move_types
        &&& self.phase == o.phase
        &&& self.is_sorting == o.is_sorting
        &&& self.side == o.side
        &&& self.ply == o.ply
        &&& self.pv_move == o.pv_move
        &&& self.extract_index == o.extract_index
        &&& self.pos == o.pos
        &&& self.quiet_from == o.quiet_from
    }

    /// A generator for the side to move of `position`, at search depth `ply`.
    pub fn new(position: &Position, move_types: MoveTypes, sort: bool, ply: usize) -> (r: MoveGenerator)
        requires
            ply < MAX_PLY,
        ensures
            r.wf(),
            r.side == position.active_player,
            r.move_types == move_types,
            r.is_sorting == sort,
            r.phase == GenPhase::Interesting,
            r.move_list@.len() == 0,
            r.pv_move.is_null(),
            r.pos@ == *position,
            !r.in_quiet(),
    {
        MoveGenerator {
            move_types,
            phase: GenPhase::Interesting,
            is_sorting: sort,
            side: position.active_player,
            ply,
            pv_move: Move::null(),
            extract_index: 0,
            move_list: Vec::new(),
            pos: Ghost(*position),
            quiet_from: Ghost(1000001),
        }
    }

    /// Seeds the generator with a move (from the transposition table) to yield first.
    pub fn add_pv_move(&mut self, pv_move: Move)
        requires
            old(self).wf(),
            old(self).move_list@.len() == 0,
            old(self).move_types == MoveTypes::All,
            old(self).pv_move.is_null(),
            !old(self).in_quiet(),
            move_in_range(pv_move, old(self).side),
            move_fits(old(self).pos@, pv_move),
        ensures
            final(self).wf(),
            final(self).move_list@ == seq![pv_move],
            final(self).pv_move == pv_move,
            final(self).side == old(self).side,
            final(self).move_types == old(self).move_types,
            final(self).phase == old(self).phase,
            final(self).is_sorting == old(self).is_sorting,
            final(self).extract_index == old(self).extract_index,
            final(self).pos == old(self).pos,
            final(self).quiet_from == old(self).quiet_from,
    {
        proof {
            assert(!pv_move.is_null());
        }
        self.pv_move = pv_move;
        self.move_list.push(pv_move);
        proof {
            assert(self.move_list@ =~= seq![pv_move]);
        }
    }

    /// Adds a generated move, scored when sorting, unless it does not fit the position, repeats
    /// the seeded move, or the list already holds a million moves.
    fn push_move(&mut self, m: Move, pos: &Position, ctx: &SearchContext)
        requires
            old(self).wf(),
            ctx.wf(),
            move_in_range(m, old(self).side),
            old(self).move_types == MoveTypes::Quiescence ==> is_noisy(m),
            *pos == old(self).pos@,
            old(self).in_quiet() == !is_noisy(m),
            old(self).pv_move.is_null() || old(self).extract_index >= 1,
        ensures
            final(self).wf(),
            final(self).same_config(&*old(self)),
    {
        if !move_fits_check(pos, &m) {
            return;
        }
        if self.move_list.len() >= 1000000 || (!self.pv_move.is_null_move() && m.equals(&self.pv_move)) {
            return;
        }
        let mut nm = m;
        if self.is_sorting {
            nm.score = score_move(&m, pos, ctx, self.ply);
        }
        let ghost l0 = self.move_list@;
        self.move_list.push(nm);
        proof {
            let l = self.move_list@;
            assert(is_noisy(nm) == is_noisy(m));
            assert forall|i: int| self.quiet_from@ <= i < l.len() implies !is_noisy(#[trigger] l[i]) by {
                if i < l.len() - 1 {
                    assert(l[i] == l0[i]);
                }
            }
            assert forall|i: int|
                0 <= i < l.len() && i < self.quiet_from@ && !(i == 0 && !self.pv_move.is_null()) implies is_noisy(
                #[trigger] l[i],
            ) by {
                if i < l.len() - 1 {
                    assert(l[i] == l0[i]);
                }
            }
            assert(forall|i: int| 0 <= i < l0.len() ==> l[i] == l0[i]);
        }
    }

    /// Emits a move from `from` to every square of `targets`.
    fn push_targets(&mut self, from: u8, piece: Piece, targets: Bitboard, capture: bool, pos: &Position,
        ctx: &SearchContext)
        requires
            old(self).wf(),
            ctx.wf(),
            from < 64,
            color_base(old(self).side) <= piece.index() < color_base(old(self).side) + 6,
            old(self).move_types == MoveTypes::Quiescence ==> capture,
            *pos == old(self).pos@,
            old(self).in_quiet() == !capture,
            old(self).pv_move.is_null() || old(self).extract_index >= 1,
        ensures
            final(self).wf(),
            final(self).same_config(&*old(self)),
    {
        let mut t = targets;
        loop
            invariant
                self.wf(),
                ctx.wf(),
                from < 64,
                color_base(self.side) <= piece.index() < color_base(self.side) + 6,
                self.move_types == MoveTypes::Quiescence ==> capture,
                self.same_config(&*old(self)),
                self.in_quiet() == !capture,
                self.pv_move.is_null() || self.extract_index >= 1,
                *pos == self.pos@,
            decreases t.bits,
        {
            match t.extract_bit() {
                None => {
                    break;
                },
                Some(to) => {
                    let m = Move::new(from, to, piece, Piece::NoPiece, capture, false, false, false);
                    self.push_move(m, pos, ctx);
                },
            }
        }
    }

    /// Emits the four promotions of a pawn of `self.side` from `from` to `to`.
    fn push_promotions(&mut self, from: u8, to: u8, capture: bool, pos: &Position, ctx: &SearchContext)
        requires
            old(self).wf(),
            ctx.wf(),
            from < 64,
            to < 64,
            *pos == old(self).pos@,
            !old(self).in_quiet(),
            old(self).pv_move.is_null() || old(self).extract_index >= 1,
        ensures
            final(self).wf(),
            final(self).same_config(&*old(self)),
    {
        let base: u8 = if self.side == Color::White { 0 } else { 6 };
        let pawn = Piece::from_index(base);
        let mut k: u8 = 4;
        while k >= 1
            invariant
                self.wf(),
                ctx.wf(),
                from < 64,
                to < 64,
                k <= 4,
                base == color_base(self.side),
                pawn.index() == base,
                self.same_config(&*old(self)),
                !self.in_quiet(),
                self.pv_move.is_null() || self.extract_index >= 1,
                *pos == self.pos@,
            decreases k,
        {
            let promo = Piece::from_index(base + k);
            let m = Move::new(from, to, pawn, promo, capture, false, false, false);
            self.push_move(m, pos, ctx);
            k = k - 1;
        }
    }

    /// Pawn moves: captures, en passant and promotions when `noisy`, else single and double pushes.
    fn gen_pawn_moves(&mut self, pos: &Position, ctx: &SearchContext, noisy: bool)
        requires
            old(self).wf(),
            ctx.wf(),
            *pos == old(self).pos@,
            old(self).move_types == MoveTypes::Quiescence ==> noisy,
            old(self).in_quiet() == !noisy,
            old(self).pv_move.is_null() || old(self).extract_index >= 1,
        ensures
            final(self).wf(),
            final(self).same_config(&*old(self)),
    {
        let white = self.side == Color::White;
        let base: usize = if white { 0 } else { 6 };
        let pawn = Piece::from_index(base as u8);
        let opp = if white { pos.black_occupancies.bits } else { pos.white_occupancies.bits };
        let all = pos.all_occupancies.bits;
        let ep = pos.enpassant_square.to_u8();
        let mut froms = pos.bitboards[base];
        loop
            invariant
                self.wf(),
                ctx.wf(),
                white == (self.side == Color::White),
                base == color_base(self.side),
                pawn.index() == base,
                self.move_types == MoveTypes::Quiescence ==> noisy,
                self.same_config(&*old(self)),
                self.in_quiet() == !noisy,
                self.pv_move.is_null() || self.extract_index >= 1,
                *pos == self.pos@,
            decreases froms.bits,
        {
            let from = match froms.extract_bit() {
                None => {
                    break;
                },
                Some(f) => f,
            };
            // the square one step forward, if on the board
            let fwd: u8 = if white {
                if from >= 8 { from - 8 } else { 64 }
            } else {
                if from < 56 { from + 8 } else { 64 }
            };
            let fwd_empty = fwd < 64 && all & (1u64 << fwd) == 0;
            let promoting = fwd < 64 && ((white && fwd < 8) || (!white && fwd >= 56));
            if noisy {
                if fwd_empty && promoting {
                    self.push_promotions(from, fwd, false, pos, ctx);
                }
                let mut caps = get_pawn_attack_table(from, self.side).and_u64(opp);
                loop
                    invariant
                        self.wf(),
                        ctx.wf(),
                        from < 64,
                        white == (self.side == Color::White),
                        base == color_base(self.side),
                        pawn.index() == base,
                        self.move_types == MoveTypes::Quiescence ==> noisy,
                        self.same_config(&*old(self)),
                        self.in_quiet() == !noisy,
                        self.pv_move.is_null() || self.extract_index >= 1,
                        *pos == self.pos@,
                        noisy,
                    decreases caps.bits,
                {
                    match caps.extract_bit() {
                        None => {
                            break;
                        },
                        Some(to) => {
                            if (white && to < 8) || (!white && to >= 56) {
                                self.push_promotions(from, to, true, pos, ctx);
                            } else {
                                let m = Move::new(from, to, pawn, Piece::NoPiece, true, false, false, false);
                                self.push_move(m, pos, ctx);
                            }
                        },
                    }
                }
                if ep < 64 && get_pawn_attack_table(from, self.side).get_bit(ep) && ((white && ep < 56) || (
                !white && ep >= 8)) {
                    let m = Move::new(from, ep, pawn, Piece::NoPiece, true, false, true, false);
                    self.push_move(m, pos, ctx);
                }
            } else if fwd_empty && !promoting {
                let m = Move::new(from, fwd, pawn, Piece::NoPiece, false, false, false, false);
                self.push_move(m, pos, ctx);
                let start_rank = if white { 48 <= from && from < 56 } else { 8 <= from && from < 16 };
                if start_rank {
                    let two: u8 = if white { from - 16 } else { from + 16 };
                    if all & (1u64 << two) == 0 {
                        let m2 = Move::new(from, two, pawn, Piece::NoPiece, false, true, false, false);
                        self.push_move(m2, pos, ctx);
                    }
                }
            }
        }
    }

    /// Knight, bishop, rook, queen and king moves: captures when `noisy`, else moves to empty squares.
    fn gen_piece_moves(&mut self, pos: &Position, ctx: &SearchContext, noisy: bool)
        requires
            old(self).wf(),
            ctx.wf(),
            *pos == old(self).pos@,
            old(self).move_types == MoveTypes::Quiescence ==> noisy,
            old(self).in_quiet() == !noisy,
            old(self).pv_move.is_null() || old(self).extract_index >= 1,
        ensures
            final(self).wf(),
            final(self).same_config(&*old(self)),
    {
        let white = self.side == Color::White;
        let base: u8 = if white { 0 } else { 6 };
        let opp = if white { pos.black_occupancies } else { pos.white_occupancies };
        let all = pos.all_occupancies;
        let mut kind: u8 = 1;
        while kind < 6
            invariant
                self.wf(),
                ctx.wf(),
                1 <= kind <= 6,
                base == color_base(self.side),
                self.move_types == MoveTypes::Quiescence ==> noisy,
                self.same_config(&*old(self)),
                self.in_quiet() == !noisy,
                self.pv_move.is_null() || self.extract_index >= 1,
                *pos == self.pos@,
            decreases 6 - kind,
        {
            let piece = Piece::from_index(base + kind);
            let mut froms = pos.bitboards[(base + kind) as usize];
            loop
                invariant
                    self.wf(),
                    ctx.wf(),
                    1 <= kind < 6,
                    base == color_base(self.side),
                    piece.index() == base + kind,
                    self.move_types == MoveTypes::Quiescence ==> noisy,
                    self.same_config(&*old(self)),
                    self.in_quiet() == !noisy,
                    self.pv_move.is_null() || self.extract_index >= 1,
                    *pos == self.pos@,
                decreases froms.bits,
            {
                let from = match froms.extract_bit() {
                    None => {
                        break;
                    },
                    Some(f) => f,
                };
                let attacks = if kind == 1 {
                    get_knight_attack_table(from)
                } else if kind == 2 {
                    get_bishop_attack_table(from, all)
                } else if kind == 3 {
                    get_rook_attack_table(from, all)
                } else if kind == 4 {
                    get_queen_attack_table(from, all)
                } else {
                    get_king_attack_table(from)
                };
                let targets = if noisy { attacks.and(opp) } else { attacks.and(all.not()) };
                self.push_targets(from, piece, targets, noisy, pos, ctx);
            }
            kind = kind + 1;
        }
    }

    /// Castling moves whose right is held, with the king and rook at home, the squares between
    /// them empty, and the king's square and the one it crosses not attacked.
    fn gen_castling(&mut self, pos: &Position, ctx: &SearchContext)
        requires
            old(self).wf(),
            old(self).move_types == MoveTypes::All,
            ctx.wf(),
            *pos == old(self).pos@,
            old(self).in_quiet(),
            old(self).pv_move.is_null() || old(self).extract_index >= 1,
        ensures
            final(self).wf(),
            final(self).same_config(&*old(self)),
    {
        let all = pos.all_occupancies.bits;
        let rights = pos.castling_ability;
        if self.side == Color::White {
            let king_home = pos.bitboards[5].bits & (1u64 << 60u64) != 0;
            if king_home && rights & 1 != 0 && pos.bitboards[3].bits & (1u64 << 63u64) != 0 && all & (1u64
                << 61u64) == 0 && all & (1u64 << 62u64) == 0 && !pos.is_square_attacked(60, Color::Black)
                && !pos.is_square_attacked(61, Color::Black) {
                let m = Move::new(60, 62, Piece::WhiteKing, Piece::NoPiece, false, false, false, true);
                self.push_move(m, pos, ctx);
            }
            if king_home && rights & 2 != 0 && pos.bitboards[3].bits & (1u64 << 56u64) != 0 && all & (1u64
                << 59u64) == 0 && all & (1u64 << 58u64) == 0 && all & (1u64 << 57u64) == 0
                && !pos.is_square_attacked(60, Color::Black) && !pos.is_square_attacked(59, Color::Black) {
                let m = Move::new(60, 58, Piece::WhiteKing, Piece::NoPiece, false, false, false, true);
                self.push_move(m, pos, ctx);
            }
        } else {
            let king_home = pos.bitboards[11].bits & (1u64 << 4u64) != 0;
            if king_home && rights & 4 != 0 && pos.bitboards[9].bits & (1u64 << 7u64) != 0 && all & (1u64
                << 5u64) == 0 && all & (1u64 << 6u64) == 0 && !pos.is_square_attacked(4, Color::White)
                && !pos.is_square_attacked(5, Color::White) {
                let m = Move::new(4, 6, Piece::BlackKing, Piece::NoPiece, false, false, false, true);
                self.push_move(m, pos, ctx);
            }
            if king_home && rights & 8 != 0 && pos.bitboards[9].bits & (1u64 << 0u64) != 0 && all & (1u64
                << 3u64) == 0 && all & (1u64 << 2u64) == 0 && all & (1u64 << 1u64) == 0
                && !pos.is_square_attacked(4, Color::White) && !pos.is_square_attacked(3, Color::White) {
                let m = Move::new(4, 2, Piece::BlackKing, Piece::NoPiece, false, false, false, true);
                self.push_move(m, pos, ctx);
            }
        }
    }
}

impl MoveGenerator {
    /// Takes the highest-scored move left (the earliest among equals) by swapping it to the
    /// front of what is left.
    fn extract_best(&mut self) -> (r: Move)
        requires
            old(self).wf(),
            old(self).extract_index < old(self).move_list@.len(),
        ensures
            final(self).wf(),
            final(self).extract_index == old(self).extract_index + 1,
            exists|b: int|
                old(self).extract_index <= b < old(self).move_list@.len() && r == old(self).move_list@[b]
                    && final(self).move_list@ == old(self).move_list@.update(
                    b,
                    old(self).move_list@[old(self).extract_index as int],
                ).update(old(self).extract_index as int, r),
            forall|i: int|
                old(self).extract_index <= i < old(self).move_list@.len() ==> r.score
                    >= #[trigger] old(self).move_list@[i].score,
            final(self).move_types == old(self).move_types,
            final(self).phase == old(self).phase,
            final(self).is_sorting == old(self).is_sorting,
            final(self).side == old(self).side,
            final(self).ply == old(self).ply,
            final(self).pv_move == old(self).pv_move,
            final(self).pos == old(self).pos,
            final(self).quiet_from == old(self).quiet_from,
    {
        let start = self.extract_index;
        let n = self.move_list.len();
        let mut best: usize = start;
        let mut i: usize = start + 1;
        while i < n
            invariant
                start < n == self.move_list@.len(),
                start <= best < i <= n,
                forall|j: int|
                    start <= j < i ==> self.move_list@[best as int].score >= #[trigger] self.move_list@[j].score,
            decreases n - i,
        {
            if self.move_list[i].score > self.move_list[best].score {
                best = i;
            }
            i = i + 1;
        }
        let ghost l0 = self.move_list@;
        let chosen = self.move_list[best];
        let first = self.move_list[start];
        self.move_list.set(best, first);
        self.move_list.set(start, chosen);
        self.extract_index = start + 1;
        proof {
            assert(forall|j: int| 0 <= j < l0.len() ==> move_in_range(#[trigger] l0[j], self.side));
            assert forall|j: int| 0 <= j < self.move_list@.len() implies move_in_range(
                #[trigger] self.move_list@[j],
                self.side,
            ) by {
                if j == start as int {
                } else if j == best as int {
                } else {
                    assert(self.move_list@[j] == l0[j]);
                }
            }
            assert(forall|j: int| 0 <= j < l0.len() ==> move_fits(self.pos@, #[trigger] l0[j]));
            assert forall|j: int| 0 <= j < self.move_list@.len() implies move_fits(
                self.pos@,
                #[trigger] self.move_list@[j],
            ) by {
                if j == start as int {
                } else if j == best as int {
                } else {
                    assert(self.move_list@[j] == l0[j]);
                }
            }
            if self.move_types == MoveTypes::Quiescence {
                assert forall|j: int| 0 <= j < self.move_list@.len() implies is_noisy(
                    #[trigger] self.move_list@[j],
                ) by {
                    if j == start as int {
                    } else if j == best as int {
                    } else {
                        assert(self.move_list@[j] == l0[j]);
                    }
                }
            }
            assert(self.move_list@ == l0.update(best as int, first).update(start as int, chosen));
            assert forall|j: int| self.quiet_from@ <= j < self.move_list@.len() implies !is_noisy(
                #[trigger] self.move_list@[j],
            ) by {
                if j == start as int {
                    assert(!is_noisy(l0[best as int]));
                } else if j == best as int {
                    assert(!is_noisy(l0[start as int]));
                } else {
                    assert(self.move_list@[j] == l0[j]);
                }
            }
            assert forall|j: int|
                0 <= j < self.move_list@.len() && j < self.quiet_from@ && !(j == 0 && !self.pv_move.is_null())
                    implies is_noisy(#[trigger] self.move_list@[j]) by {
                if j == start as int {
                    assert(is_noisy(l0[best as int]) || (best == 0 && !self.pv_move.is_null()));
                } else if j == best as int {
                    assert(is_noisy(l0[start as int]) || (start == 0 && !self.pv_move.is_null()));
                } else {
                    assert(self.move_list@[j] == l0[j]);
                }
            }
        }
        chosen
    }

    /// Takes the next move left in generation order.
    fn extract_first(&mut self) -> (r: Move)
        requires
            old(self).wf(),
            old(self).extract_index < old(self).move_list@.len(),
        ensures
            final(self).wf(),
            final(self).extract_index == old(self).extract_index + 1,
            r == old(self).move_list@[old(self).extract_index as int],
            final(self).move_list@ == old(self).move_list@,
            final(self).move_types == old(self).move_types,
            final(self).phase == old(self).phase,
            final(self).is_sorting == old(self).is_sorting,
            final(self).side == old(self).side,
            final(self).ply == old(self).ply,
            final(self).pv_move == old(self).pv_move,
            final(self).pos == old(self).pos,
            final(self).quiet_from == old(self).quiet_from,
    {
        let m = self.move_list[self.extract_index];
        self.extract_index = self.extract_index + 1;
        m
    }

    /// Generates the next phase: captures and promotions, then quiet moves and castling for
    /// `MoveTypes::All`.
    fn generate_phase(&mut self, pos: &Position, ctx: &SearchContext)
        requires
            old(self).wf(),
            ctx.wf(),
            *pos == old(self).pos@,
            old(self).phase != GenPhase::Done,
            old(self).extract_index == old(self).move_list@.len(),
        ensures
            final(self).wf(),
            final(self).side == old(self).side,
            old(self).in_quiet() ==> final(self).in_quiet(),
            final(self).move_types == old(self).move_types,
            final(self).is_sorting == old(self).is_sorting,
            final(self).ply == old(self).ply,
            final(self).pv_move == old(self).pv_move,
            final(self).extract_index == old(self).extract_index,
            final(self).pos == old(self).pos,
            old(self).phase == GenPhase::Interesting ==> final(self).phase == (if old(self).move_types
                == MoveTypes::All {
                GenPhase::Quiet
            } else {
                GenPhase::Done
            }),
            old(self).phase == GenPhase::Quiet ==> final(self).phase == GenPhase::Done,
    {
        if self.phase == GenPhase::Interesting {
            self.gen_pawn_moves(pos, ctx, true);
            self.gen_piece_moves(pos, ctx, true);
            if self.move_types == MoveTypes::All {
                self.phase = GenPhase::Quiet;
            } else {
                self.phase = GenPhase::Done;
            }
        } else {
            self.phase = GenPhase::Done;
            self.quiet_from = Ghost(self.move_list@.len() as int);
            if self.move_types == MoveTypes::All {
                self.gen_pawn_moves(pos, ctx, false);
                self.gen_piece_moves(pos, ctx, false);
                self.gen_castling(pos, ctx);
            }
        }
    }

    /// The next pseudo-legal move, or `None` once every phase is used up. The seeded move comes
    /// first; then every capture and promotion comes before any quiet move. Sorting yields the
    /// best-scored move left in the current phase.
    pub fn next_move(&mut self, pos: &Position, ctx: &SearchContext) -> (r: Option<Move>)
        requires
            old(self).wf(),
            ctx.wf(),
            *pos == old(self).pos@,
        ensures
            final(self).wf(),
            final(self).side == old(self).side,
            final(self).move_types == old(self).move_types,
            final(self).is_sorting == old(self).is_sorting,
            final(self).pv_move == old(self).pv_move,
            final(self).ply == old(self).ply,
            final(self).pos == old(self).pos,
            r is Some ==> move_in_range(r->0, old(self).side),
            r is Some ==> move_fits(*pos, r->0),
            r is Some && old(self).move_types == MoveTypes::Quiescence ==> is_noisy(r->0),
            r is None ==> final(self).phase == GenPhase::Done,
            old(self).extract_index == 0 && old(self).move_list@.len() == 1 ==> r == Some(old(self).move_list@[0]),
            old(self).in_quiet() ==> final(self).in_quiet(),
            old(self).in_quiet() && r is Some ==> !is_noisy(r->0),
            r is Some && !is_noisy(r->0) && !(old(self).extract_index == 0 && !old(self).pv_move.is_null())
                ==> final(self).in_quiet(),
            r is Some ==> final(self).remaining() < old(self).remaining(),
            final(self).remaining() >= 0,
    {
        while self.extract_index == self.move_list.len() && self.phase != GenPhase::Done
            invariant
                self.wf(),
                ctx.wf(),
                *pos == self.pos@,
                self.pos == old(self).pos,
                self.side == old(self).side,
                self.move_types == old(self).move_types,
                self.is_sorting == old(self).is_sorting,
                self.pv_move == old(self).pv_move,
                self.ply == old(self).ply,
                self.remaining() <= old(self).remaining(),
                old(self).extract_index == 0 && old(self).move_list@.len() == 1 ==> self.move_list@
                    == old(self).move_list@ && self.extract_index == 0,
                self.extract_index == old(self).extract_index,
                old(self).in_quiet() ==> self.in_quiet(),
            decreases (if self.phase == GenPhase::Interesting { 2int } else if self.phase == GenPhase::Quiet {
                1int
            } else {
                0int
            }),
        {
            self.generate_phase(pos, ctx);
        }
        if self.extract_index >= self.move_list.len() {
            return None;
        }
        let ghost l0 = self.move_list@;
        let ghost i0 = self.extract_index;
        let m = if self.is_sorting {
            self.extract_best()
        } else {
            self.extract_first()
        };
        proof {
            assert(move_in_range(l0[i0 as int], self.side));
            assert(move_fits(self.pos@, l0[i0 as int]));
        }
        Some(m)
    }
}

/// A move generator bundled with its position, for stepping through moves one at a time
/// outside a search.
pub struct MoveIterator {
    pub generator: MoveGenerator,
    pub position: Position,
    pub context: SearchContext,
}

impl MoveIterator {
    pub open spec fn wf(&self) -> bool {
        self.generator.wf() && self.context.wf() && self.generator.pos@ == self.position
    }

    pub fn new(position: Position, move_types: MoveTypes, sort: bool) -> (r: Self)
        ensures
            r.wf(),
            r.position == position,
            r.generator.move_types == move_types,
    {
        MoveIterator {
            generator: MoveGenerator::new(&position, move_types, sort, 0),
            position,
            context: SearchContext::new(),
        }
    }

    /// The next pseudo-legal move of the position, or `None` when all were given.
    pub fn next(&mut self) -> (r: Option<Move>)
        requires
            old(self).wf(),
        ensures
            final(self).wf(),
            final(self).position == old(self).position,
            r is Some ==> move_in_range(r->0, old(self).position.active_player),
            r is Some ==> move_fits(old(self).position, r->0),
            old(self).generator.in_quiet() ==> final(self).generator.in_quiet(),
            old(self).generator.in_quiet() && r is Some ==> !is_noisy(r->0),
            r is Some && !is_noisy(r->0) && !(old(self).generator.extract_index == 0
                && !old(self).generator.pv_move.is_null()) ==> final(self).generator.in_quiet(),
            r is None ==> final(self).generator.phase == GenPhase::Done,
            r is Some && old(self).generator.move_types == MoveTypes::Quiescence ==> is_noisy(r->0),
    {
        self.generator.next_move(&self.position, &self.context)
    }
}

} // verus!
