use vstd::prelude::*;
use crate::definitions::{Move, MoveTypes, Piece, SearchContext, MAX_PLY};
use crate::keys::ZobristKeys;
use crate::make_move::move_in_range;
use crate::move_generator::{MoveGenerator, is_move_in_range};
use crate::position::Position;
use crate::occupancy::{legal_after, move_fits, move_fits_check};
use crate::repetition_table::{RepetitionTable, repeats};
use crate::evaluation::side_eval;
use crate::transposition_table::{probe_result, HashFlag, TranspositionTable, INFINITY, MATE_BOUND, MATE_VALUE, UNKNOWN_SCORE,
    search_score};

verus! {

pub const FULL_DEPTH_MOVES: u32 = 4;
pub const REDUCTION_LIMIT: u8 = 3;
/// Mask on the node count: the clock is read when the masked count is zero.
pub const INPUT_POLL_INTERVAL: u64 = 16383;
pub const ASPIRATION_MARGIN: i32 = 50;

/// Relies on std::time::SystemTime::now and duration_since: milliseconds since the Unix
/// epoch. The value depends on the clock, so nothing is promised of it.
#[verifier::external_body]
fn clock_millis() -> (r: u64) {
    match std::time::SystemTime::now().duration_since(std::time::UNIX_EPOCH) {
        Ok(d) => d.as_millis() as u64,
        Err(_) => 0,
    }
}

#[verifier::external_type_specification]
#[verifier::external_body]
#[verifier::reject_recursive_types(T)]
pub struct ExReceiver<T>(std::sync::mpsc::Receiver<T>);

/// Relies on std::sync::mpsc::Receiver::try_recv: whether a line was waiting (it is taken
/// off the channel). What arrives depends on the operator, so nothing is promised of it.
#[verifier::external_body]
fn line_waiting(input: &std::sync::mpsc::Receiver<String>) -> (r: bool) {
    input.try_recv().is_ok()
}

/// Whether a search stops: a line from the operator is waiting, or there is a time budget
/// (`max_time` not negative) and the milliseconds from `start` to `now` have reached it.
pub open spec fn stop_due(now: u64, start: u64, max_time: i64, pending: bool) -> bool {
    pending || (max_time >= 0 && (if now >= start { now - start } else { 0 }) >= max_time)
}

pub fn should_stop(now: u64, start: u64, max_time: i64, pending: bool) -> (r: bool)
    ensures
        r == stop_due(now, start, max_time, pending),
{
    if pending {
        return true;
    }
    if max_time < 0 {
        return false;
    }
    let elapsed: u64 = if now >= start { now - start } else { 0 };
    elapsed >= max_time as u64
}

/// What a root search found: the best move of the last completed depth and its score.
pub struct SearchResult {
    pub best_move: Move,
    pub nodes_visited: u64,
    pub score: i32,
    pub depth: u8,
    pub reached_max_ply: bool,
    pub tt_hits: u32,
    pub reports: Vec<DepthReport>,
}

impl SearchResult {
    pub fn new(cmove: Move, nodes: u64, score: i32, depth: u8, reached_max_ply: bool, tt_hits: u32) -> (r: Self)
        ensures
            r.best_move == cmove,
            r.nodes_visited == nodes,
            r.score == score,
            r.depth == depth,
            r.reached_max_ply == reached_max_ply,
            r.tt_hits == tt_hits,
            r.reports@.len() == 0,
    {
        SearchResult {
            best_move: cmove,
            nodes_visited: nodes,
            score,
            depth,
            reached_max_ply,
            tt_hits,
            reports: Vec::new(),
        }
    }
}

/// What one completed depth of iterative deepening found, for an info line.
pub struct DepthReport {
    pub depth: u8,
    pub score: i32,
    pub nodes: u64,
    pub millis: u64,
    pub pv: Vec<Move>,
}

/// Where an iterative deepening stands: the next depth, the last completed one with its
/// score and best move, and the aspiration window for the next search.
pub struct Deepening {
    pub max_depth: u8,
    pub current: u8,
    pub completed: u8,
    pub alpha: i32,
    pub beta: i32,
    pub best: Move,
    pub score: i32,
    pub finished: bool,
}

impl Deepening {
    pub open spec fn wf(&self, root: Position) -> bool {
        &&& self.max_depth < MAX_PLY
        &&& 1 <= self.current <= self.max_depth + 1
        &&& self.completed == self.current - 1
        &&& search_score(self.alpha as int)
        &&& search_score(self.beta as int)
        &&& self.alpha < self.beta
        &&& search_score(self.score as int)
        &&& self.best.is_null() || (move_in_range(self.best, root.active_player) && move_fits(root, self.best)
            && legal_after(root, self.best))
    }

    /// Decreases with every completed depth and when the deepening finishes.
    pub open spec fn progress(&self) -> int {
        if self.finished { 0 } else { 2 * (self.max_depth + 2 - self.current) }
    }
}

/// How a score reads in an info line: `(true, n)` for "mate n" (moves, negative when the
/// side to move is mated), `(false, cp)` for centipawns.
pub open spec fn uci_score_spec(score: int) -> (bool, int) {
    if -MATE_VALUE <= score < -MATE_BOUND {
        (true, -((score + MATE_VALUE) / 2) - 1)
    } else if MATE_BOUND < score <= MATE_VALUE {
        (true, (MATE_VALUE - score) / 2 + 1)
    } else {
        (false, score)
    }
}

pub fn uci_score(score: i32) -> (r: (bool, i32))
    ensures
        r.0 == uci_score_spec(score as int).0,
        r.1 as int == uci_score_spec(score as int).1,
{
    if -MATE_VALUE <= score && score < -MATE_BOUND {
        (true, -((score + MATE_VALUE) / 2) - 1)
    } else if MATE_BOUND < score && score <= MATE_VALUE {
        (true, (MATE_VALUE - score) / 2 + 1)
    } else {
        (false, score)
    }
}

/// Iterative-deepening alpha-beta search over one root position.
pub struct Searcher {
    pub pos: Position,
    pub nodes: u64,
    pub tt_hits: u32,
    pub stopping: bool,
    pub start_time: u64,
    pub max_time: i64,
    pub node_limit: u64,
    pub root_best_move: Move,
    pub context: SearchContext,
    /// Lines from the operator; any line that arrives during a search stops it.
    pub input: Option<std::sync::mpsc::Receiver<String>>,
    pub repetition_table: RepetitionTable,
    pub tt: TranspositionTable,
    pub keys: ZobristKeys,
}

impl Searcher {
    pub open spec fn wf(&self) -> bool {
        &&& self.pos.wf()
        &&& self.context.wf()
        &&& self.tt.wf()
        &&& self.keys.wf()
    }

    /// A searcher for `pos` that owns the table `tt` and the game's repetition history
    /// (ending with `pos`); `max_time` in milliseconds, `None` for no limit.
    pub fn new(pos: Position, tt: TranspositionTable, max_time: Option<i64>, history: RepetitionTable,
        keys: ZobristKeys) -> (r: Self)
        requires
            pos.wf(),
            tt.wf(),
            keys.wf(),
        ensures
            r.wf(),
            r.pos == pos,
            r.nodes == 0,
            !r.stopping,
            r.max_time == (match max_time { Some(t) => t, None => -1i64 }),
            r.repetition_table == history,
    {
        Searcher {
            pos,
            nodes: 0,
            tt_hits: 0,
            stopping: false,
            start_time: clock_millis(),
            max_time: match max_time {
                Some(t) => t,
                None => -1,
            },
            node_limit: 0,
            root_best_move: Move::null(),
            context: SearchContext::new(),
            input: None,
            repetition_table: history,
            tt,
            keys,
        }
    }

    /// No time limit, no input channel and no node limit: nothing outside stops the search.
    pub open spec fn outside_free(&self) -> bool {
        self.max_time < 0 && self.input is None && self.node_limit == 0
    }

    /// The search settings that `stopping` depends on are those of `o`.
    pub open spec fn same_limits(&self, o: &Searcher) -> bool {
        self.max_time == o.max_time && (self.input is None) == (o.input is None) && self.node_limit == o.node_limit
    }

    /// Sets `stopping` once the node limit (when not zero) is reached, or `should_stop` says so
    /// for the clock reading (taken when there is a time budget) and whether a line from the
    /// operator is waiting (when there is an input channel).
    pub fn poll_input(&mut self)
        requires
            old(self).wf(),
        ensures
            final(self).wf(),
            final(self).nodes == old(self).nodes,
            final(self).tt == old(self).tt,
            final(self).pos == old(self).pos,
            final(self).context == old(self).context,
            final(self).repetition_table.table@ == old(self).repetition_table.table@,
            final(self).same_limits(&*old(self)),
            final(self).root_best_move == old(self).root_best_move,
            old(self).stopping || (old(self).node_limit != 0 && old(self).nodes >= old(self).node_limit)
                ==> final(self).stopping,
            final(self).stopping ==> old(self).stopping || (old(self).node_limit != 0 && old(self).nodes
                >= old(self).node_limit) || old(self).max_time >= 0 || old(self).input is Some,
    {
        if self.node_limit != 0 && self.nodes >= self.node_limit {
            self.stopping = true;
            return;
        }
        let pending = match &self.input {
            Some(input) => line_waiting(input),
            None => false,
        };
        let now: u64 = if self.max_time >= 0 { clock_millis() } else { 0 };
        if should_stop(now, self.start_time, self.max_time, pending) {
            self.stopping = true;
        }
    }

    fn count_node(&mut self)
        ensures
            final(self).nodes == (if old(self).nodes < u64::MAX { (old(self).nodes + 1) as u64 } else { old(self).nodes }),
            final(self).pos == old(self).pos,
            final(self).context == old(self).context,
            final(self).tt == old(self).tt,
            final(self).keys == old(self).keys,
            final(self).repetition_table.table@ == old(self).repetition_table.table@,
            final(self).stopping == old(self).stopping,
            final(self).same_limits(&*old(self)),
            final(self).root_best_move == old(self).root_best_move,
    {
        if self.nodes < u64::MAX {
            self.nodes = self.nodes + 1;
        }
    }

    /// Remembers a quiet move that caused a cutoff at `ply`: it becomes the first killer, the
    /// old first killer the second, and its history score grows by `depth`.
    fn record_cutoff(&mut self, m: &Move, ply: usize, depth: u8)
        requires
            old(self).wf(),
            ply < MAX_PLY,
            m.piece.index() < 12,
            m.to_sq < 64,
        ensures
            final(self).wf(),
            final(self).pos == old(self).pos,
            final(self).tt == old(self).tt,
            final(self).keys == old(self).keys,
            final(self).repetition_table.table@ == old(self).repetition_table.table@,
            final(self).stopping == old(self).stopping,
            final(self).same_limits(&*old(self)),
            final(self).root_best_move == old(self).root_best_move,
            final(self).context.killer_moves@[2 * ply as int] == *m,
            final(self).context.killer_moves@[2 * ply + 1] == old(self).context.killer_moves@[2 * ply as int],
    {
        let k0 = self.context.killer_moves[2 * ply];
        self.context.killer_moves.set(2 * ply + 1, k0);
        self.context.killer_moves.set(2 * ply, *m);
        let h = 64 * (m.piece.to_index() as usize) + m.to_sq as usize;
        let old_h = self.context.history_moves[h];
        let new_h: u32 = if old_h <= u32::MAX - depth as u32 { old_h + depth as u32 } else { u32::MAX };
        self.context.history_moves.set(h, new_h);
    }

    /// The move stored for `pos` in the table, if it fits that position.
    fn table_move(&self, pos: &Position) -> (r: Option<Move>)
        requires
            self.tt.wf(),
        ensures
            r is Some ==> move_in_range(r->0, pos.active_player) && move_fits(*pos, r->0),
            r is Some ==> r->0 == self.tt.table@[self.tt.slot(pos.zobrist_hash)].best_move,
    {
        let m = self.tt.probe_best_move(pos.zobrist_hash);
        if m.is_null_move() || !move_fits_check(pos, &m) {
            return None;
        }
        Some(m)
    }

    /// The table settles the node at once: not the root, a null window, and a usable stored
    /// score within the score range.
    pub open spec fn table_cut(&self, pos: Position, depth: u8, alpha: i32, beta: i32, ply: usize) -> bool {
        let sc = probe_result(
            self.tt.table@[self.tt.slot(pos.zobrist_hash)],
            pos.zobrist_hash,
            depth,
            alpha,
            beta,
            ply as u8,
        );
        ply != 0 && beta - alpha <= 1 && sc != UNKNOWN_SCORE && -INFINITY <= sc <= INFINITY
    }

    /// Negamax alpha-beta search of `pos` to `depth` plies in the window (`alpha`, `beta`),
    /// `ply` plies below the root; the score is from the side to move's point of view and is
    /// meaningless once `stopping` is set.
    pub fn negamax(&mut self, pos: &Position, depth: u8, alpha: i32, beta: i32, ply: usize) -> (r: i32)
        requires
            old(self).wf(),
            pos.wf(),
            ply < MAX_PLY,
            depth < 255,
            search_score(alpha as int),
            search_score(beta as int),
            alpha < beta,
        ensures
            final(self).wf(),
            search_score(r as int),
            final(self).repetition_table.table@ == old(self).repetition_table.table@,
            final(self).pos == old(self).pos,
            final(self).same_limits(&*old(self)),
            old(self).outside_free() && !old(self).stopping ==> !final(self).stopping,
            ply > 0 ==> final(self).root_best_move == old(self).root_best_move,
            ply == 0 && (old(self).root_best_move.is_null() || (move_fits(*pos, old(self).root_best_move)
                && legal_after(*pos, old(self).root_best_move))) ==> final(self).root_best_move.is_null() || (
            move_fits(*pos, final(self).root_best_move) && legal_after(*pos, final(self).root_best_move)),
            old(self).table_cut(*pos, depth, alpha, beta, ply) ==> r == probe_result(
                old(self).tt.table@[old(self).tt.slot(pos.zobrist_hash)],
                pos.zobrist_hash,
                depth,
                alpha,
                beta,
                ply as u8,
            ),
            !old(self).table_cut(*pos, depth, alpha, beta, ply) ==> {
                let rep = ply > 0 && repeats(old(self).repetition_table.table@);
                let e = side_eval(*pos);
                &&& rep ==> r == 0
                &&& !rep && ply >= MAX_PLY - 1 ==> r == e
                &&& !rep && ply < MAX_PLY - 1 && (depth == 0 || pos.half_moves >= 100) ==> {
                    &&& e >= beta ==> r == beta
                    &&& e < beta && pos.half_moves >= 100 ==> r == e
                    &&& e < beta && pos.half_moves < 100 ==> alpha <= r <= beta
                }
                &&& !rep && ply < MAX_PLY - 1 && depth > 0 && pos.half_moves < 100 && !final(self).stopping ==> (
                alpha <= r <= beta || r == 0 || r == -MATE_VALUE + ply)
            },
        decreases MAX_PLY - ply, 1int,
    {
        let is_pv_node = beta - alpha > 1;
        if ply != 0 && !is_pv_node {
            let score = self.tt.probe_score(pos.zobrist_hash, depth, alpha, beta, ply as u8);
            if score != UNKNOWN_SCORE && -INFINITY <= score && score <= INFINITY {
                if self.tt_hits < u32::MAX {
                    self.tt_hits = self.tt_hits + 1;
                }
                return score;
            }
        }
        if ply > 0 && self.repetition_table.is_now_in_threefold_repetition() {
            return 0;
        }
        if ply >= MAX_PLY - 1 {
            return pos.evaluate();
        }
        if self.nodes & INPUT_POLL_INTERVAL == 0 {
            self.poll_input();
        }
        if depth == 0 || pos.half_moves >= 100 {
            return self.quiescence(pos, alpha, beta, ply);
        }
        self.count_node();

        let side = pos.active_player;
        let in_check = pos.is_in_check(side);
        let n_depth: u8 = if in_check { depth + 1 } else { depth };
        let mut temp_alpha: i32 = alpha;
        let mut best_move = Move::null();
        let mut hash_flag = HashFlag::Alpha;
        let mut legal_moves: u32 = 0;

        if n_depth >= 3 && !in_check && ply > 0 {
            let mut null_pos = *pos;
            null_pos.make_null_move(&self.keys);
            let score = -self.negamax(&null_pos, n_depth - 3, -beta, -beta + 1, ply + 1);
            if self.stopping {
                return 0;
            }
            if score >= beta {
                return beta;
            }
        }

        let mut moves = MoveGenerator::new(pos, MoveTypes::All, true, ply);
        match self.table_move(pos) {
            Some(pv) => moves.add_pv_move(pv),
            None => {},
        }
        let mut moves_searched: u32 = 0;
        loop
            invariant
                self.wf(),
                pos.wf(),
                moves.wf(),
                moves.pos@ == *pos,
                side == pos.active_player,
                moves.remaining() >= 0,
                ply < MAX_PLY - 1,
                1 <= depth < 255,
                depth <= n_depth <= depth + 1,
                search_score(alpha as int),
                search_score(beta as int),
                alpha <= temp_alpha < beta,
                self.repetition_table.table@ == old(self).repetition_table.table@,
                self.pos == old(self).pos,
                self.same_limits(&*old(self)),
                old(self).outside_free() && !old(self).stopping ==> !self.stopping,
                !old(self).table_cut(*pos, depth, alpha, beta, ply),
                !(ply > 0 && repeats(old(self).repetition_table.table@)),
                pos.half_moves < 100,
                best_move.is_null() || (move_fits(*pos, best_move) && legal_after(*pos, best_move)),
                self.root_best_move == old(self).root_best_move,
            decreases moves.remaining(),
        {
            let m = match moves.next_move(pos, &self.context) {
                None => {
                    break;
                },
                Some(m) => m,
            };
            let mut child = *pos;
            if !child.make_move(&m, &self.keys) {
                continue;
            }
            if legal_moves < u32::MAX {
                legal_moves = legal_moves + 1;
            }
            self.repetition_table.insert(child.zobrist_hash);
            let mut score: i32;
            if moves_searched == 0 {
                score = -self.negamax(&child, n_depth - 1, -beta, -temp_alpha, ply + 1);
            } else {
                if moves_searched >= FULL_DEPTH_MOVES && depth >= REDUCTION_LIMIT && !in_check && !m.is_capture
                    && m.promotion == Piece::NoPiece {
                    score = -self.negamax(&child, n_depth - 2, -temp_alpha - 1, -temp_alpha, ply + 1);
                } else {
                    score = temp_alpha + 1;
                }
                if score > temp_alpha {
                    score = -self.negamax(&child, n_depth - 1, -temp_alpha - 1, -temp_alpha, ply + 1);
                    if score > temp_alpha && score < beta {
                        score = -self.negamax(&child, n_depth - 1, -beta, -temp_alpha, ply + 1);
                    }
                }
            }
            self.repetition_table.move_back();
            proof {
                assert(self.repetition_table.table@ =~= old(self).repetition_table.table@);
            }
            if moves_searched < u32::MAX {
                moves_searched = moves_searched + 1;
            }
            if self.stopping {
                return 0;
            }
            if score > temp_alpha {
                best_move = m;
                if score >= beta {
                    if !m.is_capture {
                        self.record_cutoff(&m, ply, depth);
                    }
                    self.tt.record(pos.zobrist_hash, beta, depth, HashFlag::Beta, ply as u8, best_move);
                    if ply == 0 {
                        self.root_best_move = best_move;
                    }
                    return beta;
                }
                hash_flag = HashFlag::Exact;
                temp_alpha = score;
            }
        }
        if legal_moves == 0 {
            if in_check {
                temp_alpha = -MATE_VALUE + ply as i32;
            } else {
                temp_alpha = 0;
            }
        }
        self.tt.record(pos.zobrist_hash, temp_alpha, depth, hash_flag, ply as u8, best_move);
        if ply == 0 {
            self.root_best_move = best_move;
        }
        temp_alpha
    }

    /// Searches captures and promotions only until the position is quiet. The static
    /// evaluation stands in for doing nothing: at or above `beta` it cuts off at once; at the
    /// ply limit or under the fifty-move rule it is the result; otherwise it raises `alpha`,
    /// and the result lies between that raised bound and `beta`.
    pub fn quiescence(&mut self, pos: &Position, alpha: i32, beta: i32, ply: usize) -> (r: i32)
        requires
            old(self).wf(),
            pos.wf(),
            ply < MAX_PLY,
            search_score(alpha as int),
            search_score(beta as int),
            alpha < beta,
        ensures
            final(self).wf(),
            search_score(r as int),
            final(self).repetition_table.table@ == old(self).repetition_table.table@,
            final(self).pos == old(self).pos,
            final(self).same_limits(&*old(self)),
            final(self).root_best_move == old(self).root_best_move,
            old(self).outside_free() && !old(self).stopping ==> !final(self).stopping,
            side_eval(*pos) >= beta ==> r == beta,
            side_eval(*pos) < beta && (ply >= MAX_PLY - 1 || pos.half_moves >= 100) ==> r == side_eval(*pos),
            side_eval(*pos) < beta && !(ply >= MAX_PLY - 1 || pos.half_moves >= 100) ==> alpha <= r <= beta
                && side_eval(*pos) <= r,
        decreases MAX_PLY - ply, 0int,
    {
        if self.nodes & INPUT_POLL_INTERVAL == 0 {
            self.poll_input();
        }
        self.count_node();
        let eval = pos.evaluate();
        if eval >= beta {
            return beta;
        }
        if ply >= MAX_PLY - 1 || pos.half_moves >= 100 {
            return eval;
        }
        let mut temp_alpha: i32 = if eval > alpha { eval } else { alpha };
        let mut moves = MoveGenerator::new(pos, MoveTypes::Quiescence, true, ply);
        loop
            invariant
                self.wf(),
                pos.wf(),
                moves.wf(),
                moves.pos@ == *pos,
                moves.remaining() >= 0,
                ply < MAX_PLY - 1,
                search_score(alpha as int),
                search_score(beta as int),
                alpha <= temp_alpha < beta,
                eval <= temp_alpha,
                eval == side_eval(*pos),
                pos.half_moves < 100,
                self.root_best_move == old(self).root_best_move,
                self.repetition_table.table@ == old(self).repetition_table.table@,
                self.pos == old(self).pos,
                self.same_limits(&*old(self)),
                old(self).outside_free() && !old(self).stopping ==> !self.stopping,
            decreases moves.remaining(),
        {
            let m = match moves.next_move(pos, &self.context) {
                None => {
                    break;
                },
                Some(m) => m,
            };
            let mut child = *pos;
            if !child.make_move(&m, &self.keys) {
                continue;
            }
            let score = -self.quiescence(&child, -beta, -temp_alpha, ply + 1);
            if score >= beta {
                return beta;
            }
            if score > temp_alpha {
                temp_alpha = score;
            }
        }
        temp_alpha
    }

    /// The principal variation from `root`: up to `depth` moves read from the table, each
    /// played on a copy of the position before the next is looked up.
    pub fn pv_line(&self, root: &Position, depth: u8) -> (r: Vec<Move>)
        requires
            self.wf(),
            root.wf(),
        ensures
            r@.len() <= depth,
            r@.len() > 0 ==> r@[0] == self.tt.table@[self.tt.slot(root.zobrist_hash)].best_move && move_fits(
                *root,
                r@[0],
            ) && legal_after(*root, r@[0]),
    {
        let mut line: Vec<Move> = Vec::new();
        let mut pos = *root;
        while line.len() < depth as usize
            invariant
                self.wf(),
                pos.wf(),
                line@.len() <= depth,
                line@.len() == 0 ==> pos == *root,
                line@.len() > 0 ==> line@[0] == self.tt.table@[self.tt.slot(root.zobrist_hash)].best_move
                    && move_fits(*root, line@[0]) && legal_after(*root, line@[0]),
            decreases depth - line@.len(),
        {
            let m = match self.table_move(&pos) {
                None => {
                    break;
                },
                Some(m) => m,
            };
            let mut next = pos;
            if !next.make_move(&m, &self.keys) {
                break;
            }
            pos = next;
            line.push(m);
        }
        line
    }

    /// The state of an iterative deepening toward `depth` (the ply limit when `depth` is not
    /// positive), before its first iteration.
    pub fn start_deepening(&self, depth: i8) -> (r: Deepening)
        requires
            self.wf(),
        ensures
            r.wf(self.pos),
            r.completed == 0,
            !r.finished,
            depth > 0 ==> r.max_depth <= depth,
            r.max_depth == (if depth <= 0 || depth >= MAX_PLY { MAX_PLY - 1 } else { depth as int }),
    {
        let max_depth: u8 = if depth <= 0 || depth as usize >= MAX_PLY { (MAX_PLY - 1) as u8 } else { depth as u8 };
        Deepening {
            max_depth,
            current: 1,
            completed: 0,
            alpha: -INFINITY,
            beta: INFINITY,
            best: Move::null(),
            score: 0,
            finished: false,
        }
    }

    /// One step of iterative deepening: searches the next depth, first in the current window
    /// (50 around the last score after the first depth) and, when the score falls outside it,
    /// again with the full window; returns that depth's report. Returns `None` and marks the
    /// deepening finished once every depth is done or `stopping` is set, in which case the
    /// depth under way is dropped.
    pub fn deepen(&mut self, d: &mut Deepening) -> (r: Option<DepthReport>)
        requires
            old(self).wf(),
            old(d).wf(old(self).pos),
        ensures
            final(self).wf(),
            final(self).pos == old(self).pos,
            final(d).wf(old(self).pos),
            final(d).max_depth == old(d).max_depth,
            r is Some ==> !old(d).finished && final(d).completed == old(d).completed + 1 && r->0.depth
                == final(d).completed && !final(d).finished,
            r is None ==> final(d).finished && final(d).completed == old(d).completed,
            final(d).progress() <= old(d).progress(),
            r is Some ==> final(d).progress() < old(d).progress(),
            final(self).same_limits(&*old(self)),
            old(self).outside_free() && !old(self).stopping ==> !final(self).stopping,
            old(self).outside_free() && !old(self).stopping && !old(d).finished && old(d).current <= old(d).max_depth
                ==> r is Some,
    {
        if d.finished || d.current > d.max_depth {
            d.finished = true;
            return None;
        }
        let root = self.pos;
        if d.current > 1 {
            self.poll_input();
            if self.stopping {
                d.finished = true;
                return None;
            }
        }
        self.root_best_move = Move::null();
        let mut score = self.negamax(&root, d.current, d.alpha, d.beta, 0);
        if self.stopping {
            d.finished = true;
            return None;
        }
        if (score <= d.alpha || score >= d.beta) && !(d.alpha == -INFINITY && d.beta == INFINITY) {
            d.alpha = -INFINITY;
            d.beta = INFINITY;
            self.root_best_move = Move::null();
            score = self.negamax(&root, d.current, d.alpha, d.beta, 0);
            if self.stopping {
                d.finished = true;
                return None;
            }
        }
        let depth = d.current;
        d.completed = depth;
        d.score = score;
        let found = self.root_best_move;
        if !found.is_null_move() && is_move_in_range(&found, root.active_player) && move_fits_check(&root, &found) {
            d.best = found;
        }
        d.alpha = if score - ASPIRATION_MARGIN < -INFINITY { -INFINITY } else { score - ASPIRATION_MARGIN };
        d.beta = if score + ASPIRATION_MARGIN > INFINITY { INFINITY } else { score + ASPIRATION_MARGIN };
        d.current = depth + 1;
        let pv = self.pv_line(&root, depth);
        let now = clock_millis();
        let millis: u64 = if now >= self.start_time { now - self.start_time } else { 0 };
        Some(DepthReport { depth, score, nodes: self.nodes, millis, pv })
    }

    /// Iterative deepening from depth 1 to `depth` (to the ply limit when `depth` is not
    /// positive), one `deepen` step per depth. Stops early once `stopping` is set; the result
    /// holds the best move and score of the last completed depth, and a report for each
    /// completed depth.
    pub fn search(&mut self, depth: i8) -> (r: SearchResult)
        requires
            old(self).wf(),
        ensures
            final(self).wf(),
            r.best_move.is_null() || (move_in_range(r.best_move, old(self).pos.active_player) && move_fits(
                old(self).pos,
                r.best_move,
            ) && legal_after(old(self).pos, r.best_move)),
            r.depth as int == r.reports@.len(),
            search_score(r.score as int),
            depth > 0 ==> r.depth <= depth,
            old(self).outside_free() && !old(self).stopping ==> r.depth == (if depth <= 0 || depth >= MAX_PLY {
                MAX_PLY - 1
            } else {
                depth as int
            }),
    {
        let root = self.pos;
        let mut d = self.start_deepening(depth);
        let mut reports: Vec<DepthReport> = Vec::new();
        loop
            invariant_except_break
                old(self).outside_free() && !old(self).stopping ==> !self.stopping && !d.finished,
            invariant
                self.wf(),
                self.pos == root,
                d.wf(root),
                reports@.len() == d.completed,
                depth > 0 ==> d.max_depth <= depth,
                d.max_depth == (if depth <= 0 || depth >= MAX_PLY { MAX_PLY - 1 } else { depth as int }),
                self.same_limits(&*old(self)),
            ensures
                old(self).outside_free() && !old(self).stopping ==> d.completed == d.max_depth,
            decreases d.progress(),
        {
            assert(old(self).outside_free() ==> self.outside_free());
            match self.deepen(&mut d) {
                Some(report) => reports.push(report),
                None => {
                    break;
                },
            }
        }
        SearchResult {
            best_move: d.best,
            nodes_visited: self.nodes,
            score: d.score,
            depth: d.completed,
            reached_max_ply: !self.stopping,
            tt_hits: self.tt_hits,
            reports,
        }
    }
}

/// The time budget in milliseconds for a `go` command, -1 for none: a fixed move time when
/// given; else, from the remaining clock time, an even share of it over the moves to go plus
/// the increment less 100 when more than two seconds are left, the increment less 500 when
/// less is left and there is an increment, or else the plain share.
pub open spec fn time_budget(time: int, inc: int, moves_to_go: int, move_time: int) -> int {
    if move_time != -1 {
        move_time
    } else if time != -1 {
        if time > 2000 {
            time / moves_to_go + inc - 100
        } else if inc != 0 {
            inc - 500
        } else {
            time / moves_to_go
        }
    } else {
        -1
    }
}

pub const MAX_CLOCK: i64 = 1000000000000;

pub fn allocate_time(time: i64, inc: i64, moves_to_go: i64, move_time: i64) -> (r: i64)
    requires
        -1 <= time <= MAX_CLOCK,
        0 <= inc <= MAX_CLOCK,
        0 < moves_to_go <= MAX_CLOCK,
        -1 <= move_time <= MAX_CLOCK,
    ensures
        r as int == time_budget(time as int, inc as int, moves_to_go as int, move_time as int),
{
    if move_time != -1 {
        move_time
    } else if time != -1 {
        if time > 2000 {
            time / moves_to_go + inc - 100
        } else if inc != 0 {
            inc - 500
        } else {
            time / moves_to_go
        }
    } else {
        -1
    }
}

/// Relies on rand's `thread_rng` and `Rng::gen_range`: a value drawn from `0..n`, which
/// panics on an empty range.
#[verifier::external_body]
fn random_below(n: usize) -> (r: usize)
    requires
        n > 0,
    ensures
        r < n,
{
    rand::Rng::gen_range(&mut rand::thread_rng(), 0..n)
}

/// The move at index `r` of `moves`, counted modulo their number; `None` when there are none.
pub fn pick_move(moves: &Vec<Move>, r: usize) -> (m: Option<Move>)
    ensures
        moves@.len() == 0 ==> m is None,
        moves@.len() > 0 ==> m == Some(moves@[(r as int) % (moves@.len() as int)]),
{
    if moves.len() == 0 {
        None
    } else {
        Some(moves[r % moves.len()])
    }
}

/// The legal moves of the side to move, in generation order.
pub fn legal_moves(pos: &Position, keys: &ZobristKeys) -> (r: Vec<Move>)
    requires
        pos.wf(),
        keys.wf(),
    ensures
        forall|i: int|
            0 <= i < r@.len() ==> move_in_range(#[trigger] r@[i], pos.active_player) && move_fits(*pos, r@[i])
                && legal_after(*pos, r@[i]),
{
    let ctx = SearchContext::new();
    let mut out: Vec<Move> = Vec::new();
    let mut moves = MoveGenerator::new(pos, MoveTypes::All, false, 0);
    loop
        invariant
            pos.wf(),
            keys.wf(),
            ctx.wf(),
            moves.wf(),
            moves.pos@ == *pos,
            moves.remaining() >= 0,
            forall|i: int|
                0 <= i < out@.len() ==> move_in_range(#[trigger] out@[i], pos.active_player) && move_fits(*pos, out@[i])
                    && legal_after(*pos, out@[i]),
        decreases moves.remaining(),
    {
        let m = match moves.next_move(pos, &ctx) {
            None => {
                break;
            },
            Some(m) => m,
        };
        let mut child = *pos;
        if child.make_move(&m, keys) {
            out.push(m);
        }
    }
    out
}

/// A legal move of the side to move chosen at random, `None` when there is none.
pub fn find_random_move(pos: &Position, keys: &ZobristKeys) -> (r: Option<Move>)
    requires
        pos.wf(),
        keys.wf(),
    ensures
        r is Some ==> move_in_range(r->0, pos.active_player) && move_fits(*pos, r->0) && legal_after(*pos, r->0),
{
    let moves = legal_moves(pos, keys);
    if moves.len() == 0 {
        return None;
    }
    let i = random_below(moves.len());
    pick_move(&moves, i)
}

} // verus!
