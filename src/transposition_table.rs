use vstd::prelude::*;
use crate::definitions::Move;

verus! {

pub const UNKNOWN_SCORE: i32 = -2147483648;
pub const MATE_VALUE: i32 = 49000;
pub const MATE_BOUND: i32 = 48000;
pub const INFINITY: i32 = 50000;
/// Entries in a default table: 32 MiB at 24 bytes an entry.
pub const TT_SIZE: usize = 1398101;

#[derive(Clone, Copy, PartialEq, Eq, Structural, Debug)]
pub enum HashFlag {
    /// The score is an upper bound: the node failed low.
    Alpha,
    /// The score is a lower bound: the node failed high.
    Beta,
    /// The score is the node's value.
    Exact,
}

#[derive(Clone, Copy, PartialEq, Eq, Structural, Debug)]
pub struct TranspositionTableEntry {
    pub hash: u64,
    pub depth: u8,
    pub flag: HashFlag,
    pub score: i32,
    pub best_move: Move,
}

impl TranspositionTableEntry {
    pub fn new(hash: u64, depth: u8, flag: HashFlag, score: i32, best_move: Move) -> (r: Self)
        ensures
            r == (TranspositionTableEntry { hash, depth, flag, score, best_move }),
    {
        TranspositionTableEntry { hash, depth, flag, score, best_move }
    }

    pub fn empty() -> (r: Self)
        ensures
            r == empty_entry(),
    {
        TranspositionTableEntry {
            hash: 0,
            depth: 0,
            flag: HashFlag::Alpha,
            score: UNKNOWN_SCORE,
            best_move: Move::null(),
        }
    }
}

pub open spec fn empty_entry() -> TranspositionTableEntry {
    TranspositionTableEntry {
        hash: 0,
        depth: 0,
        flag: HashFlag::Alpha,
        score: UNKNOWN_SCORE,
        best_move: Move {
            from_sq: 0,
            to_sq: 0,
            piece: crate::definitions::Piece::NoPiece,
            promotion: crate::definitions::Piece::NoPiece,
            is_capture: false,
            is_double_push: false,
            is_enpassant: false,
            is_castling: false,
            score: 0,
        },
    }
}

/// Mate scores are stored as distance from the node: `ply` further from zero.
pub open spec fn score_to_table(score: int, ply: int) -> int {
    if score < -MATE_BOUND {
        score - ply
    } else if score > MATE_BOUND {
        score + ply
    } else {
        score
    }
}

/// A stored mate score read back at `ply`: `ply` closer to zero.
pub open spec fn score_from_table(score: int, ply: int) -> int {
    if score < -MATE_BOUND {
        score + ply
    } else if score > MATE_BOUND {
        score - ply
    } else {
        score
    }
}

/// A score the search can produce.
pub open spec fn search_score(s: int) -> bool {
    -INFINITY <= s <= INFINITY
}

/// A fixed-size, direct-mapped table of search results, indexed by hash modulo its size.
pub struct TranspositionTable {
    pub table: Vec<TranspositionTableEntry>,
}

/// What `probe_score` returns for an entry: its score when exact, alpha or beta when its bound
/// settles the window, else unknown; also unknown on an empty slot, another hash or a
/// shallower search.
pub open spec fn probe_result(e: TranspositionTableEntry, hash: u64, depth: u8, alpha: i32, beta: i32, ply: u8) -> i32 {
    if e.score == UNKNOWN_SCORE || e.hash != hash || e.depth < depth {
        UNKNOWN_SCORE
    } else {
        let s = score_from_table(e.score as int, ply as int);
        match e.flag {
            HashFlag::Exact => s as i32,
            HashFlag::Alpha => if s <= alpha { alpha } else { UNKNOWN_SCORE },
            HashFlag::Beta => if s >= beta { beta } else { UNKNOWN_SCORE },
        }
    }
}

impl TranspositionTable {
    pub open spec fn wf(&self) -> bool {
        &&& self.table@.len() > 0
        &&& forall|i: int| 0 <= i < self.table@.len() ==> {
            let s = #[trigger] self.table@[i].score;
            s == UNKNOWN_SCORE || (-INFINITY - 255 <= s <= INFINITY + 255)
        }
    }

    pub open spec fn slot(&self, hash: u64) -> int {
        (hash % (self.table@.len() as u64)) as int
    }

    /// A table of the default size.
    pub fn new() -> (r: Self)
        ensures
            r.wf(),
            r.table@.len() == TT_SIZE,
            forall|i: int| 0 <= i < TT_SIZE ==> r.table@[i] == empty_entry(),
    {
        Self::with_entries(TT_SIZE)
    }

    /// A table of `n` empty entries (at least one).
    pub fn with_entries(n: usize) -> (r: Self)
        ensures
            r.wf(),
            r.table@.len() == if n == 0 { 1 } else { n },
            forall|i: int| 0 <= i < r.table@.len() ==> r.table@[i] == empty_entry(),
    {
        let count: usize = if n == 0 { 1 } else { n };
        let mut table: Vec<TranspositionTableEntry> = Vec::new();
        let mut i: usize = 0;
        while i < count
            invariant
                i <= count,
                table@.len() == i,
                forall|j: int| 0 <= j < i ==> table@[j] == empty_entry(),
            decreases count - i,
        {
            table.push(TranspositionTableEntry::empty());
            i = i + 1;
        }
        TranspositionTable { table }
    }

    /// Stores a search result, its mate score shifted to distance from this node, when the
    /// slot is empty or holds a non-exact result of no greater depth.
    pub fn record(&mut self, hash: u64, score: i32, depth: u8, flag: HashFlag, ply: u8, best_move: Move)
        requires
            old(self).wf(),
            search_score(score as int),
        ensures
            final(self).wf(),
            final(self).table@.len() == old(self).table@.len(),
            ({
                let i = old(self).slot(hash);
                let e = old(self).table@[i];
                if e.score == UNKNOWN_SCORE || (depth >= e.depth && e.flag != HashFlag::Exact) {
                    final(self).table@ == old(self).table@.update(
                        i,
                        TranspositionTableEntry {
                            hash,
                            depth,
                            flag,
                            score: score_to_table(score as int, ply as int) as i32,
                            best_move,
                        },
                    )
                } else {
                    final(self).table@ == old(self).table@
                }
            }),
    {
        let index = (hash % (self.table.len() as u64)) as usize;
        let existing = self.table[index];
        if existing.score == UNKNOWN_SCORE || (depth >= existing.depth && existing.flag != HashFlag::Exact) {
            let mut adjusted: i32 = score;
            if score < -MATE_BOUND {
                adjusted = score - ply as i32;
            } else if score > MATE_BOUND {
                adjusted = score + ply as i32;
            }
            self.table.set(index, TranspositionTableEntry::new(hash, depth, flag, adjusted, best_move));
        }
    }

    /// The stored score for `hash` if it is usable at `depth` in the window (`alpha`, `beta`):
    /// an exact score, or the bound of the window that a stored bound settles; otherwise
    /// `UNKNOWN_SCORE`.
    pub fn probe_score(&self, hash: u64, depth: u8, alpha: i32, beta: i32, ply: u8) -> (r: i32)
        requires
            self.wf(),
        ensures
            r == probe_result(self.table@[self.slot(hash)], hash, depth, alpha, beta, ply),
    {
        let entry = self.table[(hash % (self.table.len() as u64)) as usize];
        if entry.score == UNKNOWN_SCORE || entry.hash != hash || entry.depth < depth {
            return UNKNOWN_SCORE;
        }
        let mut adjusted: i32 = entry.score;
        if adjusted < -MATE_BOUND {
            adjusted = adjusted + ply as i32;
        } else if adjusted > MATE_BOUND {
            adjusted = adjusted - ply as i32;
        }
        match entry.flag {
            HashFlag::Exact => adjusted,
            HashFlag::Alpha => if adjusted <= alpha { alpha } else { UNKNOWN_SCORE },
            HashFlag::Beta => if adjusted >= beta { beta } else { UNKNOWN_SCORE },
        }
    }

    /// The best move stored in the slot of `hash` (a null move when the slot is empty).
    pub fn probe_best_move(&self, hash: u64) -> (r: Move)
        requires
            self.wf(),
        ensures
            r == self.table@[self.slot(hash)].best_move,
    {
        self.table[(hash % (self.table.len() as u64)) as usize].best_move
    }

    /// Empties every entry.
    pub fn clear(&mut self)
        requires
            old(self).wf(),
        ensures
            final(self).wf(),
            final(self).table@.len() == old(self).table@.len(),
            forall|i: int| 0 <= i < final(self).table@.len() ==> final(self).table@[i] == empty_entry(),
    {
        let n = self.table.len();
        let mut i: usize = 0;
        while i < n
            invariant
                i <= n == self.table@.len(),
                n > 0,
                forall|j: int| 0 <= j < i ==> self.table@[j] == empty_entry(),
                forall|j: int| 0 <= j < n ==> {
                    let s = #[trigger] self.table@[j].score;
                    s == UNKNOWN_SCORE || (-INFINITY - 255 <= s <= INFINITY + 255)
                },
            decreases n - i,
        {
            self.table.set(i, TranspositionTableEntry::empty());
            i = i + 1;
        }
    }
}

/// A probe that returns a score at a depth no greater than the stored one respects its
/// entry's flag: an exact entry gives its (ply-adjusted) score, an upper bound gives alpha
/// only when that bound is at most alpha, a lower bound gives beta only when that bound is
/// at least beta; and a mate score read back at the ply it was stored at is the score stored.
pub proof fn lemma_probe_bound_semantics(
    e: TranspositionTableEntry,
    hash: u64,
    depth: u8,
    alpha: i32,
    beta: i32,
    ply: u8,
)
    ensures
        ({
            let r = probe_result(e, hash, depth, alpha, beta, ply);
            let s = score_from_table(e.score as int, ply as int);
            r != UNKNOWN_SCORE ==> {
                &&& e.hash == hash
                &&& depth <= e.depth
                &&& e.flag == HashFlag::Exact ==> r == s
                &&& e.flag == HashFlag::Alpha ==> r == alpha && s <= alpha
                &&& e.flag == HashFlag::Beta ==> r == beta && s >= beta
            }
        }),
        forall|score: int|
            search_score(score) ==> #[trigger] score_from_table(score_to_table(score, ply as int), ply as int)
                == score,
{
}

} // verus!
