use vstd::prelude::*;

verus! {

/// The hashes of the positions reached, oldest first.
pub struct RepetitionTable {
    pub table: Vec<u64>,
}

/// The last hash of the stack occurs earlier in it.
pub open spec fn repeats(s: Seq<u64>) -> bool {
    s.len() > 0 && exists|i: int| 0 <= i < s.len() - 1 && #[trigger] s[i] == s[s.len() - 1]
}

impl RepetitionTable {
    pub fn new() -> (r: Self)
        ensures
            r.table@.len() == 0,
    {
        RepetitionTable { table: Vec::new() }
    }

    pub fn insert(&mut self, hash: u64)
        ensures
            final(self).table@ == old(self).table@.push(hash),
    {
        self.table.push(hash);
    }

    /// Drops the last hash, if any.
    pub fn move_back(&mut self)
        ensures
            old(self).table@.len() > 0 ==> final(self).table@ == old(self).table@.drop_last(),
            old(self).table@.len() == 0 ==> final(self).table@.len() == 0,
    {
        if self.table.len() > 0 {
            self.table.pop();
        }
    }

    /// Whether the current (last) position occurred before.
    pub fn is_now_in_threefold_repetition(&self) -> (r: bool)
        ensures
            r == repeats(self.table@),
    {
        let n = self.table.len();
        if n == 0 {
            return false;
        }
        let current = self.table[n - 1];
        let mut i: usize = 0;
        while i < n - 1
            invariant
                n == self.table@.len(),
                n > 0,
                i <= n - 1,
                current == self.table@[n - 1],
                forall|j: int| 0 <= j < i ==> self.table@[j] != current,
            decreases n - 1 - i,
        {
            if self.table[i] == current {
                return true;
            }
            i = i + 1;
        }
        false
    }

    pub fn clear(&mut self)
        ensures
            final(self).table@.len() == 0,
    {
        self.table.clear();
    }
}

} // verus!
