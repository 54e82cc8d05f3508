use vstd::prelude::*;

use crate::types::ValidatorSet;

verus! {

/// One height-indexed snapshot: the validator set authoritative at `height`.
pub struct DirectoryEntry {
    pub height: u64,
    pub set: ValidatorSet,
}

/// The set, if any, that a directory holds for a height: the first entry
/// whose height matches.
pub open spec fn dir_lookup(entries: Seq<DirectoryEntry>, height: u64) -> Option<ValidatorSet>
    decreases entries.len(),
{
    if entries.len() == 0 {
        None
    } else if entries.first().height == height {
        Some(entries.first().set)
    } else {
        dir_lookup(entries.drop_first(), height)
    }
}

/// A frozen view of the Validator Directory: for each known height, the
/// validator set that was authoritative at that height. The directory is a
/// lookup table; it never substitutes a later set for a historical one.
pub struct ValidatorDirectory {
    pub entries: Vec<DirectoryEntry>,
}

impl ValidatorDirectory {
    /// A well-formed directory maps each height to at most one set, and
    /// every set it holds is itself well-formed.
    pub open spec fn wf(&self) -> bool {
        &&& forall|i: int, j: int|
            0 <= i < j < self.entries@.len() ==> self.entries@[i].height != self.entries@[j].height
        &&& forall|i: int| 0 <= i < self.entries@.len() ==> self.entries@[i].set.wf()
    }

    /// Decide whether the directory is well-formed.
    pub fn wf_check(&self) -> (r: bool)
        ensures
            r == self.wf(),
    {
        let n = self.entries.len();
        let mut i: usize = 0;
        while i < n
            invariant
                i <= n,
                n == self.entries@.len(),
                forall|p: int, q: int|
                    0 <= p < q < n && p < i ==> self.entries@[p].height != self.entries@[q].height,
                forall|p: int| 0 <= p < i ==> self.entries@[p].set.wf(),
            decreases n - i,
        {
            if !self.entries[i].set.wf_check() {
                return false;
            }
            let mut j: usize = i + 1;
            while j < n
                invariant
                    i < j <= n,
                    n == self.entries@.len(),
                    forall|q: int|
                        i < q < j ==> self.entries@[i as int].height != self.entries@[q].height,
                decreases n - j,
            {
                if self.entries[i].height == self.entries[j].height {
                    return false;
                }
                j += 1;
            }
            i += 1;
        }
        true
    }

    /// The validator set in effect at `height`, or `None` where the
    /// directory holds no set for that height.
    pub fn validators_at(&self, height: u64) -> (r: Option<&ValidatorSet>)
        ensures
            match r {
                Some(s) => dir_lookup(self.entries@, height) == Some(*s),
                None => dir_lookup(self.entries@, height) is None,
            },
    {
        let n = self.entries.len();
        let mut i: usize = 0;
        proof {
            assert(self.entries@.skip(0) =~= self.entries@);
        }
        while i < n
            invariant
                i <= n,
                n == self.entries@.len(),
                dir_lookup(self.entries@, height) == dir_lookup(
                    self.entries@.skip(i as int),
                    height,
                ),
            decreases n - i,
        {
            proof {
                assert(self.entries@.skip(i as int).first() == self.entries@[i as int]);
                assert(self.entries@.skip(i as int).drop_first() =~= self.entries@.skip(i + 1));
            }
            if self.entries[i].height == height {
                return Some(&self.entries[i].set);
            }
            i += 1;
        }
        None
    }
}

/// What a successful lookup hands back is one of the directory's own
/// entries for exactly the requested height; a failed lookup means no entry
/// carries that height.
pub proof fn lemma_lookup_finds_entry(entries: Seq<DirectoryEntry>, height: u64)
    ensures
        match dir_lookup(entries, height) {
            Some(s) => exists|i: int|
                0 <= i < entries.len() && entries[i].height == height && entries[i].set == s,
            None => forall|i: int|
                #![trigger entries[i]]
                0 <= i < entries.len() ==> entries[i].height != height,
        },
    decreases entries.len(),
{
    if entries.len() > 0 {
        if entries.first().height == height {
            assert(entries[0] == entries.first());
        } else {
            lemma_lookup_finds_entry(entries.drop_first(), height);
            match dir_lookup(entries.drop_first(), height) {
                Some(s) => {
                    let i = choose|i: int|
                        0 <= i < entries.drop_first().len() && entries.drop_first()[i].height
                            == height && entries.drop_first()[i].set == s;
                    assert(entries[i + 1] == entries.drop_first()[i]);
                },
                None => {
                    assert forall|i: int| 0 <= i < entries.len() implies entries[i].height
                        != height by {
                        if i > 0 {
                            assert(entries.drop_first()[i - 1] == entries[i]);
                        }
                    }
                },
            }
        }
    }
}

} // verus!
