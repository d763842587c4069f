//! A captures directory held in memory, as the log of its changes.

use crate::errors::AppError;
use crate::media::{texts, MediaFiles};
use vstd::prelude::*;
use vstd::slice::slice_to_vec;

verus! {

/// The directory that `log` leaves behind: each entry writes its bytes
/// to its file name, or (`None`) removes the file of that name.
pub open spec fn replay(log: Seq<(String, Option<Vec<u8>>)>) -> Map<Seq<char>, Seq<u8>>
    decreases log.len(),
{
    if log.len() == 0 {
        Map::empty()
    } else {
        let before = replay(log.drop_last());
        let entry = log.last();
        match entry.1 {
            Some(b) => before.insert(entry.0@, b@),
            None => before.remove(entry.0@),
        }
    }
}

/// The last entry naming a file decides it.
proof fn lemma_latest_decides(log: Seq<(String, Option<Vec<u8>>)>, i: int)
    requires
        0 <= i < log.len(),
        forall|j: int| i < j < log.len() ==> (#[trigger] log[j]).0@ != log[i].0@,
    ensures
        replay(log).contains_key(log[i].0@) == log[i].1 is Some,
        log[i].1 matches Some(b) ==> replay(log)[log[i].0@] == b@,
    decreases log.len(),
{
    if i < log.len() - 1 {
        let init = log.drop_last();
        assert forall|j: int| i < j < init.len() implies (#[trigger] init[j]).0@ != init[i].0@ by {
            assert(init[j] == log[j]);
        }
        lemma_latest_decides(init, i);
    }
}

/// A file no entry names does not exist.
proof fn lemma_unnamed_absent(log: Seq<(String, Option<Vec<u8>>)>, n: Seq<char>)
    requires
        forall|j: int| 0 <= j < log.len() ==> (#[trigger] log[j]).0@ != n,
    ensures
        !replay(log).contains_key(n),
    decreases log.len(),
{
    if log.len() > 0 {
        let init = log.drop_last();
        assert forall|j: int| 0 <= j < init.len() implies (#[trigger] init[j]).0@ != n by {
            assert(init[j] == log[j]);
        }
        lemma_unnamed_absent(init, n);
    }
}

/// Media files in memory; every operation succeeds.
pub struct MemoryMediaFiles {
    log: Vec<(String, Option<Vec<u8>>)>,
}

impl MemoryMediaFiles {
    pub fn new() -> (r: Self)
        ensures
            r.files() == Map::<Seq<char>, Seq<u8>>::empty(),
            r.reliable(),
            r.listable(),
    {
        MemoryMediaFiles { log: Vec::new() }
    }

    /// The last entry naming `name`.
    fn latest(&self, name: &str) -> (r: Option<usize>)
        ensures
            match r {
                Some(i) => i < self.log@.len() && self.log@[i as int].0@ == name@ && forall|j: int|
                    i < j < self.log@.len() ==> (#[trigger] self.log@[j]).0@ != name@,
                None => forall|j: int|
                    0 <= j < self.log@.len() ==> (#[trigger] self.log@[j]).0@ != name@,
            },
    {
        let target = String::from_str(name);
        let mut i = self.log.len();
        while i > 0
            invariant
                i <= self.log@.len(),
                target@ == name@,
                forall|j: int| i <= j < self.log@.len() ==> (#[trigger] self.log@[j]).0@ != name@,
            decreases i,
        {
            if self.log[i - 1].0 == target {
                return Some(i - 1);
            }
            i = i - 1;
        }
        None
    }
}

impl MediaFiles for MemoryMediaFiles {
    closed spec fn files(&self) -> Map<Seq<char>, Seq<u8>> {
        replay(self.log@)
    }

    closed spec fn reliable(&self) -> bool {
        true
    }

    closed spec fn listable(&self) -> bool {
        true
    }

    fn write(&mut self, name: &str, bytes: &[u8]) -> (r: Result<(), AppError>) {
        let ghost before = self.log@;
        self.log.push((String::from_str(name), Some(slice_to_vec(bytes))));
        assert(self.log@.drop_last() == before);
        Ok(())
    }

    fn read(&self, name: &str) -> (r: Result<Option<Vec<u8>>, AppError>) {
        match self.latest(name) {
            Some(i) => {
                proof {
                    lemma_latest_decides(self.log@, i as int);
                }
                match &self.log[i].1 {
                    Some(b) => {
                        let copy = b.clone();
                        assert(copy@ =~= b@);
                        Ok(Some(copy))
                    },
                    None => Ok(None),
                }
            },
            None => {
                proof {
                    lemma_unnamed_absent(self.log@, name@);
                }
                Ok(None)
            },
        }
    }

    fn contains(&self, name: &str) -> (r: bool) {
        match self.latest(name) {
            Some(i) => {
                proof {
                    lemma_latest_decides(self.log@, i as int);
                }
                self.log[i].1.is_some()
            },
            None => {
                proof {
                    lemma_unnamed_absent(self.log@, name@);
                }
                false
            },
        }
    }

    fn remove(&mut self, name: &str) -> (r: Result<bool, AppError>) {
        let present = self.contains(name);
        let ghost before = self.log@;
        self.log.push((String::from_str(name), None));
        assert(self.log@.drop_last() == before);
        Ok(present)
    }

    fn names(&self) -> (r: Result<Vec<String>, AppError>) {
        let mut out: Vec<String> = Vec::new();
        let mut i: usize = 0;
        while i < self.log.len()
            invariant
                i <= self.log@.len(),
                forall|k: int|
                    0 <= k < out@.len() ==> replay(self.log@).contains_key(#[trigger] out@[k]@),
                forall|j: int|
                    0 <= j < i && replay(self.log@).contains_key((#[trigger] self.log@[j]).0@)
                        ==> texts(out@).contains(self.log@[j].0@),
            decreases self.log@.len() - i,
        {
            let name = self.log[i].0.clone();
            let present = self.contains(name.as_str());
            let ghost prior = out@;
            if present {
                out.push(name);
                proof {
                    assert(texts(out@) == texts(prior).push(self.log@[i as int].0@));
                    assert(texts(out@)[out@.len() - 1] == self.log@[i as int].0@);
                    assert forall|j: int|
                        0 <= j < i + 1 && replay(self.log@).contains_key(
                            (#[trigger] self.log@[j]).0@,
                        ) implies texts(out@).contains(self.log@[j].0@) by {
                        if j < i {
                            let k = choose|k: int|
                                0 <= k < texts(prior).len() && texts(prior)[k] == self.log@[j].0@;
                            assert(texts(out@)[k] == texts(prior)[k]);
                        }
                    }
                }
            }
            i = i + 1;
        }
        proof {
            let dom = replay(self.log@).dom();
            assert forall|n: Seq<char>| texts(out@).to_set().contains(n) <==> dom.contains(n) by {
                if texts(out@).to_set().contains(n) {
                    let k = choose|k: int| 0 <= k < texts(out@).len() && texts(out@)[k] == n;
                    assert(replay(self.log@).contains_key(out@[k]@));
                }
                if dom.contains(n) {
                    if forall|j: int| 0 <= j < self.log@.len() ==> (#[trigger] self.log@[j]).0@ != n {
                        lemma_unnamed_absent(self.log@, n);
                    }
                    let j = choose|j: int| 0 <= j < self.log@.len() && (#[trigger] self.log@[j]).0@ == n;
                    assert(texts(out@).contains(n));
                }
            }
            assert(texts(out@).to_set() =~= dom);
        }
        Ok(out)
    }
}

} // verus!
