//! Process-local cancellation flags of active runs: once requested, a run's
//! flag stays raised until the run is released.
use vstd::prelude::*;

use crate::text::owned;
use crate::text::str_eq;

verus! {

/// The flag of `run` in `entries`, at or after position `i`.
pub open spec fn spec_flag_from(entries: Seq<(String, bool)>, run: Seq<char>, i: int) -> Option<bool>
    decreases entries.len() - i,
{
    if i < 0 || i >= entries.len() {
        None
    } else if entries[i].0@ == run {
        Some(entries[i].1)
    } else {
        spec_flag_from(entries, run, i + 1)
    }
}

pub open spec fn spec_unique_runs(entries: Seq<(String, bool)>) -> bool {
    forall|i: int, j: int| 0 <= i < j < entries.len() ==> entries[i].0@ != entries[j].0@
}

proof fn lemma_flag_at(entries: Seq<(String, bool)>, run: Seq<char>, k: int, i: int)
    requires
        spec_unique_runs(entries),
        0 <= i <= k < entries.len(),
        entries[k].0@ == run,
    ensures
        spec_flag_from(entries, run, i) == Some(entries[k].1),
    decreases k - i,
{
    if i < k {
        assert(entries[i].0@ != entries[k].0@);
        lemma_flag_at(entries, run, k, i + 1);
    }
}

proof fn lemma_flag_absent(entries: Seq<(String, bool)>, run: Seq<char>, i: int)
    requires
        forall|m: int| 0 <= m < entries.len() ==> (#[trigger] entries[m]).0@ != run,
    ensures
        spec_flag_from(entries, run, i) is None,
    decreases entries.len() - i,
{
    if 0 <= i < entries.len() {
        lemma_flag_absent(entries, run, i + 1);
    }
}

proof fn lemma_flag_found(entries: Seq<(String, bool)>, run: Seq<char>, i: int)
    requires
        spec_flag_from(entries, run, i) is Some,
    ensures
        exists|m: int| 0 <= m < entries.len() && (#[trigger] entries[m]).0@ == run && spec_flag_from(entries, run, i) == Some(entries[m].1),
    decreases entries.len() - i,
{
    if 0 <= i < entries.len() && entries[i].0@ != run {
        lemma_flag_found(entries, run, i + 1);
    }
}

/// The cancellation flags of the runs active in this process.
pub struct CancellationSignals {
    entries: Vec<(String, bool)>,
}

impl CancellationSignals {
    /// The flag of `run`, if the run is known.
    pub closed spec fn flag(&self, run: Seq<char>) -> Option<bool> {
        spec_flag_from(self.entries@, run, 0)
    }

    #[verifier::type_invariant]
    closed spec fn wf(&self) -> bool {
        spec_unique_runs(self.entries@)
    }

    pub fn new() -> (r: Self)
        ensures
            forall|run: Seq<char>| r.flag(run) is None,
    {
        CancellationSignals { entries: Vec::new() }
    }

    /// The flag of `run_id`, created with `requested` when the run is new;
    /// a request raises it. Returns whether cancellation is requested.
    pub fn signal(&mut self, run_id: &str, requested: bool) -> (r: bool)
        ensures
            r == match old(self).flag(run_id@) {
                Some(f) => f || requested,
                None => requested,
            },
            final(self).flag(run_id@) == Some(r),
            forall|other: Seq<char>| other != run_id@ ==> final(self).flag(other) == old(self).flag(other),
    {
        proof {
            use_type_invariant(&*self);
        }
        let ghost before = self.entries@;
        let mut entries: Vec<(String, bool)> = Vec::new();
        std::mem::swap(&mut entries, &mut self.entries);
        let r = match self.position_in(&entries, run_id) {
            Some(i) => {
                let current = entries[i].1;
                let raised = current || requested;
                proof {
                    lemma_flag_at(before, run_id@, i as int, 0);
                }
                let name = owned(run_id);
                entries.set(i, (name, raised));
                proof {
                    assert forall|a: int, b: int| 0 <= a < b < entries@.len() implies entries@[a].0@ != entries@[b].0@ by {
                        if a != i && b != i {
                            assert(entries@[a] == before[a] && entries@[b] == before[b]);
                        } else if a == i {
                            assert(entries@[b] == before[b]);
                        } else {
                            assert(entries@[a] == before[a]);
                        }
                    }
                    lemma_flag_at(entries@, run_id@, i as int, 0);
                    assert forall|other: Seq<char>| other != run_id@ implies spec_flag_from(entries@, other, 0)
                        == spec_flag_from(before, other, 0) by {
                        if spec_flag_from(before, other, 0) is Some {
                            lemma_flag_found(before, other, 0);
                            let m = choose|m: int| 0 <= m < before.len() && (#[trigger] before[m]).0@ == other
                                && spec_flag_from(before, other, 0) == Some(before[m].1);
                            assert(m != i);
                            assert(entries@[m] == before[m]);
                            lemma_flag_at(entries@, other, m, 0);
                        } else {
                            assert forall|m: int| 0 <= m < entries@.len() implies (#[trigger] entries@[m]).0@ != other by {
                                if m != i {
                                    assert(entries@[m] == before[m]);
                                    if before[m].0@ == other {
                                        lemma_flag_at(before, other, m, 0);
                                    }
                                }
                            }
                            lemma_flag_absent(entries@, other, 0);
                        }
                    }
                }
                raised
            },
            None => {
                proof {
                    lemma_flag_absent(before, run_id@, 0);
                }
                entries.push((owned(run_id), requested));
                proof {
                    let n = before.len() as int;
                    assert(entries@[n].0@ == run_id@);
                    assert forall|a: int, b: int| 0 <= a < b < entries@.len() implies entries@[a].0@ != entries@[b].0@ by {
                        assert(entries@[a] == before[a]);
                        if b < n {
                            assert(entries@[b] == before[b]);
                        }
                    }
                    lemma_flag_at(entries@, run_id@, n, 0);
                    assert forall|other: Seq<char>| other != run_id@ implies spec_flag_from(entries@, other, 0)
                        == spec_flag_from(before, other, 0) by {
                        if spec_flag_from(before, other, 0) is Some {
                            lemma_flag_found(before, other, 0);
                            let m = choose|m: int| 0 <= m < before.len() && (#[trigger] before[m]).0@ == other
                                && spec_flag_from(before, other, 0) == Some(before[m].1);
                            assert(entries@[m] == before[m]);
                            lemma_flag_at(entries@, other, m, 0);
                        } else {
                            assert forall|m: int| 0 <= m < entries@.len() implies (#[trigger] entries@[m]).0@ != other by {
                                if m < n {
                                    assert(entries@[m] == before[m]);
                                    if before[m].0@ == other {
                                        lemma_flag_at(before, other, m, 0);
                                    }
                                }
                            }
                            lemma_flag_absent(entries@, other, 0);
                        }
                    }
                }
                requested
            },
        };
        self.entries = entries;
        r
    }

    fn position_in(&self, entries: &Vec<(String, bool)>, run_id: &str) -> (r: Option<usize>)
        ensures
            match r {
                Some(i) => i < entries@.len() && entries@[i as int].0@ == run_id@,
                None => forall|m: int| 0 <= m < entries@.len() ==> (#[trigger] entries@[m]).0@ != run_id@,
            },
    {
        let mut i: usize = 0;
        while i < entries.len()
            invariant
                i <= entries@.len(),
                forall|m: int| 0 <= m < i ==> (#[trigger] entries@[m]).0@ != run_id@,
            decreases entries.len() - i,
        {
            if str_eq(entries[i].0.as_str(), run_id) {
                return Some(i);
            }
            i += 1;
        }
        None
    }

    /// Requests cancellation of `run_id`.
    pub fn request(&mut self, run_id: &str)
        ensures
            final(self).flag(run_id@) == Some(true),
            forall|other: Seq<char>| other != run_id@ ==> final(self).flag(other) == old(self).flag(other),
    {
        self.signal(run_id, true);
    }

    /// Forgets `run_id` once its cancellation has finished.
    pub fn release(&mut self, run_id: &str)
        ensures
            final(self).flag(run_id@) is None,
            forall|other: Seq<char>| other != run_id@ ==> final(self).flag(other) == old(self).flag(other),
    {
        proof {
            use_type_invariant(&*self);
        }
        let ghost before = self.entries@;
        let mut entries: Vec<(String, bool)> = Vec::new();
        std::mem::swap(&mut entries, &mut self.entries);
        match self.position_in(&entries, run_id) {
            Some(i) => {
                entries.remove(i);
                proof {
                    assert forall|a: int, b: int| 0 <= a < b < entries@.len() implies entries@[a].0@ != entries@[b].0@ by {
                        let a0 = if a < i { a } else { a + 1 };
                        let b0 = if b < i { b } else { b + 1 };
                        assert(entries@[a] == before[a0] && entries@[b] == before[b0]);
                    }
                    assert forall|m: int| 0 <= m < entries@.len() implies (#[trigger] entries@[m]).0@ != run_id@ by {
                        let m0 = if m < i { m } else { m + 1 };
                        assert(entries@[m] == before[m0]);
                    }
                    lemma_flag_absent(entries@, run_id@, 0);
                    assert forall|other: Seq<char>| other != run_id@ implies spec_flag_from(entries@, other, 0)
                        == spec_flag_from(before, other, 0) by {
                        if spec_flag_from(before, other, 0) is Some {
                            lemma_flag_found(before, other, 0);
                            let m = choose|m: int| 0 <= m < before.len() && (#[trigger] before[m]).0@ == other
                                && spec_flag_from(before, other, 0) == Some(before[m].1);
                            let m1 = if m < i { m } else { m - 1 };
                            assert(m != i);
                            assert(entries@[m1] == before[m]);
                            lemma_flag_at(entries@, other, m1, 0);
                        } else {
                            assert forall|m: int| 0 <= m < entries@.len() implies (#[trigger] entries@[m]).0@ != other by {
                                let m0 = if m < i { m } else { m + 1 };
                                assert(entries@[m] == before[m0]);
                                if before[m0].0@ == other {
                                    lemma_flag_at(before, other, m0, 0);
                                }
                            }
                            lemma_flag_absent(entries@, other, 0);
                        }
                    }
                }
            },
            None => {
                proof {
                    lemma_flag_absent(before, run_id@, 0);
                }
            },
        }
        self.entries = entries;
    }
}

} // verus!
