//! The compiled programs of a program store, cached by the unique name of
//! their source, and which program the WebGL context is using.
use vstd::prelude::*;

use super::error::Error;
use crate::utils::str_eq;

verus! {

/// No two entries share a name.
pub open spec fn distinct_program_names<P>(s: Seq<(Seq<char>, P)>) -> bool {
    forall|i: int, j: int| 0 <= i < j < s.len() ==> s[i].0 != s[j].0
}

/// The program cached under `name` in `s`, if any.
pub open spec fn cached_program<P>(s: Seq<(Seq<char>, P)>, name: Seq<char>) -> Option<P> {
    if exists|i: int| 0 <= i < s.len() && s[i].0 == name {
        Some(s[choose|i: int| 0 <= i < s.len() && s[i].0 == name].1)
    } else {
        None
    }
}

proof fn lemma_cached_at<P>(s: Seq<(Seq<char>, P)>, i: int)
    requires
        distinct_program_names(s),
        0 <= i < s.len(),
    ensures
        cached_program(s, s[i].0) == Some(s[i].1),
{
    let j = choose|j: int| 0 <= j < s.len() && s[j].0 == s[i].0;
    assert(0 <= j < s.len() && s[j].0 == s[i].0);
    if j != i {
        if j < i {
            assert(s[j].0 != s[i].0);
        } else {
            assert(s[i].0 != s[j].0);
        }
    }
}

/// The programs of a store, cached by the unique name of their source.
#[verifier::reject_recursive_types(P)]
pub struct ProgramCache<P> {
    entries: Vec<(String, P)>,
}

impl<P> ProgramCache<P> {
    /// The cached programs with their names.
    pub closed spec fn spec_entries(&self) -> Seq<(Seq<char>, P)> {
        self.entries@.map_values(|e: (String, P)| (e.0@, e.1))
    }

    /// No name is cached twice.
    pub open spec fn wf(&self) -> bool {
        distinct_program_names(self.spec_entries())
    }

    /// The program cached under `name`, if any.
    pub open spec fn spec_get(&self, name: Seq<char>) -> Option<P> {
        cached_program(self.spec_entries(), name)
    }

    /// Constructs an empty cache.
    pub fn new() -> (r: Self)
        ensures
            r.wf(),
            forall|name: Seq<char>| #[trigger] r.spec_get(name) is None,
    {
        let r = ProgramCache { entries: Vec::new() };
        assert(r.spec_entries() =~= Seq::<(Seq<char>, P)>::empty());
        r
    }

    fn position(&self, name: &str) -> (r: Option<usize>)
        ensures
            match r {
                Some(i) => i < self.entries@.len() && self.spec_entries()[i as int].0 == name@,
                None => forall|j: int| 0 <= j < self.spec_entries().len() ==> #[trigger] self.spec_entries()[j].0 != name@,
            },
    {
        let mut i: usize = 0;
        while i < self.entries.len()
            invariant
                i <= self.entries@.len(),
                forall|j: int| 0 <= j < i ==> #[trigger] self.spec_entries()[j].0 != name@,
            decreases self.entries@.len() - i,
        {
            if str_eq(self.entries[i].0.as_str(), name) {
                return Some(i);
            }
            i = i + 1;
        }
        None
    }

    /// Returns the program cached under `name`.
    pub fn get(&self, name: &str) -> (r: Option<&P>)
        requires
            self.wf(),
        ensures
            match r {
                Some(p) => self.spec_get(name@) == Some(*p),
                None => self.spec_get(name@) is None,
            },
    {
        match self.position(name) {
            Some(i) => {
                proof {
                    lemma_cached_at(self.spec_entries(), i as int);
                }
                Some(&self.entries[i].1)
            },
            None => None,
        }
    }

    /// Caches `program` under `name`, which holds no program yet.
    pub fn insert(&mut self, name: String, program: P)
        requires
            old(self).wf(),
            old(self).spec_get(name@) is None,
        ensures
            final(self).wf(),
            forall|n: Seq<char>| #[trigger] final(self).spec_get(n) == if n == name@ {
                Some(program)
            } else {
                old(self).spec_get(n)
            },
    {
        let ghost s0 = self.spec_entries();
        let ghost key = name@;
        assert forall|j: int| 0 <= j < s0.len() implies s0[j].0 != key by {
            if s0[j].0 == key {
                assert(cached_program(s0, key) is Some);
            }
        }
        self.entries.push((name, program));
        let ghost s1 = self.spec_entries();
        assert(s1 =~= s0.push((key, program)));
        assert forall|n: Seq<char>| #[trigger] self.spec_get(n) == if n == key {
            Some(program)
        } else {
            cached_program(s0, n)
        } by {
            if n == key {
                lemma_cached_at(s1, s0.len() as int);
            } else if exists|i: int| 0 <= i < s0.len() && s0[i].0 == n {
                let i = choose|i: int| 0 <= i < s0.len() && s0[i].0 == n;
                lemma_cached_at(s0, i);
                lemma_cached_at(s1, i);
            } else {
                assert forall|i: int| 0 <= i < s1.len() implies s1[i].0 != n by {
                    if i < s0.len() {
                        assert(s1[i] == s0[i]);
                    }
                }
            }
        }
    }
    /// Removes and returns the program cached under `name`.
    pub fn remove(&mut self, name: &str) -> (r: Option<P>)
        requires
            old(self).wf(),
        ensures
            final(self).wf(),
            r == old(self).spec_get(name@),
            forall|n: Seq<char>| #[trigger] final(self).spec_get(n) == if n == name@ {
                None
            } else {
                old(self).spec_get(n)
            },
    {
        let ghost s0 = self.spec_entries();
        match self.position(name) {
            Some(i) => {
                proof {
                    lemma_cached_at(s0, i as int);
                }
                let (_, program) = self.entries.remove(i);
                let ghost s1 = self.spec_entries();
                assert(s1 =~= s0.remove(i as int));
                assert forall|n: Seq<char>| #[trigger] self.spec_get(n) == if n == name@ {
                    None
                } else {
                    cached_program(s0, n)
                } by {
                    if n == name@ {
                        assert forall|j: int| 0 <= j < s1.len() implies s1[j].0 != n by {
                            if j < i {
                                assert(s1[j] == s0[j]);
                            } else {
                                assert(s1[j] == s0[j + 1]);
                            }
                        }
                    } else if exists|j: int| 0 <= j < s0.len() && s0[j].0 == n {
                        let j = choose|j: int| 0 <= j < s0.len() && s0[j].0 == n;
                        lemma_cached_at(s0, j);
                        let k = if j < i { j } else { j - 1 };
                        assert(j != i);
                        assert(s1[k] == s0[j]);
                        lemma_cached_at(s1, k);
                    } else {
                        assert forall|j: int| 0 <= j < s1.len() implies s1[j].0 != n by {
                            if j < i {
                                assert(s1[j] == s0[j]);
                            } else {
                                assert(s1[j] == s0[j + 1]);
                            }
                        }
                    }
                }
                Some(program)
            },
            None => {
                assert(cached_program(s0, name@) is None);
                None
            },
        }
    }
}

/// Makes program `program` the one the WebGL context uses, `using` being the
/// one it uses now, if any. Using the program in use again changes nothing;
/// a context using another program fails with [`Error::ProgramOccupied`].
/// On success, returns the program now in use and whether the context has
/// to be told to use it.
pub fn use_program(using: Option<u64>, program: u64) -> (r: Result<(Option<u64>, bool), Error>)
    ensures
        using == Some(program) ==> r == Ok::<(Option<u64>, bool), Error>((Some(program), false)),
        using matches Some(other) && other != program ==> r == Err::<(Option<u64>, bool), Error>(
            Error::ProgramOccupied,
        ),
        using is None ==> r == Ok::<(Option<u64>, bool), Error>((Some(program), true)),
{
    match using {
        Some(other) => {
            if other == program {
                Ok((Some(program), false))
            } else {
                Err(Error::ProgramOccupied)
            }
        },
        None => Ok((Some(program), true)),
    }
}

} // verus!
