//! The registry of processors, keyed by event-type tag.

use vstd::prelude::*;
use crate::processor::ProcessingError;

verus! {

/// A registry that maps each event-type tag to the processor `P` of that
/// type; registration happens once, and lookups may then be shared freely.
///
/// The registrations are kept in a `Vec` with distinct tags rather than a
/// `HashMap<String, P>`: the map's lookup contract holds only for key types
/// whose hashing and equality obey the key model, which `String` is not
/// known to do, so no lookup over it could be proved.
pub struct ProcessorFleet<P> {
    processors: Vec<(String, P)>,
}

pub open spec fn keys_unique<P>(s: Seq<(String, P)>) -> bool {
    forall|i: int, j: int| 0 <= i < j < s.len() ==> (#[trigger] s[i]).0@ != (#[trigger] s[j]).0@
}

/// The map that a list of registrations with distinct tags stands for.
pub open spec fn map_of<P>(s: Seq<(String, P)>) -> Map<Seq<char>, P>
    decreases s.len(),
{
    if s.len() == 0 {
        Map::empty()
    } else {
        map_of(s.drop_last()).insert(s.last().0@, s.last().1)
    }
}

proof fn lemma_absent<P>(s: Seq<(String, P)>, k: Seq<char>)
    requires
        forall|i: int| 0 <= i < s.len() ==> (#[trigger] s[i]).0@ != k,
    ensures
        !map_of(s).contains_key(k),
    decreases s.len(),
{
    if s.len() > 0 {
        assert forall|i: int| 0 <= i < s.drop_last().len() implies (#[trigger] s.drop_last()[i]).0@ != k by {
            assert(s.drop_last()[i] == s[i]);
        }
        lemma_absent(s.drop_last(), k);
        assert(s.last() == s[s.len() - 1]);
    }
}

proof fn lemma_unique_prefix<P>(s: Seq<(String, P)>)
    requires
        s.len() > 0,
        keys_unique(s),
    ensures
        keys_unique(s.drop_last()),
        forall|i: int| 0 <= i < s.len() - 1 ==> (#[trigger] s.drop_last()[i]).0@ != s.last().0@,
{
    assert forall|i: int, j: int| 0 <= i < j < s.drop_last().len() implies (#[trigger] s.drop_last()[i]).0@
        != (#[trigger] s.drop_last()[j]).0@ by {
        assert(s.drop_last()[i] == s[i]);
        assert(s.drop_last()[j] == s[j]);
    }
    assert forall|i: int| 0 <= i < s.len() - 1 implies (#[trigger] s.drop_last()[i]).0@ != s.last().0@ by {
        assert(s.drop_last()[i] == s[i]);
        assert(s.last() == s[s.len() - 1]);
    }
}

proof fn lemma_present<P>(s: Seq<(String, P)>, i: int)
    requires
        keys_unique(s),
        0 <= i < s.len(),
    ensures
        map_of(s).contains_key(s[i].0@),
        map_of(s)[s[i].0@] == s[i].1,
    decreases s.len(),
{
    if i < s.len() - 1 {
        lemma_unique_prefix(s);
        assert(s.drop_last()[i] == s[i]);
        lemma_present(s.drop_last(), i);
        assert(s.last() == s[s.len() - 1]);
    }
}

proof fn lemma_remove<P>(s: Seq<(String, P)>, i: int)
    requires
        keys_unique(s),
        0 <= i < s.len(),
    ensures
        map_of(s.remove(i)) == map_of(s).remove(s[i].0@),
        keys_unique(s.remove(i)),
    decreases s.len(),
{
    let k = s[i].0@;
    lemma_unique_prefix(s);
    if i == s.len() - 1 {
        assert(s.remove(i) =~= s.drop_last());
        lemma_absent(s.drop_last(), k);
        assert(map_of(s.remove(i)) =~= map_of(s).remove(k));
    } else {
        let d = s.drop_last();
        assert(d[i] == s[i]);
        lemma_remove(d, i);
        assert(s.remove(i) =~= d.remove(i).push(s.last()));
        assert(s.remove(i).drop_last() =~= d.remove(i));
        assert(s.last() == s[s.len() - 1]);
        assert(s.last().0@ != k);
        assert(map_of(s.remove(i)) =~= map_of(s).remove(k));
    }
    assert forall|a: int, b: int| 0 <= a < b < s.remove(i).len() implies (#[trigger] s.remove(i)[a]).0@
        != (#[trigger] s.remove(i)[b]).0@ by {
        let a0 = if a < i { a } else { a + 1 };
        let b0 = if b < i { b } else { b + 1 };
        assert(s.remove(i)[a] == s[a0]);
        assert(s.remove(i)[b] == s[b0]);
    }
}

impl<P> ProcessorFleet<P> {
    #[verifier::type_invariant]
    spec fn inv(&self) -> bool {
        keys_unique(self.processors@)
    }

    /// The processor registered for each tag.
    pub closed spec fn view(&self) -> Map<Seq<char>, P> {
        map_of(self.processors@)
    }

    /// A fleet with no processor.
    pub fn new() -> (r: ProcessorFleet<P>)
        ensures
            r@ == Map::<Seq<char>, P>::empty(),
    {
        ProcessorFleet { processors: Vec::new() }
    }

    fn position(&self, event_type: &String) -> (r: Option<usize>)
        ensures
            match r {
                Some(i) => i < self.processors.len() && self.processors@[i as int].0@ == event_type@,
                None => forall|i: int| 0 <= i < self.processors.len() ==> (#[trigger] self.processors@[i]).0@
                    != event_type@,
            },
    {
        let mut i: usize = 0;
        while i < self.processors.len()
            invariant
                i <= self.processors.len(),
                forall|j: int| 0 <= j < i ==> (#[trigger] self.processors@[j]).0@ != event_type@,
            decreases self.processors.len() - i,
        {
            if self.processors[i].0 == *event_type {
                return Some(i);
            }
            i = i + 1;
        }
        None
    }

    /// Registers `processor` for `event_type`, in place of any processor
    /// registered for it before.
    pub fn register(&mut self, event_type: String, processor: P)
        ensures
            final(self)@ == old(self)@.insert(event_type@, processor),
    {
        proof {
            use_type_invariant(&*self);
        }
        let ghost k = event_type@;
        let ghost s0 = self.processors@;
        let found = self.position(&event_type);
        let mut procs: Vec<(String, P)> = Vec::new();
        std::mem::swap(&mut self.processors, &mut procs);
        assert(procs@ == s0);
        match found {
            Some(i) => {
                proof {
                    lemma_remove(s0, i as int);
                }
                procs.remove(i);
                assert(procs@ =~= s0.remove(i as int));
                proof {
                    assert forall|j: int| 0 <= j < procs@.len() implies (#[trigger] procs@[j]).0@ != k by {
                        let j0 = if j < i { j } else { j + 1 };
                        assert(procs@[j] == s0[j0]);
                        assert(s0[j0].0@ != s0[i as int].0@);
                    }
                }
            },
            None => {
                proof {
                    lemma_absent(s0, k);
                }
            },
        }
        let ghost s1 = procs@;
        assert(forall|j: int| 0 <= j < s1.len() ==> (#[trigger] s1[j]).0@ != k);
        assert(map_of(s1) =~= map_of(s0).remove(k));
        procs.push((event_type, processor));
        assert(procs@.drop_last() =~= s1);
        assert(map_of(procs@) =~= map_of(s0).insert(k, processor));
        assert forall|a: int, b: int| 0 <= a < b < procs@.len() implies (#[trigger] procs@[a]).0@
            != (#[trigger] procs@[b]).0@ by {
            if b < s1.len() {
                assert(procs@[a] == s1[a]);
                assert(procs@[b] == s1[b]);
            } else {
                assert(procs@[a] == s1[a]);
            }
        }
        self.processors = procs;
    }

    /// The processor registered for `event_type`, or `SubProcessorNotFound`
    /// with the tag.
    pub fn route(&self, event_type: &String) -> (r: Result<&P, ProcessingError>)
        ensures
            self@.contains_key(event_type@) ==> r == Ok::<&P, ProcessingError>(&self@[event_type@]),
            !self@.contains_key(event_type@) ==> r == Err::<&P, ProcessingError>(
                ProcessingError::SubProcessorNotFound(*event_type),
            ),
    {
        proof {
            use_type_invariant(self);
        }
        match self.position(event_type) {
            Some(i) => {
                proof {
                    lemma_present(self.processors@, i as int);
                }
                Ok(&self.processors[i].1)
            },
            None => {
                proof {
                    lemma_absent(self.processors@, event_type@);
                }
                Err(ProcessingError::SubProcessorNotFound(event_type.clone()))
            },
        }
    }
}

} // verus!
