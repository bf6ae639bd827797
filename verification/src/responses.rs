//! The replies that a question accepts, each with the answer it stands for.

use vstd::prelude::*;
use crate::answer::Answer;
use crate::answer::AnswerView;

verus! {

/// Whether the entry at `at` is the first one that is filed under `key`.
pub open spec fn first_under(entries: Seq<(String, Answer)>, key: Seq<char>, at: int) -> bool {
    &&& 0 <= at < entries.len()
    &&& entries[at].0@ == key
    &&& forall|before: int| 0 <= before < at ==> (#[trigger] entries[before]).0@ != key
}

/// Whether some entry is filed under `key`.
pub open spec fn filed(entries: Seq<(String, Answer)>, key: Seq<char>) -> bool {
    exists|at: int| first_under(entries, key, at)
}

/// The mapping that a list of entries stands for: each key with the answer
/// of the first entry filed under it.
pub open spec fn mapping_of(entries: Seq<(String, Answer)>) -> Map<Seq<char>, AnswerView> {
    Map::new(
        |key: Seq<char>| filed(entries, key),
        |key: Seq<char>| entries[choose|at: int| first_under(entries, key, at)].1@,
    )
}

/// A mapping from replies to answers. A reply is held as it will be looked
/// up, so a key's spelling matters: `get` compares exactly.
pub struct Responses {
    entries: Vec<(String, Answer)>,
}

impl View for Responses {
    type V = Map<Seq<char>, AnswerView>;

    closed spec fn view(&self) -> Map<Seq<char>, AnswerView> {
        mapping_of(self.entries@)
    }
}

impl Clone for Responses {
    /// A mapping with the same entries.
    fn clone(&self) -> (copy: Responses)
        ensures
            copy@ == self@,
    {
        proof {
            use_type_invariant(self);
        }
        let mut entries: Vec<(String, Answer)> = Vec::new();
        let mut next: usize = 0;
        while next < self.entries.len()
            invariant
                next <= self.entries@.len(),
                entries@ == self.entries@.take(next as int),
            decreases self.entries@.len() - next,
        {
            let entry = &self.entries[next];
            entries.push((entry.0.clone(), entry.1.clone()));
            next = next + 1;
            assert(entries@ =~= self.entries@.take(next as int));
        }
        assert(entries@ =~= self.entries@);
        Responses { entries }
    }
}

impl Responses {
    /// No key occurs twice among the entries.
    #[verifier::type_invariant]
    closed spec fn distinct(&self) -> bool {
        forall|i: int, j: int|
            0 <= i < j < self.entries@.len() ==> (#[trigger] self.entries@[i]).0@ != (
            #[trigger] self.entries@[j]).0@
    }

    /// A mapping without entries.
    pub fn new() -> (responses: Responses)
        ensures
            responses@ == Map::<Seq<char>, AnswerView>::empty(),
    {
        let responses = Responses { entries: Vec::new() };
        assert(responses@ =~= Map::<Seq<char>, AnswerView>::empty());
        responses
    }

    /// The place of the first entry under `key`, or the number of entries
    /// where there is none.
    fn position(&self, key: &String) -> (at: usize)
        ensures
            at <= self.entries@.len(),
            at < self.entries@.len() ==> self.entries@[at as int].0@ == key@,
            forall|before: int| 0 <= before < at ==> (#[trigger] self.entries@[before]).0@ != key@,
    {
        let mut at: usize = 0;
        while at < self.entries.len()
            invariant
                at <= self.entries@.len(),
                forall|before: int| 0 <= before < at ==> (#[trigger] self.entries@[before]).0@ != key@,
            decreases self.entries@.len() - at,
        {
            if self.entries[at].0 == *key {
                return at;
            }
            at = at + 1;
        }
        at
    }

    /// The answer filed under `key`, if there is one.
    pub fn get(&self, key: &str) -> (found: Option<Answer>)
        ensures
            found is Some <==> self@.contains_key(key@),
            found is Some ==> found->0@ == self@[key@],
    {
        let wanted = key.to_owned();
        let at = self.position(&wanted);
        proof {
            if at < self.entries@.len() {
                assert(first_under(self.entries@, key@, at as int));
            }
        }
        if at < self.entries.len() {
            Some(self.entries[at].1.clone())
        } else {
            None
        }
    }

    /// Files `answer` under `key`, in place of what was filed there.
    pub fn insert(&mut self, key: String, answer: Answer)
        ensures
            final(self)@ == old(self)@.insert(key@, answer@),
    {
        proof {
            use_type_invariant(&*self);
        }
        let at = self.position(&key);
        let ghost before = self.entries@;
        let ghost filed_key = key@;
        let ghost filed_answer = answer@;
        let mut taken = Responses::new();
        core::mem::swap(self, &mut taken);
        let mut entries = taken.entries;
        if at < entries.len() {
            entries.set(at, (key, answer));
        } else {
            entries.push((key, answer));
        }
        *self = Responses { entries };
        proof {
            let after = self.entries@;
            assert(first_under(after, filed_key, at as int));
            assert forall|other: Seq<char>, place: int| other != filed_key implies (first_under(
                before,
                other,
                place,
            ) <==> first_under(after, other, place)) by {
                if first_under(before, other, place) {
                    assert(forall|i: int| 0 <= i < place ==> after[i].0@ == before[i].0@);
                }
                if first_under(after, other, place) {
                    assert(forall|i: int| 0 <= i < place ==> after[i].0@ == before[i].0@);
                }
            }
            assert forall|other: Seq<char>| other != filed_key implies (filed(before, other)
                <==> filed(after, other)) by {
                if filed(before, other) {
                    let place = choose|place: int| first_under(before, other, place);
                    assert(first_under(after, other, place));
                }
                if filed(after, other) {
                    let place = choose|place: int| first_under(after, other, place);
                    assert(first_under(before, other, place));
                }
            }
            assert(self@ =~= old(self)@.insert(filed_key, filed_answer));
        }
    }
}

} // verus!
