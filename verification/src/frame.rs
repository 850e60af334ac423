//! A single evaluation scope: a mapping from variable names to values.

use crate::value::{SpecValue, Value};
use vstd::prelude::*;

verus! {

/// One evaluation scope's bindings. The model is a mathematical map from a
/// name (a character sequence) to the model of the bound value; a later
/// binding for the same name shadows an earlier one.
#[derive(Debug)]
pub struct Frame {
    entries: Vec<(String, Value)>,
}

/// The map described by a sequence of bindings, later entries winning.
pub open spec fn entries_model(s: Seq<(String, Value)>) -> Map<Seq<char>, SpecValue>
    decreases s.len(),
{
    if s.len() == 0 {
        Map::empty()
    } else {
        entries_model(s.drop_last()).insert(s.last().0@, s.last().1@)
    }
}

impl View for Frame {
    type V = Map<Seq<char>, SpecValue>;

    closed spec fn view(&self) -> Map<Seq<char>, SpecValue> {
        entries_model(self.entries@)
    }
}

/// The latest entry for a name is the one the model holds.
proof fn lemma_entries_model_found(s: Seq<(String, Value)>, j: int)
    requires
        0 <= j < s.len(),
        forall|m: int| j < m < s.len() ==> s[m].0@ != s[j].0@,
    ensures
        entries_model(s).contains_key(s[j].0@),
        entries_model(s)[s[j].0@] == s[j].1@,
    decreases s.len(),
{
    if j < s.len() - 1 {
        assert(s.drop_last()[j] == s[j]);
        lemma_entries_model_found(s.drop_last(), j);
    }
}

/// A name no entry carries is not in the model.
proof fn lemma_entries_model_absent(s: Seq<(String, Value)>, name: Seq<char>)
    requires
        forall|m: int| 0 <= m < s.len() ==> s[m].0@ != name,
    ensures
        !entries_model(s).contains_key(name),
    decreases s.len(),
{
    if s.len() > 0 {
        lemma_entries_model_absent(s.drop_last(), name);
    }
}

impl Frame {
    /// A fresh scope with no bindings.
    pub fn new() -> (r: Frame)
        ensures
            r@ == Map::<Seq<char>, SpecValue>::empty(),
    {
        Frame { entries: Vec::new() }
    }

    /// Reads the binding for `name`, if there is one.
    pub fn get(&self, name: &String) -> (r: Option<Value>)
        ensures
            (match r {
                Some(v) => self@.contains_key(name@) && v@ == self@[name@],
                None => !self@.contains_key(name@),
            }),
    {
        let mut i: usize = self.entries.len();
        while i > 0
            invariant
                i <= self.entries.len(),
                forall|m: int| i <= m < self.entries@.len() ==> self.entries@[m].0@ != name@,
            decreases i,
        {
            i = i - 1;
            if self.entries[i].0 == *name {
                proof {
                    lemma_entries_model_found(self.entries@, i as int);
                }
                return Some(self.entries[i].1.clone());
            }
        }
        proof {
            lemma_entries_model_absent(self.entries@, name@);
        }
        None
    }

    /// Binds `name` to `value`, shadowing any earlier binding for it.
    pub fn set(&mut self, name: String, value: Value)
        ensures
            final(self)@ == old(self)@.insert(name@, value@),
    {
        let ghost before = self.entries@;
        self.entries.push((name, value));
        proof {
            assert(self.entries@.drop_last() =~= before);
        }
    }
}

} // verus!
