use vstd::prelude::*;

use crate::text::same_text;

verus! {

/// Where the first entry called `name` stands in `entries`, or the length of `entries`
/// where none is.
pub open spec fn position_of(entries: Seq<(Seq<char>, Seq<char>)>, name: Seq<char>) -> int
    decreases entries.len(),
{
    if entries.len() == 0 {
        0
    } else if entries[0].0 == name {
        0
    } else {
        1 + position_of(entries.drop_first(), name)
    }
}

/// Whether an entry of `entries` is called `name`.
pub open spec fn has_name(entries: Seq<(Seq<char>, Seq<char>)>, name: Seq<char>) -> bool {
    position_of(entries, name) < entries.len()
}

/// The text of the first entry called `name`.
pub open spec fn text_of(entries: Seq<(Seq<char>, Seq<char>)>, name: Seq<char>) -> Seq<char>
    recommends
        has_name(entries, name),
{
    entries[position_of(entries, name)].1
}

/// The names of `entries`, in order.
pub open spec fn names_of(entries: Seq<(Seq<char>, Seq<char>)>) -> Seq<Seq<char>> {
    Seq::new(entries.len(), |i: int| entries[i].0)
}

/// How many entries of `entries` are called `name`.
pub open spec fn occurrences(entries: Seq<(Seq<char>, Seq<char>)>, name: Seq<char>) -> nat {
    names_of(entries).filter(|n: Seq<char>| n == name).len()
}

/// Whether an entry of `entries` holds `text`.
pub open spec fn has_text(entries: Seq<(Seq<char>, Seq<char>)>, text: Seq<char>) -> bool {
    exists|i: int| 0 <= i < entries.len() && (#[trigger] entries[i]).1 == text
}

/// Whether no two entries hold the same text.
pub open spec fn distinct_texts(entries: Seq<(Seq<char>, Seq<char>)>) -> bool {
    forall|i: int, j: int|
        0 <= i < j < entries.len() ==> (#[trigger] entries[i]).1 != (#[trigger] entries[j]).1
}

/// Whether no two entries have the same name.
pub open spec fn distinct_names(entries: Seq<(Seq<char>, Seq<char>)>) -> bool {
    forall|i: int, j: int|
        0 <= i < j < entries.len() ==> (#[trigger] entries[i]).0 != (#[trigger] entries[j]).0
}

/// `entries` with `value` under `name`: in the place of the entry called `name`, or at the
/// end where there is none.
pub open spec fn with_entry(
    entries: Seq<(Seq<char>, Seq<char>)>,
    name: Seq<char>,
    value: Seq<char>,
) -> Seq<(Seq<char>, Seq<char>)> {
    let at = position_of(entries, name);
    if at < entries.len() {
        entries.update(at, (name, value))
    } else {
        entries.push((name, value))
    }
}

/// `position_of` is the index of the first entry with the name, and no earlier entry has it.
pub proof fn lemma_position_of(entries: Seq<(Seq<char>, Seq<char>)>, name: Seq<char>)
    ensures
        0 <= position_of(entries, name) <= entries.len(),
        position_of(entries, name) < entries.len() ==> entries[position_of(entries, name)].0
            == name,
        forall|i: int| 0 <= i < position_of(entries, name) ==> (#[trigger] entries[i]).0 != name,
    decreases entries.len(),
{
    if entries.len() > 0 && entries[0].0 != name {
        let rest = entries.drop_first();
        lemma_position_of(rest, name);
        assert forall|i: int| 0 <= i < position_of(entries, name) implies (#[trigger] entries[i]).0
            != name by {
            if i > 0 {
                assert(rest[i - 1] == entries[i]);
            }
        }
    }
}

/// Among distinct names, a name that occurs occurs once.
pub proof fn lemma_occurs_once(entries: Seq<(Seq<char>, Seq<char>)>, name: Seq<char>)
    requires
        distinct_names(entries),
    ensures
        occurrences(entries, name) == if has_name(entries, name) {
            1nat
        } else {
            0nat
        },
    decreases entries.len(),
{
    reveal(Seq::filter);
    if entries.len() > 0 {
        let front = entries.drop_last();
        assert(distinct_names(front)) by {
            assert forall|i: int, j: int| 0 <= i < j < front.len() implies (#[trigger] front[i]).0
                != (#[trigger] front[j]).0 by {}
        }
        lemma_occurs_once(front, name);
        assert(names_of(entries).drop_last() =~= names_of(front));
        lemma_position_of(entries, name);
        lemma_position_of(front, name);
        if entries.last().0 == name {
            lemma_position_found(entries, name, entries.len() - 1);
        } else if has_name(front, name) {
            lemma_position_found(entries, name, position_of(front, name));
        } else if has_name(entries, name) {
            lemma_position_found(front, name, position_of(entries, name));
        }
    }
}

/// A name that stands at `index` is found at or before `index`.
pub proof fn lemma_position_found(entries: Seq<(Seq<char>, Seq<char>)>, name: Seq<char>, index: int)
    requires
        0 <= index < entries.len(),
        entries[index].0 == name,
    ensures
        position_of(entries, name) <= index,
        has_name(entries, name),
    decreases entries.len(),
{
    if entries[0].0 != name {
        let rest = entries.drop_first();
        lemma_position_found(rest, name, index - 1);
    }
}

/// Texts by name: each name occurs once, and the entries keep the order in which their
/// names first came.
///
/// Its view is the sequence of entries, name first.
pub struct StringMap {
    entries: Vec<(String, String)>,
}

impl View for StringMap {
    type V = Seq<(Seq<char>, Seq<char>)>;

    closed spec fn view(&self) -> Seq<(Seq<char>, Seq<char>)> {
        self.entries.deep_view()
    }
}

impl StringMap {
    /// No name occurs twice: this holds of every value of the type.
    #[verifier::type_invariant]
    pub open spec fn wf(&self) -> bool {
        distinct_names(self@)
    }

    /// A map without entries.
    pub fn new() -> (map: StringMap)
        ensures
            map@ == Seq::<(Seq<char>, Seq<char>)>::empty(),
    {
        let entries: Vec<(String, String)> = Vec::new();
        StringMap { entries }
    }

    /// The number of entries.
    pub fn len(&self) -> (n: usize)
        ensures
            n == self@.len(),
            distinct_names(self@),
    {
        proof {
            use_type_invariant(self);
        }
        self.entries.len()
    }

    /// The index of the entry called `name`, or `len()` where there is none.
    pub fn position(&self, name: &str) -> (at: usize)
        ensures
            at == position_of(self@, name@),
            at <= self@.len(),
    {
        let mut i: usize = 0;
        assert(self@.skip(0) =~= self@);
        while i < self.entries.len()
            invariant
                i <= self.entries.len(),
                self@.len() == self.entries.len(),
                self@ == self.entries.deep_view(),
                position_of(self@, name@) == i + position_of(self@.skip(i as int), name@),
            decreases self.entries.len() - i,
        {
            let ghost rest = self@.skip(i as int);
            assert(rest.drop_first() =~= self@.skip(i + 1));
            if same_text(self.entries[i].0.as_str(), name) {
                return i;
            }
            i = i + 1;
        }
        i
    }

    /// The text under `name`, if there is one.
    pub fn get(&self, name: &str) -> (value: Option<String>)
        ensures
            has_name(self@, name@) ==> value.deep_view() == Some(text_of(self@, name@)),
            !has_name(self@, name@) ==> value is None,
    {
        let at: usize = self.position(name);
        if at < self.entries.len() {
            Some(self.entries[at].1.clone())
        } else {
            None
        }
    }

    /// Puts `value` under `name`, in place of an earlier text if there is one.
    pub fn insert(&mut self, name: String, value: String)
        ensures
            final(self)@ == with_entry(old(self)@, name@, value@),
            distinct_names(final(self)@),
            has_name(final(self)@, name@),
    {
        proof {
            use_type_invariant(&*self);
        }
        let at: usize = self.position(name.as_str());
        proof {
            lemma_position_of(self@, name@);
        }
        let ghost before = self@;
        let mut entries: Vec<(String, String)> = Vec::new();
        std::mem::swap(&mut entries, &mut self.entries);
        if at < entries.len() {
            entries[at] = (name, value);
        } else {
            entries.push((name, value));
            assert(entries.deep_view() =~= before.push((name@, value@)));
        }
        let ghost after = entries.deep_view();
        assert(distinct_names(after)) by {
            assert forall|i: int, j: int| 0 <= i < j < after.len() implies (#[trigger] after[i]).0
                != (#[trigger] after[j]).0 by {
                if i < before.len() && j < before.len() {
                    assert(before[i].0 != before[j].0);
                }
            }
        }
        proof {
            lemma_position_found(after, name@, at as int);
        }
        self.entries = entries;
    }

    /// Whether there is an entry called `name`.
    pub fn contains(&self, name: &str) -> (found: bool)
        ensures
            found == has_name(self@, name@),
    {
        self.position(name) < self.entries.len()
    }

    /// Whether an entry holds `text`.
    pub fn contains_text(&self, text: &str) -> (found: bool)
        ensures
            found == has_text(self@, text@),
    {
        let mut i: usize = 0;
        while i < self.entries.len()
            invariant
                i <= self.entries.len(),
                self@.len() == self.entries.len(),
                forall|j: int| 0 <= j < i ==> (#[trigger] self@[j]).1 != text@,
            decreases self.entries.len() - i,
        {
            if same_text(self.entries[i].1.as_str(), text) {
                assert(self@[i as int].1 == text@);
                return true;
            }
            i = i + 1;
        }
        false
    }

    /// Takes out the entry called `name` and hands out its text; `None`, and no change,
    /// where there is none.
    pub fn remove(&mut self, name: &str) -> (value: Option<String>)
        ensures
            distinct_names(final(self)@),
            has_name(old(self)@, name@) ==> value.deep_view() == Some(text_of(old(self)@, name@))
                && final(self)@ == old(self)@.remove(position_of(old(self)@, name@)),
            !has_name(old(self)@, name@) ==> value is None && final(self)@ == old(self)@,
    {
        proof {
            use_type_invariant(&*self);
        }
        let at: usize = self.position(name);
        let ghost before = self@;
        if at < self.entries.len() {
            let mut entries: Vec<(String, String)> = Vec::new();
            std::mem::swap(&mut entries, &mut self.entries);
            let entry = entries.remove(at);
            let ghost after = entries.deep_view();
            assert(distinct_names(after)) by {
                assert forall|i: int, j: int| 0 <= i < j < after.len() implies (
                #[trigger] after[i]).0 != (#[trigger] after[j]).0 by {
                    let a = if i < at { i } else { i + 1 };
                    let b = if j < at { j } else { j + 1 };
                    assert(before[a].0 != before[b].0);
                }
            }
            self.entries = entries;
            Some(entry.1)
        } else {
            None
        }
    }

    /// The entry at `index`: its name and its text.
    pub fn entry(&self, index: usize) -> (entry: (String, String))
        requires
            index < self@.len(),
        ensures
            entry.0@ == self@[index as int].0,
            entry.1@ == self@[index as int].1,
    {
        (self.entries[index].0.clone(), self.entries[index].1.clone())
    }

    pub(crate) fn as_entries(&self) -> (entries: &Vec<(String, String)>)
        ensures
            entries.deep_view() == self@,
    {
        &self.entries
    }
}

} // verus!
