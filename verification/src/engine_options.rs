//! The options of an engine.

use vstd::prelude::*;

verus! {

/// Options that are set by name. Each name is listed once, with the value it was set to last.
#[derive(Debug)]
pub struct EngineOptions {
    entries: Vec<(String, String)>,
}

/// True where no name is listed twice.
pub open spec fn names_are_distinct(entries: Seq<(String, String)>) -> bool {
    forall|i: int, j: int|
        0 <= i < j < entries.len() ==> #[trigger] entries[i].0@ != #[trigger] entries[j].0@
}

/// True where a name is listed at an index.
pub open spec fn is_listed_at(entries: Seq<(String, String)>, name: Seq<char>, i: int) -> bool {
    0 <= i < entries.len() && entries[i].0@ == name
}

/// The value that each listed name has.
pub open spec fn options_of(entries: Seq<(String, String)>) -> Map<Seq<char>, Seq<char>> {
    Map::new(
        |name: Seq<char>| exists|i: int| is_listed_at(entries, name, i),
        |name: Seq<char>| entries[choose|i: int| is_listed_at(entries, name, i)].1@,
    )
}

impl View for EngineOptions {
    type V = Map<Seq<char>, Seq<char>>;

    closed spec fn view(&self) -> Map<Seq<char>, Seq<char>> {
        options_of(self.entries@)
    }
}

impl EngineOptions {
    #[verifier::type_invariant]
    spec fn well_formed(self) -> bool {
        names_are_distinct(self.entries@)
    }

    /// No options.
    pub fn new() -> (options: Self)
        ensures
            options@ == Map::<Seq<char>, Seq<char>>::empty(),
    {
        let entries: Vec<(String, String)> = Vec::new();
        assert(options_of(entries@) =~= Map::empty());
        EngineOptions { entries }
    }

    /// Sets an option. A value that it had before is replaced.
    pub fn set(&mut self, name: String, value: String)
        ensures
            final(self)@ == old(self)@.insert(name@, value@),
    {
        proof {
            use_type_invariant(&*self);
        }
        let mut entries: Vec<(String, String)> = Vec::new();
        std::mem::swap(&mut entries, &mut self.entries);
        let ghost before = entries@;
        let mut i: usize = 0;
        while i < entries.len() && entries[i].0 != name
            invariant
                i <= entries.len(),
                entries@ == before,
                forall|j: int| 0 <= j < i ==> #[trigger] before[j].0@ != name@,
            decreases entries.len() - i,
        {
            i = i + 1;
        }
        if i < entries.len() {
            entries.set(i, (name, value));
        } else {
            entries.push((name, value));
        }
        proof {
            lemma_entry_is_set(before, entries@, name, value, i as int);
        }
        self.entries = entries;
    }

    /// The options, in some order.
    pub fn into_entries(self) -> (entries: Vec<(String, String)>)
        ensures
            names_are_distinct(entries@),
            options_of(entries@) == self@,
    {
        proof {
            use_type_invariant(&self);
        }
        self.entries
    }
}

proof fn lemma_entry_is_set(
    before: Seq<(String, String)>,
    after: Seq<(String, String)>,
    name: String,
    value: String,
    i: int,
)
    requires
        names_are_distinct(before),
        0 <= i <= before.len(),
        i < before.len() ==> before[i].0@ == name@ && after == before.update(i, (name, value)),
        i == before.len() ==> after == before.push((name, value)) && forall|j: int|
            0 <= j < i ==> #[trigger] before[j].0@ != name@,
    ensures
        names_are_distinct(after),
        options_of(after) == options_of(before).insert(name@, value@),
{
    assert(is_listed_at(after, name@, i));
    let k = choose|j: int| is_listed_at(after, name@, j);
    assert(is_listed_at(after, name@, k));
    assert(k == i);
    let expected = options_of(before).insert(name@, value@);
    assert forall|n: Seq<char>|
        {
            &&& options_of(after).dom().contains(n) <==> #[trigger] expected.dom().contains(n)
            &&& expected.dom().contains(n) ==> options_of(after)[n] == expected[n]
        } by {
        if n != name@ {
            lemma_other_entries_stay(before, after, name, value, i, n);
        }
    }
    assert(options_of(after).dom() =~= expected.dom());
    assert(options_of(after) =~= expected);
}

proof fn lemma_other_entries_stay(
    before: Seq<(String, String)>,
    after: Seq<(String, String)>,
    name: String,
    value: String,
    i: int,
    other: Seq<char>,
)
    requires
        names_are_distinct(before),
        0 <= i <= before.len(),
        other != name@,
        i < before.len() ==> before[i].0@ == name@ && after == before.update(i, (name, value)),
        i == before.len() ==> after == before.push((name, value)),
    ensures
        options_of(after).contains_key(other) <==> options_of(before).contains_key(other),
        options_of(after).contains_key(other) ==> options_of(after)[other] == options_of(
            before,
        )[other],
{
    assert forall|j: int| is_listed_at(after, other, j) == #[trigger] is_listed_at(
        before,
        other,
        j,
    ) by {}
    assert forall|j: int| #[trigger]
        is_listed_at(after, other, j) implies is_listed_at(before, other, j) by {}
    if options_of(after).contains_key(other) {
        let j = choose|j: int| is_listed_at(after, other, j);
        let k = choose|j: int| is_listed_at(before, other, j);
        assert(is_listed_at(after, other, j));
        assert(is_listed_at(before, other, k));
        assert(j == k);
    }
}

} // verus!
