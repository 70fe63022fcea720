//! Values that an engine refers to by number.

use std::collections::HashMap;

use vstd::prelude::*;

verus! {

broadcast use vstd::std_specs::hash::group_hash_axioms;

/// A set whose values are identified by the numbers that were handed out for them.
pub struct ReferenceSet<T> {
    map: HashMap<usize, T>,
    next_id: usize,
}

/// The mathematical value of a [`ReferenceSet`]: which value each number stands for, and the
/// number that will be handed out next.
#[verifier::ext_equal]
#[verifier::reject_recursive_types(T)]
pub struct ReferenceSetView<T> {
    pub values: Map<usize, T>,
    pub next_id: int,
}

impl<T> View for ReferenceSet<T> {
    type V = ReferenceSetView<T>;

    closed spec fn view(&self) -> ReferenceSetView<T> {
        ReferenceSetView { values: self.map@, next_id: self.next_id as int }
    }
}

impl<T> ReferenceSetView<T> {
    /// True where every number in use was handed out before. Zero never is: it stands for no
    /// value.
    pub open spec fn well_formed(self) -> bool {
        &&& 1 <= self.next_id
        &&& self.values.dom().finite()
        &&& forall|id: usize| #[trigger] self.values.contains_key(id) ==> 1 <= id < self.next_id
    }

    /// A set without values.
    pub open spec fn empty() -> Self {
        ReferenceSetView { values: Map::empty(), next_id: 1 }
    }

    /// The set with one more value, under the next number.
    pub open spec fn insert(self, value: T) -> Self {
        ReferenceSetView {
            values: self.values.insert(self.next_id as usize, value),
            next_id: self.next_id + 1,
        }
    }

    /// The set without the value of a number.
    pub open spec fn take(self, id: usize) -> Self {
        ReferenceSetView { values: self.values.remove(id), next_id: self.next_id }
    }
}

impl<T> ReferenceSet<T> {
    #[verifier::type_invariant]
    spec fn ids_were_handed_out(self) -> bool {
        self@.well_formed()
    }

    /// Makes an empty set.
    pub fn new() -> (set: Self)
        ensures
            set@ == ReferenceSetView::<T>::empty(),
            set@.well_formed(),
    {
        // Zero stands for no value.
        let map: HashMap<usize, T> = HashMap::new();
        assert(map@ =~= Map::empty());
        ReferenceSet { map, next_id: 1 }
    }

    /// Adds a value and returns the number that identifies it from now on.
    pub fn insert(&mut self, value: T) -> (id: usize)
        requires
            old(self)@.next_id < usize::MAX,
        ensures
            id == old(self)@.next_id,
            id != 0,
            !old(self)@.values.contains_key(id),
            final(self)@ == old(self)@.insert(value),
            final(self)@.well_formed(),
    {
        proof {
            use_type_invariant(&*self);
        }
        let id: usize = self.next_id;
        let mut map: HashMap<usize, T> = HashMap::new();
        assert(map@ =~= Map::empty());
        std::mem::swap(&mut map, &mut self.map);
        map.insert(id, value);
        self.next_id = id + 1;
        self.map = map;
        id
    }

    /// Removes the value of a number, if there is one, and returns it.
    pub fn take(&mut self, i: usize) -> (value: Option<T>)
        ensures
            final(self)@ == old(self)@.take(i),
            final(self)@.well_formed(),
            match value {
                Some(v) => old(self)@.values.contains_key(i) && v == old(self)@.values[i],
                None => !old(self)@.values.contains_key(i),
            },
    {
        proof {
            use_type_invariant(&*self);
        }
        let mut map: HashMap<usize, T> = HashMap::new();
        assert(map@ =~= Map::empty());
        std::mem::swap(&mut map, &mut self.map);
        let value = map.remove(&i);
        self.map = map;
        value
    }

    /// Whether a number identifies a value.
    pub fn contains(&self, id: usize) -> (r: bool)
        ensures
            r == self@.values.contains_key(id),
            self@.well_formed(),
    {
        proof {
            use_type_invariant(self);
        }
        self.map.contains_key(&id)
    }

    /// How many values there are.
    pub fn len(&self) -> (n: usize)
        ensures
            n == self@.values.len(),
            self@.well_formed(),
    {
        proof {
            use_type_invariant(self);
        }
        self.map.len()
    }

    /// Whether there are no values.
    pub fn is_empty(&self) -> (r: bool)
        ensures
            r == self@.values.is_empty(),
            self@.well_formed(),
    {
        proof {
            use_type_invariant(self);
        }
        self.map.is_empty()
    }
}

impl<T> Default for ReferenceSet<T> {
    fn default() -> (set: Self)
        ensures
            set@ == ReferenceSetView::<T>::empty(),
            set@.well_formed(),
    {
        ReferenceSet::new()
    }
}

/// Taking the number that was handed out for a value gives that value, once, and leaves the
/// values as they were before. The number is not handed out again.
pub proof fn law_take_undoes_insert<T>(set: ReferenceSetView<T>, value: T)
    requires
        set.well_formed(),
        set.next_id < usize::MAX,
    ensures
        ({
            let id = set.next_id as usize;
            let inserted = set.insert(value);
            &&& inserted.values.contains_key(id)
            &&& inserted.values[id] == value
            &&& inserted.take(id).values == set.values
            &&& !inserted.take(id).values.contains_key(id)
            &&& inserted.take(id).next_id > id
        }),
{
    assert(set.insert(value).take(set.next_id as usize).values =~= set.values);
}

/// Inserting a value or taking one leaves every other value under its number.
pub proof fn law_other_values_stay<T>(set: ReferenceSetView<T>, value: T, taken: usize, id: usize)
    requires
        set.well_formed(),
        set.values.contains_key(id),
    ensures
        set.next_id < usize::MAX ==> set.insert(value).values.contains_key(id) && set.insert(
            value,
        ).values[id] == set.values[id],
        id != taken ==> set.take(taken).values.contains_key(id) && set.take(taken).values[id]
            == set.values[id],
{
}

/// An inserted value adds one to the size and a value that is taken away takes one from it. A set
/// of size zero is empty.
pub proof fn law_size<T>(set: ReferenceSetView<T>, value: T, taken: usize)
    requires
        set.well_formed(),
    ensures
        set.next_id < usize::MAX ==> set.insert(value).values.len() == set.values.len() + 1,
        set.take(taken).values.len() == if set.values.contains_key(taken) {
            set.values.len() - 1
        } else {
            set.values.len() as int
        },
        set.values.len() == 0 <==> set.values.is_empty(),
{
    if !set.values.contains_key(taken) {
        assert(set.values.remove(taken) =~= set.values);
    }
    if set.values.len() == 0 {
        set.values.dom().lemma_len0_is_empty();
    }
}

/// A set into which values are inserted one after the other.
pub open spec fn with_values<T>(set: ReferenceSetView<T>, values: Seq<T>) -> ReferenceSetView<T>
    decreases values.len(),
{
    if values.len() == 0 {
        set
    } else {
        with_values(set, values.drop_last()).insert(values.last())
    }
}

/// Numbers are handed out in turn, from 1 on in a new set: values that are inserted one after the
/// other are found under consecutive numbers, in that order, and what was in the set before stays.
pub proof fn law_numbers_are_handed_out_in_turn<T>(set: ReferenceSetView<T>, values: Seq<T>)
    requires
        set.well_formed(),
        set.next_id + values.len() <= usize::MAX,
    ensures
        ReferenceSetView::<T>::empty().next_id == 1,
        ReferenceSetView::<T>::empty().values == Map::<usize, T>::empty(),
        with_values(set, values).well_formed(),
        with_values(set, values).next_id == set.next_id + values.len(),
        forall|i: int|
            0 <= i < values.len() ==> with_values(set, values).values.contains_pair(
                (set.next_id + i) as usize,
                #[trigger] values[i],
            ),
        forall|id: usize| #[trigger]
            set.values.contains_key(id) ==> with_values(set, values).values.contains_pair(
                id,
                set.values[id],
            ),
        with_values(set, values).values.len() == set.values.len() + values.len(),
    decreases values.len(),
{
    if values.len() > 0 {
        let before = with_values(set, values.drop_last());
        law_numbers_are_handed_out_in_turn(set, values.drop_last());
        assert(with_values(set, values) == before.insert(values.last()));
        let id = before.next_id as usize;
        assert(!before.values.contains_key(id));
        assert(before.insert(values.last()).values == before.values.insert(id, values.last()));
        assert forall|i: int| 0 <= i < values.len() implies with_values(
            set,
            values,
        ).values.contains_pair((set.next_id + i) as usize, #[trigger] values[i]) by {
            if i < values.len() - 1 {
                assert(values.drop_last()[i] == values[i]);
                assert(before.values.contains_key((set.next_id + i) as usize));
            }
        }
    }
}

/// Taking a value takes that value alone, and hands its number out to no other: the next number
/// stays what it was.
pub proof fn law_taken_number_is_gone<T>(set: ReferenceSetView<T>, taken: usize, id: usize)
    requires
        set.well_formed(),
    ensures
        set.take(taken).well_formed(),
        set.take(taken).next_id == set.next_id,
        !set.take(taken).values.contains_key(taken),
        set.take(taken).values.contains_key(id) <==> set.values.contains_key(id) && id != taken,
        !set.values.contains_key(0),
{
}

} // verus!
