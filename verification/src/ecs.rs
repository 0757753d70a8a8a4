//! A small entity store: a fixed number of slots, each empty or holding one
//! entity, where an entity's id names the slot it lives in.

use vstd::prelude::*;

verus! {

/// Number of slots that a freshly created `System` holds.
pub const SYSTEM_CAPACITY: usize = 1000;

/// Ids that can produce the next id in sequence.
pub trait Increment: Sized {
    spec fn spec_increment(&self) -> Self;

    fn increment(&self) -> (r: Self)
        ensures
            r == self.spec_increment(),
    ;
}

/// Ids that correspond to slot indices.
pub trait Index: Sized {
    /// The slot index this id names.
    spec fn index_of(&self) -> int;

    /// Indices below this limit are represented exactly by `from_index`.
    spec fn index_limit() -> int;

    /// The id that `from_index` produces for an index.
    spec fn spec_from_index(index: int) -> Self;

    fn as_index(&self) -> (r: usize)
        ensures
            r as int == self.index_of(),
    ;

    fn from_index(index: usize) -> (r: Self)
        ensures
            r == Self::spec_from_index(index as int),
    ;

    proof fn lemma_from_index_inverse(index: int)
        requires
            0 <= index < Self::index_limit(),
        ensures
            Self::spec_from_index(index).index_of() == index,
    ;

    /// A slot index is never negative.
    proof fn lemma_index_of_nonnegative(&self)
        ensures
            0 <= self.index_of(),
    ;

    /// Two ids name the same slot exactly when they are the same id.
    proof fn lemma_same_slot_same_id(a: &Self, b: &Self)
        ensures
            (a.index_of() == b.index_of()) <==> (*a == *b),
    ;
}

/// Everything an id must offer.
pub trait Id: PartialEq + Increment + Index + Copy + Default {

}

impl<T> Id for T where T: PartialEq + Increment + Index + Default + Copy {

}

/// A value stored in a `System`, identified by its id.
pub trait Entity: Sized {
    type Id: Id;

    /// The id the entity carries.
    spec fn spec_id(&self) -> Self::Id;

    fn get_id(&self) -> (id: Self::Id)
        ensures
            id == self.spec_id(),
    ;

    fn create(id: Self::Id) -> (e: Self)
        ensures
            e.spec_id() == id,
    ;
}

/// An entity made at a position, of a type the entity chooses.
pub trait Positioned: Entity {
    type Position;

    fn create_positioned(id: Self::Id, position: Self::Position) -> (e: Self)
        ensures
            e.spec_id() == id,
    ;
}

/// An entity made at a position and moving with a heading.
pub trait Mobile: Positioned {
    type Heading;

    fn create_mobile(id: Self::Id, position: Self::Position, heading: Self::Heading) -> (e: Self)
        ensures
            e.spec_id() == id,
    ;
}

/// `i` is the first empty slot of `s`, searching every slot but the last.
pub open spec fn is_lowest_free_slot<T>(s: Seq<Option<T>>, i: int) -> bool {
    &&& 0 <= i < s.len() - 1
    &&& s[i] is None
    &&& forall|j: int| 0 <= j < i ==> s[j] is Some
}

/// Some slot other than the last one is empty.
pub open spec fn has_free_slot<T>(s: Seq<Option<T>>) -> bool {
    exists|i: int| 0 <= i < s.len() - 1 && s[i] is None
}

/// The entities held in the slots, in slot order.
pub open spec fn occupants<T>(s: Seq<Option<T>>) -> Seq<T>
    decreases s.len(),
{
    if s.len() == 0 {
        Seq::empty()
    } else {
        let rest = occupants(s.drop_last());
        match s.last() {
            Some(t) => rest.push(t),
            None => rest,
        }
    }
}

/// `ids` holds `id`.
pub open spec fn id_listed<I: Index>(ids: Seq<I>, id: I) -> bool {
    ids.contains(id)
}

/// The entities held in the slots whose id is listed in `ids`, in slot order.
pub open spec fn occupants_with_ids<T: Entity>(s: Seq<Option<T>>, ids: Seq<T::Id>) -> Seq<T>
    decreases s.len(),
{
    if s.len() == 0 {
        Seq::empty()
    } else {
        let rest = occupants_with_ids(s.drop_last(), ids);
        match s.last() {
            Some(t) => if id_listed(ids, t.spec_id()) {
                rest.push(t)
            } else {
                rest
            },
            None => rest,
        }
    }
}

/// Seq of empty slots.
pub open spec fn empty_slots<T>(n: nat) -> Seq<Option<T>> {
    Seq::new(n, |i: int| None)
}

proof fn lemma_occupants_step<T>(s: Seq<Option<T>>, i: int)
    requires
        0 <= i < s.len(),
    ensures
        occupants(s.take(i + 1)) == match s[i] {
            Some(t) => occupants(s.take(i)).push(t),
            None => occupants(s.take(i)),
        },
{
    assert(s.take(i + 1).drop_last() =~= s.take(i));
}

proof fn lemma_occupants_with_ids_step<T: Entity>(s: Seq<Option<T>>, ids: Seq<T::Id>, i: int)
    requires
        0 <= i < s.len(),
    ensures
        occupants_with_ids(s.take(i + 1), ids) == match s[i] {
            Some(t) => if id_listed(ids, t.spec_id()) {
                occupants_with_ids(s.take(i), ids).push(t)
            } else {
                occupants_with_ids(s.take(i), ids)
            },
            None => occupants_with_ids(s.take(i), ids),
        },
{
    assert(s.take(i + 1).drop_last() =~= s.take(i));
}

/// Returns the id of the lowest empty slot, not counting the last slot.
pub fn find_lowest_available_id<T: Entity>(group: &Vec<Option<T>>) -> (r: Option<T::Id>)
    ensures
        match r {
            Some(id) => exists|i: int|
                is_lowest_free_slot(group@, i) && id == T::Id::spec_from_index(i),
            None => !has_free_slot(group@),
        },
{
    let len = group.len();
    if len != 0 {
        let mut i: usize = 0;
        while i < len - 1
            invariant
                len == group@.len(),
                len > 0,
                i <= len - 1,
                forall|j: int| 0 <= j < i ==> group@[j] is Some,
            decreases len - 1 - i,
        {
            if group[i].is_none() {
                let id = T::Id::from_index(i);
                assert(is_lowest_free_slot(group@, i as int));
                return Some(id);
            }
            i = i + 1;
        }
        None
    } else {
        None
    }
}

/// An entity that `add` puts into the lowest free slot carries an id that
/// names that very slot, so a lookup by its id finds it there.
pub proof fn lemma_added_entity_found_by_id<T: Entity>(s: Seq<Option<T>>, i: int, e: T)
    requires
        s.len() <= T::Id::index_limit(),
        is_lowest_free_slot(s, i),
        e.spec_id() == T::Id::spec_from_index(i),
    ensures
        e.spec_id().index_of() == i,
        s.update(i, Some(e))[e.spec_id().index_of()] == Some(e),
{
    T::Id::lemma_from_index_inverse(i);
}

/// After `remove(id)`, a lookup by `id` finds nothing and every other slot
/// is as it was.
pub proof fn lemma_removed_entity_not_found<T: Entity>(s: Seq<Option<T>>, id: T::Id)
    requires
        0 <= id.index_of() < s.len(),
    ensures
        s.update(id.index_of(), None)[id.index_of()] is None,
        forall|j: int| 0 <= j < s.len() && j != id.index_of() ==> #[trigger] s.update(id.index_of(), None)[j] == s[j],
{
}

/// After `clear`, a lookup by any id finds nothing.
pub proof fn lemma_cleared_system_is_empty<T: Entity>(n: nat, id: T::Id)
    requires
        0 <= id.index_of() < n,
    ensures
        empty_slots::<T>(n)[id.index_of()] is None,
        occupants(empty_slots::<T>(n)) == Seq::<T>::empty(),
    decreases n,
{
    lemma_occupants_of_empty::<T>(n);
}

proof fn lemma_occupants_of_empty<T>(n: nat)
    ensures
        occupants(empty_slots::<T>(n)) == Seq::<T>::empty(),
    decreases n,
{
    if n > 0 {
        assert(empty_slots::<T>(n).drop_last() =~= empty_slots::<T>((n - 1) as nat));
        lemma_occupants_of_empty::<T>((n - 1) as nat);
    }
}

/// What adding an entity makes of the slots `s`: when some slot but the
/// last is empty, the lowest such slot receives an entity carrying the id
/// that names it; otherwise nothing changes. The number of slots stays.
pub open spec fn added<T: Entity>(s: Seq<Option<T>>, t: Seq<Option<T>>) -> bool {
    &&& t.len() == s.len()
    &&& has_free_slot(s) ==> exists|i: int, e: T|
        is_lowest_free_slot(s, i) && e.spec_id() == T::Id::spec_from_index(i) && t == s.update(
            i,
            Some(e),
        )
    &&& !has_free_slot(s) ==> t == s
}

/// The system's invariant: every occupied slot holds the entity whose id
/// names that slot.
pub open spec fn ids_name_slots<T: Entity>(s: Seq<Option<T>>) -> bool {
    forall|i: int| 0 <= i < s.len() && s[i] is Some ==> (#[trigger] s[i])->0.spec_id().index_of() == i
}

/// A new system, and a cleared one, keep the invariant: no slot is occupied.
pub proof fn lemma_empty_slots_keep_invariant<T: Entity>(n: nat)
    ensures
        ids_name_slots(empty_slots::<T>(n)),
        empty_slots::<T>(n).len() == n,
{
}

/// Adding an entity keeps the invariant and the number of slots.
pub proof fn lemma_add_keeps_invariant<T: Entity>(s: Seq<Option<T>>, t: Seq<Option<T>>)
    requires
        ids_name_slots(s),
        s.len() <= T::Id::index_limit(),
        added(s, t),
    ensures
        ids_name_slots(t),
        t.len() == s.len(),
{
    if has_free_slot(s) {
        let (i, e) = choose|i: int, e: T|
            is_lowest_free_slot(s, i) && e.spec_id() == T::Id::spec_from_index(i) && t == s.update(
                i,
                Some(e),
            );
        T::Id::lemma_from_index_inverse(i);
        assert forall|j: int| 0 <= j < t.len() && t[j] is Some implies (#[trigger] t[j])->0.spec_id().index_of()
            == j by {
            if j != i {
                assert(t[j] == s[j]);
            }
        }
    }
}

/// Removing by an id that names a slot keeps the invariant and the number
/// of slots.
pub proof fn lemma_remove_keeps_invariant<T: Entity>(s: Seq<Option<T>>, id: T::Id)
    requires
        ids_name_slots(s),
        0 <= id.index_of() < s.len(),
    ensures
        ids_name_slots(s.update(id.index_of(), None)),
        s.update(id.index_of(), None).len() == s.len(),
{
    let t = s.update(id.index_of(), None);
    assert forall|j: int| 0 <= j < t.len() && t[j] is Some implies (#[trigger] t[j])->0.spec_id().index_of()
        == j by {
        assert(t[j] == s[j]);
    }
}

/// Removing the entity that `add` has just put into the lowest free slot
/// `i`, by the id that names `i`, gives back the slots as they were.
pub proof fn lemma_remove_undoes_add<T: Entity>(s: Seq<Option<T>>, t: Seq<Option<T>>, i: int)
    requires
        s.len() <= T::Id::index_limit(),
        is_lowest_free_slot(s, i),
        added(s, t),
    ensures
        T::Id::spec_from_index(i).index_of() == i,
        t.update(T::Id::spec_from_index(i).index_of(), None) == s,
{
    T::Id::lemma_from_index_inverse(i);
    let (k, e) = choose|k: int, e: T|
        is_lowest_free_slot(s, k) && e.spec_id() == T::Id::spec_from_index(k) && t == s.update(
            k,
            Some(e),
        );
    if k < i {
        assert(s[k] is Some);
    }
    if i < k {
        assert(s[i] is Some);
    }
    assert(t.update(i, None) =~= s);
}

/// A fixed number of slots, each empty or holding one entity.
pub struct System<T: Entity> {
    group: Vec<Option<T>>,
}

impl<T: Entity> View for System<T> {
    type V = Seq<Option<T>>;

    closed spec fn view(&self) -> Seq<Option<T>> {
        self.group@
    }
}

impl<T: Entity> System<T> {
    /// A system of `SYSTEM_CAPACITY` empty slots.
    pub fn new() -> (r: Self)
        ensures
            r@ == empty_slots::<T>(SYSTEM_CAPACITY as nat),
    {
        let mut group: Vec<Option<T>> = Vec::new();
        let mut k: usize = 0;
        while k < SYSTEM_CAPACITY
            invariant
                k <= SYSTEM_CAPACITY,
                group@ == empty_slots::<T>(k as nat),
            decreases SYSTEM_CAPACITY - k,
        {
            group.push(None);
            k = k + 1;
            assert(group@ =~= empty_slots::<T>(k as nat));
        }
        System { group }
    }

    /// Puts a newly created entity into the lowest empty slot (the last slot
    /// is never used); does nothing when no such slot is empty.
    pub fn add(&mut self)
        requires
            old(self)@.len() <= T::Id::index_limit(),
        ensures
            added(old(self)@, final(self)@),
            has_free_slot(old(self)@) ==> exists|i: int, e: T|
                is_lowest_free_slot(old(self)@, i) && final(self)@ == old(self)@.update(i, Some(e))
                    && call_ensures(T::create, (T::Id::spec_from_index(i),), e),
    {
        if let Some(lowest_available_id) = find_lowest_available_id(&self.group) {
            let ghost i = choose|i: int|
                is_lowest_free_slot(self.group@, i) && lowest_available_id
                    == T::Id::spec_from_index(i);
            proof {
                T::Id::lemma_from_index_inverse(i);
            }
            let make = T::create;
            let entity = make(lowest_available_id);
            let index = lowest_available_id.as_index();
            self.group.set(index, Some(entity));
            assert(self.group@ == old(self)@.update(i, Some(entity)));
        }
    }

    /// Empties every slot.
    pub fn clear(&mut self)
        ensures
            final(self)@ == empty_slots::<T>(old(self)@.len()),
    {
        let len = self.group.len();
        let mut k: usize = 0;
        while k < len
            invariant
                len == self.group@.len(),
                len == old(self)@.len(),
                k <= len,
                forall|j: int| 0 <= j < k ==> self.group@[j] is None,
            decreases len - k,
        {
            self.group.set(k, None);
            k = k + 1;
        }
        assert(self.group@ =~= empty_slots::<T>(len as nat));
    }

    /// The entity in the slot that `id` names, if any.
    pub fn get(&self, id: &T::Id) -> (r: Option<&T>)
        requires
            id.index_of() < self@.len(),
        ensures
            r is Some <==> self@[id.index_of()] is Some,
            r matches Some(e) ==> self@[id.index_of()] == Some(*e),
    {
        self.group[id.as_index()].as_ref()
    }

    /// Empties the slot that `id` names.
    pub fn remove(&mut self, id: &T::Id)
        requires
            id.index_of() < old(self)@.len(),
        ensures
            final(self)@ == old(self)@.update(id.index_of(), None),
    {
        let index = id.as_index();
        self.group.set(index, None);
    }

    /// Applies `f` to every entity, in slot order, and collects the results.
    pub fn values<U, F: Fn(&T) -> U>(&self, f: F) -> (r: Vec<U>)
        requires
            forall|t: &T| call_requires(f, (t,)),
        ensures
            r@.len() == occupants(self@).len(),
            forall|k: int|
                0 <= k < r@.len() ==> call_ensures(f, (&occupants(self@)[k],), #[trigger] r@[k]),
    {
        let mut r: Vec<U> = Vec::new();
        let len = self.group.len();
        let mut i: usize = 0;
        while i < len
            invariant
                len == self.group@.len(),
                i <= len,
                forall|t: &T| call_requires(f, (t,)),
                r@.len() == occupants(self.group@.take(i as int)).len(),
                forall|k: int|
                    0 <= k < r@.len() ==> call_ensures(
                        f,
                        (&occupants(self.group@.take(i as int))[k],),
                        #[trigger] r@[k],
                    ),
            decreases len - i,
        {
            proof {
                lemma_occupants_step(self.group@, i as int);
            }
            match &self.group[i] {
                Some(x) => {
                    let u = f(x);
                    r.push(u);
                },
                None => {},
            }
            i = i + 1;
        }
        assert(self.group@.take(len as int) =~= self.group@);
        r
    }

    /// The entities whose id is listed in `ids`, in slot order.
    pub fn get_with_ids(&self, ids: &Vec<T::Id>) -> (r: Vec<&T>)
        ensures
            r@.len() == occupants_with_ids(self@, ids@).len(),
            forall|k: int|
                0 <= k < r@.len() ==> *#[trigger] r@[k] == occupants_with_ids(self@, ids@)[k],
    {
        let mut r: Vec<&T> = Vec::new();
        let len = self.group.len();
        let mut i: usize = 0;
        while i < len
            invariant
                len == self.group@.len(),
                i <= len,
                r@.len() == occupants_with_ids(self.group@.take(i as int), ids@).len(),
                forall|k: int|
                    0 <= k < r@.len() ==> *#[trigger] r@[k] == occupants_with_ids(
                        self.group@.take(i as int),
                        ids@,
                    )[k],
            decreases len - i,
        {
            proof {
                lemma_occupants_with_ids_step(self.group@, ids@, i as int);
            }
            match &self.group[i] {
                Some(x) => {
                    let id = x.get_id();
                    if contains_id(ids, &id) {
                        r.push(x);
                    }
                },
                None => {},
            }
            i = i + 1;
        }
        assert(self.group@.take(len as int) =~= self.group@);
        r
    }
}

impl<T: Entity> System<T> {
    /// Calls `f` on every entity, in slot order.
    pub fn for_each<F: FnMut(&T)>(&self, mut f: F)
        requires
            forall|t: &T| call_requires(f, (t,)),
    {
        let len = self.group.len();
        let mut i: usize = 0;
        while i < len
            invariant
                len == self.group@.len(),
                i <= len,
                forall|t: &T| call_requires(f, (t,)),
            decreases len - i,
        {
            match &self.group[i] {
                Some(x) => {
                    f(x);
                },
                None => {},
            }
            i = i + 1;
        }
    }

    /// Calls `f` on every entity, in slot order, letting it change the entity
    /// in place: each entity becomes what one call of `f` left of it; empty
    /// slots stay empty and occupied slots stay occupied.
    pub fn apply<F: FnMut(&mut T)>(&mut self, mut f: F)
        requires
            forall|t: &mut T| call_requires(f, (t,)),
        ensures
            final(self)@.len() == old(self)@.len(),
            forall|i: int|
                0 <= i < old(self)@.len() ==> (old(self)@[i] is Some <==> (#[trigger] final(self)@[i])
                    is Some),
            forall|i: int|
                0 <= i < old(self)@.len() && old(self)@[i] is Some ==> exists|m: &mut T|
                    *m == old(self)@[i]->0 && *final(m) == (#[trigger] final(self)@[i])->0
                        && call_ensures(f, (m,), ()),
    {
        let ghost f0 = f;
        let len = self.group.len();
        let mut i: usize = 0;
        while i < len
            invariant
                len == self.group@.len(),
                len == old(self)@.len(),
                i <= len,
                f == f0,
                forall|t: &mut T| call_requires(f, (t,)),
                forall|j: int|
                    0 <= j < len ==> (old(self)@[j] is Some <==> (#[trigger] self.group@[j]) is Some),
                forall|j: int|
                    0 <= j < i && old(self)@[j] is Some ==> exists|m: &mut T|
                        *m == old(self)@[j]->0 && *final(m) == (#[trigger] self.group@[j])->0
                            && call_ensures(f, (m,), ()),
                forall|j: int| i <= j < len ==> self.group@[j] == old(self)@[j],
            decreases len - i,
        {
            match &mut self.group[i] {
                Some(x) => {
                    f(x);
                },
                None => {},
            }
            i = i + 1;
        }
    }

    /// Like `apply`, but only for the entities whose id is listed in `ids`,
    /// each of which becomes what one call of `f` left of it; every other
    /// slot is left unchanged.
    pub fn apply_to_ids<F: FnMut(&mut T)>(&mut self, ids: &Vec<T::Id>, mut f: F)
        requires
            forall|t: &mut T| call_requires(f, (t,)),
        ensures
            final(self)@.len() == old(self)@.len(),
            forall|i: int|
                0 <= i < old(self)@.len() ==> (old(self)@[i] is Some <==> final(self)@[i] is Some),
            forall|i: int|
                0 <= i < old(self)@.len() && !(old(self)@[i] matches Some(e) && id_listed(
                    ids@,
                    e.spec_id(),
                )) ==> final(self)@[i] == old(self)@[i],
            forall|i: int|
                0 <= i < old(self)@.len() && (old(self)@[i] matches Some(e) && id_listed(
                    ids@,
                    e.spec_id(),
                )) ==> exists|m: &mut T|
                    *m == old(self)@[i]->0 && *final(m) == (#[trigger] final(self)@[i])->0
                        && call_ensures(f, (m,), ()),
    {
        let ghost f0 = f;
        let len = self.group.len();
        let mut i: usize = 0;
        while i < len
            invariant
                len == self.group@.len(),
                len == old(self)@.len(),
                i <= len,
                f == f0,
                forall|t: &mut T| call_requires(f, (t,)),
                forall|j: int|
                    0 <= j < len ==> (old(self)@[j] is Some <==> self.group@[j] is Some),
                forall|j: int| i <= j < len ==> self.group@[j] == old(self)@[j],
                forall|j: int|
                    0 <= j < len && !(old(self)@[j] matches Some(e) && id_listed(
                        ids@,
                        e.spec_id(),
                    )) ==> self.group@[j] == old(self)@[j],
                forall|j: int|
                    0 <= j < i && (old(self)@[j] matches Some(e) && id_listed(
                        ids@,
                        e.spec_id(),
                    )) ==> exists|m: &mut T|
                        *m == old(self)@[j]->0 && *final(m) == (#[trigger] self.group@[j])->0
                            && call_ensures(f0, (m,), ()),
            decreases len - i,
        {
            match &mut self.group[i] {
                Some(x) => {
                    let id = x.get_id();
                    if contains_id(ids, &id) {
                        f(x);
                    }
                },
                None => {},
            }
            i = i + 1;
        }
    }
}

/// Whether `ids` holds `id`; ids are compared by the slots they name, which
/// tells them apart exactly.
fn contains_id<I: Index>(ids: &Vec<I>, id: &I) -> (r: bool)
    ensures
        r == id_listed(ids@, *id),
{
    let target = id.as_index();
    let mut k: usize = 0;
    while k < ids.len()
        invariant
            k <= ids@.len(),
            target as int == id.index_of(),
            forall|j: int| 0 <= j < k ==> ids@[j] != *id,
        decreases ids@.len() - k,
    {
        proof {
            I::lemma_same_slot_same_id(&ids@[k as int], id);
        }
        if ids[k].as_index() == target {
            assert(ids@[k as int] == *id);
            return true;
        }
        k = k + 1;
    }
    false
}

impl<T: Positioned> System<T> {
    /// Puts an entity made by `create_positioned` with the slot's id and
    /// `position` into the lowest empty slot (the last slot is never used);
    /// does nothing when no such slot is empty.
    pub fn add_positioned(&mut self, position: T::Position)
        requires
            old(self)@.len() <= T::Id::index_limit(),
        ensures
            added(old(self)@, final(self)@),
            has_free_slot(old(self)@) ==> exists|i: int, e: T|
                is_lowest_free_slot(old(self)@, i) && final(self)@ == old(self)@.update(i, Some(e))
                    && call_ensures(T::create_positioned, (T::Id::spec_from_index(i), position), e),
    {
        if let Some(lowest_available_id) = find_lowest_available_id(&self.group) {
            let ghost i = choose|i: int|
                is_lowest_free_slot(self.group@, i) && lowest_available_id
                    == T::Id::spec_from_index(i);
            proof {
                T::Id::lemma_from_index_inverse(i);
            }
            let make = T::create_positioned;
            let entity = make(lowest_available_id, position);
            let index = lowest_available_id.as_index();
            self.group.set(index, Some(entity));
            assert(self.group@ == old(self)@.update(i, Some(entity)));
        }
    }
}

impl<T: Mobile> System<T> {
    /// Puts an entity made by `create_mobile` with the slot's id, `position`
    /// and `heading` into the lowest empty slot (the last slot is never
    /// used); does nothing when no such slot is empty.
    pub fn add_mobile(&mut self, position: T::Position, heading: T::Heading)
        requires
            old(self)@.len() <= T::Id::index_limit(),
        ensures
            added(old(self)@, final(self)@),
            has_free_slot(old(self)@) ==> exists|i: int, e: T|
                is_lowest_free_slot(old(self)@, i) && final(self)@ == old(self)@.update(i, Some(e))
                    && call_ensures(T::create_mobile, (T::Id::spec_from_index(i), position, heading), e),
    {
        if let Some(lowest_available_id) = find_lowest_available_id(&self.group) {
            let ghost i = choose|i: int|
                is_lowest_free_slot(self.group@, i) && lowest_available_id
                    == T::Id::spec_from_index(i);
            proof {
                T::Id::lemma_from_index_inverse(i);
            }
            let make = T::create_mobile;
            let entity = make(lowest_available_id, position, heading);
            let index = lowest_available_id.as_index();
            self.group.set(index, Some(entity));
            assert(self.group@ == old(self)@.update(i, Some(entity)));
        }
    }
}

} // verus!
