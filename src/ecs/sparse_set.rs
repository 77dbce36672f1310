use vstd::prelude::*;

verus! {

/// A component together with the id of the entity that owns it.
#[derive(Debug)]
pub struct Entity<T> {
    pub id: usize,
    pub item: T,
}

impl<T> Entity<T> {
    pub fn new(id: usize, item: T) -> (r: Entity<T>)
        ensures
            r.id == id,
            r.item == item,
    {
        Entity { id, item }
    }
}

/// A component storage seen without its component type.
pub trait ComponentStorage {
    /// Removes the component of entity `id`, if any.
    fn delete(&mut self, id: usize);
}

/// Components keyed by entity id: dense arrays of owner ids and components,
/// for iteration, and a sparse array from id to position in them, for
/// lookup. Ids range over `0..capacity`.
#[derive(Debug)]
pub struct SparseSet<T> {
    ids: Vec<usize>,
    items: Vec<T>,
    sparse: Vec<Option<usize>>,
}

impl<T> SparseSet<T> {
    /// Ids below this bound can be stored.
    pub closed spec fn id_bound(&self) -> nat {
        self.sparse@.len()
    }

    /// The stored components, by id.
    pub closed spec fn contents(&self) -> Map<usize, T> {
        Map::new(
            |id: usize| id < self.sparse@.len() && self.sparse@[id as int] is Some,
            |id: usize| self.items@[self.sparse@[id as int]->0 as int],
        )
    }

    /// The owner ids, in storage order.
    pub closed spec fn ids(&self) -> Seq<usize> {
        self.ids@
    }

    /// The components, in storage order.
    pub closed spec fn items(&self) -> Seq<T> {
        self.items@
    }

    /// The two arrays point at each other.
    #[verifier::type_invariant]
    pub closed spec fn wf(&self) -> bool {
        &&& self.ids@.len() == self.items@.len()
        &&& forall|id: int|
            0 <= id < self.sparse@.len() && (#[trigger] self.sparse@[id]) is Some ==> {
                &&& self.sparse@[id]->0 < self.ids@.len()
                &&& self.ids@[self.sparse@[id]->0 as int] == id
            }
        &&& forall|k: int|
            0 <= k < self.ids@.len() ==> {
                &&& (#[trigger] self.ids@[k]) < self.sparse@.len()
                &&& self.sparse@[self.ids@[k] as int] is Some
                &&& self.sparse@[self.ids@[k] as int]->0 == k
            }
    }

    /// An empty set for ids `0..size`.
    pub fn new(size: usize) -> (r: SparseSet<T>)
        ensures
            r.id_bound() == size,
            r.contents() == Map::<usize, T>::empty(),
            r.ids() == Seq::<usize>::empty(),
    {
        let mut sparse: Vec<Option<usize>> = Vec::new();
        let mut i: usize = 0;
        while i < size
            invariant
                0 <= i <= size,
                sparse@.len() == i,
                forall|j: int| 0 <= j < i ==> #[trigger] sparse@[j] is None,
            decreases size - i,
        {
            sparse.push(None);
            i = i + 1;
        }
        let r = SparseSet { ids: Vec::new(), items: Vec::new(), sparse };
        assert(r.contents() =~= Map::<usize, T>::empty());
        r
    }

    /// Stores `item` for `id`, replacing the component it had.
    pub fn add(&mut self, id: usize, item: T)
        requires
            id < old(self).id_bound(),
        ensures
            final(self).id_bound() == old(self).id_bound(),
            final(self).contents() == old(self).contents().insert(id, item),
    {
        proof {
            use_type_invariant(&*self);
        }
        match self.sparse[id] {
            Some(index) => {
                self.items[index] = item;
            },
            None => {
                let mut taken = SparseSet { ids: Vec::new(), items: Vec::new(), sparse: Vec::new() };
                std::mem::swap(self, &mut taken);
                let SparseSet { mut ids, mut items, mut sparse } = taken;
                let index = ids.len();
                ids.push(id);
                items.push(item);
                sparse.set(id, Some(index));
                *self = SparseSet { ids, items, sparse };
            },
        }
        assert(self.contents() =~= old(self).contents().insert(id, item));
    }

    /// Removes the component of `id`, if any. The last entry moves into the
    /// freed place.
    pub fn delete(&mut self, id: usize)
        ensures
            final(self).id_bound() == old(self).id_bound(),
            final(self).contents() == old(self).contents().remove(id),
    {
        proof {
            use_type_invariant(&*self);
        }
        if id >= self.sparse.len() {
            assert(self.contents() =~= old(self).contents().remove(id));
            return;
        }
        if let Some(index) = self.sparse[id] {
            let mut taken = SparseSet { ids: Vec::new(), items: Vec::new(), sparse: Vec::new() };
            std::mem::swap(self, &mut taken);
            let SparseSet { mut ids, mut items, mut sparse } = taken;
            let _owner = ids.swap_remove(index);
            let _removed = items.swap_remove(index);
            if index < ids.len() {
                let moved = ids[index];
                sparse.set(moved, Some(index));
            }
            sparse.set(id, None);
            *self = SparseSet { ids, items, sparse };
        }
        assert(self.contents() =~= old(self).contents().remove(id));
    }

    /// The component of `id`, if it has one.
    pub fn get(&self, id: usize) -> (r: Option<&T>)
        requires
            id < self.id_bound(),
        ensures
            r is Some <==> self.contents().contains_key(id),
            r matches Some(x) ==> *x == self.contents()[id],
    {
        proof {
            use_type_invariant(self);
        }
        match self.sparse[id] {
            Some(index) => Some(&self.items[index]),
            None => None,
        }
    }

    /// The component of `id` with its owner's id, if it has one.
    pub fn entity(&self, id: usize) -> (r: Option<Entity<&T>>)
        requires
            id < self.id_bound(),
        ensures
            r is Some <==> self.contents().contains_key(id),
            r matches Some(e) ==> e.id == id && *e.item == self.contents()[id],
    {
        match self.get(id) {
            Some(item) => Some(Entity { id, item }),
            None => None,
        }
    }

    /// The component of `id`, for changing in place.
    pub fn get_mut(&mut self, id: usize) -> (r: Option<&mut T>)
        requires
            id < old(self).id_bound(),
        ensures
            r is Some <==> old(self).contents().contains_key(id),
            r matches Some(x) ==> *x == old(self).contents()[id] && final(self).contents()
                == old(self).contents().insert(id, *final(x)),
            r is None ==> final(self).contents() == old(self).contents(),
            final(self).id_bound() == old(self).id_bound(),
    {
        proof {
            use_type_invariant(&*self);
        }
        match self.sparse[id] {
            Some(index) => Some(&mut self.items[index]),
            None => None,
        }
    }

    /// Calls `f` on every component, in storage order.
    pub fn for_each<F: FnMut(&T)>(&self, f: F)
        requires
            forall|x: &T| #[trigger] f.requires((x,)),
    {
        let mut f = f;
        let mut k: usize = 0;
        while k < self.items.len()
            invariant
                forall|x: &T| #[trigger] f.requires((x,)),
            decreases self.items@.len() - k,
        {
            f(&self.items[k]);
            k = k + 1;
        }
    }

    /// Calls `f` on every component, in storage order, letting it change
    /// the component in place.
    pub fn for_each_mut<F: FnMut(&mut T)>(&mut self, f: F)
        requires
            forall|x: &mut T| #[trigger] f.requires((x,)),
        ensures
            final(self).id_bound() == old(self).id_bound(),
            final(self).contents().dom() == old(self).contents().dom(),
    {
        proof {
            use_type_invariant(&*self);
        }
        let mut f = f;
        let mut k: usize = 0;
        while k < self.items.len()
            invariant
                forall|x: &mut T| #[trigger] f.requires((x,)),
                self.wf(),
                self.ids@ == old(self).ids@,
                self.sparse@ == old(self).sparse@,
                self.items@.len() == old(self).items@.len(),
            decreases self.items@.len() - k,
        {
            f(&mut self.items[k]);
            k = k + 1;
        }
        assert(self.contents().dom() =~= old(self).contents().dom());
    }

    /// Position in the entries of the component of `id`, if it has one.
    pub fn sparse_index(&self, id: usize) -> (r: Option<usize>)
        requires
            id < self.id_bound(),
        ensures
            r is Some <==> self.contents().contains_key(id),
            r matches Some(k) ==> k < self.ids().len() && self.ids()[k as int] == id,
    {
        proof {
            use_type_invariant(self);
        }
        self.sparse[id]
    }

    /// All components, in storage order.
    pub fn get_all(&self) -> (r: &[T])
        ensures
            r@ == self.items(),
    {
        self.items.as_slice()
    }

    /// The owner ids of the components, in storage order.
    pub fn get_ids(&self) -> (r: &[usize])
        ensures
            r@ == self.ids(),
    {
        self.ids.as_slice()
    }

    /// Whether `id` has a component.
    pub fn contains(&self, id: usize) -> (r: bool)
        requires
            id < self.id_bound(),
        ensures
            r == self.contents().contains_key(id),
    {
        self.sparse[id].is_some()
    }

    /// Ids below this bound can be stored.
    pub fn capacity(&self) -> (r: usize)
        ensures
            r == self.id_bound(),
    {
        self.sparse.len()
    }

    /// How many components are stored.
    pub fn size(&self) -> (r: usize)
        ensures
            r == self.contents().len(),
            r == self.ids().len(),
    {
        proof {
            use_type_invariant(self);
            self.lemma_size();
        }
        self.ids.len()
    }

    /// The number of stored components is the number of entries.
    proof fn lemma_size(&self)
        requires
            self.wf(),
        ensures
            self.contents().len() == self.ids().len(),
    {
        let idx = vstd::set_lib::set_int_range(0, self.ids@.len() as int);
        let f = |k: int| self.ids@[k];
        let ids = idx.map(f);
        assert(self.contents().dom() =~= ids) by {
            assert forall|id: usize| self.contents().dom().contains(id) implies ids.contains(id) by {
                let k = self.sparse@[id as int]->0 as int;
                assert(idx.contains(k) && f(k) == id);
            }
        }
        vstd::set_lib::lemma_int_range(0, self.ids@.len() as int);
        assert forall|a: int, b: int| idx.contains(a) && idx.contains(b) && #[trigger] f(a) == #[trigger] f(b) implies a == b by {
            assert(self.sparse@[self.ids@[a] as int]->0 == a);
            assert(self.sparse@[self.ids@[b] as int]->0 == b);
        }
        vstd::set_lib::lemma_map_size(idx, ids, f);
    }
}

impl<T> ComponentStorage for SparseSet<T> {
    fn delete(&mut self, id: usize) {
        SparseSet::delete(self, id);
    }
}

} // verus!
