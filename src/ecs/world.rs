use vstd::prelude::*;

use std::any::{Any, TypeId};

use crate::ecs::sparse_set::{ComponentStorage, SparseSet};

verus! {

/// Declares std's `TypeId` so that it can stand in signatures; its value is
/// opaque.
#[verifier::external_type_specification]
#[verifier::external_body]
pub struct ExTypeId(TypeId);

/// `TypeId::of` names a type; nothing is assumed of the value.
pub assume_specification<T: ?Sized + 'static>[ TypeId::of::<T> ]() -> TypeId;

/// `TypeId`'s `==` compares the two identifiers.
pub assume_specification[ <TypeId as PartialEq>::eq ](a: &TypeId, b: &TypeId) -> (r: bool)
    ensures
        r == (*a == *b),
;

/// The storages, one per registered component type, each with a function
/// that deletes an id from it.
#[verifier::external_body]
pub struct Registry {
    items: Vec<(TypeId, Box<dyn Any>, Box<dyn Fn(&mut dyn Any, usize)>)>,
}

/// The component types that a registry holds storages for, in insertion
/// order.
pub uninterp spec fn registry_keys(r: Registry) -> Seq<TypeId>;

/// Relies on `Vec::new`: an empty registry.
#[verifier::external_body]
fn registry_new() -> (r: Registry)
    ensures
        registry_keys(r) == Seq::<TypeId>::empty(),
{
    Registry { items: Vec::new() }
}

/// Relies on `Vec::len`: the number of storages.
#[verifier::external_body]
fn registry_len(r: &Registry) -> (n: usize)
    ensures
        n == registry_keys(*r).len(),
{
    r.items.len()
}

/// Relies on `Vec`'s indexing: the component type of storage `i`.
#[verifier::external_body]
fn registry_key(r: &Registry, i: usize) -> (k: TypeId)
    requires
        i < registry_keys(*r).len(),
    ensures
        k == registry_keys(*r)[i as int],
{
    r.items[i].0
}

/// Relies on `Vec::push`: appends `storage` under `key`, with a function
/// that deletes an id from it.
#[verifier::external_body]
fn registry_push<T: 'static>(r: &mut Registry, key: TypeId, storage: SparseSet<T>)
    ensures
        registry_keys(*final(r)) == registry_keys(*old(r)).push(key),
{
    let erase = |s: &mut dyn Any, id: usize| {
        if let Some(set) = s.downcast_mut::<SparseSet<T>>() {
            ComponentStorage::delete(set, id)
        }
    };
    r.items.push((key, Box::new(storage), Box::new(erase)));
}

/// Relies on `<dyn Any>::downcast_ref`: storage `i` as a `SparseSet<T>`,
/// when that is its type.
#[verifier::external_body]
fn registry_get<T: 'static>(r: &Registry, i: usize) -> Option<&SparseSet<T>>
    requires
        i < registry_keys(*r).len(),
{
    r.items[i].1.downcast_ref::<SparseSet<T>>()
}

/// Relies on `<dyn Any>::downcast_mut`: storage `i` as a `SparseSet<T>`,
/// when that is its type.
#[verifier::external_body]
fn registry_get_mut<T: 'static>(r: &mut Registry, i: usize) -> (s: Option<&mut SparseSet<T>>)
    requires
        i < registry_keys(*old(r)).len(),
    ensures
        registry_keys(*final(r)) == registry_keys(*old(r)),
{
    r.items[i].1.downcast_mut::<SparseSet<T>>()
}

/// Relies on the deleting function stored with storage `i`: removes the
/// component of `id` from it.
#[verifier::external_body]
fn registry_delete(r: &mut Registry, i: usize, id: usize)
    requires
        i < registry_keys(*old(r)).len(),
    ensures
        registry_keys(*final(r)) == registry_keys(*old(r)),
{
    let (_, storage, erase) = &mut r.items[i];
    erase(&mut **storage, id)
}

/// Entities and their components: one storage per registered component
/// type, each holding ids `0..size`.
pub struct World {
    size: usize,
    current_id: usize,
    components: Registry,
}

impl World {
    /// The id bound of every storage.
    pub closed spec fn capacity(&self) -> nat {
        self.size as nat
    }

    /// The id the next spawned entity gets.
    pub closed spec fn next_id(&self) -> nat {
        self.current_id as nat
    }

    /// The registered component types, in registration order.
    pub closed spec fn kinds(&self) -> Seq<TypeId> {
        registry_keys(self.components)
    }

    /// A world with no component type registered, for ids `0..size`.
    pub fn new(size: usize) -> (r: World)
        ensures
            r.capacity() == size,
            r.next_id() == 0,
            r.kinds() == Seq::<TypeId>::empty(),
    {
        World { size, current_id: 0, components: registry_new() }
    }

    /// Position of the storage for `key`, if registered.
    fn find(&self, key: &TypeId) -> (r: Option<usize>)
        ensures
            r matches Some(i) ==> i < self.kinds().len() && self.kinds()[i as int] == *key,
            r is None ==> !self.kinds().contains(*key),
    {
        let n = registry_len(&self.components);
        let mut i: usize = 0;
        while i < n
            invariant
                0 <= i <= n,
                n == self.kinds().len(),
                forall|j: int| 0 <= j < i ==> self.kinds()[j] != *key,
            decreases n - i,
        {
            if registry_key(&self.components, i) == *key {
                return Some(i);
            }
            i = i + 1;
        }
        None
    }

    /// Registers component type `T`; registering it again changes nothing.
    pub fn register<T: 'static>(self) -> (r: World)
        ensures
            r.capacity() == self.capacity(),
            r.next_id() == self.next_id(),
            r.kinds() == self.kinds() || r.kinds() == self.kinds().push(r.kinds().last()),
            self.kinds().no_duplicates() ==> r.kinds().no_duplicates(),
    {
        let mut world = self;
        let key = TypeId::of::<T>();
        match world.find(&key) {
            Some(_) => world,
            None => {
                registry_push(&mut world.components, key, SparseSet::<T>::new(world.size));
                assert(world.kinds() =~= self.kinds().push(world.kinds().last()));
                proof {
                    if self.kinds().no_duplicates() {
                        assert forall|i: int, j: int|
                            0 <= i < world.kinds().len() && 0 <= j < world.kinds().len() && i != j
                                implies world.kinds()[i] != world.kinds()[j] by {
                            if j == self.kinds().len() {
                                assert(self.kinds().contains(self.kinds()[i]));
                            } else if i == self.kinds().len() {
                                assert(self.kinds().contains(self.kinds()[j]));
                            }
                        }
                    }
                }
                world
            },
        }
    }

    /// Whether component type `T` is registered.
    pub fn is_registered<T: 'static>(&self) -> (r: bool) {
        let key = TypeId::of::<T>();
        self.find(&key).is_some()
    }

    /// How many component types are registered.
    pub fn component_kinds(&self) -> (r: usize)
        ensures
            r == self.kinds().len(),
    {
        registry_len(&self.components)
    }

    /// Starts a new entity, with the next id.
    pub fn spawn(&mut self) -> (r: EntityBuilder<'_>)
        requires
            old(self).next_id() < usize::MAX,
        ensures
            r.id() == old(self).next_id(),
            r.capacity() == old(self).capacity(),
    {
        let id = self.current_id;
        self.current_id = self.current_id + 1;
        EntityBuilder::new(id, self)
    }

    /// Removes every component of entity `id`.
    pub fn despawn(&mut self, id: usize)
        ensures
            final(self).kinds() == old(self).kinds(),
            final(self).capacity() == old(self).capacity(),
            final(self).next_id() == old(self).next_id(),
    {
        let n = registry_len(&self.components);
        let mut i: usize = 0;
        while i < n
            invariant
                0 <= i <= n,
                n == self.kinds().len(),
                self.kinds() == old(self).kinds(),
                self.size == old(self).size,
                self.current_id == old(self).current_id,
            decreases n - i,
        {
            registry_delete(&mut self.components, i, id);
            i = i + 1;
        }
    }

    fn get_storage<T: 'static>(&self) -> (r: Option<&SparseSet<T>>) {
        let key = TypeId::of::<T>();
        match self.find(&key) {
            Some(i) => registry_get::<T>(&self.components, i),
            None => None,
        }
    }

    fn get_storage_mut<T: 'static>(&mut self) -> (r: Option<&mut SparseSet<T>>) {
        let key = TypeId::of::<T>();
        match self.find(&key) {
            Some(i) => registry_get_mut::<T>(&mut self.components, i),
            None => None,
        }
    }

    /// The `T` component of entity `id`, if it has one.
    pub fn get<T: 'static>(&self, id: usize) -> (r: Option<&T>)
        ensures
            id >= self.capacity() ==> r is None,
    {
        if id >= self.size {
            return None;
        }
        match self.get_storage::<T>() {
            Some(storage) => {
                if id < storage.capacity() {
                    storage.get(id)
                } else {
                    None
                }
            },
            None => None,
        }
    }

    /// The `T` component of entity `id`, if it has one, for changing in
    /// place.
    pub fn get_mut<T: 'static>(&mut self, id: usize) -> (r: Option<&mut T>)
        ensures
            id >= old(self).capacity() ==> r is None,
    {
        if id >= self.size {
            return None;
        }
        match self.get_storage_mut::<T>() {
            Some(storage) => {
                if id < storage.capacity() {
                    storage.get_mut(id)
                } else {
                    None
                }
            },
            None => None,
        }
    }

    /// Every `T` component, in storage order; `None` if `T` is not
    /// registered.
    pub fn get_all<T: 'static>(&self) -> (r: Option<&[T]>) {
        match self.get_storage::<T>() {
            Some(storage) => Some(storage.get_all()),
            None => None,
        }
    }

    /// Calls `f` on every `T` component.
    pub fn for_each<T: 'static, F: FnMut(&T)>(&self, f: F)
        requires
            forall|x: &T| #[trigger] f.requires((x,)),
    {
        if let Some(storage) = self.get_storage::<T>() {
            storage.for_each(f);
        }
    }

    /// Calls `f` on every `T` component, letting it change the component.
    pub fn for_each_mut<T: 'static, F: FnMut(&mut T)>(&mut self, f: F)
        requires
            forall|x: &mut T| #[trigger] f.requires((x,)),
    {
        if let Some(storage) = self.get_storage_mut::<T>() {
            storage.for_each_mut(f);
        }
    }
}

/// An entity being built: its id and the world its components go to.
pub struct EntityBuilder<'a> {
    id: usize,
    world: &'a mut World,
}

impl<'a> EntityBuilder<'a> {
    /// The entity's id.
    pub closed spec fn id(&self) -> usize {
        self.id
    }

    /// The id bound of the world the components go to.
    pub closed spec fn capacity(&self) -> nat {
        self.world.capacity()
    }

    pub fn new(id: usize, world: &'a mut World) -> (r: EntityBuilder<'a>)
        ensures
            r.id() == id,
            r.capacity() == old(world).capacity(),
    {
        EntityBuilder { id, world }
    }

    /// Gives the entity `component`. `None` if `T` is not registered or the
    /// id is past the world's capacity: the component cannot be stored.
    pub fn with<T: 'static>(self, component: T) -> (r: Option<EntityBuilder<'a>>)
        ensures
            r matches Some(b) ==> b.id() == self.id(),
            self.id() >= self.capacity() ==> r is None,
    {
        let EntityBuilder { id, world } = self;
        if id >= world.size {
            return None;
        }
        match world.get_storage_mut::<T>() {
            Some(storage) => {
                if id < storage.capacity() {
                    storage.add(id, component);
                    Some(EntityBuilder { id, world })
                } else {
                    None
                }
            },
            None => None,
        }
    }

    /// The entity's id.
    pub fn into_id(self) -> (r: usize)
        ensures
            r == self.id(),
    {
        self.id
    }
}

} // verus!
