use vstd::prelude::*;

verus! {

/// The kinds of component an entity can carry.
#[derive(Clone, Copy, Debug, PartialEq, Eq, Structural)]
pub enum ComponentKind {
    Transform,
    Mesh,
    Material,
    Texture,
    Camera,
    Logic,
}

/// A fragment of data or behaviour attached to one entity.
pub trait Component {
    /// The id of the entity the component belongs to.
    spec fn entity_id(&self) -> usize;

    fn get_id(&self) -> (r: usize)
        ensures
            r == self.entity_id(),
    ;

    fn set_id(&mut self, id: usize)
        ensures
            final(self).entity_id() == id,
    ;
}

/// The component every entity has: it carries nothing but the entity's id.
#[derive(Clone, Copy, Debug, PartialEq, Eq, Structural)]
pub struct Entity {
    id: usize,
}

impl Entity {
    pub closed spec fn id_spec(&self) -> usize {
        self.id
    }
}

impl Component for Entity {
    closed spec fn entity_id(&self) -> usize {
        self.id
    }

    fn get_id(&self) -> (r: usize) {
        self.id
    }

    fn set_id(&mut self, id: usize) {
        self.id = id;
    }
}

/// A component of kind `kind` whose contents are `data`.
#[derive(Clone, Debug)]
pub struct ComponentEntry<P> {
    pub kind: ComponentKind,
    pub id: usize,
    pub data: P,
}

impl<P> Component for ComponentEntry<P> {
    open spec fn entity_id(&self) -> usize {
        self.id
    }

    fn get_id(&self) -> (r: usize) {
        self.id
    }

    fn set_id(&mut self, id: usize) {
        self.id = id;
    }
}

/// `comps` with the entity id of each component replaced by `id`.
pub open spec fn with_id<P>(comps: Seq<ComponentEntry<P>>, id: usize) -> Seq<ComponentEntry<P>> {
    comps.map_values(|c: ComponentEntry<P>| ComponentEntry { id, ..c })
}

/// The components of a new entity, gathered before it is added to a world.
pub struct EntityBuilder<P> {
    pub entity: Entity,
    pub components: Vec<ComponentEntry<P>>,
}

impl<P> EntityBuilder<P> {
    /// A builder for an entity with no component yet, and id 0.
    pub fn new() -> (r: EntityBuilder<P>)
        ensures
            r.entity.id_spec() == 0,
            r.components@.len() == 0,
    {
        EntityBuilder { entity: Entity { id: 0 }, components: Vec::new() }
    }

    /// Gives the entity and each of its components the id `id`.
    pub fn set_id(&mut self, id: usize)
        ensures
            final(self).entity.id_spec() == id,
            final(self).components@ == with_id(old(self).components@, id),
    {
        self.entity.id = id;
        let ghost before = self.components@;
        let mut i: usize = 0;
        while i < self.components.len()
            invariant
                0 <= i <= self.components@.len(),
                self.components@.len() == before.len(),
                self.entity.id_spec() == id,
                forall|j: int| 0 <= j < i ==> self.components@[j] == (ComponentEntry { id, ..before[j] }),
                forall|j: int| i <= j < before.len() ==> self.components@[j] == before[j],
            decreases before.len() - i,
        {
            self.components[i].id = id;
            i = i + 1;
        }
        assert(self.components@ =~= with_id(before, id));
    }

    /// Adds a component of kind `kind` with contents `data`.
    pub fn with(self, kind: ComponentKind, data: P) -> (r: EntityBuilder<P>)
        ensures
            r.entity == self.entity,
            r.components@ == self.components@.push(ComponentEntry { kind, id: 0, data }),
    {
        let mut b = self;
        b.components.push(ComponentEntry { kind, id: 0, data });
        b
    }

    /// Adds a transform (position, scale and rotation).
    pub fn transform(self, data: P) -> (r: EntityBuilder<P>)
        ensures
            r.entity == self.entity,
            r.components@ == self.components@.push(
                ComponentEntry { kind: ComponentKind::Transform, id: 0, data },
            ),
    {
        self.with(ComponentKind::Transform, data)
    }

    /// Adds a mesh (vertex and index lists).
    pub fn mesh(self, data: P) -> (r: EntityBuilder<P>)
        ensures
            r.entity == self.entity,
            r.components@ == self.components@.push(
                ComponentEntry { kind: ComponentKind::Mesh, id: 0, data },
            ),
    {
        self.with(ComponentKind::Mesh, data)
    }

    /// Adds a material (a flat color).
    pub fn material(self, data: P) -> (r: EntityBuilder<P>)
        ensures
            r.entity == self.entity,
            r.components@ == self.components@.push(
                ComponentEntry { kind: ComponentKind::Material, id: 0, data },
            ),
    {
        self.with(ComponentKind::Material, data)
    }

    /// Adds a texture (decoded pixels).
    pub fn texture(self, data: P) -> (r: EntityBuilder<P>)
        ensures
            r.entity == self.entity,
            r.components@ == self.components@.push(
                ComponentEntry { kind: ComponentKind::Texture, id: 0, data },
            ),
    {
        self.with(ComponentKind::Texture, data)
    }

    /// Adds a camera (view and projection).
    pub fn camera(self, data: P) -> (r: EntityBuilder<P>)
        ensures
            r.entity == self.entity,
            r.components@ == self.components@.push(
                ComponentEntry { kind: ComponentKind::Camera, id: 0, data },
            ),
    {
        self.with(ComponentKind::Camera, data)
    }

    /// Adds a behaviour (its `init` and `update` hooks).
    pub fn logic(self, data: P) -> (r: EntityBuilder<P>)
        ensures
            r.entity == self.entity,
            r.components@ == self.components@.push(
                ComponentEntry { kind: ComponentKind::Logic, id: 0, data },
            ),
    {
        self.with(ComponentKind::Logic, data)
    }
}

} // verus!
