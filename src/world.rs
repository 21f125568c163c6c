use vstd::prelude::*;

use crate::entity::{with_id, ComponentEntry, ComponentKind, EntityBuilder};

verus! {

/// The mathematical state of a `World`.
pub struct WorldView<P, L> {
    /// Each entity's id and components, in the order the entities were added.
    pub entities: Seq<(usize, Seq<ComponentEntry<P>>)>,
    pub lights: Seq<L>,
    /// The last id handed out; 0 before the first.
    pub next_id: usize,
}

/// The contents of the first component of kind `kind` in `comps`.
pub open spec fn first_of_kind<P>(comps: Seq<ComponentEntry<P>>, kind: ComponentKind) -> Option<P>
    decreases comps.len(),
{
    if comps.len() == 0 {
        None
    } else if comps[0].kind == kind {
        Some(comps[0].data)
    } else {
        first_of_kind(comps.drop_first(), kind)
    }
}

/// The contents of every component of kind `kind` in `comps`, in order.
pub open spec fn all_of_kind<P>(comps: Seq<ComponentEntry<P>>, kind: ComponentKind) -> Seq<P>
    decreases comps.len(),
{
    if comps.len() == 0 {
        Seq::empty()
    } else if comps.last().kind == kind {
        all_of_kind(comps.drop_last(), kind).push(comps.last().data)
    } else {
        all_of_kind(comps.drop_last(), kind)
    }
}

/// The contents of every component of kind `kind` over all of `ents`, entity
/// by entity.
pub open spec fn world_of_kind<P>(ents: Seq<(usize, Seq<ComponentEntry<P>>)>, kind: ComponentKind) -> Seq<P>
    decreases ents.len(),
{
    if ents.len() == 0 {
        Seq::empty()
    } else {
        world_of_kind(ents.drop_last(), kind) + all_of_kind(ents.last().1, kind)
    }
}

/// The ids of the entities of `ents` that carry a component of kind `a` and
/// one of kind `b`, in order.
pub open spec fn ids_with_both<P>(ents: Seq<(usize, Seq<ComponentEntry<P>>)>, a: ComponentKind, b: ComponentKind) -> Seq<usize>
    decreases ents.len(),
{
    if ents.len() == 0 {
        Seq::empty()
    } else if first_of_kind(ents.last().1, a) is Some && first_of_kind(ents.last().1, b) is Some {
        ids_with_both(ents.drop_last(), a, b).push(ents.last().0)
    } else {
        ids_with_both(ents.drop_last(), a, b)
    }
}

/// Entity `id` exists in `ents`.
pub open spec fn has_entity<P>(ents: Seq<(usize, Seq<ComponentEntry<P>>)>, id: usize) -> bool {
    exists|i: int| 0 <= i < ents.len() && ents[i].0 == id
}

/// The components of entity `id`, if it exists.
pub open spec fn entity_of<P>(ents: Seq<(usize, Seq<ComponentEntry<P>>)>, id: usize) -> Option<Seq<ComponentEntry<P>>> {
    if has_entity(ents, id) {
        Some(ents[choose|i: int| 0 <= i < ents.len() && ents[i].0 == id].1)
    } else {
        None
    }
}

/// The contents of the first component of kind `kind` of entity `id`.
pub open spec fn component_of<P>(ents: Seq<(usize, Seq<ComponentEntry<P>>)>, id: usize, kind: ComponentKind) -> Option<P> {
    match entity_of(ents, id) {
        Some(comps) => first_of_kind(comps, kind),
        None => None,
    }
}

/// The position of entity `id` in `ents`, when it exists.
pub open spec fn entity_index<P>(ents: Seq<(usize, Seq<ComponentEntry<P>>)>, id: usize) -> int {
    choose|i: int| 0 <= i < ents.len() && ents[i].0 == id
}

/// `comps` with the contents of its first component of kind `kind` replaced by `data`.
pub open spec fn replace_first<P>(comps: Seq<ComponentEntry<P>>, kind: ComponentKind, data: P) -> Seq<ComponentEntry<P>>
    decreases comps.len(),
{
    if comps.len() == 0 {
        comps
    } else if comps[0].kind == kind {
        comps.update(0, ComponentEntry { data, ..comps[0] })
    } else {
        seq![comps[0]] + replace_first(comps.drop_first(), kind, data)
    }
}

/// The lowest id of an entity with a component of kind `kind`.
pub open spec fn first_entity_of_kind<P>(ents: Seq<(usize, Seq<ComponentEntry<P>>)>, kind: ComponentKind) -> Option<usize>
    decreases ents.len(),
{
    if ents.len() == 0 {
        None
    } else if first_of_kind(ents[0].1, kind) is Some {
        Some(ents[0].0)
    } else {
        first_entity_of_kind(ents.drop_first(), kind)
    }
}

/// Entities are kept by increasing id, and every id was handed out already.
pub open spec fn world_wf<P, L>(w: WorldView<P, L>) -> bool {
    &&& forall|i: int, j: int| 0 <= i < j < w.entities.len() ==> w.entities[i].0 < w.entities[j].0
    &&& forall|i: int| 0 <= i < w.entities.len() ==> 1 <= #[trigger] w.entities[i].0 <= w.next_id
}

/// The entities, their components and the lights of a scene. Entity ids start
/// at 1 and only grow; none is ever reused.
pub struct World<P, L> {
    entities: Vec<(usize, Vec<ComponentEntry<P>>)>,
    lights: Vec<L>,
    next_id: usize,
}

impl<P, L> View for World<P, L> {
    type V = WorldView<P, L>;

    closed spec fn view(&self) -> WorldView<P, L> {
        WorldView {
            entities: self.entities@.map_values(|e: (usize, Vec<ComponentEntry<P>>)| (e.0, e.1@)),
            lights: self.lights@,
            next_id: self.next_id,
        }
    }
}

impl<P, L> World<P, L> {
    pub open spec fn wf(&self) -> bool {
        world_wf(self@)
    }

    pub fn new() -> (r: World<P, L>)
        ensures
            r@.entities.len() == 0,
            r@.lights.len() == 0,
            r@.next_id == 0,
            r.wf(),
    {
        World { entities: Vec::new(), lights: Vec::new(), next_id: 0 }
    }

    /// A builder for a new entity of this world.
    pub fn new_entity(&self) -> (r: EntityBuilder<P>)
        ensures
            r.entity.id_spec() == 0,
            r.components@.len() == 0,
    {
        EntityBuilder::new()
    }

    /// The last id handed out; 0 before the first.
    pub fn last_id(&self) -> (r: usize)
        ensures
            r == self@.next_id,
    {
        self.next_id
    }

    /// Hands out a fresh id.
    pub fn get_next_entity_id(&mut self) -> (r: usize)
        requires
            old(self).wf(),
            old(self)@.next_id < usize::MAX,
        ensures
            r == old(self)@.next_id + 1,
            final(self)@ == (WorldView { next_id: r, ..old(self)@ }),
            final(self).wf(),
    {
        self.next_id = self.next_id + 1;
        self.next_id
    }

    /// Adds the entity built by `entity` under a fresh id.
    pub fn add_entity(&mut self, entity: EntityBuilder<P>)
        requires
            old(self).wf(),
            old(self)@.next_id < usize::MAX,
        ensures
            final(self)@.next_id == old(self)@.next_id + 1,
            final(self)@.entities == old(self)@.entities.push(
                (final(self)@.next_id, with_id(entity.components@, final(self)@.next_id)),
            ),
            final(self)@.lights == old(self)@.lights,
            final(self).wf(),
    {
        let id = self.get_next_entity_id();
        let mut entity = entity;
        entity.set_id(id);
        let ghost comps = entity.components@;
        self.entities.push((id, entity.components));
        assert(self@.entities =~= old(self)@.entities.push((id, comps)));
    }

    /// The ids of all entities, lowest first; `None` when there is none.
    pub fn get_all_ids(&self) -> (r: Option<Vec<usize>>)
        ensures
            r is None <==> self@.entities.len() == 0,
            r matches Some(ids) ==> ids@ == self@.entities.map_values(
                |e: (usize, Seq<ComponentEntry<P>>)| e.0,
            ),
    {
        let mut ids: Vec<usize> = Vec::new();
        let mut i: usize = 0;
        while i < self.entities.len()
            invariant
                0 <= i <= self@.entities.len(),
                ids@ == self@.entities.take(i as int).map_values(|e: (usize, Seq<ComponentEntry<P>>)| e.0),
            decreases self@.entities.len() - i,
        {
            ids.push(self.entities[i].0);
            assert(self@.entities.take(i + 1).map_values(|e: (usize, Seq<ComponentEntry<P>>)| e.0)
                =~= self@.entities.take(i as int).map_values(|e: (usize, Seq<ComponentEntry<P>>)| e.0).push(self@.entities[i as int].0));
            i = i + 1;
        }
        assert(self@.entities.take(i as int) =~= self@.entities);
        if ids.len() == 0 {
            None
        } else {
            Some(ids)
        }
    }

    fn find(&self, id: usize) -> (r: Option<usize>)
        requires
            self.wf(),
        ensures
            r matches Some(i) ==> i < self@.entities.len() && self@.entities[i as int].0 == id
                && entity_index(self@.entities, id) == i
                && entity_of(self@.entities, id) == Some(self@.entities[i as int].1),
            r is None ==> !has_entity(self@.entities, id) && entity_of(self@.entities, id) is None,
    {
        let mut i: usize = 0;
        while i < self.entities.len()
            invariant
                0 <= i <= self@.entities.len(),
                forall|j: int| 0 <= j < i ==> self@.entities[j].0 != id,
                self.wf(),
            decreases self@.entities.len() - i,
        {
            assert(self@.entities[i as int] == (self.entities@[i as int].0, self.entities@[i as int].1@));
            if self.entities[i].0 == id {
                let ghost ents = self@.entities;
                let ghost c = choose|k: int| 0 <= k < ents.len() && ents[k].0 == id;
                assert(0 <= c < ents.len() && ents[c].0 == id);
                assert(c == i) by {
                    if c < i {
                    } else if c > i {
                        assert(ents[i as int].0 < ents[c].0);
                    }
                };
                return Some(i);
            }
            i = i + 1;
        }
        None
    }

    /// The components of entity `id`; `None` when there is no such entity.
    pub fn get_entity(&self, id: usize) -> (r: Option<&Vec<ComponentEntry<P>>>)
        requires
            self.wf(),
        ensures
            r is Some <==> has_entity(self@.entities, id),
            r matches Some(c) ==> entity_of(self@.entities, id) == Some(c@),
    {
        match self.find(id) {
            Some(i) => Some(&self.entities[i].1),
            None => None,
        }
    }

    /// The contents of the first component of kind `kind` of entity `id`;
    /// `None` when the entity does not exist or has no such component.
    pub fn get_component_by_id(&self, id: usize, kind: ComponentKind) -> (r: Option<&P>)
        requires
            self.wf(),
        ensures
            r is Some <==> component_of(self@.entities, id, kind) is Some,
            r matches Some(d) ==> component_of(self@.entities, id, kind) == Some(*d),
    {
        match self.find(id) {
            Some(i) => {
                let comps = &self.entities[i].1;
                assert(comps@ == self@.entities[i as int].1);
                assert(comps@.skip(0) =~= comps@);
                let mut j: usize = 0;
                while j < comps.len()
                    invariant
                        0 <= j <= comps@.len(),
                        component_of(self@.entities, id, kind) == first_of_kind(comps@, kind),
                        first_of_kind(comps@, kind) == first_of_kind(comps@.skip(j as int), kind),
                    decreases comps@.len() - j,
                {
                    assert(comps@.skip(j as int).drop_first() =~= comps@.skip(j + 1));
                    assert(comps@.skip(j as int)[0] == comps@[j as int]);
                    if comps[j].kind == kind {
                        return Some(&comps[j].data);
                    }
                    j = j + 1;
                }
                None
            },
            None => None,
        }
    }

    /// The contents of every component of kind `kind`, entity by entity
    /// (lowest id first); `None` when there is none.
    pub fn get_components_of_type(&self, kind: ComponentKind) -> (r: Option<Vec<&P>>)
        ensures
            r is None <==> world_of_kind(self@.entities, kind).len() == 0,
            r matches Some(v) ==> v@.map_values(|d: &P| *d) == world_of_kind(self@.entities, kind),
    {
        let mut out: Vec<&P> = Vec::new();
        let mut i: usize = 0;
        while i < self.entities.len()
            invariant
                0 <= i <= self@.entities.len(),
                out@.map_values(|d: &P| *d) == world_of_kind(self@.entities.take(i as int), kind),
            decreases self@.entities.len() - i,
        {
            let comps = &self.entities[i].1;
            assert(comps@ == self@.entities[i as int].1);
            let ghost before = out@.map_values(|d: &P| *d);
            let mut j: usize = 0;
            while j < comps.len()
                invariant
                    0 <= j <= comps@.len(),
                    comps@ == self@.entities[i as int].1,
                    out@.map_values(|d: &P| *d) == before + all_of_kind(comps@.take(j as int), kind),
                decreases comps@.len() - j,
            {
                assert(comps@.take(j + 1).drop_last() =~= comps@.take(j as int));
                assert(comps@.take(j + 1).last() == comps@[j as int]);
                if comps[j].kind == kind {
                    let ghost prev = out@;
                    out.push(&comps[j].data);
                    assert(out@ =~= prev.push(&comps@[j as int].data));
                    assert(out@.map_values(|d: &P| *d) =~= prev.map_values(|d: &P| *d).push(comps@[j as int].data));
                    assert(all_of_kind(comps@.take(j + 1), kind) == all_of_kind(comps@.take(j as int), kind).push(comps@[j as int].data));
                    assert(out@.map_values(|d: &P| *d) =~= before + all_of_kind(comps@.take(j + 1), kind));
                } else {
                    assert(out@.map_values(|d: &P| *d) =~= before + all_of_kind(comps@.take(j + 1), kind));
                }
                j = j + 1;
            }
            assert(comps@.take(j as int) =~= comps@);
            assert(self@.entities.take(i + 1).drop_last() =~= self@.entities.take(i as int));
            i = i + 1;
        }
        assert(self@.entities.take(i as int) =~= self@.entities);
        if out.len() == 0 {
            None
        } else {
            Some(out)
        }
    }

    /// The lowest id of an entity with a component of kind `kind` (the active
    /// camera is the camera entity with the lowest id).
    pub fn first_entity_with(&self, kind: ComponentKind) -> (r: Option<usize>)
        ensures
            r == first_entity_of_kind(self@.entities, kind),
    {
        assert(self@.entities.skip(0) =~= self@.entities);
        let mut i: usize = 0;
        while i < self.entities.len()
            invariant
                0 <= i <= self@.entities.len(),
                first_entity_of_kind(self@.entities, kind) == first_entity_of_kind(self@.entities.skip(i as int), kind),
            decreases self@.entities.len() - i,
        {
            assert(self@.entities.skip(i as int).drop_first() =~= self@.entities.skip(i + 1));
            assert(self@.entities[i as int] == (self.entities@[i as int].0, self.entities@[i as int].1@));
            assert(self@.entities.skip(i as int)[0] == self@.entities[i as int]);
            if Self::has_kind(&self.entities[i].1, kind) {
                return Some(self.entities[i].0);
            }
            i = i + 1;
        }
        None
    }

    /// Replaces the contents of the first component of kind `kind` of entity
    /// `id` by `data`; false, and nothing changed, when there is no such
    /// component.
    pub fn set_component_by_id(&mut self, id: usize, kind: ComponentKind, data: P) -> (r: bool)
        requires
            old(self).wf(),
        ensures
            r == (component_of(old(self)@.entities, id, kind) is Some),
            r ==> final(self)@ == (WorldView {
                entities: old(self)@.entities.update(
                    entity_index(old(self)@.entities, id),
                    (id, replace_first(entity_of(old(self)@.entities, id).unwrap(), kind, data)),
                ),
                ..old(self)@
            }),
            !r ==> final(self)@ == old(self)@,
            final(self).wf(),
    {
        match self.find(id) {
            Some(i) => {
                let ghost comps = self@.entities[i as int].1;
                assert(self@.entities[i as int] == (self.entities@[i as int].0, self.entities@[i as int].1@));
                assert(comps.skip(0) =~= comps);
                let mut j: usize = 0;
                while j < self.entities[i].1.len()
                    invariant
                        0 <= j <= comps.len(),
                        i < self.entities@.len(),
                        self.entities@[i as int].1@ == comps,
                        first_of_kind(comps, kind) == first_of_kind(comps.skip(j as int), kind),
                        replace_first(comps, kind, data) == comps.take(j as int) + replace_first(comps.skip(j as int), kind, data),
                        self@ == old(self)@,
                        old(self).wf(),
                        self.entities@.len() == old(self)@.entities.len(),
                        i == entity_index(old(self)@.entities, id),
                        entity_of(old(self)@.entities, id) == Some(comps),
                        old(self)@.entities[i as int] == (id, comps),
                    decreases comps.len() - j,
                {
                    assert(comps.skip(j as int).drop_first() =~= comps.skip(j + 1));
                    assert(comps.skip(j as int)[0] == comps[j as int]);
                    if self.entities[i].1[j].kind == kind {
                        let ghost before = self.entities@;
                        assert(forall|k: int| 0 <= k < before.len() ==> #[trigger] old(self)@.entities[k] == (before[k].0, before[k].1@));
                        let new_entry = ComponentEntry { kind: self.entities[i].1[j].kind, id: self.entities[i].1[j].id, data };
                        self.entities[i].1.set(j, new_entry);
                        assert(comps.take(j as int) + comps.skip(j as int).update(0, ComponentEntry { data, ..comps[j as int] })
                            =~= comps.update(j as int, ComponentEntry { data, ..comps[j as int] }));
                        assert(self.entities@[i as int].1@ == comps.update(j as int, ComponentEntry { data, ..comps[j as int] }));
                        assert(forall|k: int| 0 <= k < before.len() && k != i ==> self.entities@[k] == before[k]);
                        assert(self@.entities =~= old(self)@.entities.update(
                            i as int, (id, replace_first(comps, kind, data))));
                        return true;
                    }
                    assert(comps.take(j as int) + (seq![comps[j as int]] + replace_first(comps.skip(j + 1), kind, data))
                        =~= comps.take(j + 1) + replace_first(comps.skip(j + 1), kind, data));
                    j = j + 1;
                }
                false
            },
            None => false,
        }
    }

    fn has_kind(comps: &Vec<ComponentEntry<P>>, kind: ComponentKind) -> (r: bool)
        ensures
            r == (first_of_kind(comps@, kind) is Some),
    {
        assert(comps@.skip(0) =~= comps@);
        let mut j: usize = 0;
        while j < comps.len()
            invariant
                0 <= j <= comps@.len(),
                first_of_kind(comps@, kind) == first_of_kind(comps@.skip(j as int), kind),
            decreases comps@.len() - j,
        {
            assert(comps@.skip(j as int).drop_first() =~= comps@.skip(j + 1));
            assert(comps@.skip(j as int)[0] == comps@[j as int]);
            if comps[j].kind == kind {
                return true;
            }
            j = j + 1;
        }
        false
    }

    /// The ids, lowest first, of the entities that carry a component of kind
    /// `a` and one of kind `b` (the frame driver draws those with a transform
    /// and a mesh).
    pub fn entities_with_both(&self, a: ComponentKind, b: ComponentKind) -> (r: Vec<usize>)
        ensures
            r@ == ids_with_both(self@.entities, a, b),
    {
        let mut out: Vec<usize> = Vec::new();
        let mut i: usize = 0;
        while i < self.entities.len()
            invariant
                0 <= i <= self@.entities.len(),
                out@ == ids_with_both(self@.entities.take(i as int), a, b),
            decreases self@.entities.len() - i,
        {
            assert(self@.entities[i as int] == (self.entities@[i as int].0, self.entities@[i as int].1@));
            assert(self@.entities.take(i + 1).drop_last() =~= self@.entities.take(i as int));
            assert(self@.entities.take(i + 1).last() == self@.entities[i as int]);
            if Self::has_kind(&self.entities[i].1, a) && Self::has_kind(&self.entities[i].1, b) {
                out.push(self.entities[i].0);
            }
            i = i + 1;
        }
        assert(self@.entities.take(i as int) =~= self@.entities);
        out
    }

    /// Adds a light to the scene.
    pub fn add_light(&mut self, light: L)
        ensures
            final(self)@ == (WorldView { lights: old(self)@.lights.push(light), ..old(self)@ }),
            old(self).wf() ==> final(self).wf(),
    {
        self.lights.push(light);
        assert(self@.entities =~= old(self)@.entities);
    }

    /// The lights of the scene, in the order they were added.
    pub fn lights(&self) -> (r: &Vec<L>)
        ensures
            r@ == self@.lights,
    {
        &self.lights
    }
}

} // verus!
