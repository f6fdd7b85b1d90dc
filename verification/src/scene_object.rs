//! Scene objects and the registry that owns them.  A program owns its
//! objects strongly in an arena; a mesh observes the objects instancing it
//! through generation-checked handles, which detect death without owning —
//! the arena side of a weak reference.  A draw walks a mesh's handle list in
//! order, silently skips dead handles, and collects the transforms of the
//! enabled objects only.
use vstd::prelude::*;
use vstd::seq_lib::*;

use crate::error::GLUtilityError;
use crate::geom::mat3_inverse;
use crate::geom::mat3_inversed;
use crate::geom::mat3_transpose;
use crate::geom::mat3_transposed;
use crate::geom::mat4_upper_left;
use crate::geom::mat4_upper_left_block;
use crate::geom::mat3_is_identity;
use crate::geom::mat4_is_identity;
use crate::geom::mat3_identity;
use crate::geom::mat4_identity;
use crate::vao::VAOError;

verus! {

#[derive(Debug)]
pub enum SceneObjectError {
    FailedToParseFile(String),
    UnknownFileType(String),
    Other(GLUtilityError),
    VAO(VAOError),
}

/// The normal transform that belongs to a model transform: the transpose of
/// the inverse of its upper-left three-by-three block.  Computed once at
/// creation; a raw rotation block would render wrongly under non-uniform
/// scale.
pub open spec fn normal_transform_of(m: ultraviolet::Mat4) -> ultraviolet::Mat3 {
    mat3_transpose(mat3_inverse(mat4_upper_left(m)))
}

/// One instance of a mesh in the scene: whether a draw includes it, where it
/// stands, and the derived transform its normals use.
#[derive(Clone, Copy)]
pub struct SceneObject {
    pub enabled: bool,
    pub model_transform: ultraviolet::Mat4,
    pub normal_transform: ultraviolet::Mat3,
}

impl SceneObject {
    /// A fresh, enabled instance at the given model transform, with its
    /// normal transform derived once.
    pub fn new(model_transform: ultraviolet::Mat4) -> (r: SceneObject)
        ensures
            r.enabled,
            r.model_transform == model_transform,
            r.normal_transform == normal_transform_of(model_transform),
    {
        let upper = mat4_upper_left_block(&model_transform);
        let inverse = mat3_inversed(&upper);
        let normal_transform = mat3_transposed(&inverse);
        SceneObject { enabled: true, model_transform, normal_transform }
    }
}

impl Default for SceneObject {
    /// An enabled instance at the identity, whose normal transform is the
    /// identity as well.
    fn default() -> (r: SceneObject)
        ensures
            r.enabled,
            mat4_is_identity(r.model_transform),
            mat3_is_identity(r.normal_transform),
    {
        SceneObject {
            enabled: true,
            model_transform: mat4_identity(),
            normal_transform: mat3_identity(),
        }
    }
}

/// A generation-checked index into the arena: the observing half of a weak
/// reference.  It resolves only while the slot it points at still holds the
/// object it was made for.
#[derive(Clone, Copy, PartialEq, Eq, Structural, Debug)]
pub struct InstanceHandle {
    pub index: usize,
    pub generation: u64,
}

struct Slot {
    generation: u64,
    object: Option<SceneObject>,
}

/// The owning store of scene objects.  Removing an object empties its slot
/// and advances the slot's generation, so every handle to it goes dead.
pub struct ObjectArena {
    slots: Vec<Slot>,
}

impl ObjectArena {
    /// A handle resolves: its slot exists, carries the handle's generation,
    /// and still holds an object.
    pub closed spec fn live(self, h: InstanceHandle) -> bool {
        &&& h.index < self.slots@.len()
        &&& self.slots@[h.index as int].generation == h.generation
        &&& self.slots@[h.index as int].object is Some
    }

    /// The object a live handle resolves to.
    pub closed spec fn object(self, h: InstanceHandle) -> SceneObject {
        self.slots@[h.index as int].object.unwrap()
    }

    pub closed spec fn slot_count(self) -> int {
        self.slots@.len() as int
    }

    /// A live handle's index lies inside the arena.
    pub proof fn lemma_live_index(self, h: InstanceHandle)
        requires
            self.live(h),
        ensures
            h.index < self.slot_count(),
    {
    }

    pub fn new() -> (r: ObjectArena)
        ensures
            r.slot_count() == 0,
            forall|g: InstanceHandle| !r.live(g),
    {
        ObjectArena { slots: Vec::new() }
    }

    /// Stores an object and hands back a fresh handle to it.  Every other
    /// handle resolves exactly as before.
    pub fn insert(&mut self, object: SceneObject) -> (h: InstanceHandle)
        ensures
            final(self).live(h),
            final(self).object(h) == object,
            !old(self).live(h),
            h.index == old(self).slot_count(),
            final(self).slot_count() == old(self).slot_count() + 1,
            forall|g: InstanceHandle| g != h ==> final(self).live(g) == old(self).live(g),
            forall|g: InstanceHandle|
                g != h && old(self).live(g) ==> final(self).object(g) == old(self).object(g),
    {
        let index = self.slots.len();
        self.slots.push(Slot { generation: 0, object: Some(object) });
        let h = InstanceHandle { index, generation: 0 };
        proof {
            assert forall|g: InstanceHandle| g != h implies final(self).live(g) == old(
                self,
            ).live(g) by {
                if g.index < old(self).slots@.len() {
                    assert(self.slots@[g.index as int] == old(self).slots@[g.index as int]);
                }
            }
        }
        h
    }

    /// Resolves a handle, or answers nothing for a dead one.
    pub fn get(&self, h: InstanceHandle) -> (r: Option<&SceneObject>)
        ensures
            (r matches Some(o) ==> self.live(h) && *o == self.object(h)),
            (r is None ==> !self.live(h)),
    {
        if h.index < self.slots.len() {
            let slot = &self.slots[h.index];
            if slot.generation == h.generation {
                match &slot.object {
                    Some(o) => Some(o),
                    None => None,
                }
            } else {
                None
            }
        } else {
            None
        }
    }

    /// Sets the enabled flag of the object a live handle resolves to, and
    /// reports whether the handle was live.  Everything else stays as it
    /// was.
    pub fn set_enabled(&mut self, h: InstanceHandle, enabled: bool) -> (ok: bool)
        ensures
            ok == old(self).live(h),
            !ok ==> *final(self) == *old(self),
            ok ==> final(self).live(h) && final(self).object(h) == (SceneObject {
                enabled,
                ..old(self).object(h)
            }),
            final(self).slot_count() == old(self).slot_count(),
            forall|g: InstanceHandle| g != h ==> final(self).live(g) == old(self).live(g),
            forall|g: InstanceHandle|
                g != h && old(self).live(g) ==> final(self).object(g) == old(self).object(g),
    {
        if h.index >= self.slots.len() {
            return false;
        }
        let slot = &self.slots[h.index];
        if slot.generation != h.generation {
            return false;
        }
        match &slot.object {
            None => false,
            Some(o) => {
                let updated = SceneObject {
                    enabled,
                    model_transform: o.model_transform,
                    normal_transform: o.normal_transform,
                };
                let generation = slot.generation;
                self.slots.set(h.index, Slot { generation, object: Some(updated) });
                proof {
                    assert forall|g: InstanceHandle| g != h implies final(self).live(g) == old(
                        self,
                    ).live(g) && (old(self).live(g) ==> final(self).object(g) == old(self).object(
                        g,
                    )) by {
                        if g.index != h.index && g.index < self.slots@.len() {
                            assert(self.slots@[g.index as int] == old(self).slots@[g.index as int]);
                        }
                    }
                }
                true
            },
        }
    }

    /// Drops the object a live handle resolves to: the slot is emptied and
    /// its generation advanced, so the handle — and every copy of it — is
    /// dead from now on.  Reports whether the handle was live.
    pub fn remove(&mut self, h: InstanceHandle) -> (ok: bool)
        ensures
            ok == old(self).live(h),
            !ok ==> *final(self) == *old(self),
            !final(self).live(h),
            final(self).slot_count() == old(self).slot_count(),
            forall|g: InstanceHandle| g != h ==> final(self).live(g) == old(self).live(g),
            forall|g: InstanceHandle|
                g != h && old(self).live(g) ==> final(self).object(g) == old(self).object(g),
    {
        if h.index >= self.slots.len() {
            return false;
        }
        let slot = &self.slots[h.index];
        if slot.generation != h.generation {
            return false;
        }
        match &slot.object {
            None => false,
            Some(_) => {
                let generation = if slot.generation == u64::MAX {
                    u64::MAX
                } else {
                    slot.generation + 1
                };
                self.slots.set(h.index, Slot { generation, object: None });
                proof {
                    assert forall|g: InstanceHandle| g != h implies final(self).live(g) == old(
                        self,
                    ).live(g) && (old(self).live(g) ==> final(self).object(g) == old(self).object(
                        g,
                    )) by {
                        if g.index != h.index {
                            if g.index < self.slots@.len() {
                                assert(self.slots@[g.index as int] == old(self).slots@[g.index as int]);
                            }
                        } else {
                            assert(!old(self).live(g));
                            assert(!final(self).live(g));
                        }
                    }
                }
                true
            },
        }
    }

    /// Walks a handle list in order and collects the model and normal
    /// transforms of the live, enabled objects, skipping dead handles
    /// silently.
    pub fn collect_enabled(&self, handles: &Vec<InstanceHandle>) -> (r: (
        Vec<ultraviolet::Mat4>,
        Vec<ultraviolet::Mat3>,
    ))
        ensures
            r.0@ == collected_models(*self, handles@),
            r.1@ == collected_normals(*self, handles@),
            r.0@.len() == r.1@.len(),
    {
        let n = handles.len();
        let mut models: Vec<ultraviolet::Mat4> = Vec::new();
        let mut normals: Vec<ultraviolet::Mat3> = Vec::new();
        let mut i: usize = 0;
        while i < n
            invariant
                i <= n,
                n == handles@.len(),
                models@ == collected_models(*self, handles@.take(i as int)),
                normals@ == collected_normals(*self, handles@.take(i as int)),
                models@.len() == normals@.len(),
            decreases n - i,
        {
            let h = handles[i];
            proof {
                handles@.lemma_filter_map_take_succ(model_of(*self), i as int);
                handles@.lemma_filter_map_take_succ(normal_of(*self), i as int);
            }
            match self.get(h) {
                Some(o) => {
                    if o.enabled {
                        models.push(o.model_transform);
                        normals.push(o.normal_transform);
                    }
                },
                None => {},
            }
            i += 1;
        }
        proof {
            assert(handles@.take(n as int) =~= handles@);
        }
        (models, normals)
    }
}

/// What a handle contributes to a draw's model-transform array: the model
/// transform of a live, enabled object, nothing otherwise.
pub open spec fn model_of(a: ObjectArena) -> spec_fn(InstanceHandle) -> Option<ultraviolet::Mat4> {
    |h: InstanceHandle|
        if a.live(h) && a.object(h).enabled {
            Some(a.object(h).model_transform)
        } else {
            None
        }
}

/// What a handle contributes to a draw's normal-transform array.
pub open spec fn normal_of(a: ObjectArena) -> spec_fn(InstanceHandle) -> Option<
    ultraviolet::Mat3,
> {
    |h: InstanceHandle|
        if a.live(h) && a.object(h).enabled {
            Some(a.object(h).normal_transform)
        } else {
            None
        }
}

/// The model transforms a draw uploads for a handle list: those of the live,
/// enabled objects, in the list's order.
pub open spec fn collected_models(a: ObjectArena, s: Seq<InstanceHandle>) -> Seq<
    ultraviolet::Mat4,
> {
    s.filter_map(model_of(a))
}

/// The normal transforms a draw uploads for a handle list.
pub open spec fn collected_normals(a: ObjectArena, s: Seq<InstanceHandle>) -> Seq<
    ultraviolet::Mat3,
> {
    s.filter_map(normal_of(a))
}

/// How often a handle occurs in a list.
pub open spec fn occurrences(s: Seq<InstanceHandle>, h: InstanceHandle) -> nat
    decreases s.len(),
{
    if s.len() == 0 {
        0nat
    } else {
        occurrences(s.drop_last(), h) + (if s.last() == h {
            1nat
        } else {
            0nat
        })
    }
}

/// The list with every occurrence of one handle taken out.
pub open spec fn without(s: Seq<InstanceHandle>, h: InstanceHandle) -> Seq<InstanceHandle> {
    s.filter(|g: InstanceHandle| g != h)
}

proof fn lemma_toggle_general(
    a1: ObjectArena,
    a2: ObjectArena,
    s: Seq<InstanceHandle>,
    h: InstanceHandle,
)
    requires
        a1.live(h),
        a2.live(h),
        a2.object(h).enabled == !a1.object(h).enabled,
        forall|g: InstanceHandle| g != h ==> a2.live(g) == a1.live(g),
        forall|g: InstanceHandle| g != h && a1.live(g) ==> a2.object(g) == a1.object(g),
    ensures
        a1.object(h).enabled ==> collected_models(a2, s).len() + occurrences(s, h)
            == collected_models(a1, s).len(),
        !a1.object(h).enabled ==> collected_models(a2, s).len() == collected_models(a1, s).len()
            + occurrences(s, h),
    decreases s.len(),
{
    let f1 = model_of(a1);
    let f2 = model_of(a2);
    if s.len() == 0 {
    } else {
        lemma_toggle_general(a1, a2, s.drop_last(), h);
        let last = s.last();
        if last != h {
            assert(f1(last) == f2(last));
        }
    }
}

/// Law: toggling one object's enabled flag changes the number of instances
/// the next draw collects by exactly one, for any handle list in which the
/// object's handle occurs once.
pub proof fn lemma_toggle_enabled_changes_count(
    a1: ObjectArena,
    a2: ObjectArena,
    s: Seq<InstanceHandle>,
    h: InstanceHandle,
)
    requires
        a1.live(h),
        a2.live(h),
        a2.object(h).enabled == !a1.object(h).enabled,
        forall|g: InstanceHandle| g != h ==> a2.live(g) == a1.live(g),
        forall|g: InstanceHandle| g != h && a1.live(g) ==> a2.object(g) == a1.object(g),
        occurrences(s, h) == 1,
    ensures
        a1.object(h).enabled ==> collected_models(a2, s).len() + 1 == collected_models(
            a1,
            s,
        ).len(),
        !a1.object(h).enabled ==> collected_models(a2, s).len() == collected_models(a1, s).len()
            + 1,
{
    lemma_toggle_general(a1, a2, s, h);
}

/// Law: once a handle is dead, a draw over any handle list collects exactly
/// what it would collect over the list with that handle taken out — the
/// dead handle is skipped silently, and nothing else changes.
pub proof fn lemma_dead_handle_excluded(
    a1: ObjectArena,
    a2: ObjectArena,
    s: Seq<InstanceHandle>,
    h: InstanceHandle,
)
    requires
        !a2.live(h),
        forall|g: InstanceHandle| g != h ==> a2.live(g) == a1.live(g),
        forall|g: InstanceHandle| g != h && a1.live(g) ==> a2.object(g) == a1.object(g),
    ensures
        collected_models(a2, s) == collected_models(a1, without(s, h)),
        collected_normals(a2, s) == collected_normals(a1, without(s, h)),
    decreases s.len(),
{
    reveal(Seq::filter);
    let f1 = model_of(a1);
    let f2 = model_of(a2);
    let g1 = normal_of(a1);
    let g2 = normal_of(a2);
    let p = |g: InstanceHandle| g != h;
    if s.len() == 0 {
        assert(without(s, h).len() == 0);
    } else {
        lemma_dead_handle_excluded(a1, a2, s.drop_last(), h);
        let last = s.last();
        let rest = s.drop_last();
        assert(without(s, h) == if p(last) {
            without(rest, h).push(last)
        } else {
            without(rest, h)
        });
        if last == h {
            assert(f2(last) is None);
            assert(g2(last) is None);
        } else {
            assert(f1(last) == f2(last));
            assert(g1(last) == g2(last));
            let w = without(rest, h).push(last);
            assert(w.drop_last() == without(rest, h));
            assert(w.last() == last);
        }
    }
}

} // verus!
