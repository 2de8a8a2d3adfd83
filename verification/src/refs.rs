//! Owning handles and casting.
//!
//! An [`Owned`] handle represents exactly one unit of the foreign reference
//! count of the instance it addresses, together with the static class the
//! holder views the instance as.  Cloning a handle takes one more unit;
//! dropping one gives a unit back, and the last drop finalizes and frees the
//! instance.  Casts move the handle's one unit — they never touch the count:
//! an upcast is a zero-cost retagging justified by the declared viewable-as
//! relation, while a downcast or dynamic cast consults the instance's actual
//! dynamic type and hands the original handle back unchanged on a mismatch.

use vstd::prelude::*;

use crate::error::Error;
use crate::object::is_ancestor_or_self;
use crate::object::lemma_ancestor_transitive;
use crate::runtime::hook_call;
use crate::runtime::spec_ref;
use crate::runtime::spec_unref;
use crate::runtime::unref_calls;
use crate::runtime::Instance;
use crate::runtime::Runtime;

verus! {

/// An owning, statically typed handle to a foreign instance.
#[derive(Debug)]
pub struct Owned {
    /// The instance's address.
    pub addr: usize,
    /// The class the holder views the instance as: the instance's dynamic
    /// type, or an ancestor of it.
    pub ty: usize,
}

/// What an upcast (or unchecked cast) to `target` yields: the same address,
/// retagged.
pub open spec fn cast_spec(h: Owned, target: usize) -> Owned {
    Owned { addr: h.addr, ty: target }
}

/// What a dynamic cast to `target` yields: the same address, retagged, when
/// the instance's dynamic type is `target` or a descendant of it; nothing
/// otherwise.
pub open spec fn dynamic_cast_spec(rt: Runtime, h: Owned, target: usize) -> Option<Owned> {
    if is_ancestor_or_self(rt.registry.types@, target, rt.type_of(h.addr)) {
        Option::Some(cast_spec(h, target))
    } else {
        Option::None
    }
}

impl Owned {
    /// The handle addresses a live instance whose dynamic type can be viewed
    /// as the handle's static type.
    pub open spec fn wf(self, rt: Runtime) -> bool {
        &&& rt.wf()
        &&& rt.live(self.addr)
        &&& self.ty < rt.registry.types@.len()
        &&& is_ancestor_or_self(rt.registry.types@, self.ty, rt.type_of(self.addr))
    }

    /// Create a fresh instance of the registered class `ty` and adopt the
    /// one reference it starts with.
    pub fn new(rt: &mut Runtime, ty: usize) -> (h: Owned)
        requires
            old(rt).wf(),
            ty < old(rt).registry.types@.len(),
            old(rt).instances@.len() + 1 <= usize::MAX,
            old(rt).calls@.len() + 2 <= usize::MAX,
        ensures
            h.wf(*final(rt)),
            h.ty == ty,
            h.addr == old(rt).instances@.len(),
            final(rt).instances@ == old(rt).instances@.push(
                Instance { ty, refcount: 1, live: true, parented: true },
            ),
            final(rt).calls@ == old(rt).calls@ + crate::runtime::new_calls(
                old(rt).registry.types@,
                ty,
                h.addr,
            ),
            final(rt).registry == old(rt).registry,
    {
        let addr = rt.object_new(ty);
        proof {
            crate::object::lemma_ancestor_reflexive(rt.registry.types@, ty);
        }
        Owned { addr, ty }
    }

    /// Adopt one existing, unowned unit of the instance's reference count,
    /// without incrementing: for a freshly allocated instance whose count is
    /// already one, or a unit handed over by the foreign side.
    pub fn from_raw(rt: &Runtime, addr: usize, ty: usize) -> (h: Owned)
        requires
            rt.wf(),
            rt.live(addr),
            ty < rt.registry.types@.len(),
            is_ancestor_or_self(rt.registry.types@, ty, rt.type_of(addr)),
        ensures
            h.addr == addr,
            h.ty == ty,
            h.wf(*rt),
    {
        Owned { addr, ty }
    }

    /// Own a new unit of the instance's reference count by incrementing it
    /// first: for a borrowed reference to a standalone (not embedded)
    /// instance.
    pub fn from_ref(rt: &mut Runtime, addr: usize, ty: usize) -> (h: Owned)
        requires
            old(rt).wf(),
            old(rt).live(addr),
            ty < old(rt).registry.types@.len(),
            is_ancestor_or_self(old(rt).registry.types@, ty, old(rt).type_of(addr)),
            old(rt).instances@[addr as int].refcount < u64::MAX,
        ensures
            h.addr == addr,
            h.ty == ty,
            h.wf(*final(rt)),
            final(rt).instances@ == spec_ref(old(rt).instances@, addr),
            final(rt).calls == old(rt).calls,
            final(rt).registry == old(rt).registry,
    {
        rt.object_ref(addr);
        Owned { addr, ty }
    }

    /// A second handle to the same instance: the foreign count goes up by
    /// one, and the new handle owns the new unit.
    pub fn clone_ref(&self, rt: &mut Runtime) -> (h: Owned)
        requires
            self.wf(*old(rt)),
            old(rt).instances@[self.addr as int].refcount < u64::MAX,
        ensures
            h.addr == self.addr,
            h.ty == self.ty,
            h.wf(*final(rt)),
            self.wf(*final(rt)),
            final(rt).instances@ == spec_ref(old(rt).instances@, self.addr),
            final(rt).calls == old(rt).calls,
            final(rt).registry == old(rt).registry,
    {
        rt.object_ref(self.addr);
        Owned { addr: self.addr, ty: self.ty }
    }

    /// Give this handle's unit of the reference count back.  When it was the
    /// last unit, the instance is finalized — its classes' finalize hooks
    /// run, its own class first — and freed, exactly then.
    pub fn drop_ref(self, rt: &mut Runtime)
        requires
            self.wf(*old(rt)),
            old(rt).calls@.len() + old(rt).registry.types@.len() <= usize::MAX,
        ensures
            final(rt).wf(),
            final(rt).instances@ == spec_unref(old(rt).instances@, self.addr),
            final(rt).calls@ == old(rt).calls@ + unref_calls(
                old(rt).registry.types@,
                old(rt).instances@,
                self.addr,
            ),
            final(rt).registry == old(rt).registry,
    {
        rt.object_unref(self.addr);
    }

    /// Cast to a declared ancestor: a zero-cost retagging of the same
    /// address, moving this handle's unit of the count.  No runtime check —
    /// the declared viewable-as relation already guarantees the layout.
    pub fn upcast(self, rt: &Runtime, target: usize) -> (h: Owned)
        requires
            self.wf(*rt),
            target < rt.registry.types@.len(),
            is_ancestor_or_self(rt.registry.types@, target, self.ty),
        ensures
            h == cast_spec(self, target),
            h.wf(*rt),
    {
        proof {
            lemma_ancestor_transitive(
                rt.registry.types@,
                target,
                self.ty,
                rt.type_of(self.addr),
            );
        }
        Owned { addr: self.addr, ty: target }
    }

    /// Cast to a declared descendant.  The declared relation makes the cast
    /// plausible at compile time; whether it holds is verified against the
    /// instance's dynamic type at run time.  On a mismatch the original
    /// handle comes back unchanged: nothing is lost or leaked.
    pub fn downcast(self, rt: &Runtime, target: usize) -> (r: Result<Owned, Owned>)
        requires
            self.wf(*rt),
            target < rt.registry.types@.len(),
            is_ancestor_or_self(rt.registry.types@, self.ty, target),
        ensures
            match r {
                Result::Ok(h) => dynamic_cast_spec(*rt, self, target) == Option::Some(h) && h.wf(
                    *rt,
                ),
                Result::Err(h) => dynamic_cast_spec(*rt, self, target) is None && h == self
                    && h.wf(*rt),
            },
    {
        self.dynamic_cast(rt, target)
    }

    /// Cast to an arbitrary registered class, checked against the instance's
    /// actual dynamic type.  On a mismatch the original handle comes back
    /// unchanged.
    pub fn dynamic_cast(self, rt: &Runtime, target: usize) -> (r: Result<Owned, Owned>)
        requires
            self.wf(*rt),
            target < rt.registry.types@.len(),
        ensures
            match r {
                Result::Ok(h) => dynamic_cast_spec(*rt, self, target) == Option::Some(h) && h.wf(
                    *rt,
                ),
                Result::Err(h) => dynamic_cast_spec(*rt, self, target) is None && h == self
                    && h.wf(*rt),
            },
    {
        match rt.object_dynamic_cast(self.addr, target) {
            Option::Some(addr) => Result::Ok(Owned { addr, ty: target }),
            Option::None => Result::Err(self),
        }
    }

    /// Unchecked cast: no runtime check of any kind, so the caller must know
    /// the instance's dynamic type can be viewed as `target` — stated here
    /// as a precondition rather than checked.
    pub fn unsafe_cast(self, rt: &Runtime, target: usize) -> (h: Owned)
        requires
            self.wf(*rt),
            target < rt.registry.types@.len(),
            is_ancestor_or_self(rt.registry.types@, target, rt.type_of(self.addr)),
        ensures
            h == cast_spec(self, target),
            h.wf(*rt),
    {
        Owned { addr: self.addr, ty: target }
    }

    /// The registered name of the instance's dynamic type.
    pub fn typename(&self, rt: &Runtime) -> (r: String)
        requires
            self.wf(*rt),
        ensures
            r@ == rt.registry.types@[rt.type_of(self.addr) as int].name@,
    {
        rt.object_get_typename(self.addr)
    }

    /// Detach the instance from the foreign ownership tree, dispatching the
    /// `unparent` operation its dynamic type resolves to.
    pub fn unparent(&self, rt: &mut Runtime)
        requires
            self.wf(*old(rt)),
            old(rt).calls@.len() + 1 <= usize::MAX,
        ensures
            self.wf(*final(rt)),
            final(rt).instances@ == old(rt).instances@.update(
                self.addr as int,
                (Instance { parented: false, ..old(rt).instances@[self.addr as int] }),
            ),
            final(rt).calls@ == old(rt).calls@ + hook_call(
                old(rt).registry.types@[old(rt).type_of(self.addr) as int].class.oc.unparent,
                self.addr,
            ),
            final(rt).registry == old(rt).registry,
    {
        rt.object_unparent(self.addr);
    }

    /// Dispatch the `realize` operation the instance's dynamic type resolves
    /// to, surfacing the foreign outcome as a native result.
    pub fn realize(&self, rt: &mut Runtime) -> (r: Result<(), Error>)
        requires
            self.wf(*old(rt)),
            old(rt).calls@.len() + 1 <= usize::MAX,
        ensures
            self.wf(*final(rt)),
            r is Ok,
            final(rt).instances == old(rt).instances,
            final(rt).calls@ == old(rt).calls@ + hook_call(
                old(rt).registry.types@[old(rt).type_of(self.addr) as int].class.realize,
                self.addr,
            ),
            final(rt).registry == old(rt).registry,
    {
        rt.device_realize(self.addr)
    }

    /// Dispatch the `cold reset` operation the instance's dynamic type
    /// resolves to.  Dispatch goes by the dynamic type alone, so the same
    /// override runs whatever static type this handle carries.
    pub fn cold_reset(&self, rt: &mut Runtime)
        requires
            self.wf(*old(rt)),
            old(rt).calls@.len() + 1 <= usize::MAX,
        ensures
            self.wf(*final(rt)),
            final(rt).instances == old(rt).instances,
            final(rt).calls@ == old(rt).calls@ + hook_call(
                old(rt).registry.types@[old(rt).type_of(self.addr) as int].class.cold_reset,
                self.addr,
            ),
            final(rt).registry == old(rt).registry,
    {
        rt.device_cold_reset(self.addr)
    }
}

/// A borrowed, statically typed reference to a foreign instance: a view
/// that owns no unit of the reference count.  It is valid only while the
/// instance is live — until its last owning handle is dropped or the
/// foreign side destroys it out of band.
#[derive(Clone, Copy, PartialEq, Eq, Structural, Debug)]
pub struct ObjectRef {
    /// The instance's address.
    pub addr: usize,
    /// The class the holder views the instance as.
    pub ty: usize,
}

impl ObjectRef {
    /// The reference addresses a live instance whose dynamic type can be
    /// viewed as the reference's static type.
    pub open spec fn wf(self, rt: Runtime) -> bool {
        &&& rt.wf()
        &&& rt.live(self.addr)
        &&& self.ty < rt.registry.types@.len()
        &&& is_ancestor_or_self(rt.registry.types@, self.ty, rt.type_of(self.addr))
    }

    /// Cast to a declared ancestor: a zero-cost retagging of the same
    /// address, reference-count-free, with the same validity bound.
    pub fn upcast(self, rt: &Runtime, target: usize) -> (r: ObjectRef)
        requires
            self.wf(*rt),
            target < rt.registry.types@.len(),
            is_ancestor_or_self(rt.registry.types@, target, self.ty),
        ensures
            r.addr == self.addr,
            r.ty == target,
            r.wf(*rt),
    {
        proof {
            lemma_ancestor_transitive(
                rt.registry.types@,
                target,
                self.ty,
                rt.type_of(self.addr),
            );
        }
        ObjectRef { addr: self.addr, ty: target }
    }

    /// Cast to a declared descendant, verified against the instance's
    /// dynamic type at run time.  The original reference stays valid either
    /// way — a borrowed reference is `Copy`.
    pub fn downcast(self, rt: &Runtime, target: usize) -> (r: Option<ObjectRef>)
        requires
            self.wf(*rt),
            target < rt.registry.types@.len(),
            is_ancestor_or_self(rt.registry.types@, self.ty, target),
        ensures
            match r {
                Option::Some(h) => is_ancestor_or_self(
                    rt.registry.types@,
                    target,
                    rt.type_of(self.addr),
                ) && h.addr == self.addr && h.ty == target && h.wf(*rt),
                Option::None => !is_ancestor_or_self(
                    rt.registry.types@,
                    target,
                    rt.type_of(self.addr),
                ),
            },
    {
        self.dynamic_cast(rt, target)
    }

    /// Cast to an arbitrary registered class, checked against the instance's
    /// actual dynamic type.
    pub fn dynamic_cast(self, rt: &Runtime, target: usize) -> (r: Option<ObjectRef>)
        requires
            self.wf(*rt),
            target < rt.registry.types@.len(),
        ensures
            match r {
                Option::Some(h) => is_ancestor_or_self(
                    rt.registry.types@,
                    target,
                    rt.type_of(self.addr),
                ) && h.addr == self.addr && h.ty == target && h.wf(*rt),
                Option::None => !is_ancestor_or_self(
                    rt.registry.types@,
                    target,
                    rt.type_of(self.addr),
                ),
            },
    {
        match rt.object_dynamic_cast(self.addr, target) {
            Option::Some(addr) => Option::Some(ObjectRef { addr, ty: target }),
            Option::None => Option::None,
        }
    }

    /// Unchecked cast: no check of any kind, so the caller must know the
    /// instance's dynamic type can be viewed as `target`.
    pub fn unsafe_cast(self, rt: &Runtime, target: usize) -> (r: ObjectRef)
        requires
            self.wf(*rt),
            target < rt.registry.types@.len(),
            is_ancestor_or_self(rt.registry.types@, target, rt.type_of(self.addr)),
        ensures
            r.addr == self.addr,
            r.ty == target,
            r.wf(*rt),
    {
        ObjectRef { addr: self.addr, ty: target }
    }

    /// The registered name of the instance's dynamic type.
    pub fn typename(&self, rt: &Runtime) -> (r: String)
        requires
            self.wf(*rt),
        ensures
            r@ == rt.registry.types@[rt.type_of(self.addr) as int].name@,
    {
        rt.object_get_typename(self.addr)
    }
}

impl Owned {
    /// Borrow the instance this handle owns a reference to: a
    /// reference-count-free view, valid while the handle (or any other
    /// owner) keeps the instance alive.
    pub fn as_ref(&self, rt: &Runtime) -> (r: ObjectRef)
        requires
            self.wf(*rt),
        ensures
            r.addr == self.addr,
            r.ty == self.ty,
            r.wf(*rt),
    {
        ObjectRef { addr: self.addr, ty: self.ty }
    }
}

/// Upcasting a live handle to a class it is declared viewable as, then
/// dynamic-casting back to the original static type, yields a handle to the
/// same address as the original.
pub proof fn lemma_upcast_roundtrip(rt: Runtime, h: Owned, b: usize)
    requires
        h.wf(rt),
        b < rt.registry.types@.len(),
        is_ancestor_or_self(rt.registry.types@, b, h.ty),
    ensures
        dynamic_cast_spec(rt, cast_spec(h, b), h.ty) == Option::Some(
            Owned { addr: h.addr, ty: h.ty },
        ),
{
}

/// Dynamic-casting an instance to a class unrelated to its dynamic type —
/// neither an ancestor nor a descendant of it — yields no handle; the failed
/// cast hands the original handle back, so the instance stays usable.
pub proof fn lemma_unrelated_cast_fails(rt: Runtime, h: Owned, d: usize)
    requires
        h.wf(rt),
        d < rt.registry.types@.len(),
        !is_ancestor_or_self(rt.registry.types@, d, rt.type_of(h.addr)),
        !is_ancestor_or_self(rt.registry.types@, rt.type_of(h.addr), d),
    ensures
        dynamic_cast_spec(rt, h, d) is None,
{
}

} // verus!
