//! The foreign runtime's instance bookkeeping: allocation, reference
//! counting, dynamic type lookup, and virtual dispatch.
//!
//! Every native-method invocation the runtime makes (lifecycle hooks and
//! populated class-table slots) is recorded in an invocation log, which is
//! what the dispatch and lifecycle contracts are stated over: dropping the
//! last reference appends exactly the instance's finalize sequence, and
//! invoking a virtual operation appends exactly the method the dynamic
//! type's resolved class table names.

use vstd::prelude::*;

use crate::error::Error;
use crate::object::Registry;
use crate::object::TypeEntry;

verus! {

/// One live or freed foreign instance: its dynamic type, its reference
/// count, whether it is still allocated, and whether it still hangs in the
/// foreign ownership tree.
#[derive(Clone, Copy, PartialEq, Eq, Structural, Debug)]
pub struct Instance {
    pub ty: usize,
    pub refcount: u64,
    pub live: bool,
    pub parented: bool,
}

/// One recorded invocation of a native method on an instance.
#[derive(Clone, Copy, PartialEq, Eq, Structural, Debug)]
pub struct MethodCall {
    pub method: u64,
    pub instance: usize,
}

/// The foreign runtime: its class registry, every instance ever allocated
/// (freed ones stay in place, dead, so addresses are never reused), and the
/// log of native-method invocations it has made.
pub struct Runtime {
    pub registry: Registry,
    pub instances: Vec<Instance>,
    pub calls: Vec<MethodCall>,
}

/// The invocation a hook produces, if the hook is populated.
pub open spec fn hook_call(h: Option<u64>, a: usize) -> Seq<MethodCall> {
    match h {
        Option::Some(m) => seq![MethodCall { method: m, instance: a }],
        Option::None => Seq::empty(),
    }
}

/// The invocations creating an instance of `ty` makes: its memory
/// initialization hook (which writes the whole instance's defaults), then
/// its instance-initialization hook.
pub open spec fn new_calls(types: Seq<TypeEntry>, ty: usize, a: usize) -> Seq<MethodCall> {
    hook_call(types[ty as int].instance_mem_init, a) + hook_call(
        types[ty as int].instance_init,
        a,
    )
}

/// The finalize sequence of an instance whose ancestor chain is `chain`:
/// each class's finalize hook, the instance's own class first, then up the
/// parent chain.
pub open spec fn finalize_calls(types: Seq<TypeEntry>, chain: Seq<usize>, a: usize) -> Seq<
    MethodCall,
>
    decreases chain.len(),
{
    if chain.len() == 0 {
        Seq::empty()
    } else {
        hook_call(types[chain[0] as int].instance_finalize, a) + finalize_calls(
            types,
            chain.drop_first(),
            a,
        )
    }
}

/// What dropping one reference to `a` appends to the invocation log: the
/// finalize sequence when this was the last reference, nothing otherwise.
pub open spec fn unref_calls(types: Seq<TypeEntry>, instances: Seq<Instance>, a: usize) -> Seq<
    MethodCall,
> {
    if instances[a as int].refcount == 1 {
        finalize_calls(types, types[instances[a as int].ty as int].ancestors@, a)
    } else {
        Seq::empty()
    }
}

/// The instance table after taking one more reference to `a`.
pub open spec fn spec_ref(instances: Seq<Instance>, a: usize) -> Seq<Instance> {
    instances.update(
        a as int,
        Instance { refcount: (instances[a as int].refcount + 1) as u64, ..instances[a as int] },
    )
}

/// The instance table after dropping one reference to `a`: the count goes
/// down by one, and reaching zero frees the instance.
pub open spec fn spec_unref(instances: Seq<Instance>, a: usize) -> Seq<Instance> {
    if instances[a as int].refcount == 1 {
        instances.update(a as int, Instance { refcount: 0, live: false, ..instances[a as int] })
    } else {
        instances.update(
            a as int,
            Instance {
                refcount: (instances[a as int].refcount - 1) as u64,
                ..instances[a as int]
            },
        )
    }
}

proof fn lemma_finalize_push(types: Seq<TypeEntry>, chain: Seq<usize>, c: usize, a: usize)
    ensures
        finalize_calls(types, chain.push(c), a) == finalize_calls(types, chain, a) + hook_call(
            types[c as int].instance_finalize,
            a,
        ),
    decreases chain.len(),
{
    if chain.len() == 0 {
        assert(chain.push(c)[0] == c);
        assert(chain.push(c).drop_first() =~= Seq::<usize>::empty());
        assert(finalize_calls(types, Seq::<usize>::empty(), a) == Seq::<MethodCall>::empty());
        assert(finalize_calls(types, chain.push(c), a) == hook_call(
            types[c as int].instance_finalize,
            a,
        ) + finalize_calls(types, Seq::<usize>::empty(), a));
        assert(finalize_calls(types, chain.push(c), a) =~= finalize_calls(types, chain, a)
            + hook_call(types[c as int].instance_finalize, a));
    } else {
        assert(chain.push(c)[0] == chain[0]);
        assert(chain.push(c).drop_first() =~= chain.drop_first().push(c));
        lemma_finalize_push(types, chain.drop_first(), c, a);
        assert(finalize_calls(types, chain.push(c), a) =~= finalize_calls(types, chain, a)
            + hook_call(types[c as int].instance_finalize, a));
    }
}

impl Runtime {
    /// The registry is sound, every instance's dynamic type is registered,
    /// and every live instance holds at least one reference.
    pub open spec fn wf(self) -> bool {
        &&& self.registry.wf()
        &&& forall|i: int|
            0 <= i < self.instances@.len() ==> (#[trigger] self.instances@[i]).ty
                < self.registry.types@.len()
        &&& forall|i: int|
            0 <= i < self.instances@.len() ==> ((#[trigger] self.instances@[i]).live
                ==> self.instances@[i].refcount >= 1)
    }

    /// The address `a` names a live instance.
    pub open spec fn live(self, a: usize) -> bool {
        a < self.instances@.len() && self.instances@[a as int].live
    }

    /// The dynamic type of the instance at `a`.
    pub open spec fn type_of(self, a: usize) -> usize {
        self.instances@[a as int].ty
    }

    pub fn new(registry: Registry) -> (rt: Runtime)
        requires
            registry.wf(),
        ensures
            rt.registry == registry,
            rt.instances@.len() == 0,
            rt.calls@.len() == 0,
            rt.wf(),
    {
        Runtime { registry, instances: Vec::new(), calls: Vec::new() }
    }

    /// Replace the instance record at `a`.
    fn set_instance(&mut self, a: usize, inst: Instance)
        requires
            a < old(self).instances@.len(),
        ensures
            final(self).instances@ == old(self).instances@.update(a as int, inst),
            final(self).registry == old(self).registry,
            final(self).calls == old(self).calls,
    {
        self.instances.remove(a);
        self.instances.insert(a, inst);
        proof {
            assert(self.instances@ =~= old(self).instances@.update(a as int, inst));
        }
    }

    /// Append the invocations of a hook, if it is populated.
    fn log_hook(&mut self, h: Option<u64>, a: usize)
        requires
            old(self).calls@.len() + 1 <= usize::MAX,
        ensures
            final(self).calls@ == old(self).calls@ + hook_call(h, a),
            final(self).registry == old(self).registry,
            final(self).instances == old(self).instances,
    {
        match h {
            Option::Some(m) => {
                self.calls.push(MethodCall { method: m, instance: a });
                proof {
                    assert(self.calls@ =~= old(self).calls@ + hook_call(h, a));
                }
            },
            Option::None => {
                proof {
                    assert(self.calls@ =~= old(self).calls@ + hook_call(h, a));
                }
            },
        }
    }

    /// Allocate a fresh instance of the registered class `ty`: its reference
    /// count starts at one, and its initialization hooks run.
    pub fn object_new(&mut self, ty: usize) -> (a: usize)
        requires
            old(self).wf(),
            ty < old(self).registry.types@.len(),
            old(self).instances@.len() + 1 <= usize::MAX,
            old(self).calls@.len() + 2 <= usize::MAX,
        ensures
            final(self).wf(),
            a == old(self).instances@.len(),
            final(self).instances@ == old(self).instances@.push(
                Instance { ty, refcount: 1, live: true, parented: true },
            ),
            final(self).calls@ == old(self).calls@ + new_calls(
                old(self).registry.types@,
                ty,
                a,
            ),
            final(self).registry == old(self).registry,
    {
        let a = self.instances.len();
        self.instances.push(Instance { ty, refcount: 1, live: true, parented: true });
        let mem_init = self.registry.types[ty].instance_mem_init;
        let init = self.registry.types[ty].instance_init;
        self.log_hook(mem_init, a);
        self.log_hook(init, a);
        proof {
            assert(self.calls@ =~= old(self).calls@ + new_calls(
                old(self).registry.types@,
                ty,
                a,
            ));
        }
        a
    }

    /// Take one more reference to the live instance at `a`.
    pub fn object_ref(&mut self, a: usize)
        requires
            old(self).wf(),
            old(self).live(a),
            old(self).instances@[a as int].refcount < u64::MAX,
        ensures
            final(self).wf(),
            final(self).instances@ == spec_ref(old(self).instances@, a),
            final(self).calls == old(self).calls,
            final(self).registry == old(self).registry,
    {
        let inst = self.instances[a];
        self.set_instance(a, Instance { refcount: inst.refcount + 1, ..inst });
    }

    /// Drop one reference to the live instance at `a`.  Dropping the last
    /// reference finalizes the instance — each class's finalize hook runs,
    /// the instance's own class first, then up the parent chain — and frees
    /// it, exactly then.
    pub fn object_unref(&mut self, a: usize)
        requires
            old(self).wf(),
            old(self).live(a),
            old(self).calls@.len() + old(self).registry.types@.len() <= usize::MAX,
        ensures
            final(self).wf(),
            final(self).instances@ == spec_unref(old(self).instances@, a),
            final(self).calls@ == old(self).calls@ + unref_calls(
                old(self).registry.types@,
                old(self).instances@,
                a,
            ),
            final(self).registry == old(self).registry,
    {
        let inst = self.instances[a];
        if inst.refcount == 1 {
            let ghost types = self.registry.types@;
            let ghost chain = self.registry.types@[inst.ty as int].ancestors@;
            let n = self.registry.types[inst.ty].ancestors.len();
            proof {
                crate::object::lemma_chain_in_range(self.registry.types@, inst.ty as int);
                crate::object::lemma_chain_len(self.registry.types@, inst.ty as int);
            }
            let mut k: usize = 0;
            while k < n
                invariant
                    self.wf(),
                    inst.ty < self.registry.types@.len(),
                    self.registry == old(self).registry,
                    self.instances == old(self).instances,
                    types == self.registry.types@,
                    chain == types[inst.ty as int].ancestors@,
                    n == chain.len(),
                    0 <= k <= n,
                    n <= types.len(),
                    forall|j: int| 0 <= j < chain.len() ==> #[trigger] chain[j] < types.len(),
                    old(self).calls@.len() + types.len() <= usize::MAX,
                    self.calls@ == old(self).calls@ + finalize_calls(
                        types,
                        chain.take(k as int),
                        a,
                    ),
                decreases n - k,
            {
                proof {
                    assert(chain.take(k as int + 1) =~= chain.take(k as int).push(
                        chain[k as int],
                    ));
                    lemma_finalize_push(types, chain.take(k as int), chain[k as int], a);
                    assert(finalize_calls(types, chain.take(k as int), a).len() <= chain.take(
                        k as int,
                    ).len()) by {
                        lemma_finalize_len(types, chain.take(k as int), a);
                    }
                    assert(self.calls@.len() == old(self).calls@.len() + finalize_calls(
                        types,
                        chain.take(k as int),
                        a,
                    ).len());
                    assert(self.calls@.len() + 1 <= usize::MAX);
                }
                let c = self.registry.types[inst.ty].ancestors[k];
                let h = self.registry.types[c].instance_finalize;
                self.log_hook(h, a);
                k = k + 1;
            }
            proof {
                assert(chain.take(n as int) =~= chain);
            }
            self.set_instance(a, Instance { refcount: 0, live: false, ..inst });
        } else {
            self.set_instance(a, Instance { refcount: inst.refcount - 1, ..inst });
            proof {
                assert(self.calls@ =~= old(self).calls@ + unref_calls(
                    old(self).registry.types@,
                    old(self).instances@,
                    a,
                ));
            }
        }
    }

    /// Ask whether the live instance at `a` is of class `target` or one of
    /// its descendants: the one operation that consults the actual dynamic
    /// type.  Yields the same address on a match and nothing otherwise.
    pub fn object_dynamic_cast(&self, a: usize, target: usize) -> (r: Option<usize>)
        requires
            self.wf(),
            self.live(a),
            target < self.registry.types@.len(),
        ensures
            r == if crate::object::is_ancestor_or_self(
                self.registry.types@,
                target,
                self.type_of(a),
            ) {
                Option::Some(a)
            } else {
                Option::<usize>::None
            },
    {
        let ty = self.instances[a].ty;
        let n = self.registry.types[ty].ancestors.len();
        let mut k: usize = 0;
        while k < n
            invariant
                self.live(a),
                ty == self.type_of(a),
                ty < self.registry.types@.len(),
                n == self.registry.types@[ty as int].ancestors@.len(),
                0 <= k <= n,
                forall|j: int|
                    0 <= j < k ==> self.registry.types@[ty as int].ancestors@[j] != target,
            decreases n - k,
        {
            if self.registry.types[ty].ancestors[k] == target {
                proof {
                    assert(ty == self.type_of(a));
                    assert(self.registry.types@[ty as int].ancestors@.contains(target)) by {
                        assert(self.registry.types@[ty as int].ancestors@[k as int] == target);
                    }
                    assert(crate::object::is_ancestor_or_self(
                        self.registry.types@,
                        target,
                        self.type_of(a),
                    ));
                }
                return Option::Some(a);
            }
            k = k + 1;
        }
        proof {
            assert(!self.registry.types@[ty as int].ancestors@.contains(target));
        }
        Option::None
    }

    /// The registered name of the live instance's dynamic type.
    pub fn object_get_typename(&self, a: usize) -> (r: String)
        requires
            self.wf(),
            self.live(a),
        ensures
            r@ == self.registry.types@[self.type_of(a) as int].name@,
    {
        let ty = self.instances[a].ty;
        self.registry.types[ty].name.clone()
    }

    /// Detach the live instance from the foreign ownership tree, running the
    /// `unparent` operation its dynamic type's class table resolves to.
    /// Reference counting still governs the instance's lifetime.
    pub fn object_unparent(&mut self, a: usize)
        requires
            old(self).wf(),
            old(self).live(a),
            old(self).calls@.len() + 1 <= usize::MAX,
        ensures
            final(self).wf(),
            final(self).instances@ == old(self).instances@.update(
                a as int,
                Instance { parented: false, ..old(self).instances@[a as int] },
            ),
            final(self).calls@ == old(self).calls@ + hook_call(
                old(self).registry.types@[old(self).type_of(a) as int].class.oc.unparent,
                a,
            ),
            final(self).registry == old(self).registry,
    {
        let inst = self.instances[a];
        let h = self.registry.types[inst.ty].class.oc.unparent;
        self.log_hook(h, a);
        self.set_instance(a, Instance { parented: false, ..inst });
    }

    /// Run the `realize` operation the live instance's dynamic type resolves
    /// to, if any.  The foreign runtime reports its outcome through the
    /// error convention; the invocation itself is what is recorded here.
    pub fn device_realize(&mut self, a: usize) -> (r: Result<(), Error>)
        requires
            old(self).wf(),
            old(self).live(a),
            old(self).calls@.len() + 1 <= usize::MAX,
        ensures
            final(self).wf(),
            r is Ok,
            final(self).instances == old(self).instances,
            final(self).calls@ == old(self).calls@ + hook_call(
                old(self).registry.types@[old(self).type_of(a) as int].class.realize,
                a,
            ),
            final(self).registry == old(self).registry,
    {
        let inst = self.instances[a];
        let h = self.registry.types[inst.ty].class.realize;
        self.log_hook(h, a);
        Result::Ok(())
    }

    /// Run the `cold reset` operation the live instance's dynamic type
    /// resolves to, if any: virtual dispatch goes by the dynamic type, never
    /// by the static type of the reference in hand.
    pub fn device_cold_reset(&mut self, a: usize)
        requires
            old(self).wf(),
            old(self).live(a),
            old(self).calls@.len() + 1 <= usize::MAX,
        ensures
            final(self).wf(),
            final(self).instances == old(self).instances,
            final(self).calls@ == old(self).calls@ + hook_call(
                old(self).registry.types@[old(self).type_of(a) as int].class.cold_reset,
                a,
            ),
            final(self).registry == old(self).registry,
    {
        let inst = self.instances[a];
        let h = self.registry.types[inst.ty].class.cold_reset;
        self.log_hook(h, a);
    }

    /// The reference count of the instance at `a`.
    pub fn refcount(&self, a: usize) -> (r: u64)
        requires
            a < self.instances@.len(),
        ensures
            r == self.instances@[a as int].refcount,
    {
        self.instances[a].refcount
    }

    /// Whether the instance at `a` is still allocated.
    pub fn is_live(&self, a: usize) -> (r: bool)
        requires
            a < self.instances@.len(),
        ensures
            r == self.live(a),
    {
        self.instances[a].live
    }

    /// How many times the native method `m` has been invoked on the
    /// instance at `a`.
    pub fn call_count(&self, m: u64, a: usize) -> (r: usize)
        ensures
            r == count_calls(self.calls@, m, a),
    {
        let n = self.calls.len();
        let mut count: usize = 0;
        let mut k: usize = 0;
        while k < n
            invariant
                n == self.calls@.len(),
                0 <= k <= n,
                count <= k,
                count == count_calls(self.calls@.take(k as int), m, a),
            decreases n - k,
        {
            proof {
                assert(self.calls@.take(k as int + 1).drop_last() =~= self.calls@.take(
                    k as int,
                ));
                assert(self.calls@.take(k as int + 1).last() == self.calls@[k as int]);
            }
            let c = self.calls[k];
            if c.method == m && c.instance == a {
                count = count + 1;
            }
            k = k + 1;
        }
        proof {
            assert(self.calls@.take(n as int) =~= self.calls@);
        }
        count
    }
}

/// How many invocations of method `m` on instance `a` a log holds.
pub open spec fn count_calls(calls: Seq<MethodCall>, m: u64, a: usize) -> int
    decreases calls.len(),
{
    if calls.len() == 0 {
        0
    } else {
        count_calls(calls.drop_last(), m, a) + if calls.last().method == m
            && calls.last().instance == a {
            1int
        } else {
            0int
        }
    }
}

proof fn lemma_finalize_len(types: Seq<TypeEntry>, chain: Seq<usize>, a: usize)
    ensures
        finalize_calls(types, chain, a).len() <= chain.len(),
    decreases chain.len(),
{
    if chain.len() > 0 {
        lemma_finalize_len(types, chain.drop_first(), a);
    }
}

/// Taking a reference raises the count by one and changes nothing else;
/// dropping one lowers it by one, freeing the instance exactly when the
/// count reaches zero.  So cloning a handle `n` times and then dropping `k`
/// of the `n + 1` handles leaves the instance live with count `n + 1 - k`
/// as long as one handle remains, and the last drop — exactly the last —
/// frees it.
pub proof fn lemma_clone_drop_balance(instances: Seq<Instance>, a: usize, n: nat, k: nat)
    requires
        a < instances.len(),
        instances[a as int].live,
        instances[a as int].refcount == 1,
        n + 1 <= u64::MAX,
        k <= n + 1,
    ensures
        ({
            let s = iter_unref(iter_ref(instances, a, n), a, k);
            &&& k <= n ==> s[a as int].live && s[a as int].refcount == n + 1 - k
            &&& k == n + 1 ==> !s[a as int].live && s[a as int].refcount == 0
        }),
{
    lemma_iter_ref(instances, a, n);
    lemma_iter_unref(iter_ref(instances, a, n), a, k);
}

/// The instance table after taking `n` more references to `a`.
pub open spec fn iter_ref(instances: Seq<Instance>, a: usize, n: nat) -> Seq<Instance>
    decreases n,
{
    if n == 0 {
        instances
    } else {
        spec_ref(iter_ref(instances, a, (n - 1) as nat), a)
    }
}

/// The instance table after dropping `k` references to `a`.
pub open spec fn iter_unref(instances: Seq<Instance>, a: usize, k: nat) -> Seq<Instance>
    decreases k,
{
    if k == 0 {
        instances
    } else {
        spec_unref(iter_unref(instances, a, (k - 1) as nat), a)
    }
}

proof fn lemma_iter_ref(instances: Seq<Instance>, a: usize, n: nat)
    requires
        a < instances.len(),
        instances[a as int].live,
        instances[a as int].refcount + n <= u64::MAX,
    ensures
        iter_ref(instances, a, n).len() == instances.len(),
        iter_ref(instances, a, n)[a as int] == (Instance {
            refcount: (instances[a as int].refcount + n) as u64,
            ..instances[a as int]
        }),
    decreases n,
{
    if n > 0 {
        lemma_iter_ref(instances, a, (n - 1) as nat);
    } else {
        assert(iter_ref(instances, a, 0)[a as int] == instances[a as int]);
    }
}

proof fn lemma_iter_unref(instances: Seq<Instance>, a: usize, k: nat)
    requires
        a < instances.len(),
        instances[a as int].live,
        instances[a as int].refcount >= 1,
        k <= instances[a as int].refcount,
    ensures
        iter_unref(instances, a, k).len() == instances.len(),
        k < instances[a as int].refcount ==> iter_unref(instances, a, k)[a as int] == (Instance {
            refcount: (instances[a as int].refcount - k) as u64,
            ..instances[a as int]
        }),
        k == instances[a as int].refcount ==> iter_unref(instances, a, k)[a as int] == (Instance {
            refcount: 0,
            live: false,
            ..instances[a as int]
        }),
    decreases k,
{
    if k > 0 {
        lemma_iter_unref(instances, a, (k - 1) as nat);
    } else {
        assert(iter_unref(instances, a, 0)[a as int] == instances[a as int]);
    }
}

/// A fresh instance dropped immediately runs its finalize sequence exactly
/// once: when only the instance's own class declares a finalize hook, the
/// single drop appends that hook's invocation exactly once — not zero times
/// and not twice.
pub proof fn lemma_fresh_drop_finalizes_once(
    types: Seq<TypeEntry>,
    instances: Seq<Instance>,
    a: usize,
    m: u64,
)
    requires
        a < instances.len(),
        instances[a as int].live,
        instances[a as int].refcount == 1,
        instances[a as int].ty < types.len(),
        ({
            let chain = types[instances[a as int].ty as int].ancestors@;
            &&& chain.len() >= 1
            &&& chain[0] == instances[a as int].ty
            &&& types[chain[0] as int].instance_finalize == Option::Some(m)
            &&& forall|j: int|
                1 <= j < chain.len() ==> (#[trigger] types[chain[j] as int].instance_finalize)
                    is None
        }),
    ensures
        !spec_unref(instances, a)[a as int].live,
        unref_calls(types, instances, a) == seq![MethodCall { method: m, instance: a }],
        count_calls(unref_calls(types, instances, a), m, a) == 1,
{
    let chain = types[instances[a as int].ty as int].ancestors@;
    lemma_single_finalize(types, chain, a, m);
    let s = unref_calls(types, instances, a);
    assert(s == seq![MethodCall { method: m, instance: a }]);
    assert(s.drop_last() =~= Seq::<MethodCall>::empty());
    assert(count_calls(Seq::<MethodCall>::empty(), m, a) == 0);
    assert(count_calls(s, m, a) == count_calls(Seq::<MethodCall>::empty(), m, a) + 1);
}

proof fn lemma_single_finalize(types: Seq<TypeEntry>, chain: Seq<usize>, a: usize, m: u64)
    requires
        chain.len() >= 1,
        types[chain[0] as int].instance_finalize == Option::Some(m),
        forall|j: int|
            1 <= j < chain.len() ==> (#[trigger] types[chain[j] as int].instance_finalize)
                is None,
    ensures
        finalize_calls(types, chain, a) == seq![MethodCall { method: m, instance: a }],
{
    lemma_no_finalize(types, chain.drop_first(), a);
    assert(forall|j: int|
        0 <= j < chain.drop_first().len() ==> chain.drop_first()[j] == chain[j + 1]);
    assert(finalize_calls(types, chain, a) =~= seq![MethodCall { method: m, instance: a }]);
}

proof fn lemma_no_finalize(types: Seq<TypeEntry>, chain: Seq<usize>, a: usize)
    requires
        forall|j: int|
            0 <= j < chain.len() ==> (#[trigger] types[chain[j] as int].instance_finalize)
                is None,
    ensures
        finalize_calls(types, chain, a) == Seq::<MethodCall>::empty(),
    decreases chain.len(),
{
    if chain.len() > 0 {
        assert(forall|j: int|
            0 <= j < chain.drop_first().len() ==> chain.drop_first()[j] == chain[j + 1]);
        lemma_no_finalize(types, chain.drop_first(), a);
        assert(finalize_calls(types, chain, a) =~= Seq::<MethodCall>::empty());
    }
}

} // verus!
