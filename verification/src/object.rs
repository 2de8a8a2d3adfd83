//! Type identity, class tables, and registration.
//!
//! Every class has a unique foreign name, an optional parent, an instance
//! size, optional lifecycle hooks, and a class table of overridable
//! virtual-method slots.  Registration resolves the class table once, at
//! class-registration time: a slot the class itself does not populate is
//! inherited from the parent's resolved table, so a class overriding only
//! one operation still inherits its parent's other overrides.
//!
//! Native methods (overrides and lifecycle hooks) are identified by opaque
//! method identifiers; the runtime logs their invocations, which is what
//! virtual dispatch is held to.

use vstd::prelude::*;

use crate::error::Error;

verus! {

/// Generic information about one kind of configuration property.
pub struct PropertyInfo {
    pub name: String,
    pub description: String,
}

/// A configuration field a class exposes generically: a name, the field's
/// byte offset inside the instance, a default value, and its kind.
pub struct Property {
    pub name: String,
    pub offset: usize,
    pub default: u64,
    pub info: PropertyInfo,
}

/// The mathematical content of a [`Property`].
#[verifier::ext_equal]
pub struct PropertyView {
    pub name: Seq<char>,
    pub offset: usize,
    pub default: u64,
    pub info_name: Seq<char>,
}

impl View for Property {
    type V = PropertyView;

    open spec fn view(&self) -> PropertyView {
        PropertyView {
            name: self.name@,
            offset: self.offset,
            default: self.default,
            info_name: self.info.name@,
        }
    }
}

/// The views of a property table.
pub open spec fn props_view(v: Seq<Property>) -> Seq<PropertyView> {
    v.map_values(|p: Property| p@)
}

/// The property kind of a boolean configuration field.
pub struct QdevPropBool;

impl QdevPropBool {
    /// The generic kind descriptor for boolean properties.
    pub fn info() -> (r: PropertyInfo)
        ensures
            r.name@ == "bool"@,
            r.description@ == "on/off"@,
    {
        PropertyInfo { name: "bool".to_owned(), description: "on/off".to_owned() }
    }

    /// A boolean default encoded as the property table's 64-bit default.
    pub fn convert(value: &bool) -> (r: u64)
        ensures
            r == if *value {
                1u64
            } else {
                0u64
            },
    {
        if *value {
            1
        } else {
            0
        }
    }
}

/// The base class table: the slots every object supports.  A populated slot
/// names the native method that overrides the operation; an empty slot means
/// the operation is inherited.
pub struct ObjectClass {
    pub unparent: Option<u64>,
}

/// The device class table: the base table plus the device-level slots and
/// the class's property table.
pub struct DeviceClass {
    pub oc: ObjectClass,
    pub realize: Option<u64>,
    pub unrealize: Option<u64>,
    pub cold_reset: Option<u64>,
    pub properties: Vec<Property>,
}

impl DeviceClass {
    /// A table with every slot empty and no properties.
    pub fn empty() -> (r: DeviceClass)
        ensures
            r.oc.unparent is None,
            r.realize is None,
            r.unrealize is None,
            r.cold_reset is None,
            r.properties@.len() == 0,
    {
        DeviceClass {
            oc: ObjectClass { unparent: Option::None },
            realize: Option::None,
            unrealize: Option::None,
            cold_reset: Option::None,
            properties: Vec::new(),
        }
    }
}

/// Which base-class operations a native class overrides.  Implemented by
/// the description of each class defined on the native side.
pub trait ObjectImpl {
    /// The override for the `unparent` operation, if the class declares one.
    spec fn unparent_spec(&self) -> Option<u64>;

    fn unparent_override(&self) -> (r: Option<u64>)
        ensures
            r == self.unparent_spec(),
    ;
}

/// Layout facts about a native device class: where its configuration
/// struct sits, and the property table it exposes.
pub trait DeviceTypeImpl {
    /// The byte offset of the class's configuration struct inside the
    /// instance.
    spec fn conf_offset_spec(&self) -> usize;

    /// The class's declared property table.
    spec fn properties_spec(&self) -> Seq<PropertyView>;

    fn conf_offset(&self) -> (r: usize)
        ensures
            r == self.conf_offset_spec(),
    ;

    fn properties(&self) -> (r: Vec<Property>)
        ensures
            props_view(r@) == self.properties_spec(),
    ;
}

/// Which device-class operations a native class overrides.
pub trait DeviceImpl: ObjectImpl + DeviceTypeImpl {
    /// The override for the `realize` operation, if any.
    spec fn realize_spec(&self) -> Option<u64>;

    /// The override for the `unrealize` operation, if any.
    spec fn unrealize_spec(&self) -> Option<u64>;

    /// The override for the `cold reset` operation, if any.
    spec fn cold_reset_spec(&self) -> Option<u64>;

    fn realize_override(&self) -> (r: Option<u64>)
        ensures
            r == self.realize_spec(),
    ;

    fn unrealize_override(&self) -> (r: Option<u64>)
        ensures
            r == self.unrealize_spec(),
    ;

    fn cold_reset_override(&self) -> (r: Option<u64>)
        ensures
            r == self.cold_reset_spec(),
    ;
}

impl ObjectClass {
    /// Install a native class description's base-class overrides: a slot is
    /// populated exactly when the class declares that override.
    pub fn class_init<T: ObjectImpl>(&mut self, d: &T)
        ensures
            final(self).unparent == d.unparent_spec(),
    {
        self.unparent = d.unparent_override();
    }
}

impl DeviceClass {
    /// Install a native class description's device-class overrides and its
    /// property table, then the base-class overrides: each slot is populated
    /// exactly when the class declares that override.
    pub fn class_init<T: DeviceImpl>(&mut self, d: &T)
        ensures
            final(self).realize == d.realize_spec(),
            final(self).unrealize == d.unrealize_spec(),
            final(self).cold_reset == d.cold_reset_spec(),
            props_view(final(self).properties@) == d.properties_spec(),
            final(self).oc.unparent == d.unparent_spec(),
    {
        self.realize = d.realize_override();
        self.unrealize = d.unrealize_override();
        self.cold_reset = d.cold_reset_override();
        self.properties = d.properties();
        self.oc.class_init(d);
    }
}

/// Copy a property record.
pub fn clone_property(p: &Property) -> (r: Property)
    ensures
        r@ == p@,
{
    Property {
        name: p.name.clone(),
        offset: p.offset,
        default: p.default,
        info: PropertyInfo {
            name: p.info.name.clone(),
            description: p.info.description.clone(),
        },
    }
}

/// A plain, field-backed description of a native class: which operations it
/// overrides (by native-method identifier), where its configuration struct
/// sits, and the property table it exposes.
pub struct ClassDesc {
    pub unparent: Option<u64>,
    pub realize: Option<u64>,
    pub unrealize: Option<u64>,
    pub cold_reset: Option<u64>,
    pub conf_offset: usize,
    pub props: Vec<Property>,
}

impl ClassDesc {
    /// A description that overrides nothing and exposes no properties.
    pub fn plain() -> (r: ClassDesc)
        ensures
            r.unparent is None,
            r.realize is None,
            r.unrealize is None,
            r.cold_reset is None,
            r.conf_offset == 0,
            r.props@.len() == 0,
    {
        ClassDesc {
            unparent: Option::None,
            realize: Option::None,
            unrealize: Option::None,
            cold_reset: Option::None,
            conf_offset: 0,
            props: Vec::new(),
        }
    }
}

impl ObjectImpl for ClassDesc {
    open spec fn unparent_spec(&self) -> Option<u64> {
        self.unparent
    }

    fn unparent_override(&self) -> (r: Option<u64>) {
        self.unparent
    }
}

impl DeviceTypeImpl for ClassDesc {
    open spec fn conf_offset_spec(&self) -> usize {
        self.conf_offset
    }

    open spec fn properties_spec(&self) -> Seq<PropertyView> {
        props_view(self.props@)
    }

    fn conf_offset(&self) -> (r: usize) {
        self.conf_offset
    }

    fn properties(&self) -> (r: Vec<Property>) {
        let n = self.props.len();
        let mut out: Vec<Property> = Vec::new();
        proof {
            assert(props_view(out@) =~= props_view(self.props@.take(0)));
        }
        let mut k: usize = 0;
        while k < n
            invariant
                n == self.props@.len(),
                0 <= k <= n,
                out@.len() == k,
                forall|j: int| 0 <= j < k ==> (#[trigger] out@[j])@ == self.props@[j]@,
            decreases n - k,
        {
            out.push(clone_property(&self.props[k]));
            k = k + 1;
        }
        proof {
            assert forall|j: int| 0 <= j < out@.len() implies props_view(out@)[j] == props_view(
                self.props@,
            )[j] by {
                assert(props_view(out@)[j] == out@[j]@);
                assert(props_view(self.props@)[j] == self.props@[j]@);
            }
            assert(props_view(out@) =~= props_view(self.props@));
        }
        out
    }
}

impl DeviceImpl for ClassDesc {
    open spec fn realize_spec(&self) -> Option<u64> {
        self.realize
    }

    open spec fn unrealize_spec(&self) -> Option<u64> {
        self.unrealize
    }

    open spec fn cold_reset_spec(&self) -> Option<u64> {
        self.cold_reset
    }

    fn realize_override(&self) -> (r: Option<u64>) {
        self.realize
    }

    fn unrealize_override(&self) -> (r: Option<u64>) {
        self.unrealize
    }

    fn cold_reset_override(&self) -> (r: Option<u64>) {
        self.cold_reset
    }
}

/// A type whose all-empty value is meaningful: what a foreign descriptor
/// looks like before any field is filled in.
pub trait Zeroed: Sized {
    /// Whether a value is the all-empty one.
    spec fn is_zeroed(&self) -> bool;

    fn zeroed() -> (r: Self)
        ensures
            r.is_zeroed(),
    ;
}

/// The registration record for one class.
pub struct TypeInfo {
    pub name: String,
    pub parent: Option<String>,
    pub instance_size: usize,
    pub instance_mem_init: Option<u64>,
    pub instance_init: Option<u64>,
    pub instance_finalize: Option<u64>,
    pub class: DeviceClass,
}

impl Zeroed for TypeInfo {
    open spec fn is_zeroed(&self) -> bool {
        &&& self.name@.len() == 0
        &&& self.parent is None
        &&& self.instance_size == 0
        &&& self.instance_mem_init is None
        &&& self.instance_init is None
        &&& self.instance_finalize is None
        &&& self.class.oc.unparent is None
        &&& self.class.realize is None
        &&& self.class.unrealize is None
        &&& self.class.cold_reset is None
        &&& self.class.properties@.len() == 0
    }

    fn zeroed() -> (r: TypeInfo) {
        TypeInfo {
            name: String::new(),
            parent: Option::None,
            instance_size: 0,
            instance_mem_init: Option::None,
            instance_init: Option::None,
            instance_finalize: Option::None,
            class: DeviceClass::empty(),
        }
    }
}

/// One registered class: the resolved form of a [`TypeInfo`], with the
/// parent looked up, the ancestor chain precomputed, and the class table
/// resolved against the parent's.
pub struct TypeEntry {
    pub name: String,
    pub parent: Option<usize>,
    /// This class first, then its parent, and so on up to the root.
    pub ancestors: Vec<usize>,
    pub instance_size: usize,
    pub instance_mem_init: Option<u64>,
    pub instance_init: Option<u64>,
    pub instance_finalize: Option<u64>,
    pub class: DeviceClass,
}

/// The foreign runtime's class registry.
pub struct Registry {
    pub types: Vec<TypeEntry>,
}

/// Structural soundness of the entry at `i`: its parent (if any) was
/// registered earlier, and its ancestor chain is itself followed by its
/// parent's chain.
pub open spec fn entry_wf(types: Seq<TypeEntry>, i: int) -> bool {
    match types[i].parent {
        Option::None => types[i].ancestors@ == seq![i as usize],
        Option::Some(p) => p < i && types[i].ancestors@ == seq![i as usize] + types[p as int].ancestors@,
    }
}

/// Some registered class bears `name`.
pub open spec fn has_type_name(types: Seq<TypeEntry>, name: Seq<char>) -> bool {
    exists|j: int| 0 <= j < types.len() && types[j].name@ == name
}

/// The index of the class bearing `name` (unique in a well-formed registry).
pub open spec fn index_of_name(types: Seq<TypeEntry>, name: Seq<char>) -> int {
    choose|j: int| 0 <= j < types.len() && types[j].name@ == name
}

/// The class `anc` is `ty` itself or one of its ancestors: an instance of
/// `ty` begins, directly or transitively, with an instance of `anc`.
pub open spec fn is_ancestor_or_self(types: Seq<TypeEntry>, anc: usize, ty: usize) -> bool {
    types[ty as int].ancestors@.contains(anc)
}

/// A populated slot wins over the inherited one.
pub open spec fn slot_or(decl: Option<u64>, inherited: Option<u64>) -> Option<u64> {
    if decl is Some {
        decl
    } else {
        inherited
    }
}

/// Whether two strings hold the same characters.
pub fn str_eq(a: &str, b: &str) -> (r: bool)
    ensures
        r == (a@ == b@),
{
    let na = a.unicode_len();
    let nb = b.unicode_len();
    if na != nb {
        proof {
            assert(a@.len() != b@.len());
        }
        return false;
    }
    let mut i: usize = 0;
    while i < na
        invariant
            na == a@.len(),
            na == b@.len(),
            0 <= i <= na,
            forall|k: int| 0 <= k < i ==> a@[k] == b@[k],
        decreases na - i,
    {
        if a.get_char(i) != b.get_char(i) {
            return false;
        }
        i = i + 1;
    }
    proof {
        assert(a@ =~= b@);
    }
    true
}

impl Registry {
    /// Every entry is structurally sound and names are unique.
    pub open spec fn wf(self) -> bool {
        &&& forall|i: int| 0 <= i < self.types@.len() ==> #[trigger] entry_wf(self.types@, i)
        &&& forall|i: int, j: int|
            0 <= i < j < self.types@.len() ==> (#[trigger] self.types@[i].name@)
                != (#[trigger] self.types@[j].name@)
    }

    pub fn new() -> (r: Registry)
        ensures
            r.types@.len() == 0,
            r.wf(),
    {
        Registry { types: Vec::new() }
    }

    /// Look a class up by name.
    pub fn find(&self, name: &str) -> (r: Option<usize>)
        ensures
            match r {
                Option::Some(i) => i < self.types@.len() && self.types@[i as int].name@ == name@,
                Option::None => !has_type_name(self.types@, name@),
            },
    {
        let n = self.types.len();
        let mut j: usize = 0;
        while j < n
            invariant
                n == self.types@.len(),
                0 <= j <= n,
                forall|k: int| 0 <= k < j ==> self.types@[k].name@ != name@,
            decreases n - j,
        {
            if str_eq(self.types[j].name.as_str(), name) {
                return Option::Some(j);
            }
            j = j + 1;
        }
        Option::None
    }

    /// How many classes are registered.
    pub fn len(&self) -> (n: usize)
        ensures
            n == self.types@.len(),
    {
        self.types.len()
    }
}

/// What registering a class with these declared facts does.
pub open spec fn register_outcome(
    types0: Seq<TypeEntry>,
    name: Seq<char>,
    parent: Option<Seq<char>>,
    instance_size: usize,
    instance_mem_init: Option<u64>,
    instance_init: Option<u64>,
    instance_finalize: Option<u64>,
    decl: DeclaredClass,
    types1: Seq<TypeEntry>,
    r: Result<usize, Error>,
) -> bool {
    let dup = has_type_name(types0, name);
    let parent_ok = match parent {
        Option::None => true,
        Option::Some(pn) => has_type_name(types0, pn),
    };
    match r {
        Result::Ok(id) => {
            &&& !dup && parent_ok
            &&& id == types0.len()
            &&& types1.len() == types0.len() + 1
            &&& forall|j: int| 0 <= j < types0.len() ==> types1[j] == types0[j]
            &&& new_entry_matches(
                types0,
                name,
                parent,
                instance_size,
                instance_mem_init,
                instance_init,
                instance_finalize,
                decl,
                types1[id as int],
            )
        },
        Result::Err(_) => (dup || !parent_ok) && types1 == types0,
    }
}

/// The slots and property table a class declares, as registration sees them.
#[verifier::ext_equal]
pub struct DeclaredClass {
    pub unparent: Option<u64>,
    pub realize: Option<u64>,
    pub unrealize: Option<u64>,
    pub cold_reset: Option<u64>,
    pub properties: Seq<PropertyView>,
}

/// What a [`DeviceClass`] value declares.
pub open spec fn declared_class_of(c: DeviceClass) -> DeclaredClass {
    DeclaredClass {
        unparent: c.oc.unparent,
        realize: c.realize,
        unrealize: c.unrealize,
        cold_reset: c.cold_reset,
        properties: props_view(c.properties@),
    }
}

/// The resolved entry a successful registration appends.
pub open spec fn new_entry_matches(
    types0: Seq<TypeEntry>,
    name: Seq<char>,
    parent: Option<Seq<char>>,
    instance_size: usize,
    instance_mem_init: Option<u64>,
    instance_init: Option<u64>,
    instance_finalize: Option<u64>,
    decl: DeclaredClass,
    e: TypeEntry,
) -> bool {
    let id = types0.len() as usize;
    &&& e.name@ == name
    &&& e.instance_size == instance_size
    &&& e.instance_mem_init == instance_mem_init
    &&& e.instance_init == instance_init
    &&& e.instance_finalize == instance_finalize
    &&& props_view(e.class.properties@) == decl.properties
    &&& match parent {
        Option::None => {
            &&& e.parent is None
            &&& e.ancestors@ == seq![id]
            &&& e.class.oc.unparent == decl.unparent
            &&& e.class.realize == decl.realize
            &&& e.class.unrealize == decl.unrealize
            &&& e.class.cold_reset == decl.cold_reset
        },
        Option::Some(pn) => {
            let p = index_of_name(types0, pn);
            &&& e.parent == Option::Some(p as usize)
            &&& e.ancestors@ == seq![id] + types0[p].ancestors@
            &&& e.class.oc.unparent == slot_or(decl.unparent, types0[p].class.oc.unparent)
            &&& e.class.realize == slot_or(decl.realize, types0[p].class.realize)
            &&& e.class.unrealize == slot_or(decl.unrealize, types0[p].class.unrealize)
            &&& e.class.cold_reset == slot_or(decl.cold_reset, types0[p].class.cold_reset)
        },
    }
}

impl Registry {
    /// Register one class: exactly once per class, before any instance of it
    /// is created.  Fails exactly on a duplicate name or an unregistered
    /// parent — a malformed descriptor, fatal at startup.  On success the
    /// class table is resolved against the parent's: a slot the class does
    /// not populate is inherited.
    pub fn register_type(&mut self, ti: TypeInfo) -> (r: Result<usize, Error>)
        requires
            old(self).wf(),
            old(self).types@.len() + 1 <= usize::MAX,
        ensures
            final(self).wf(),
            register_outcome(
                old(self).types@,
                ti.name@,
                match ti.parent {
                    Option::None => Option::None,
                    Option::Some(pn) => Option::Some(pn@),
                },
                ti.instance_size,
                ti.instance_mem_init,
                ti.instance_init,
                ti.instance_finalize,
                declared_class_of(ti.class),
                final(self).types@,
                r,
            ),
    {
        if self.find(ti.name.as_str()).is_some() {
            return Result::Err(Error::from_msg("duplicate type name"));
        }
        let id = self.types.len();
        let parent_idx: Option<usize> = match &ti.parent {
            Option::None => Option::None,
            Option::Some(pn) => {
                match self.find(pn.as_str()) {
                    Option::None => {
                        return Result::Err(Error::from_msg("parent type not registered"));
                    },
                    Option::Some(p) => {
                        proof {
                            let j = index_of_name(self.types@, pn@);
                            assert(self.types@[p as int].name@ == pn@);
                            assert(0 <= j < self.types@.len() && self.types@[j].name@ == pn@);
                            assert(j == p as int);
                        }
                        Option::Some(p)
                    },
                }
            },
        };
        let mut ancestors: Vec<usize> = Vec::new();
        ancestors.push(id);
        let class: DeviceClass = match parent_idx {
            Option::None => ti.class,
            Option::Some(p) => {
                let pa_len = self.types[p].ancestors.len();
                let mut k: usize = 0;
                while k < pa_len
                    invariant
                        p < self.types@.len(),
                        pa_len == self.types@[p as int].ancestors@.len(),
                        0 <= k <= pa_len,
                        ancestors@ == seq![id] + self.types@[p as int].ancestors@.take(k as int),
                    decreases pa_len - k,
                {
                    let a = self.types[p].ancestors[k];
                    ancestors.push(a);
                    k = k + 1;
                    proof {
                        assert(ancestors@ =~= seq![id] + self.types@[p as int].ancestors@.take(
                            k as int,
                        ));
                    }
                }
                proof {
                    assert(self.types@[p as int].ancestors@.take(pa_len as int) =~= self.types@[
                        p as int
                    ].ancestors@);
                }
                let pc = &self.types[p].class;
                DeviceClass {
                    oc: ObjectClass {
                        unparent: if ti.class.oc.unparent.is_some() {
                            ti.class.oc.unparent
                        } else {
                            pc.oc.unparent
                        },
                    },
                    realize: if ti.class.realize.is_some() {
                        ti.class.realize
                    } else {
                        pc.realize
                    },
                    unrealize: if ti.class.unrealize.is_some() {
                        ti.class.unrealize
                    } else {
                        pc.unrealize
                    },
                    cold_reset: if ti.class.cold_reset.is_some() {
                        ti.class.cold_reset
                    } else {
                        pc.cold_reset
                    },
                    properties: ti.class.properties,
                }
            },
        };
        let entry = TypeEntry {
            name: ti.name,
            parent: parent_idx,
            ancestors,
            instance_size: ti.instance_size,
            instance_mem_init: ti.instance_mem_init,
            instance_init: ti.instance_init,
            instance_finalize: ti.instance_finalize,
            class,
        };
        let ghost types0 = self.types@;
        self.types.push(entry);
        proof {
            let types1 = self.types@;
            assert(types1 == types0.push(entry));
            assert forall|i: int| 0 <= i < types1.len() implies #[trigger] entry_wf(
                types1,
                i,
            ) by {
                if i < types0.len() {
                    assert(entry_wf(types0, i));
                    assert(types1[i] == types0[i]);
                    match types0[i].parent {
                        Option::None => {},
                        Option::Some(p) => {
                            assert(types1[p as int] == types0[p as int]);
                        },
                    }
                } else {
                    assert(types1[i] == entry);
                    match parent_idx {
                        Option::None => {},
                        Option::Some(p) => {
                            assert(types1[p as int] == types0[p as int]);
                        },
                    }
                }
            }
            assert forall|i: int, j: int|
                0 <= i < j < types1.len() implies (#[trigger] types1[i].name@) != (
            #[trigger] types1[j].name@) by {
                if j < types0.len() {
                    assert(types1[i] == types0[i] && types1[j] == types0[j]);
                } else {
                    assert(types1[j].name@ == entry.name@);
                    assert(types1[i] == types0[i]);
                    assert(!has_type_name(types0, entry.name@));
                    assert(types0[i].name@ != entry.name@);
                }
            }
        }
        Result::Ok(id)
    }
}

/// Build a class's registration record from its native description and
/// register it: the one-shot setup step for a natively defined class.
pub fn rust_type_register<T: DeviceImpl>(
    registry: &mut Registry,
    name: &str,
    parent: Option<&str>,
    instance_size: usize,
    instance_mem_init: Option<u64>,
    instance_finalize: Option<u64>,
    desc: &T,
) -> (r: Result<usize, Error>)
    requires
        old(registry).wf(),
        old(registry).types@.len() + 1 <= usize::MAX,
    ensures
        final(registry).wf(),
        register_outcome(
            old(registry).types@,
            name@,
            match parent {
                Option::None => Option::None,
                Option::Some(pn) => Option::Some(pn@),
            },
            instance_size,
            instance_mem_init,
            Option::None,
            instance_finalize,
            DeclaredClass {
                unparent: desc.unparent_spec(),
                realize: desc.realize_spec(),
                unrealize: desc.unrealize_spec(),
                cold_reset: desc.cold_reset_spec(),
                properties: desc.properties_spec(),
            },
            final(registry).types@,
            r,
        ),
{
    let mut ti = TypeInfo::zeroed();
    ti.name = name.to_owned();
    ti.parent = match parent {
        Option::None => Option::None,
        Option::Some(pn) => Option::Some(pn.to_owned()),
    };
    ti.instance_size = instance_size;
    ti.instance_mem_init = instance_mem_init;
    ti.instance_finalize = instance_finalize;
    ti.class.class_init(desc);
    registry.register_type(ti)
}

/// In a well-formed registry, every entry's ancestor chain stays inside the
/// registry.
pub proof fn lemma_chain_in_range(types: Seq<TypeEntry>, i: int)
    requires
        forall|j: int| 0 <= j < types.len() ==> #[trigger] entry_wf(types, j),
        0 <= i < types.len(),
    ensures
        forall|k: int|
            0 <= k < types[i].ancestors@.len() ==> #[trigger] types[i].ancestors@[k]
                < types.len(),
    decreases i,
{
    assert(entry_wf(types, i));
    match types[i].parent {
        Option::None => {},
        Option::Some(p) => {
            lemma_chain_in_range(types, p as int);
            assert(forall|k: int|
                1 <= k < types[i].ancestors@.len() ==> types[i].ancestors@[k] == types[
                    p as int
                ].ancestors@[k - 1]);
        },
    }
}

/// In a well-formed registry, an ancestor chain is never longer than the
/// chain of indices below its own entry allows.
pub proof fn lemma_chain_len(types: Seq<TypeEntry>, i: int)
    requires
        forall|j: int| 0 <= j < types.len() ==> #[trigger] entry_wf(types, j),
        0 <= i < types.len(),
    ensures
        types[i].ancestors@.len() <= i + 1,
    decreases i,
{
    assert(entry_wf(types, i));
    match types[i].parent {
        Option::None => {},
        Option::Some(p) => {
            lemma_chain_len(types, p as int);
        },
    }
}

/// The viewable-as relation is reflexive: every class can be viewed as
/// itself.
pub proof fn lemma_ancestor_reflexive(types: Seq<TypeEntry>, i: usize)
    requires
        forall|j: int| 0 <= j < types.len() ==> #[trigger] entry_wf(types, j),
        i < types.len(),
    ensures
        is_ancestor_or_self(types, i, i),
{
    assert(entry_wf(types, i as int));
    assert(types[i as int].ancestors@[0] == i);
}

/// The viewable-as relation is transitive through the parent chain: if `a`
/// is an ancestor of `b` and `b` one of `c`, then `a` is an ancestor of `c`.
pub proof fn lemma_ancestor_transitive(types: Seq<TypeEntry>, a: usize, b: usize, c: usize)
    requires
        forall|j: int| 0 <= j < types.len() ==> #[trigger] entry_wf(types, j),
        b < types.len(),
        c < types.len(),
        is_ancestor_or_self(types, a, b),
        is_ancestor_or_self(types, b, c),
    ensures
        is_ancestor_or_self(types, a, c),
    decreases c,
{
    assert(entry_wf(types, c as int));
    if b == c {
    } else {
        match types[c as int].parent {
            Option::None => {
                assert(types[c as int].ancestors@ == seq![c]);
                assert(types[c as int].ancestors@.contains(b));
                let k = choose|k: int|
                    0 <= k < types[c as int].ancestors@.len() && types[c as int].ancestors@[k]
                        == b;
                assert(types[c as int].ancestors@[k] == c);
                assert(false);
            },
            Option::Some(p) => {
                let chain = types[c as int].ancestors@;
                assert(chain == seq![c] + types[p as int].ancestors@);
                let k = choose|k: int| 0 <= k < chain.len() && chain[k] == b;
                assert(k >= 1);
                assert(types[p as int].ancestors@[k - 1] == b);
                assert(is_ancestor_or_self(types, b, p));
                lemma_ancestor_transitive(types, a, b, p);
                let k2 = choose|k2: int|
                    0 <= k2 < types[p as int].ancestors@.len() && types[p as int].ancestors@[k2]
                        == a;
                assert(chain[k2 + 1] == a);
                assert(chain.contains(a));
            },
        }
    }
}

} // verus!
