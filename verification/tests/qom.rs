use qemu::object::rust_type_register;
use qemu::object::ClassDesc;
use qemu::object::Property;
use qemu::object::QdevPropBool;
use qemu::object::Registry;
use qemu::object::TypeInfo;
use qemu::object::Zeroed;
use qemu::refs::Owned;
use qemu::runtime::Runtime;

const RESET_DERIVED: u64 = 77;
const FINALIZE_DERIVED: u64 = 42;
const MEM_INIT_DERIVED: u64 = 9;
const UNPARENT_DERIVED: u64 = 31;
const REALIZE_DERIVED: u64 = 55;
const RESET_BASE: u64 = 5;

/// Register a root class `object`, a `base` class under it with no
/// overrides, and a `derived` class that overrides reset, realize and
/// unparent and declares instrumented lifecycle hooks.
fn setup() -> (Runtime, usize, usize, usize) {
    let mut reg = Registry::new();
    let root = rust_type_register(&mut reg, "object", None, 8, None, None, &ClassDesc::plain())
        .unwrap();
    let base = rust_type_register(
        &mut reg,
        "base",
        Some("object"),
        16,
        None,
        None,
        &ClassDesc::plain(),
    )
    .unwrap();
    let derived_desc = ClassDesc {
        unparent: Some(UNPARENT_DERIVED),
        realize: Some(REALIZE_DERIVED),
        cold_reset: Some(RESET_DERIVED),
        ..ClassDesc::plain()
    };
    let derived = rust_type_register(
        &mut reg,
        "derived",
        Some("base"),
        24,
        Some(MEM_INIT_DERIVED),
        Some(FINALIZE_DERIVED),
        &derived_desc,
    )
    .unwrap();
    (Runtime::new(reg), root, base, derived)
}

#[test]
fn test_register_duplicate_name_fails() {
    let mut reg = Registry::new();
    rust_type_register(&mut reg, "object", None, 8, None, None, &ClassDesc::plain()).unwrap();
    let r = rust_type_register(&mut reg, "object", None, 8, None, None, &ClassDesc::plain());
    assert!(r.is_err());
    assert_eq!(reg.len(), 1);
}

#[test]
fn test_register_unknown_parent_fails() {
    let mut reg = Registry::new();
    let r = rust_type_register(
        &mut reg,
        "child",
        Some("missing"),
        8,
        None,
        None,
        &ClassDesc::plain(),
    );
    assert!(r.is_err());
    assert_eq!(reg.len(), 0);
}

#[test]
fn test_zeroed_type_info_registers() {
    let mut reg = Registry::new();
    let mut ti = TypeInfo::zeroed();
    ti.name = "object".to_string();
    assert!(reg.register_type(ti).is_ok());
}

#[test]
fn test_typename() {
    let (mut rt, _root, _base, derived) = setup();
    let h = Owned::new(&mut rt, derived);
    assert_eq!(h.typename(&rt), "derived");
    h.drop_ref(&mut rt);
}

#[test]
fn test_upcast_dynamic_cast_roundtrip() {
    // Upcast a derived-typed handle to its base class, then dynamic-cast it
    // back: the same address comes out.
    let (mut rt, _root, base, derived) = setup();
    let h = Owned::new(&mut rt, derived);
    let addr = h.addr;
    let up = h.upcast(&rt, base);
    assert_eq!(up.addr, addr);
    assert_eq!(up.ty, base);
    let back = up.dynamic_cast(&rt, derived).unwrap();
    assert_eq!(back.addr, addr);
    assert_eq!(back.ty, derived);
    back.drop_ref(&mut rt);
}

#[test]
fn test_fresh_drop_finalizes_once() {
    // Creating an instance and dropping the only handle runs the
    // instrumented finalize hook exactly once — not zero times, not twice.
    let (mut rt, _root, _base, derived) = setup();
    let h = Owned::new(&mut rt, derived);
    let addr = h.addr;
    assert_eq!(rt.call_count(MEM_INIT_DERIVED, addr), 1);
    assert_eq!(rt.call_count(FINALIZE_DERIVED, addr), 0);
    h.drop_ref(&mut rt);
    assert!(!rt.is_live(addr));
    assert_eq!(rt.call_count(FINALIZE_DERIVED, addr), 1);
}

#[test]
fn test_clone_drop_refcounts() {
    // Three clones raise the count to four; the first three drops keep the
    // instance alive, and the fourth — exactly the fourth — frees it.
    let (mut rt, _root, _base, derived) = setup();
    let h = Owned::new(&mut rt, derived);
    let addr = h.addr;
    assert_eq!(rt.refcount(addr), 1);
    let c1 = h.clone_ref(&mut rt);
    let c2 = h.clone_ref(&mut rt);
    let c3 = h.clone_ref(&mut rt);
    assert_eq!(rt.refcount(addr), 4);
    c1.drop_ref(&mut rt);
    assert_eq!(rt.refcount(addr), 3);
    assert!(rt.is_live(addr));
    c2.drop_ref(&mut rt);
    assert_eq!(rt.refcount(addr), 2);
    assert!(rt.is_live(addr));
    c3.drop_ref(&mut rt);
    assert_eq!(rt.refcount(addr), 1);
    assert!(rt.is_live(addr));
    assert_eq!(rt.call_count(FINALIZE_DERIVED, addr), 0);
    h.drop_ref(&mut rt);
    assert!(!rt.is_live(addr));
    assert_eq!(rt.refcount(addr), 0);
    assert_eq!(rt.call_count(FINALIZE_DERIVED, addr), 1);
}

#[test]
fn test_unrelated_downcast_fails_and_handle_survives() {
    // An instance of `base` does not cast to the unrelated `other`; the
    // original handle comes back and is still usable.
    let mut reg = Registry::new();
    rust_type_register(&mut reg, "object", None, 8, None, None, &ClassDesc::plain()).unwrap();
    let base = rust_type_register(
        &mut reg,
        "base",
        Some("object"),
        16,
        None,
        None,
        &ClassDesc::plain(),
    )
    .unwrap();
    let other = rust_type_register(
        &mut reg,
        "other",
        Some("object"),
        16,
        None,
        None,
        &ClassDesc::plain(),
    )
    .unwrap();
    let mut rt = Runtime::new(reg);
    let h = Owned::new(&mut rt, base);
    let r = h.dynamic_cast(&rt, other);
    assert!(r.is_err());
    let h = r.unwrap_err();
    assert_eq!(h.ty, base);
    assert_eq!(h.typename(&rt), "base");
    h.drop_ref(&mut rt);
}

#[test]
fn test_virtual_dispatch_through_base_reference() {
    // `base` declares no reset override; `derived` does.  Resetting through
    // a base-typed reference obtained by upcasting still runs the derived
    // override: dispatch goes by the dynamic type.
    let (mut rt, _root, base, derived) = setup();
    let h = Owned::new(&mut rt, derived);
    let addr = h.addr;
    let up = h.upcast(&rt, base);
    assert_eq!(rt.call_count(RESET_DERIVED, addr), 0);
    up.cold_reset(&mut rt);
    assert_eq!(rt.call_count(RESET_DERIVED, addr), 1);
    up.drop_ref(&mut rt);
}

#[test]
fn test_realize_and_unparent_dispatch() {
    let (mut rt, _root, _base, derived) = setup();
    let h = Owned::new(&mut rt, derived);
    let addr = h.addr;
    assert!(h.realize(&mut rt).is_ok());
    assert_eq!(rt.call_count(REALIZE_DERIVED, addr), 1);
    h.unparent(&mut rt);
    assert_eq!(rt.call_count(UNPARENT_DERIVED, addr), 1);
    h.drop_ref(&mut rt);
}

#[test]
fn test_slot_inherited_from_parent() {
    // A subclass that declares no reset override inherits its parent's.
    let mut reg = Registry::new();
    let parent_desc = ClassDesc {
        cold_reset: Some(RESET_BASE),
        ..ClassDesc::plain()
    };
    rust_type_register(&mut reg, "parent", None, 8, None, None, &parent_desc).unwrap();
    let child = rust_type_register(
        &mut reg,
        "child",
        Some("parent"),
        16,
        None,
        None,
        &ClassDesc::plain(),
    )
    .unwrap();
    let mut rt = Runtime::new(reg);
    let h = Owned::new(&mut rt, child);
    let addr = h.addr;
    h.cold_reset(&mut rt);
    assert_eq!(rt.call_count(RESET_BASE, addr), 1);
    h.drop_ref(&mut rt);
}

#[test]
fn test_qdev_prop_bool_convert() {
    assert_eq!(QdevPropBool::convert(&true), 1);
    assert_eq!(QdevPropBool::convert(&false), 0);
}

#[test]
fn test_property_table_registered() {
    let mut reg = Registry::new();
    rust_type_register(&mut reg, "device", None, 8, None, None, &ClassDesc::plain()).unwrap();
    let desc = ClassDesc {
        conf_offset: 8,
        props: vec![Property {
            name: "foo".to_string(),
            offset: 8,
            default: QdevPropBool::convert(&true),
            info: QdevPropBool::info(),
        }],
        ..ClassDesc::plain()
    };
    let dev = rust_type_register(&mut reg, "test-device", Some("device"), 16, None, None, &desc)
        .unwrap();
    let table = &reg.types[dev].class.properties;
    assert_eq!(table.len(), 1);
    assert_eq!(table[0].name, "foo");
    assert_eq!(table[0].offset, 8);
    assert_eq!(table[0].default, 1);
    assert_eq!(table[0].info.name, "bool");
}

#[test]
fn test_borrowed_reference_casts() {
    // A borrowed reference casts without touching the reference count, and
    // stays usable after a failed downcast.
    let (mut rt, _root, base, derived) = setup();
    let h = Owned::new(&mut rt, derived);
    let r = h.as_ref(&rt);
    assert_eq!(rt.refcount(h.addr), 1);
    let up = r.upcast(&rt, base);
    assert_eq!(up.addr, r.addr);
    let back = up.dynamic_cast(&rt, derived).unwrap();
    assert_eq!(back.addr, r.addr);
    assert_eq!(rt.refcount(h.addr), 1);
    assert_eq!(back.typename(&rt), "derived");
    h.drop_ref(&mut rt);
}
