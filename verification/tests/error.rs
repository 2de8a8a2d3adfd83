use qemu::error::Error;
use qemu::error::ErrorSlot;
use qemu::foreign::CloneToForeign;
use qemu::foreign::ForeignHeap;
use qemu::foreign::ForeignPtr;
use qemu::foreign::FromForeign;

#[test]
fn test_error_display_msg_only() {
    let e = Error::from_msg("boom");
    assert_eq!(e.display_text(), "boom");
}

#[test]
fn test_error_display_file_line() {
    let e = Error::with_file_line("bad state", "dev.rs", 42);
    assert_eq!(e.display_text(), "dev.rs:42: bad state");
}

#[test]
fn test_error_display_chain() {
    let cause = Error::from_msg("io failed");
    let e = Error::with_error("realize failed", cause);
    assert_eq!(e.display_text(), "realize failed: io failed");
}

#[test]
fn test_error_display_unknown() {
    let e = Error {
        msg: None,
        cause: None,
        location: None,
    };
    assert_eq!(e.display_text(), "unknown error");
}

#[test]
fn test_error_display_file_line_chain() {
    let cause = Error::from_msg("io failed");
    let e = Error::with_error_file_line("realize failed", cause, "dev.rs", 7);
    assert_eq!(e.display_text(), "dev.rs:7: realize failed: io failed");
}

#[test]
fn test_error_round_trip_boom() {
    // Clone-to-foreign then take-from-foreign preserves the displayed text.
    let mut heap = ForeignHeap::new();
    let e = Error::from_msg("boom");
    let p = e.clone_to_foreign(&mut heap);
    let back = Error::from_foreign(&mut heap, p.into_inner());
    assert!(back.display_text().contains("boom"));
    assert_eq!(back.display_text(), "boom");
}

#[test]
fn test_propagate_null_slot_discards() {
    // A null error slot means the caller discards errors: honored silently,
    // no foreign allocation, no crash.
    let mut heap = ForeignHeap::new();
    let mut slot = ErrorSlot::Discard;
    Error::from_msg("boom").propagate(&mut heap, &mut slot);
    assert_eq!(heap.size(), 0);
    assert_eq!(slot, ErrorSlot::Discard);
}

#[test]
fn test_propagate_fills_slot() {
    let mut heap = ForeignHeap::new();
    let mut slot = ErrorSlot::Empty;
    Error::from_msg("boom").propagate(&mut heap, &mut slot);
    match slot {
        ErrorSlot::Filled(p) => {
            let back = Error::from_foreign(&mut heap, p);
            assert_eq!(back.display_text(), "boom");
        }
        _ => panic!("slot not filled"),
    }
}

#[test]
fn test_bool_or_propagate() {
    let mut heap = ForeignHeap::new();
    let mut slot = ErrorSlot::Empty;
    assert!(Error::bool_or_propagate(Ok(()), &mut heap, &mut slot));
    assert_eq!(slot, ErrorSlot::Empty);
    assert!(!Error::bool_or_propagate(
        Err(Error::from_msg("nope")),
        &mut heap,
        &mut slot
    ));
    assert!(matches!(slot, ErrorSlot::Filled(_)));
}

#[test]
fn test_ok_or_propagate() {
    let mut heap = ForeignHeap::new();
    let mut slot = ErrorSlot::Empty;
    let r: Option<u32> = Error::ok_or_propagate(Ok(5u32), &mut heap, &mut slot);
    assert_eq!(r, Some(5));
    let r: Option<u32> =
        Error::ok_or_propagate(Err(Error::from_msg("nope")), &mut heap, &mut slot);
    assert_eq!(r, None);
}

#[test]
fn test_ptr_or_propagate() {
    let mut heap = ForeignHeap::new();
    let mut slot = ErrorSlot::Empty;
    let p = Error::ptr_or_propagate(Ok(7i8), &mut heap, &mut slot);
    assert!(!p.is_null());
    assert_eq!(i8::from_foreign(&mut heap, p), 7i8);
    let p = Error::ptr_or_propagate(
        Result::<i8, Error>::Err(Error::from_msg("nope")),
        &mut heap,
        &mut slot,
    );
    assert!(p.is_null());
    assert!(matches!(slot, ErrorSlot::Filled(_)));
}

#[test]
fn test_err_or_else() {
    let mut heap = ForeignHeap::new();
    // A null foreign error means success.
    let r: Result<u32, Error> = Error::err_or_else(&mut heap, ForeignPtr::null(), || 9u32);
    assert_eq!(r.unwrap(), 9);
    // A non-null foreign error becomes a native failure wrapping its text,
    // and the foreign error object is released.
    let p = Error::from_msg("boom").clone_to_foreign_ptr(&mut heap);
    let r: Result<u32, Error> = Error::err_or_else(&mut heap, p, || 9u32);
    assert_eq!(r.unwrap_err().display_text(), "boom");
    assert!(!heap.is_live(p));
}
