use qemu::foreign::CellValue;
use qemu::foreign::CloneToForeign;
use qemu::foreign::ForeignBorrow;
use qemu::foreign::ForeignBorrowMut;
use qemu::foreign::ForeignHeap;
use qemu::foreign::ForeignPtr;
use qemu::foreign::FromForeign;
use qemu::foreign::IntoNative;
use qemu::foreign::OwnedPointer;

#[test]
fn test_foreign_int_convert() {
    let mut heap = ForeignHeap::new();
    let i = 123i8;
    let p = i.clone_to_foreign(&mut heap);
    assert_eq!(i, heap.value_at(p.as_ptr()).as_i8());
    assert_eq!(i, i8::cloned_from_foreign(&heap, p.as_ptr()));
    assert_eq!(i, p.into_native(&mut heap));

    let p = i.clone_to_foreign(&mut heap);
    assert_eq!(i, i8::from_foreign(&mut heap, p.into_inner()));
}

#[test]
fn test_foreign_int_borrow() {
    let i = 123i8;
    assert_eq!(i, i.borrow_foreign().as_ptr().unwrap().as_i8());
    assert_eq!(i, 123i8);
}

#[test]
fn test_foreign_int_borrow_mut() {
    let mut i = 123i8;
    let mut borrowed = i.borrow_foreign_mut();
    assert_eq!(borrowed.as_ptr().unwrap().as_i8(), 123i8);
    borrowed.write(CellValue::I8(45));
    i.end_borrow_mut(borrowed);
    let borrowed = i.borrow_foreign_mut();
    assert_eq!(borrowed.as_ptr().unwrap().as_i8(), 45i8);
    assert_eq!(i, 45i8);
}

#[test]
fn test_borrow_foreign_string() {
    let s = "Hello, world!".to_string();
    let borrowed = s.borrow_foreign();
    let text = borrowed.as_ptr().unwrap().as_text();
    assert_eq!(text.len(), s.len());
    assert_eq!(text, "Hello, world!");
}

#[test]
fn test_cloned_from_foreign_string() {
    let mut heap = ForeignHeap::new();
    let s = "Hello, world!".to_string();
    let p = s.clone_to_foreign(&mut heap);
    let cloned = String::cloned_from_foreign(&heap, p.as_ptr());
    assert_eq!(s, cloned);
    let p2 = s.clone_to_foreign(&mut heap);
    assert_ne!(p2.as_ptr(), p.as_ptr());
}

#[test]
fn test_from_foreign_string() {
    let mut heap = ForeignHeap::new();
    let s = "Hello, world!".to_string();
    let cloned = s.clone_to_foreign_ptr(&mut heap);
    let copy = String::from_foreign(&mut heap, cloned);
    assert_eq!(s, copy);
    assert!(!heap.is_live(cloned));
}

#[test]
fn test_owned_pointer_default() {
    let mut heap = ForeignHeap::new();
    let s: String = Default::default();
    let foreign: OwnedPointer<String> = s.clone_to_foreign(&mut heap);
    let native = foreign.into_native(&mut heap);
    assert_eq!(s, native);
}

#[test]
fn test_owned_pointer_into() {
    let mut heap = ForeignHeap::new();
    let s = "Hello, world!".to_string();
    let cloned: OwnedPointer<String> = s.clone_to_foreign(&mut heap).into();
    let copy = cloned.into_native(&mut heap);
    assert_eq!(s, copy);
}

#[test]
fn test_owned_pointer_into_native() {
    let mut heap = ForeignHeap::new();
    let s = "Hello, world!".to_string();
    let cloned = s.clone_to_foreign(&mut heap);
    let copy = cloned.into_native(&mut heap);
    assert_eq!(s, copy);
}

#[test]
fn test_clone_to_foreign_string() {
    let mut heap = ForeignHeap::new();
    let s = "Hello, world!".to_string();
    let borrowed = s.borrow_foreign();
    let cloned = s.clone_to_foreign(&mut heap);
    let len = heap.value_at(cloned.as_ptr()).as_text().len();
    assert_eq!(len, s.len());
    assert_eq!(
        heap.value_at(cloned.as_ptr()).as_text(),
        borrowed.as_ptr().unwrap().as_text()
    );
}

#[test]
fn test_option() {
    // An Option can be used to produce or convert null pointers.
    let mut heap = ForeignHeap::new();
    let s = Some("Hello, world!".to_string());
    let p = s.clone_to_foreign(&mut heap);
    assert_eq!(Option::<String>::cloned_from_foreign(&heap, p.as_ptr()), s);

    let s: Option<String> = None;
    assert!(s.borrow_foreign().is_null());
    let p = s.clone_to_foreign(&mut heap);
    assert!(p.as_ptr().is_null());
    assert!(matches!(
        Option::<String>::cloned_from_foreign(&heap, ForeignPtr::null()),
        None
    ));
    assert!(matches!(
        Option::<String>::from_foreign(&mut heap, ForeignPtr::null()),
        None
    ));
}

#[test]
fn test_box() {
    // A box can be produced if the inner type has the capability.
    let mut heap = ForeignHeap::new();
    let s = Box::new("Hello, world!".to_string());
    let p = s.clone_to_foreign(&mut heap);
    let cloned = Box::<String>::cloned_from_foreign(&heap, p.as_ptr());
    assert_eq!(s, cloned);

    let s = Some(Box::new("Hello, world!".to_string()));
    let p = s.clone_to_foreign(&mut heap);
    let cloned = Option::<Box<String>>::cloned_from_foreign(&heap, p.as_ptr());
    assert_eq!(s, cloned);
}

#[test]
fn test_string_interior_nul_truncates() {
    // A C reader of the cloned buffer stops at the first null character.
    let mut heap = ForeignHeap::new();
    let s = "ab\0cd".to_string();
    let p = s.clone_to_foreign(&mut heap);
    let back = String::from_foreign(&mut heap, p.into_inner());
    assert_eq!(back, "ab");
}

#[test]
fn test_free_foreign_null_is_ignored() {
    let mut heap = ForeignHeap::new();
    String::free_foreign(&mut heap, ForeignPtr::null());
    assert_eq!(heap.size(), 0);
}

#[test]
fn test_heap_free_marks_dead() {
    let mut heap = ForeignHeap::new();
    let p = 7u64.clone_to_foreign(&mut heap);
    let addr = p.as_ptr();
    assert!(heap.is_live(addr));
    p.free(&mut heap);
    assert!(!heap.is_live(addr));
    assert_eq!(heap.size(), 1);
}

#[test]
fn test_int_widths_round_trip() {
    let mut heap = ForeignHeap::new();
    let a = 200u8;
    let b = -123456i32;
    let c = u64::MAX;
    let d = -31000i16;
    let e = 64000u16;
    let f = 4000000000u32;
    let g = i64::MIN;
    let h = 12345usize;
    let i = -6789isize;
    let pa = a.clone_to_foreign(&mut heap);
    let pb = b.clone_to_foreign(&mut heap);
    let pc = c.clone_to_foreign(&mut heap);
    let pd = d.clone_to_foreign(&mut heap);
    let pe = e.clone_to_foreign(&mut heap);
    let pf = f.clone_to_foreign(&mut heap);
    let pg = g.clone_to_foreign(&mut heap);
    let ph = h.clone_to_foreign(&mut heap);
    let pi = i.clone_to_foreign(&mut heap);
    assert_eq!(a, pa.into_native(&mut heap));
    assert_eq!(b, pb.into_native(&mut heap));
    assert_eq!(c, pc.into_native(&mut heap));
    assert_eq!(d, pd.into_native(&mut heap));
    assert_eq!(e, pe.into_native(&mut heap));
    assert_eq!(f, pf.into_native(&mut heap));
    assert_eq!(g, pg.into_native(&mut heap));
    assert_eq!(h, ph.into_native(&mut heap));
    assert_eq!(i, pi.into_native(&mut heap));
}

#[test]
fn test_borrow_mut_u64() {
    let mut v = 10u64;
    let mut b = v.borrow_foreign_mut();
    b.write(CellValue::U64(11));
    v.end_borrow_mut(b);
    assert_eq!(v, 11u64);
}

#[test]
fn test_ptr_into_native() {
    let mut heap = ForeignHeap::new();
    let s = "Hello, world!".to_string();
    let cloned: ForeignPtr = s.clone_to_foreign_ptr(&mut heap);
    let copy: String = cloned.into_native(&mut heap);
    assert_eq!(s, copy);
}

#[test]
fn test_borrow_mut_option() {
    let mut v: Option<i8> = Some(3);
    let mut b = v.borrow_foreign_mut();
    assert_eq!(b.as_ptr().unwrap().as_i8(), 3);
    b.write(CellValue::I8(4));
    v.end_borrow_mut(b);
    assert_eq!(v, Some(4));

    let mut n: Option<i8> = None;
    let b = n.borrow_foreign_mut();
    assert!(b.as_ptr().is_none());
    n.end_borrow_mut(b);
    assert_eq!(n, None);
}

#[test]
fn test_borrow_mut_box() {
    let mut v = Box::new(8i8);
    let mut b = v.borrow_foreign_mut();
    b.write(CellValue::I8(9));
    v.end_borrow_mut(b);
    assert_eq!(*v, 9i8);
}
