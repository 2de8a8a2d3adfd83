use qemu::layout::align_up;
use qemu::layout::class_offsets;
use qemu::layout::field_offsets;
use qemu::layout::FieldDesc;

#[test]
fn test_align_up() {
    assert_eq!(align_up(0, 1), 0);
    assert_eq!(align_up(8, 4), 8);
    assert_eq!(align_up(9, 4), 12);
    assert_eq!(align_up(13, 8), 16);
    assert_eq!(align_up(5, 1), 5);
}

#[test]
fn test_class_offsets_concrete() {
    // A parent of size 8 followed by fields of type u32, u8, u64: the parent
    // sits at 0, then 8 (4-byte aligned), 12, and the next 8-byte boundary
    // at or after 13, which is 16.
    let fields = vec![
        FieldDesc::new(4, 4),
        FieldDesc::new(1, 1),
        FieldDesc::new(8, 8),
    ];
    let offsets = class_offsets(8, &fields);
    assert_eq!(offsets, vec![0, 8, 12, 16]);
}

#[test]
fn test_field_offsets_empty() {
    let fields: Vec<FieldDesc> = Vec::new();
    let offsets = field_offsets(32, &fields);
    assert!(offsets.is_empty());
}

#[test]
fn test_field_offsets_no_padding() {
    // Tightly packed bytes need no padding.
    let fields = vec![FieldDesc::new(1, 1), FieldDesc::new(1, 1)];
    assert_eq!(field_offsets(3, &fields), vec![3, 4]);
}

#[test]
fn test_field_offsets_padding_between() {
    // A one-byte field followed by a four-byte-aligned field leaves a gap.
    let fields = vec![FieldDesc::new(1, 1), FieldDesc::new(4, 4)];
    assert_eq!(field_offsets(0, &fields), vec![0, 4]);
}
