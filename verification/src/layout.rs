//! Struct-layout computation for classes that embed their parent.
//!
//! A subclass instance must place its parent's struct at offset 0 and its own
//! declared fields immediately after, in declaration order, with each field's
//! offset rounded up to that field's own alignment.  The foreign runtime
//! expects exactly this layout, so the offsets are computed here rather than
//! left to the host language's own layout algorithm.

use vstd::prelude::*;

verus! {

/// The size and alignment of one declared field.
pub struct FieldDesc {
    pub size: usize,
    pub align: usize,
}

/// `offset` rounded up to the next multiple of `align`.
pub open spec fn spec_align_up(offset: int, align: int) -> int {
    offset + ((align - (offset % align)) % align)
}

/// The offsets of `fields`, laid out in order starting at `start`:
/// each field begins at the end of the previous one, rounded up to its
/// own alignment.
pub open spec fn spec_field_offsets(start: int, fields: Seq<FieldDesc>) -> Seq<int>
    decreases fields.len(),
{
    if fields.len() == 0 {
        Seq::empty()
    } else {
        let off = spec_align_up(start, fields[0].align as int);
        seq![off] + spec_field_offsets(off + fields[0].size, fields.drop_first())
    }
}

/// The end of the laid-out fields: where the next field would start
/// (before its own alignment padding).
pub open spec fn spec_layout_end(start: int, fields: Seq<FieldDesc>) -> int
    decreases fields.len(),
{
    if fields.len() == 0 {
        start
    } else {
        let off = spec_align_up(start, fields[0].align as int);
        spec_layout_end(off + fields[0].size, fields.drop_first())
    }
}

/// Every field has a positive alignment.
pub open spec fn all_aligns_positive(fields: Seq<FieldDesc>) -> bool {
    forall|i: int| 0 <= i < fields.len() ==> #[trigger] fields[i].align >= 1
}

proof fn lemma_align_up_bounds(offset: int, align: int)
    requires
        offset >= 0,
        align >= 1,
    ensures
        offset <= spec_align_up(offset, align) <= offset + align - 1,
        spec_align_up(offset, align) % align == 0,
        offset % align == 0 ==> spec_align_up(offset, align) == offset,
        offset % align != 0 ==> spec_align_up(offset, align) == offset + (align - offset % align),
{
    let r = offset % align;
    assert(0 <= r < align) by (nonlinear_arith)
        requires
            align >= 1,
            offset >= 0,
            r == offset % align,
    ;
    if r == 0 {
        assert(align % align == 0) by (nonlinear_arith)
            requires align >= 1;
        assert(spec_align_up(offset, align) == offset);
        assert(offset % align == 0);
    } else {
        assert((align - r) % align == align - r) by (nonlinear_arith)
            requires
                align >= 1,
                0 < r < align,
        ;
        assert(spec_align_up(offset, align) == offset + (align - r));
        assert((offset + (align - r)) % align == 0) by (nonlinear_arith)
            requires
                align >= 1,
                r == offset % align,
                0 < r < align,
        ;
    }
}

/// Laying out one more field extends the offsets by the rounded-up end and
/// moves the end past that field.
proof fn lemma_layout_push(start: int, fields: Seq<FieldDesc>, f: FieldDesc)
    ensures
        spec_field_offsets(start, fields.push(f)) == spec_field_offsets(start, fields).push(
            spec_align_up(spec_layout_end(start, fields), f.align as int),
        ),
        spec_layout_end(start, fields.push(f)) == spec_align_up(
            spec_layout_end(start, fields),
            f.align as int,
        ) + f.size,
    decreases fields.len(),
{
    if fields.len() == 0 {
        let off = spec_align_up(start, f.align as int);
        assert(fields.push(f)[0] == f);
        assert(fields.push(f).drop_first() =~= Seq::<FieldDesc>::empty());
        assert(spec_field_offsets(off + f.size, Seq::<FieldDesc>::empty())
            =~= Seq::<int>::empty());
        assert(spec_layout_end(off + f.size, Seq::<FieldDesc>::empty()) == off + f.size);
        assert(spec_field_offsets(start, fields.push(f)) == seq![off] + spec_field_offsets(
            off + f.size,
            Seq::<FieldDesc>::empty(),
        ));
        assert(spec_layout_end(start, fields.push(f)) == off + f.size);
        assert(spec_field_offsets(start, fields.push(f)) =~= spec_field_offsets(
            start,
            fields,
        ).push(spec_align_up(spec_layout_end(start, fields), f.align as int)));
    } else {
        let off = spec_align_up(start, fields[0].align as int);
        assert(fields.push(f)[0] == fields[0]);
        assert(fields.push(f).drop_first() =~= fields.drop_first().push(f));
        lemma_layout_push(off + fields[0].size, fields.drop_first(), f);
        assert(spec_field_offsets(start, fields) == seq![off] + spec_field_offsets(
            off + fields[0].size,
            fields.drop_first(),
        ));
        assert(spec_layout_end(start, fields) == spec_layout_end(
            off + fields[0].size,
            fields.drop_first(),
        ));
        assert(spec_field_offsets(start, fields.push(f)) == seq![off] + spec_field_offsets(
            off + fields[0].size,
            fields.drop_first().push(f),
        ));
        assert(spec_layout_end(start, fields.push(f)) == spec_layout_end(
            off + fields[0].size,
            fields.drop_first().push(f),
        ));
        assert(spec_field_offsets(start, fields.push(f)) =~= spec_field_offsets(
            start,
            fields,
        ).push(spec_align_up(spec_layout_end(start, fields), f.align as int)));
    }
}

/// The end of a layout never moves backwards, and never further forward than
/// the sizes and alignment paddings of the fields allow.
proof fn lemma_layout_end_bounds(start: int, fields: Seq<FieldDesc>)
    requires
        start >= 0,
        all_aligns_positive(fields),
    ensures
        start <= spec_layout_end(start, fields),
        spec_layout_end(start, fields) <= start + spec_padded_sum(fields),
    decreases fields.len(),
{
    if fields.len() > 0 {
        let off = spec_align_up(start, fields[0].align as int);
        lemma_align_up_bounds(start, fields[0].align as int);
        assert(fields.drop_first() =~= fields.subrange(1, fields.len() as int));
        lemma_layout_end_bounds(off + fields[0].size, fields.drop_first());
    }
}

/// An upper bound for the room a field list can take: every field's size plus
/// the padding its alignment may force.
pub open spec fn spec_padded_sum(fields: Seq<FieldDesc>) -> int
    decreases fields.len(),
{
    if fields.len() == 0 {
        0
    } else {
        (fields[0].align - 1) + fields[0].size + spec_padded_sum(fields.drop_first())
    }
}

impl FieldDesc {
    pub fn new(size: usize, align: usize) -> (r: FieldDesc)
        ensures
            r.size == size,
            r.align == align,
    {
        FieldDesc { size, align }
    }
}

/// `offset` rounded up to the next multiple of `align`.
pub fn align_up(offset: usize, align: usize) -> (r: usize)
    requires
        align >= 1,
        offset + align - 1 <= usize::MAX,
    ensures
        r == spec_align_up(offset as int, align as int),
        offset <= r,
{
    proof {
        lemma_align_up_bounds(offset as int, align as int);
    }
    let rem = offset % align;
    assert(rem == (offset as int) % (align as int));
    if rem == 0 {
        offset
    } else {
        offset + (align - rem)
    }
}

/// The byte offsets of `fields` when laid out in declaration order after
/// `start` bytes, each rounded up to its own alignment.
pub fn field_offsets(start: usize, fields: &Vec<FieldDesc>) -> (offsets: Vec<usize>)
    requires
        all_aligns_positive(fields@),
        start + spec_padded_sum(fields@) <= usize::MAX,
    ensures
        offsets@.len() == fields@.len(),
        offsets@.map_values(|o: usize| o as int) == spec_field_offsets(
            start as int,
            fields@,
        ),
{
    let mut offsets: Vec<usize> = Vec::new();
    let mut cursor: usize = start;
    let mut i: usize = 0;
    proof {
        assert(fields@.take(0) =~= Seq::<FieldDesc>::empty());
        assert(offsets@.map_values(|o: usize| o as int) =~= Seq::<int>::empty());
    }
    while i < fields.len()
        invariant
            i <= fields@.len(),
            all_aligns_positive(fields@),
            start + spec_padded_sum(fields@) <= usize::MAX,
            cursor == spec_layout_end(start as int, fields@.take(i as int)),
            offsets@.map_values(|o: usize| o as int) == spec_field_offsets(
                start as int,
                fields@.take(i as int),
            ),
            offsets@.len() == i,
        decreases fields@.len() - i,
    {
        proof {
            lemma_layout_end_bounds(start as int, fields@.take(i as int));
            lemma_take_padded_sum(fields@, i as int);
            lemma_take_padded_sum(fields@, i as int + 1);
            assert(fields@.take(i as int + 1) =~= fields@.take(i as int).push(fields@[i as int]));
            lemma_padded_push(fields@.take(i as int), fields@[i as int]);
            lemma_layout_push(start as int, fields@.take(i as int), fields@[i as int]);
            lemma_align_up_bounds(cursor as int, fields@[i as int].align as int);
        }
        let off = align_up(cursor, fields[i].align);
        offsets.push(off);
        cursor = off + fields[i].size;
        i = i + 1;
        proof {
            assert(offsets@.map_values(|o: usize| o as int) =~= spec_field_offsets(
                start as int,
                fields@.take(i as int),
            ));
        }
    }
    proof {
        assert(fields@.take(fields@.len() as int) =~= fields@);
    }
    offsets
}

/// The padded-sum bound of a prefix is no more than that of the whole list.
proof fn lemma_take_padded_sum(fields: Seq<FieldDesc>, n: int)
    requires
        0 <= n <= fields.len(),
        all_aligns_positive(fields),
    ensures
        spec_padded_sum(fields.take(n)) <= spec_padded_sum(fields),
        all_aligns_positive(fields.take(n)),
        spec_padded_sum(fields.take(n)) >= 0,
    decreases fields.len(),
{
    if fields.len() == 0 {
        assert(fields.take(n) =~= fields);
    } else if n == 0 {
        assert(fields.take(0) =~= Seq::<FieldDesc>::empty());
        lemma_padded_sum_nonneg(fields);
    } else {
        assert(fields.take(n)[0] == fields[0]);
        assert(fields.take(n).drop_first() =~= fields.drop_first().take(n - 1));
        lemma_take_padded_sum(fields.drop_first(), n - 1);
    }
}

/// One more field adds its size and at most its alignment's padding to the
/// padded-sum bound.
proof fn lemma_padded_push(fields: Seq<FieldDesc>, f: FieldDesc)
    ensures
        spec_padded_sum(fields.push(f)) == spec_padded_sum(fields) + (f.align - 1) + f.size,
    decreases fields.len(),
{
    if fields.len() == 0 {
        assert(fields.push(f)[0] == f);
        assert(fields.push(f).drop_first() =~= Seq::<FieldDesc>::empty());
        assert(spec_padded_sum(fields.push(f).drop_first()) == 0);
    } else {
        assert(fields.push(f)[0] == fields[0]);
        assert(fields.push(f).drop_first() =~= fields.drop_first().push(f));
        lemma_padded_push(fields.drop_first(), f);
    }
}

proof fn lemma_padded_sum_nonneg(fields: Seq<FieldDesc>)
    requires
        all_aligns_positive(fields),
    ensures
        spec_padded_sum(fields) >= 0,
    decreases fields.len(),
{
    if fields.len() > 0 {
        lemma_padded_sum_nonneg(fields.drop_first());
    }
}

/// The offsets of a whole class: the parent struct at offset 0, then the
/// declared fields starting at the parent's size, each rounded up to its own
/// alignment.
pub fn class_offsets(parent_size: usize, fields: &Vec<FieldDesc>) -> (offsets: Vec<usize>)
    requires
        all_aligns_positive(fields@),
        parent_size + spec_padded_sum(fields@) <= usize::MAX,
    ensures
        offsets@.len() == fields@.len() + 1,
        offsets@[0] == 0,
        offsets@.drop_first().map_values(|o: usize| o as int) == spec_field_offsets(
            parent_size as int,
            fields@,
        ),
{
    let mut offsets: Vec<usize> = Vec::new();
    offsets.push(0);
    let mut rest = field_offsets(parent_size, fields);
    let ghost rest0 = rest@;
    let mut j: usize = 0;
    while j < rest.len()
        invariant
            j <= rest0.len(),
            rest@ == rest0,
            offsets@ == seq![0usize] + rest0.take(j as int),
        decreases rest0.len() - j,
    {
        let v = rest[j];
        offsets.push(v);
        j = j + 1;
        proof {
            assert(offsets@ =~= seq![0usize] + rest0.take(j as int));
        }
    }
    proof {
        assert(rest0.take(rest0.len() as int) =~= rest0);
        assert(offsets@.drop_first() =~= rest0);
        assert(rest0.map_values(|o: usize| o as int) == spec_field_offsets(
            parent_size as int,
            fields@,
        ));
    }
    offsets
}

} // verus!
