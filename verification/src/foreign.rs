//! Value marshaling across the foreign boundary.
//!
//! Foreign memory is modeled explicitly: a [`ForeignHeap`] of allocated cells,
//! addressed by [`ForeignPtr`] (address 0 models the null pointer).  A cell
//! holds the foreign representation of one native value.  Clone-to-foreign
//! allocates a fresh cell; clone-from-foreign reads a cell without taking
//! ownership; take-from-foreign reads a cell and then frees it.  Borrowing
//! exposes the same foreign representation without touching the heap at all.
//!
//! All allocation and release goes through the one heap, which models the
//! requirement that everything the foreign runtime will later free must come
//! from the foreign runtime's own allocator.

use vstd::prelude::*;

use core::marker::PhantomData;

verus! {

/// A pointer-sized foreign address.  Address 0 models the null pointer.
#[derive(Clone, Copy, PartialEq, Eq, Structural, Debug)]
pub struct ForeignPtr {
    pub addr: usize,
}

impl ForeignPtr {
    pub open spec fn is_null_spec(self) -> bool {
        self.addr == 0
    }

    pub fn null() -> (p: ForeignPtr)
        ensures
            p.addr == 0,
    {
        ForeignPtr { addr: 0 }
    }

    pub fn is_null(&self) -> (b: bool)
        ensures
            b == self.is_null_spec(),
    {
        self.addr == 0
    }
}

/// What one foreign allocation holds: a fixed-width integer, the characters
/// of a null-terminated C string (the terminator itself is implicit), or a
/// foreign error object carrying its message.
pub enum CellValue {
    I8(i8),
    U8(u8),
    I16(i16),
    U16(u16),
    I32(i32),
    U32(u32),
    I64(i64),
    U64(u64),
    ISize(isize),
    USize(usize),
    Text(String),
    ErrMsg(String),
}

/// The mathematical content of a [`CellValue`].
#[verifier::ext_equal]
pub enum CellView {
    I8(i8),
    U8(u8),
    I16(i16),
    U16(u16),
    I32(i32),
    U32(u32),
    I64(i64),
    U64(u64),
    ISize(isize),
    USize(usize),
    Text(Seq<char>),
    ErrMsg(Seq<char>),
}

impl View for CellValue {
    type V = CellView;

    open spec fn view(&self) -> CellView {
        match self {
            CellValue::I8(v) => CellView::I8(*v),
            CellValue::U8(v) => CellView::U8(*v),
            CellValue::I16(v) => CellView::I16(*v),
            CellValue::U16(v) => CellView::U16(*v),
            CellValue::I32(v) => CellView::I32(*v),
            CellValue::U32(v) => CellView::U32(*v),
            CellValue::I64(v) => CellView::I64(*v),
            CellValue::U64(v) => CellView::U64(*v),
            CellValue::ISize(v) => CellView::ISize(*v),
            CellValue::USize(v) => CellView::USize(*v),
            CellValue::Text(s) => CellView::Text(s@),
            CellValue::ErrMsg(s) => CellView::ErrMsg(s@),
        }
    }
}

/// Two cell contents of the same shape: what a well-typed foreign write may
/// replace a cell's content with.
pub open spec fn same_kind(a: CellView, b: CellView) -> bool {
    match (a, b) {
        (CellView::I8(_), CellView::I8(_)) => true,
        (CellView::U8(_), CellView::U8(_)) => true,
        (CellView::I16(_), CellView::I16(_)) => true,
        (CellView::U16(_), CellView::U16(_)) => true,
        (CellView::I32(_), CellView::I32(_)) => true,
        (CellView::U32(_), CellView::U32(_)) => true,
        (CellView::I64(_), CellView::I64(_)) => true,
        (CellView::U64(_), CellView::U64(_)) => true,
        (CellView::ISize(_), CellView::ISize(_)) => true,
        (CellView::USize(_), CellView::USize(_)) => true,
        (CellView::Text(_), CellView::Text(_)) => true,
        (CellView::ErrMsg(_), CellView::ErrMsg(_)) => true,
        _ => false,
    }
}

/// The view of an optional cell, where `None` models a null pointer.
pub open spec fn opt_cell_view(c: Option<CellValue>) -> Option<CellView> {
    match c {
        Option::None => Option::None,
        Option::Some(v) => Option::Some(v@),
    }
}

/// Same-shape compatibility lifted to optional cells.
pub open spec fn compatible_cells(a: Option<CellView>, b: Option<CellView>) -> bool {
    match (a, b) {
        (Option::None, Option::None) => true,
        (Option::Some(x), Option::Some(y)) => same_kind(x, y),
        _ => false,
    }
}

impl CellValue {
    pub fn as_i8(&self) -> (r: i8)
        requires
            self@ is I8,
        ensures
            self@ == CellView::I8(r),
    {
        match self {
            CellValue::I8(v) => *v,
            _ => 0,
        }
    }

    pub fn as_u8(&self) -> (r: u8)
        requires
            self@ is U8,
        ensures
            self@ == CellView::U8(r),
    {
        match self {
            CellValue::U8(v) => *v,
            _ => 0,
        }
    }

    pub fn as_i32(&self) -> (r: i32)
        requires
            self@ is I32,
        ensures
            self@ == CellView::I32(r),
    {
        match self {
            CellValue::I32(v) => *v,
            _ => 0,
        }
    }

    pub fn as_u64(&self) -> (r: u64)
        requires
            self@ is U64,
        ensures
            self@ == CellView::U64(r),
    {
        match self {
            CellValue::U64(v) => *v,
            _ => 0,
        }
    }


    pub fn as_i16(&self) -> (r: i16)
        requires
            self@ is I16,
        ensures
            self@ == CellView::I16(r),
    {
        match self {
            CellValue::I16(v) => *v,
            _ => 0,
        }
    }

    pub fn as_u16(&self) -> (r: u16)
        requires
            self@ is U16,
        ensures
            self@ == CellView::U16(r),
    {
        match self {
            CellValue::U16(v) => *v,
            _ => 0,
        }
    }

    pub fn as_u32(&self) -> (r: u32)
        requires
            self@ is U32,
        ensures
            self@ == CellView::U32(r),
    {
        match self {
            CellValue::U32(v) => *v,
            _ => 0,
        }
    }

    pub fn as_i64(&self) -> (r: i64)
        requires
            self@ is I64,
        ensures
            self@ == CellView::I64(r),
    {
        match self {
            CellValue::I64(v) => *v,
            _ => 0,
        }
    }

    pub fn as_isize(&self) -> (r: isize)
        requires
            self@ is ISize,
        ensures
            self@ == CellView::ISize(r),
    {
        match self {
            CellValue::ISize(v) => *v,
            _ => 0,
        }
    }

    pub fn as_usize(&self) -> (r: usize)
        requires
            self@ is USize,
        ensures
            self@ == CellView::USize(r),
    {
        match self {
            CellValue::USize(v) => *v,
            _ => 0,
        }
    }

    pub fn as_text(&self) -> (r: String)
        requires
            self@ is Text,
        ensures
            self@ == CellView::Text(r@),
    {
        match self {
            CellValue::Text(s) => s.clone(),
            _ => String::new(),
        }
    }

    pub fn as_err_msg(&self) -> (r: String)
        requires
            self@ is ErrMsg,
        ensures
            self@ == CellView::ErrMsg(r@),
    {
        match self {
            CellValue::ErrMsg(s) => s.clone(),
            _ => String::new(),
        }
    }
}

/// One foreign allocation: its content, and whether it is still allocated.
pub struct ForeignCell {
    pub value: CellValue,
    pub live: bool,
}

/// The mathematical state of one foreign allocation.
#[verifier::ext_equal]
pub struct CellState {
    pub value: CellView,
    pub live: bool,
}

impl View for ForeignCell {
    type V = CellState;

    open spec fn view(&self) -> CellState {
        CellState { value: self.value@, live: self.live }
    }
}

/// The foreign allocator's memory: every allocation ever made, in order.
/// Freed cells stay in place (dead), so addresses are never reused and a
/// double free is impossible to express against a live-cell precondition.
pub struct ForeignHeap {
    cells: Vec<ForeignCell>,
}

impl View for ForeignHeap {
    type V = Seq<CellState>;

    closed spec fn view(&self) -> Seq<CellState> {
        self.cells@.map_values(|c: ForeignCell| c@)
    }
}

impl ForeignHeap {
    /// The address `p` points at a cell that is currently allocated.
    pub open spec fn live(self, p: ForeignPtr) -> bool {
        1 <= p.addr <= self@.len() && self@[p.addr - 1].live
    }

    /// The content of the (live or dead) cell at `p`.
    pub open spec fn value(self, p: ForeignPtr) -> CellView {
        self@[p.addr - 1].value
    }

    pub fn new() -> (h: ForeignHeap)
        ensures
            h@ == Seq::<CellState>::empty(),
    {
        let h = ForeignHeap { cells: Vec::new() };
        proof {
            assert(h@ =~= Seq::<CellState>::empty());
        }
        h
    }

    /// Allocate a fresh cell holding `v` and return its (non-null) address.
    pub fn allocate(&mut self, v: CellValue) -> (p: ForeignPtr)
        requires
            old(self)@.len() + 1 <= usize::MAX,
        ensures
            final(self)@ == old(self)@.push(CellState { value: v@, live: true }),
            p.addr == old(self)@.len() + 1,
    {
        let addr = self.cells.len() + 1;
        let ghost v_view = v@;
        self.cells.push(ForeignCell { value: v, live: true });
        proof {
            assert(self@ =~= old(self)@.push(CellState { value: v_view, live: true }));
        }
        ForeignPtr { addr }
    }

    /// Release the live cell at `p`.  The cell stays in place, dead.
    pub fn free(&mut self, p: ForeignPtr)
        requires
            old(self).live(p),
        ensures
            final(self)@.len() == old(self)@.len(),
            !final(self)@[p.addr - 1].live,
            forall|j: int|
                0 <= j < final(self)@.len() && j != p.addr - 1 ==> final(self)@[j] == old(self)@[j],
    {
        let i = p.addr - 1;
        let mut c = self.cells.remove(i);
        c.live = false;
        self.cells.insert(i, c);
        proof {
            assert(forall|j: int|
                0 <= j < self@.len() && j != p.addr - 1 ==> self@[j] == old(self)@[j]);
        }
    }

    /// Read the live cell at `p`.
    pub fn value_at(&self, p: ForeignPtr) -> (c: &CellValue)
        requires
            self.live(p),
        ensures
            c@ == self.value(p),
    {
        &self.cells[p.addr - 1].value
    }

    /// How many allocations have ever been made.
    pub fn size(&self) -> (n: usize)
        ensures
            n == self@.len(),
    {
        self.cells.len()
    }

    /// Whether the cell at `p` is currently allocated.
    pub fn is_live(&self, p: ForeignPtr) -> (b: bool)
        ensures
            b == self.live(p),
    {
        1 <= p.addr && p.addr <= self.cells.len() && self.cells[p.addr - 1].live
    }
}

/// A type with a canonical representation as one foreign allocation.
pub trait CloneToForeign: Sized {
    /// The foreign representation of this value; `None` models a null
    /// pointer (the representation of an absent optional value).
    spec fn foreign_cell(&self) -> Option<CellView>;

    /// Copy this value into a freshly allocated foreign cell.  An absent
    /// value allocates nothing and yields a null pointer.
    fn clone_to_foreign(&self, heap: &mut ForeignHeap) -> (p: OwnedPointer<Self>)
        requires
            old(heap)@.len() + 1 <= usize::MAX,
        ensures
            match self.foreign_cell() {
                Option::None => final(heap)@ == old(heap)@ && p.ptr_spec().addr == 0,
                Option::Some(cv) => final(heap)@ == old(heap)@.push(
                    CellState { value: cv, live: true },
                ) && p.ptr_spec().addr == old(heap)@.len() + 1,
            },
    ;

    /// Copy this value into a freshly allocated foreign cell and hand the
    /// bare pointer out; the caller is responsible for freeing it.
    fn clone_to_foreign_ptr(&self, heap: &mut ForeignHeap) -> (p: ForeignPtr)
        requires
            old(heap)@.len() + 1 <= usize::MAX,
        ensures
            match self.foreign_cell() {
                Option::None => final(heap)@ == old(heap)@ && p.addr == 0,
                Option::Some(cv) => final(heap)@ == old(heap)@.push(
                    CellState { value: cv, live: true },
                ) && p.addr == old(heap)@.len() + 1,
            },
    {
        self.clone_to_foreign(heap).into_inner()
    }

    /// Release a foreign cell of this type's representation.  A null pointer
    /// is accepted and ignored, as the foreign allocator's release is.
    fn free_foreign(heap: &mut ForeignHeap, p: ForeignPtr)
        requires
            p.addr != 0 ==> old(heap).live(p),
        ensures
            final(heap)@.len() == old(heap)@.len(),
            p.addr == 0 ==> final(heap)@ == old(heap)@,
            p.addr != 0 ==> !final(heap)@[p.addr - 1].live,
            forall|j: int|
                0 <= j < final(heap)@.len() && j != p.addr - 1 ==> final(heap)@[j] == old(heap)@[j],
    {
        if !p.is_null() {
            heap.free(p);
        }
    }
}

/// A type which can be read back from its canonical foreign representation.
pub trait FromForeign: CloneToForeign {
    /// The foreign cells this type can be read from; `None` is a null
    /// pointer.
    spec fn accepts(c: Option<CellView>) -> bool;

    /// How a value read from a foreign cell relates to that cell's content.
    spec fn from_cell(c: Option<CellView>, v: Self) -> bool;

    /// Copy a native value out of the foreign cell at `p`, without taking
    /// ownership of the cell.
    fn cloned_from_foreign(heap: &ForeignHeap, p: ForeignPtr) -> (v: Self)
        requires
            p.addr == 0 ==> Self::accepts(Option::None),
            p.addr != 0 ==> heap.live(p) && Self::accepts(Option::Some(heap.value(p))),
        ensures
            p.addr == 0 ==> Self::from_cell(Option::None, v),
            p.addr != 0 ==> Self::from_cell(Option::Some(heap.value(p)), v),
    ;

    /// Copy a native value out of the foreign cell at `p` and release the
    /// cell: ownership transfers from the foreign side.
    fn from_foreign(heap: &mut ForeignHeap, p: ForeignPtr) -> (v: Self)
        requires
            p.addr == 0 ==> Self::accepts(Option::None),
            p.addr != 0 ==> old(heap).live(p) && Self::accepts(
                Option::Some(old(heap).value(p)),
            ),
        ensures
            p.addr == 0 ==> Self::from_cell(Option::None, v) && final(heap)@ == old(heap)@,
            p.addr != 0 ==> Self::from_cell(Option::Some(old(heap).value(p)), v),
            final(heap)@.len() == old(heap)@.len(),
            p.addr != 0 ==> !final(heap)@[p.addr - 1].live,
            forall|j: int|
                0 <= j < final(heap)@.len() && j != p.addr - 1 ==> final(heap)@[j] == old(heap)@[j],
    {
        let v = Self::cloned_from_foreign(heap, p);
        Self::free_foreign(heap, p);
        v
    }
}

/// Take-from-foreign, callable on the pointer itself.
pub trait IntoNative<T: FromForeign>: Sized {
    /// When the conversion may be made.
    spec fn into_native_req(self, heap: ForeignHeap) -> bool;

    /// How the produced value and the heap afterwards relate to the heap
    /// before.
    spec fn into_native_ens(self, heap: ForeignHeap, new_heap: ForeignHeap, v: T) -> bool;

    /// Convert the foreign cell this pointer addresses into a native value,
    /// taking ownership of (and releasing) the cell.
    fn into_native(self, heap: &mut ForeignHeap) -> (v: T)
        requires
            self.into_native_req(*old(heap)),
        ensures
            self.into_native_ens(*old(heap), *final(heap), v),
    ;
}

impl<T: FromForeign> IntoNative<T> for ForeignPtr {
    open spec fn into_native_req(self, heap: ForeignHeap) -> bool {
        &&& self.addr == 0 ==> T::accepts(Option::None)
        &&& self.addr != 0 ==> heap.live(self) && T::accepts(Option::Some(heap.value(self)))
    }

    open spec fn into_native_ens(self, heap: ForeignHeap, new_heap: ForeignHeap, v: T) -> bool {
        &&& self.addr == 0 ==> T::from_cell(Option::None, v) && new_heap@ == heap@
        &&& self.addr != 0 ==> T::from_cell(Option::Some(heap.value(self)), v)
        &&& new_heap@.len() == heap@.len()
    }

    fn into_native(self, heap: &mut ForeignHeap) -> (v: T) {
        T::from_foreign(heap, self)
    }
}

/// An owning wrapper around a foreign allocation: exactly one unit of
/// responsibility for freeing the cell its pointer addresses.
#[verifier::reject_recursive_types(T)]
pub struct OwnedPointer<T> {
    ptr: ForeignPtr,
    _marker: PhantomData<T>,
}

impl<T> OwnedPointer<T> {
    /// The wrapped pointer.
    pub closed spec fn ptr_spec(self) -> ForeignPtr {
        self.ptr
    }

    /// Wrap the pointer `ptr`, adopting the duty to free it.
    pub fn new(ptr: ForeignPtr) -> (r: OwnedPointer<T>)
        ensures
            r.ptr_spec() == ptr,
    {
        OwnedPointer { ptr, _marker: PhantomData }
    }

    /// Re-type an owned allocation whose representation and release function
    /// are the same.
    pub fn from<U>(x: OwnedPointer<U>) -> (r: OwnedPointer<T>)
        ensures
            r.ptr_spec() == x.ptr_spec(),
    {
        OwnedPointer { ptr: x.into_inner(), _marker: PhantomData }
    }

    /// Re-type an owned allocation whose representation and release function
    /// are the same.
    pub fn into<U>(self) -> (r: OwnedPointer<U>)
        ensures
            r.ptr_spec() == self.ptr_spec(),
    {
        OwnedPointer::<U>::from(self)
    }

    /// The wrapped pointer; valid for as long as the owner is not freed.
    pub fn as_ptr(&self) -> (p: ForeignPtr)
        ensures
            p == self.ptr_spec(),
    {
        self.ptr
    }

    /// The wrapped pointer, for a foreign call that writes through it.
    pub fn as_mut_ptr(&self) -> (p: ForeignPtr)
        ensures
            p == self.ptr_spec(),
    {
        self.ptr
    }

    /// Give the pointer up without freeing it; the caller takes over the
    /// duty to free.
    pub fn into_inner(self) -> (p: ForeignPtr)
        ensures
            p == self.ptr_spec(),
    {
        self.ptr
    }

}

impl<T: CloneToForeign> OwnedPointer<T> {
    /// Release the owned cell.
    pub fn free(self, heap: &mut ForeignHeap)
        requires
            self.ptr_spec().addr != 0 ==> old(heap).live(self.ptr_spec()),
        ensures
            final(heap)@.len() == old(heap)@.len(),
            self.ptr_spec().addr == 0 ==> final(heap)@ == old(heap)@,
            self.ptr_spec().addr != 0 ==> !final(heap)@[self.ptr_spec().addr - 1].live,
            forall|j: int|
                0 <= j < final(heap)@.len() && j != self.ptr_spec().addr - 1 ==> final(heap)@[j] == old(heap)@[j],
    {
        T::free_foreign(heap, self.into_inner())
    }
}

impl<T: FromForeign> OwnedPointer<T> {
    /// Convert the owned cell into a native value, releasing the cell:
    /// take-from-foreign on an owning wrapper.
    pub fn into_native(self, heap: &mut ForeignHeap) -> (v: T)
        requires
            self.ptr_spec().addr == 0 ==> T::accepts(Option::None),
            self.ptr_spec().addr != 0 ==> old(heap).live(self.ptr_spec()) && T::accepts(
                Option::Some(old(heap).value(self.ptr_spec())),
            ),
        ensures
            self.ptr_spec().addr == 0 ==> T::from_cell(Option::None, v) && final(heap)@ == old(heap)@,
            self.ptr_spec().addr != 0 ==> T::from_cell(
                Option::Some(old(heap).value(self.ptr_spec())),
                v,
            ),
            final(heap)@.len() == old(heap)@.len(),
    {
        T::from_foreign(heap, self.into_inner())
    }
}

/// A non-owning foreign view of a value borrowed from native storage: what a
/// foreign callee sees through a pointer argument for the duration of one
/// call.  `None` models handing out a null pointer.
#[verifier::reject_recursive_types(T)]
pub struct BorrowedPointer<T> {
    cell: Option<CellValue>,
    _marker: PhantomData<T>,
}

impl<T> BorrowedPointer<T> {
    /// The foreign view this borrow exposes.
    pub closed spec fn cell_spec(self) -> Option<CellView> {
        opt_cell_view(self.cell)
    }

    /// Wrap the foreign view `cell`.
    pub fn new(cell: Option<CellValue>) -> (b: BorrowedPointer<T>)
        ensures
            b.cell_spec() == opt_cell_view(cell),
    {
        BorrowedPointer { cell, _marker: PhantomData }
    }

    /// What the foreign side reads through the borrowed pointer; `None` is a
    /// null pointer.
    pub fn as_ptr(&self) -> (c: Option<&CellValue>)
        ensures
            match c {
                Option::None => self.cell_spec() is None,
                Option::Some(v) => self.cell_spec() == Option::Some(v@),
            },
    {
        match &self.cell {
            Option::None => Option::None,
            Option::Some(v) => Option::Some(v),
        }
    }

    /// Whether the borrowed pointer is null.
    pub fn is_null(&self) -> (b: bool)
        ensures
            b == (self.cell_spec() is None),
    {
        self.cell.is_none()
    }

    /// Give up the borrow and hand its foreign view back.
    pub fn into_cell(self) -> (c: Option<CellValue>)
        ensures
            opt_cell_view(c) == self.cell_spec(),
    {
        self.cell
    }
}

/// A foreign view of a value borrowed from exclusively held native storage:
/// the foreign callee may write through it, and the write is carried back to
/// the native value when the borrow ends.
#[verifier::reject_recursive_types(T)]
pub struct BorrowedMutPointer<T> {
    cell: Option<CellValue>,
    _marker: PhantomData<T>,
}

impl<T> BorrowedMutPointer<T> {
    /// The foreign view this borrow exposes.
    pub closed spec fn cell_spec(self) -> Option<CellView> {
        opt_cell_view(self.cell)
    }

    /// Wrap the foreign view `cell`.
    pub fn new(cell: Option<CellValue>) -> (b: BorrowedMutPointer<T>)
        ensures
            b.cell_spec() == opt_cell_view(cell),
    {
        BorrowedMutPointer { cell, _marker: PhantomData }
    }

    /// What the foreign side reads through the borrowed pointer; `None` is a
    /// null pointer.
    pub fn as_ptr(&self) -> (c: Option<&CellValue>)
        ensures
            match c {
                Option::None => self.cell_spec() is None,
                Option::Some(v) => self.cell_spec() == Option::Some(v@),
            },
    {
        match &self.cell {
            Option::None => Option::None,
            Option::Some(v) => Option::Some(v),
        }
    }

    /// What the foreign side addresses when it writes through the borrowed
    /// pointer: the same view as [`Self::as_ptr`]; the write itself goes
    /// through [`Self::write`].
    pub fn as_mut_ptr(&self) -> (c: Option<&CellValue>)
        ensures
            match c {
                Option::None => self.cell_spec() is None,
                Option::Some(v) => self.cell_spec() == Option::Some(v@),
            },
    {
        match &self.cell {
            Option::None => Option::None,
            Option::Some(v) => Option::Some(v),
        }
    }

    /// A foreign write through the borrowed pointer: replace the viewed
    /// value with another of the same shape.
    pub fn write(&mut self, v: CellValue)
        requires
            old(self).cell_spec() is Some,
            same_kind(old(self).cell_spec()->Some_0, v@),
        ensures
            final(self).cell_spec() == Option::Some(v@),
    {
        self.cell = Option::Some(v);
    }

    /// Give up the borrow and hand its foreign view back.
    pub fn into_cell(self) -> (c: Option<CellValue>)
        ensures
            opt_cell_view(c) == self.cell_spec(),
    {
        self.cell
    }
}

/// A type whose foreign representation can be exposed for the duration of a
/// call without allocating a foreign copy.
pub trait ForeignBorrow: CloneToForeign {
    /// When the value can be borrowed at all (a C string, for example, can
    /// only be borrowed when it has no interior null character).
    spec fn borrowable(&self) -> bool;

    /// Expose this value's foreign representation, without allocating.
    fn borrow_foreign(&self) -> (b: BorrowedPointer<Self>)
        requires
            self.borrowable(),
        ensures
            b.cell_spec() == self.foreign_cell(),
    ;
}

/// A type whose foreign representation can be exposed mutably for the
/// duration of a call, with foreign writes carried back at the end.
pub trait ForeignBorrowMut: CloneToForeign {
    /// When the value can be borrowed mutably.
    spec fn borrowable_mut(&self) -> bool;

    /// Expose this value's foreign representation for writing.
    fn borrow_foreign_mut(&self) -> (b: BorrowedMutPointer<Self>)
        requires
            self.borrowable_mut(),
        ensures
            b.cell_spec() == self.foreign_cell(),
    ;

    /// End the mutable borrow, carrying a foreign write back into the
    /// native value.
    fn end_borrow_mut(&mut self, b: BorrowedMutPointer<Self>)
        requires
            compatible_cells(old(self).foreign_cell(), b.cell_spec()),
        ensures
            final(self).foreign_cell() == b.cell_spec(),
    ;
}

impl CloneToForeign for i8 {
    open spec fn foreign_cell(&self) -> Option<CellView> {
        Option::Some(CellView::I8(*self))
    }

    fn clone_to_foreign(&self, heap: &mut ForeignHeap) -> (p: OwnedPointer<i8>) {
        OwnedPointer::new(heap.allocate(CellValue::I8(*self)))
    }
}

impl FromForeign for i8 {
    open spec fn accepts(c: Option<CellView>) -> bool {
        c matches Option::Some(CellView::I8(_))
    }

    open spec fn from_cell(c: Option<CellView>, v: i8) -> bool {
        c == Option::Some(CellView::I8(v))
    }

    fn cloned_from_foreign(heap: &ForeignHeap, p: ForeignPtr) -> (v: i8) {
        heap.value_at(p).as_i8()
    }
}

impl ForeignBorrow for i8 {
    open spec fn borrowable(&self) -> bool {
        true
    }

    fn borrow_foreign(&self) -> (b: BorrowedPointer<i8>) {
        BorrowedPointer::new(Option::Some(CellValue::I8(*self)))
    }
}

impl ForeignBorrowMut for i8 {
    open spec fn borrowable_mut(&self) -> bool {
        true
    }

    fn borrow_foreign_mut(&self) -> (b: BorrowedMutPointer<i8>) {
        BorrowedMutPointer::new(Option::Some(CellValue::I8(*self)))
    }

    fn end_borrow_mut(&mut self, b: BorrowedMutPointer<i8>) {
        match b.into_cell() {
            Option::Some(c) => {
                *self = c.as_i8();
            },
            Option::None => {},
        }
    }
}

impl CloneToForeign for u8 {
    open spec fn foreign_cell(&self) -> Option<CellView> {
        Option::Some(CellView::U8(*self))
    }

    fn clone_to_foreign(&self, heap: &mut ForeignHeap) -> (p: OwnedPointer<u8>) {
        OwnedPointer::new(heap.allocate(CellValue::U8(*self)))
    }
}

impl FromForeign for u8 {
    open spec fn accepts(c: Option<CellView>) -> bool {
        c matches Option::Some(CellView::U8(_))
    }

    open spec fn from_cell(c: Option<CellView>, v: u8) -> bool {
        c == Option::Some(CellView::U8(v))
    }

    fn cloned_from_foreign(heap: &ForeignHeap, p: ForeignPtr) -> (v: u8) {
        heap.value_at(p).as_u8()
    }
}

impl ForeignBorrow for u8 {
    open spec fn borrowable(&self) -> bool {
        true
    }

    fn borrow_foreign(&self) -> (b: BorrowedPointer<u8>) {
        BorrowedPointer::new(Option::Some(CellValue::U8(*self)))
    }
}

impl ForeignBorrowMut for u8 {
    open spec fn borrowable_mut(&self) -> bool {
        true
    }

    fn borrow_foreign_mut(&self) -> (b: BorrowedMutPointer<u8>) {
        BorrowedMutPointer::new(Option::Some(CellValue::U8(*self)))
    }

    fn end_borrow_mut(&mut self, b: BorrowedMutPointer<u8>) {
        match b.into_cell() {
            Option::Some(c) => {
                *self = c.as_u8();
            },
            Option::None => {},
        }
    }
}

impl CloneToForeign for i32 {
    open spec fn foreign_cell(&self) -> Option<CellView> {
        Option::Some(CellView::I32(*self))
    }

    fn clone_to_foreign(&self, heap: &mut ForeignHeap) -> (p: OwnedPointer<i32>) {
        OwnedPointer::new(heap.allocate(CellValue::I32(*self)))
    }
}

impl FromForeign for i32 {
    open spec fn accepts(c: Option<CellView>) -> bool {
        c matches Option::Some(CellView::I32(_))
    }

    open spec fn from_cell(c: Option<CellView>, v: i32) -> bool {
        c == Option::Some(CellView::I32(v))
    }

    fn cloned_from_foreign(heap: &ForeignHeap, p: ForeignPtr) -> (v: i32) {
        heap.value_at(p).as_i32()
    }
}

impl ForeignBorrow for i32 {
    open spec fn borrowable(&self) -> bool {
        true
    }

    fn borrow_foreign(&self) -> (b: BorrowedPointer<i32>) {
        BorrowedPointer::new(Option::Some(CellValue::I32(*self)))
    }
}

impl ForeignBorrowMut for i32 {
    open spec fn borrowable_mut(&self) -> bool {
        true
    }

    fn borrow_foreign_mut(&self) -> (b: BorrowedMutPointer<i32>) {
        BorrowedMutPointer::new(Option::Some(CellValue::I32(*self)))
    }

    fn end_borrow_mut(&mut self, b: BorrowedMutPointer<i32>) {
        match b.into_cell() {
            Option::Some(c) => {
                *self = c.as_i32();
            },
            Option::None => {},
        }
    }
}

impl CloneToForeign for u64 {
    open spec fn foreign_cell(&self) -> Option<CellView> {
        Option::Some(CellView::U64(*self))
    }

    fn clone_to_foreign(&self, heap: &mut ForeignHeap) -> (p: OwnedPointer<u64>) {
        OwnedPointer::new(heap.allocate(CellValue::U64(*self)))
    }
}

impl FromForeign for u64 {
    open spec fn accepts(c: Option<CellView>) -> bool {
        c matches Option::Some(CellView::U64(_))
    }

    open spec fn from_cell(c: Option<CellView>, v: u64) -> bool {
        c == Option::Some(CellView::U64(v))
    }

    fn cloned_from_foreign(heap: &ForeignHeap, p: ForeignPtr) -> (v: u64) {
        heap.value_at(p).as_u64()
    }
}

impl ForeignBorrow for u64 {
    open spec fn borrowable(&self) -> bool {
        true
    }

    fn borrow_foreign(&self) -> (b: BorrowedPointer<u64>) {
        BorrowedPointer::new(Option::Some(CellValue::U64(*self)))
    }
}

impl ForeignBorrowMut for u64 {
    open spec fn borrowable_mut(&self) -> bool {
        true
    }

    fn borrow_foreign_mut(&self) -> (b: BorrowedMutPointer<u64>) {
        BorrowedMutPointer::new(Option::Some(CellValue::U64(*self)))
    }

    fn end_borrow_mut(&mut self, b: BorrowedMutPointer<u64>) {
        match b.into_cell() {
            Option::Some(c) => {
                *self = c.as_u64();
            },
            Option::None => {},
        }
    }
}


impl CloneToForeign for i16 {
    open spec fn foreign_cell(&self) -> Option<CellView> {
        Option::Some(CellView::I16(*self))
    }

    fn clone_to_foreign(&self, heap: &mut ForeignHeap) -> (p: OwnedPointer<i16>) {
        OwnedPointer::new(heap.allocate(CellValue::I16(*self)))
    }
}

impl FromForeign for i16 {
    open spec fn accepts(c: Option<CellView>) -> bool {
        c matches Option::Some(CellView::I16(_))
    }

    open spec fn from_cell(c: Option<CellView>, v: i16) -> bool {
        c == Option::Some(CellView::I16(v))
    }

    fn cloned_from_foreign(heap: &ForeignHeap, p: ForeignPtr) -> (v: i16) {
        heap.value_at(p).as_i16()
    }
}

impl ForeignBorrow for i16 {
    open spec fn borrowable(&self) -> bool {
        true
    }

    fn borrow_foreign(&self) -> (b: BorrowedPointer<i16>) {
        BorrowedPointer::new(Option::Some(CellValue::I16(*self)))
    }
}

impl ForeignBorrowMut for i16 {
    open spec fn borrowable_mut(&self) -> bool {
        true
    }

    fn borrow_foreign_mut(&self) -> (b: BorrowedMutPointer<i16>) {
        BorrowedMutPointer::new(Option::Some(CellValue::I16(*self)))
    }

    fn end_borrow_mut(&mut self, b: BorrowedMutPointer<i16>) {
        match b.into_cell() {
            Option::Some(c) => {
                *self = c.as_i16();
            },
            Option::None => {},
        }
    }
}

impl CloneToForeign for u16 {
    open spec fn foreign_cell(&self) -> Option<CellView> {
        Option::Some(CellView::U16(*self))
    }

    fn clone_to_foreign(&self, heap: &mut ForeignHeap) -> (p: OwnedPointer<u16>) {
        OwnedPointer::new(heap.allocate(CellValue::U16(*self)))
    }
}

impl FromForeign for u16 {
    open spec fn accepts(c: Option<CellView>) -> bool {
        c matches Option::Some(CellView::U16(_))
    }

    open spec fn from_cell(c: Option<CellView>, v: u16) -> bool {
        c == Option::Some(CellView::U16(v))
    }

    fn cloned_from_foreign(heap: &ForeignHeap, p: ForeignPtr) -> (v: u16) {
        heap.value_at(p).as_u16()
    }
}

impl ForeignBorrow for u16 {
    open spec fn borrowable(&self) -> bool {
        true
    }

    fn borrow_foreign(&self) -> (b: BorrowedPointer<u16>) {
        BorrowedPointer::new(Option::Some(CellValue::U16(*self)))
    }
}

impl ForeignBorrowMut for u16 {
    open spec fn borrowable_mut(&self) -> bool {
        true
    }

    fn borrow_foreign_mut(&self) -> (b: BorrowedMutPointer<u16>) {
        BorrowedMutPointer::new(Option::Some(CellValue::U16(*self)))
    }

    fn end_borrow_mut(&mut self, b: BorrowedMutPointer<u16>) {
        match b.into_cell() {
            Option::Some(c) => {
                *self = c.as_u16();
            },
            Option::None => {},
        }
    }
}

impl CloneToForeign for u32 {
    open spec fn foreign_cell(&self) -> Option<CellView> {
        Option::Some(CellView::U32(*self))
    }

    fn clone_to_foreign(&self, heap: &mut ForeignHeap) -> (p: OwnedPointer<u32>) {
        OwnedPointer::new(heap.allocate(CellValue::U32(*self)))
    }
}

impl FromForeign for u32 {
    open spec fn accepts(c: Option<CellView>) -> bool {
        c matches Option::Some(CellView::U32(_))
    }

    open spec fn from_cell(c: Option<CellView>, v: u32) -> bool {
        c == Option::Some(CellView::U32(v))
    }

    fn cloned_from_foreign(heap: &ForeignHeap, p: ForeignPtr) -> (v: u32) {
        heap.value_at(p).as_u32()
    }
}

impl ForeignBorrow for u32 {
    open spec fn borrowable(&self) -> bool {
        true
    }

    fn borrow_foreign(&self) -> (b: BorrowedPointer<u32>) {
        BorrowedPointer::new(Option::Some(CellValue::U32(*self)))
    }
}

impl ForeignBorrowMut for u32 {
    open spec fn borrowable_mut(&self) -> bool {
        true
    }

    fn borrow_foreign_mut(&self) -> (b: BorrowedMutPointer<u32>) {
        BorrowedMutPointer::new(Option::Some(CellValue::U32(*self)))
    }

    fn end_borrow_mut(&mut self, b: BorrowedMutPointer<u32>) {
        match b.into_cell() {
            Option::Some(c) => {
                *self = c.as_u32();
            },
            Option::None => {},
        }
    }
}

impl CloneToForeign for i64 {
    open spec fn foreign_cell(&self) -> Option<CellView> {
        Option::Some(CellView::I64(*self))
    }

    fn clone_to_foreign(&self, heap: &mut ForeignHeap) -> (p: OwnedPointer<i64>) {
        OwnedPointer::new(heap.allocate(CellValue::I64(*self)))
    }
}

impl FromForeign for i64 {
    open spec fn accepts(c: Option<CellView>) -> bool {
        c matches Option::Some(CellView::I64(_))
    }

    open spec fn from_cell(c: Option<CellView>, v: i64) -> bool {
        c == Option::Some(CellView::I64(v))
    }

    fn cloned_from_foreign(heap: &ForeignHeap, p: ForeignPtr) -> (v: i64) {
        heap.value_at(p).as_i64()
    }
}

impl ForeignBorrow for i64 {
    open spec fn borrowable(&self) -> bool {
        true
    }

    fn borrow_foreign(&self) -> (b: BorrowedPointer<i64>) {
        BorrowedPointer::new(Option::Some(CellValue::I64(*self)))
    }
}

impl ForeignBorrowMut for i64 {
    open spec fn borrowable_mut(&self) -> bool {
        true
    }

    fn borrow_foreign_mut(&self) -> (b: BorrowedMutPointer<i64>) {
        BorrowedMutPointer::new(Option::Some(CellValue::I64(*self)))
    }

    fn end_borrow_mut(&mut self, b: BorrowedMutPointer<i64>) {
        match b.into_cell() {
            Option::Some(c) => {
                *self = c.as_i64();
            },
            Option::None => {},
        }
    }
}

impl CloneToForeign for isize {
    open spec fn foreign_cell(&self) -> Option<CellView> {
        Option::Some(CellView::ISize(*self))
    }

    fn clone_to_foreign(&self, heap: &mut ForeignHeap) -> (p: OwnedPointer<isize>) {
        OwnedPointer::new(heap.allocate(CellValue::ISize(*self)))
    }
}

impl FromForeign for isize {
    open spec fn accepts(c: Option<CellView>) -> bool {
        c matches Option::Some(CellView::ISize(_))
    }

    open spec fn from_cell(c: Option<CellView>, v: isize) -> bool {
        c == Option::Some(CellView::ISize(v))
    }

    fn cloned_from_foreign(heap: &ForeignHeap, p: ForeignPtr) -> (v: isize) {
        heap.value_at(p).as_isize()
    }
}

impl ForeignBorrow for isize {
    open spec fn borrowable(&self) -> bool {
        true
    }

    fn borrow_foreign(&self) -> (b: BorrowedPointer<isize>) {
        BorrowedPointer::new(Option::Some(CellValue::ISize(*self)))
    }
}

impl ForeignBorrowMut for isize {
    open spec fn borrowable_mut(&self) -> bool {
        true
    }

    fn borrow_foreign_mut(&self) -> (b: BorrowedMutPointer<isize>) {
        BorrowedMutPointer::new(Option::Some(CellValue::ISize(*self)))
    }

    fn end_borrow_mut(&mut self, b: BorrowedMutPointer<isize>) {
        match b.into_cell() {
            Option::Some(c) => {
                *self = c.as_isize();
            },
            Option::None => {},
        }
    }
}

impl CloneToForeign for usize {
    open spec fn foreign_cell(&self) -> Option<CellView> {
        Option::Some(CellView::USize(*self))
    }

    fn clone_to_foreign(&self, heap: &mut ForeignHeap) -> (p: OwnedPointer<usize>) {
        OwnedPointer::new(heap.allocate(CellValue::USize(*self)))
    }
}

impl FromForeign for usize {
    open spec fn accepts(c: Option<CellView>) -> bool {
        c matches Option::Some(CellView::USize(_))
    }

    open spec fn from_cell(c: Option<CellView>, v: usize) -> bool {
        c == Option::Some(CellView::USize(v))
    }

    fn cloned_from_foreign(heap: &ForeignHeap, p: ForeignPtr) -> (v: usize) {
        heap.value_at(p).as_usize()
    }
}

impl ForeignBorrow for usize {
    open spec fn borrowable(&self) -> bool {
        true
    }

    fn borrow_foreign(&self) -> (b: BorrowedPointer<usize>) {
        BorrowedPointer::new(Option::Some(CellValue::USize(*self)))
    }
}

impl ForeignBorrowMut for usize {
    open spec fn borrowable_mut(&self) -> bool {
        true
    }

    fn borrow_foreign_mut(&self) -> (b: BorrowedMutPointer<usize>) {
        BorrowedMutPointer::new(Option::Some(CellValue::USize(*self)))
    }

    fn end_borrow_mut(&mut self, b: BorrowedMutPointer<usize>) {
        match b.into_cell() {
            Option::Some(c) => {
                *self = c.as_usize();
            },
            Option::None => {},
        }
    }
}

/// The index of the first null character of `s`, or `s.len()` if there is
/// none: where a C reader of `s`'s characters would stop.
pub open spec fn first_nul(s: Seq<char>) -> int
    decreases s.len(),
{
    if s.len() == 0 {
        0
    } else if s[0] == '\0' {
        0
    } else {
        1 + first_nul(s.drop_first())
    }
}

/// The characters a C reader sees in a buffer holding `s` then a null
/// terminator: everything before the first null character.
pub open spec fn text_before_nul(s: Seq<char>) -> Seq<char> {
    s.take(first_nul(s))
}

proof fn lemma_first_nul_bounds(s: Seq<char>)
    ensures
        0 <= first_nul(s) <= s.len(),
        forall|j: int| 0 <= j < first_nul(s) ==> s[j] != '\0',
        first_nul(s) < s.len() ==> s[first_nul(s)] == '\0',
    decreases s.len(),
{
    if s.len() > 0 && s[0] != '\0' {
        lemma_first_nul_bounds(s.drop_first());
        assert(forall|j: int|
            1 <= j < first_nul(s) ==> s[j] == s.drop_first()[j - 1] && s.drop_first()[j - 1]
                != '\0');
    }
}

/// If the first `i` characters are not null and either the string ends at
/// `i` or character `i` is null, then `i` is where the C reader stops.
proof fn lemma_first_nul_at(s: Seq<char>, i: int)
    requires
        0 <= i <= s.len(),
        forall|j: int| 0 <= j < i ==> s[j] != '\0',
        i < s.len() ==> s[i] == '\0',
    ensures
        first_nul(s) == i,
    decreases s.len(),
{
    if s.len() == 0 {
    } else if i == 0 {
    } else {
        assert(s[0] != '\0');
        assert(forall|j: int|
            0 <= j < i - 1 ==> s.drop_first()[j] == s[j + 1] && s[j + 1] != '\0');
        assert(i - 1 < s.drop_first().len() ==> s.drop_first()[i - 1] == s[i]);
        lemma_first_nul_at(s.drop_first(), i - 1);
    }
}

/// The characters of `s` up to (not including) its first null character, as
/// a C string reader would hand them back.
pub fn truncate_at_nul(s: &str) -> (r: String)
    ensures
        r@ == text_before_nul(s@),
{
    let n = s.unicode_len();
    let mut i: usize = 0;
    while i < n
        invariant
            n == s@.len(),
            0 <= i <= n,
            forall|j: int| 0 <= j < i ==> s@[j] != '\0',
        decreases n - i,
    {
        if s.get_char(i) == '\0' {
            proof {
                lemma_first_nul_at(s@, i as int);
            }
            return s.substring_char(0, i).to_owned();
        }
        i = i + 1;
    }
    proof {
        lemma_first_nul_at(s@, n as int);
        assert(s@.take(n as int) =~= s@);
    }
    s.to_owned()
}

impl CloneToForeign for String {
    open spec fn foreign_cell(&self) -> Option<CellView> {
        Option::Some(CellView::Text(text_before_nul(self@)))
    }

    fn clone_to_foreign(&self, heap: &mut ForeignHeap) -> (p: OwnedPointer<String>) {
        let t = truncate_at_nul(self.as_str());
        OwnedPointer::new(heap.allocate(CellValue::Text(t)))
    }
}

impl FromForeign for String {
    open spec fn accepts(c: Option<CellView>) -> bool {
        c matches Option::Some(CellView::Text(_))
    }

    open spec fn from_cell(c: Option<CellView>, v: String) -> bool {
        match c {
            Option::Some(CellView::Text(t)) => v@ == text_before_nul(t),
            _ => false,
        }
    }

    fn cloned_from_foreign(heap: &ForeignHeap, p: ForeignPtr) -> (v: String) {
        let s = heap.value_at(p).as_text();
        truncate_at_nul(s.as_str())
    }
}

impl ForeignBorrow for String {
    /// A C view of a string can only be handed out when the string has no
    /// interior null character: the borrowed null-terminated copy would
    /// otherwise change the contents.
    open spec fn borrowable(&self) -> bool {
        forall|j: int| 0 <= j < self@.len() ==> self@[j] != '\0'
    }

    fn borrow_foreign(&self) -> (b: BorrowedPointer<String>) {
        proof {
            lemma_first_nul_at(self@, self@.len() as int);
            assert(self@.take(self@.len() as int) =~= self@);
        }
        BorrowedPointer::new(Option::Some(CellValue::Text(self.clone())))
    }
}

impl<T: CloneToForeign> CloneToForeign for Option<T> {
    open spec fn foreign_cell(&self) -> Option<CellView> {
        match self {
            Option::None => Option::None,
            Option::Some(v) => v.foreign_cell(),
        }
    }

    fn clone_to_foreign(&self, heap: &mut ForeignHeap) -> (p: OwnedPointer<Option<T>>) {
        match self {
            Option::None => OwnedPointer::new(ForeignPtr::null()),
            Option::Some(v) => OwnedPointer::from(v.clone_to_foreign(heap)),
        }
    }
}

impl<T: FromForeign> FromForeign for Option<T> {
    open spec fn accepts(c: Option<CellView>) -> bool {
        match c {
            Option::None => true,
            Option::Some(cv) => T::accepts(Option::Some(cv)),
        }
    }

    open spec fn from_cell(c: Option<CellView>, v: Option<T>) -> bool {
        match c {
            Option::None => v is None,
            Option::Some(cv) => match v {
                Option::Some(x) => T::from_cell(Option::Some(cv), x),
                Option::None => false,
            },
        }
    }

    fn cloned_from_foreign(heap: &ForeignHeap, p: ForeignPtr) -> (v: Option<T>) {
        if p.is_null() {
            Option::None
        } else {
            Option::Some(T::cloned_from_foreign(heap, p))
        }
    }
}

impl<T: ForeignBorrow> ForeignBorrow for Option<T> {
    open spec fn borrowable(&self) -> bool {
        match self {
            Option::None => true,
            Option::Some(v) => v.borrowable(),
        }
    }

    fn borrow_foreign(&self) -> (b: BorrowedPointer<Option<T>>) {
        match self {
            Option::None => BorrowedPointer::new(Option::None),
            Option::Some(v) => BorrowedPointer::new(v.borrow_foreign().into_cell()),
        }
    }
}

impl<T: ForeignBorrowMut> ForeignBorrowMut for Option<T> {
    open spec fn borrowable_mut(&self) -> bool {
        match self {
            Option::None => true,
            Option::Some(v) => v.borrowable_mut(),
        }
    }

    fn borrow_foreign_mut(&self) -> (b: BorrowedMutPointer<Option<T>>) {
        match self {
            Option::None => BorrowedMutPointer::new(Option::None),
            Option::Some(v) => BorrowedMutPointer::new(v.borrow_foreign_mut().into_cell()),
        }
    }

    fn end_borrow_mut(&mut self, b: BorrowedMutPointer<Option<T>>) {
        let cur = self.take();
        match (cur, b.into_cell()) {
            (Option::Some(v), Option::Some(cv)) => {
                let mut v = v;
                v.end_borrow_mut(BorrowedMutPointer::new(Option::Some(cv)));
                *self = Option::Some(v);
            },
            (Option::Some(v), Option::None) => {
                *self = Option::Some(v);
            },
            (Option::None, _) => {
                *self = Option::None;
            },
        }
    }
}

impl<T: CloneToForeign> CloneToForeign for Box<T> {
    open spec fn foreign_cell(&self) -> Option<CellView> {
        (**self).foreign_cell()
    }

    fn clone_to_foreign(&self, heap: &mut ForeignHeap) -> (p: OwnedPointer<Box<T>>) {
        OwnedPointer::from((**self).clone_to_foreign(heap))
    }
}

impl<T: FromForeign> FromForeign for Box<T> {
    open spec fn accepts(c: Option<CellView>) -> bool {
        T::accepts(c)
    }

    open spec fn from_cell(c: Option<CellView>, v: Box<T>) -> bool {
        T::from_cell(c, *v)
    }

    fn cloned_from_foreign(heap: &ForeignHeap, p: ForeignPtr) -> (v: Box<T>) {
        Box::new(T::cloned_from_foreign(heap, p))
    }
}

impl<T: ForeignBorrow> ForeignBorrow for Box<T> {
    open spec fn borrowable(&self) -> bool {
        (**self).borrowable()
    }

    fn borrow_foreign(&self) -> (b: BorrowedPointer<Box<T>>) {
        BorrowedPointer::new((**self).borrow_foreign().into_cell())
    }
}

impl<T: ForeignBorrowMut> ForeignBorrowMut for Box<T> {
    open spec fn borrowable_mut(&self) -> bool {
        (**self).borrowable_mut()
    }

    fn borrow_foreign_mut(&self) -> (b: BorrowedMutPointer<Box<T>>) {
        BorrowedMutPointer::new((**self).borrow_foreign_mut().into_cell())
    }

    fn end_borrow_mut(&mut self, b: BorrowedMutPointer<Box<T>>) {
        let inner: &mut T = &mut **self;
        inner.end_borrow_mut(BorrowedMutPointer::new(b.into_cell()));
    }
}

} // verus!
