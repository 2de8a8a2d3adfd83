//! The native error type and its bridge to the foreign error convention.
//!
//! A fallible foreign call takes an error slot: a pointer to a foreign-error
//! pointer.  A null slot means the caller discards errors, which is honored
//! silently.  A non-null slot receives, on failure, the address of a newly
//! allocated foreign error object that the receiver must release exactly
//! once.  The bridge here is the single place where the native `Result`
//! convention and the foreign slot convention meet.

use vstd::prelude::*;

use crate::foreign::CellState;
use crate::foreign::CellValue;
use crate::foreign::CellView;
use crate::foreign::CloneToForeign;
use crate::foreign::ForeignHeap;
use crate::foreign::ForeignPtr;
use crate::foreign::FromForeign;
use crate::foreign::OwnedPointer;

verus! {

/// Where an error was raised: a file name and a line number.
#[derive(Debug)]
pub struct Location {
    pub file: String,
    pub line: u32,
}

/// A native error: an optional message, an optional chained cause whose
/// text is appended, and an optional source location.
#[derive(Debug)]
pub struct Error {
    pub msg: Option<String>,
    pub cause: Option<Box<Error>>,
    pub location: Option<Location>,
}

/// The decimal digit `d` as a character.
pub open spec fn digit_char(d: int) -> char {
    if d == 0 {
        '0'
    } else if d == 1 {
        '1'
    } else if d == 2 {
        '2'
    } else if d == 3 {
        '3'
    } else if d == 4 {
        '4'
    } else if d == 5 {
        '5'
    } else if d == 6 {
        '6'
    } else if d == 7 {
        '7'
    } else if d == 8 {
        '8'
    } else {
        '9'
    }
}

/// The decimal digits of `n`, most significant first.
pub open spec fn decimal_view(n: int) -> Seq<char>
    decreases n,
{
    if n < 10 {
        seq![digit_char(n)]
    } else {
        decimal_view(n / 10).push(digit_char(n % 10))
    }
}

/// The text of a location: `file:line`.
pub open spec fn location_view(l: Location) -> Seq<char> {
    l.file@ + seq![':'] + decimal_view(l.line as int)
}

/// The text of an error's location and message parts, before any cause.
pub open spec fn head_view(loc: Option<Location>, msg: Option<String>) -> Seq<char> {
    match (loc, msg) {
        (Option::None, Option::None) => Seq::empty(),
        (Option::Some(l), Option::None) => location_view(l),
        (Option::None, Option::Some(m)) => m@,
        (Option::Some(l), Option::Some(m)) => location_view(l) + ": "@ + m@,
    }
}

/// The displayed text of an error: `file:line: msg: cause`, with absent
/// parts and their separators left out, and `unknown error` when every part
/// is absent.
pub open spec fn display_view(e: Error) -> Seq<char>
    decreases e,
{
    match e.cause {
        Option::Some(c) => if e.location is Some || e.msg is Some {
            head_view(e.location, e.msg) + ": "@ + display_view(*c)
        } else {
            display_view(*c)
        },
        Option::None => if e.location is Some || e.msg is Some {
            head_view(e.location, e.msg)
        } else {
            "unknown error"@
        },
    }
}

/// The decimal digit `d` as a one-character string.
fn digit_string(d: u32) -> (r: String)
    requires
        d < 10,
    ensures
        r@ == seq![digit_char(d as int)],
{
    if d == 0 {
        let r = "0".to_owned();
        proof {
            reveal_strlit("0");
            assert(r@ =~= seq![digit_char(d as int)]);
        }
        r
    } else if d == 1 {
        let r = "1".to_owned();
        proof {
            reveal_strlit("1");
            assert(r@ =~= seq![digit_char(d as int)]);
        }
        r
    } else if d == 2 {
        let r = "2".to_owned();
        proof {
            reveal_strlit("2");
            assert(r@ =~= seq![digit_char(d as int)]);
        }
        r
    } else if d == 3 {
        let r = "3".to_owned();
        proof {
            reveal_strlit("3");
            assert(r@ =~= seq![digit_char(d as int)]);
        }
        r
    } else if d == 4 {
        let r = "4".to_owned();
        proof {
            reveal_strlit("4");
            assert(r@ =~= seq![digit_char(d as int)]);
        }
        r
    } else if d == 5 {
        let r = "5".to_owned();
        proof {
            reveal_strlit("5");
            assert(r@ =~= seq![digit_char(d as int)]);
        }
        r
    } else if d == 6 {
        let r = "6".to_owned();
        proof {
            reveal_strlit("6");
            assert(r@ =~= seq![digit_char(d as int)]);
        }
        r
    } else if d == 7 {
        let r = "7".to_owned();
        proof {
            reveal_strlit("7");
            assert(r@ =~= seq![digit_char(d as int)]);
        }
        r
    } else if d == 8 {
        let r = "8".to_owned();
        proof {
            reveal_strlit("8");
            assert(r@ =~= seq![digit_char(d as int)]);
        }
        r
    } else {
        let r = "9".to_owned();
        proof {
            reveal_strlit("9");
            assert(r@ =~= seq![digit_char(d as int)]);
        }
        r
    }
}

/// `n` written in decimal.
pub fn format_u32(n: u32) -> (r: String)
    ensures
        r@ == decimal_view(n as int),
    decreases n,
{
    if n < 10 {
        digit_string(n)
    } else {
        let mut s = format_u32(n / 10);
        let d = digit_string(n % 10);
        s.append(d.as_str());
        proof {
            assert(s@ =~= decimal_view(n as int));
        }
        s
    }
}

impl Location {
    /// The location's text: `file:line`.
    pub fn text(&self) -> (r: String)
        ensures
            r@ == location_view(*self),
    {
        let mut s = self.file.clone();
        s.append(":");
        let line = format_u32(self.line);
        s.append(line.as_str());
        proof {
            reveal_strlit(":");
            assert(":"@ =~= seq![':']);
            assert(s@ =~= location_view(*self));
        }
        s
    }
}

impl Error {
    /// An error carrying only a message.
    pub fn from_msg(msg: &str) -> (e: Error)
        ensures
            e.msg matches Option::Some(m) && m@ == msg@,
            e.cause is None,
            e.location is None,
    {
        Error { msg: Option::Some(msg.to_owned()), cause: Option::None, location: Option::None }
    }

    /// A new error, prepending `msg` to the description of `cause`.
    pub fn with_error(msg: &str, cause: Error) -> (e: Error)
        ensures
            e.msg matches Option::Some(m) && m@ == msg@,
            e.cause matches Option::Some(c) && *c == cause,
            e.location is None,
    {
        Error {
            msg: Option::Some(msg.to_owned()),
            cause: Option::Some(Box::new(cause)),
            location: Option::None,
        }
    }

    /// A new error, prepending `file:line: msg` to the description of
    /// `cause`.
    pub fn with_error_file_line(msg: &str, cause: Error, file: &str, line: u32) -> (e: Error)
        ensures
            e.msg matches Option::Some(m) && m@ == msg@,
            e.cause matches Option::Some(c) && *c == cause,
            e.location matches Option::Some(l) && l.file@ == file@ && l.line == line,
    {
        Error {
            msg: Option::Some(msg.to_owned()),
            cause: Option::Some(Box::new(cause)),
            location: Option::Some(Location { file: file.to_owned(), line }),
        }
    }

    /// A new error with text `file:line: msg`.
    pub fn with_file_line(msg: &str, file: &str, line: u32) -> (e: Error)
        ensures
            e.msg matches Option::Some(m) && m@ == msg@,
            e.cause is None,
            e.location matches Option::Some(l) && l.file@ == file@ && l.line == line,
    {
        Error {
            msg: Option::Some(msg.to_owned()),
            cause: Option::None,
            location: Option::Some(Location { file: file.to_owned(), line }),
        }
    }

    /// The error's displayed text.
    pub fn display_text(&self) -> (r: String)
        ensures
            r@ == display_view(*self),
        decreases *self,
    {
        let head: String = if self.location.is_some() {
            let l = match &self.location {
                Option::Some(l) => l,
                Option::None => unreached(),
            };
            if self.msg.is_some() {
                let m = match &self.msg {
                    Option::Some(m) => m,
                    Option::None => unreached(),
                };
                let mut s = l.text();
                s.append(": ");
                s.append(m.as_str());
                s
            } else {
                l.text()
            }
        } else {
            if self.msg.is_some() {
                let m = match &self.msg {
                    Option::Some(m) => m,
                    Option::None => unreached(),
                };
                m.clone()
            } else {
                String::new()
            }
        };
        proof {
            assert(head@ == head_view(self.location, self.msg));
        }
        match &self.cause {
            Option::Some(c) => {
                let tail = c.display_text();
                if self.location.is_some() || self.msg.is_some() {
                    let mut s = head;
                    s.append(": ");
                    s.append(tail.as_str());
                    s
                } else {
                    tail
                }
            },
            Option::None => {
                if self.location.is_some() || self.msg.is_some() {
                    head
                } else {
                    "unknown error".to_owned()
                }
            },
        }
    }
}

impl CloneToForeign for Error {
    /// A foreign error object carries the error's displayed text.
    open spec fn foreign_cell(&self) -> Option<CellView> {
        Option::Some(CellView::ErrMsg(display_view(*self)))
    }

    fn clone_to_foreign(&self, heap: &mut ForeignHeap) -> (p: OwnedPointer<Error>) {
        let text = self.display_text();
        OwnedPointer::new(heap.allocate(CellValue::ErrMsg(text)))
    }
}

impl FromForeign for Error {
    open spec fn accepts(c: Option<CellView>) -> bool {
        c matches Option::Some(CellView::ErrMsg(_))
    }

    /// A native error read back from a foreign error object wraps the
    /// foreign message text, with no cause and no location.
    open spec fn from_cell(c: Option<CellView>, v: Error) -> bool {
        match c {
            Option::Some(CellView::ErrMsg(t)) => {
                &&& v.msg matches Option::Some(m) && m@ == t
                &&& v.cause is None
                &&& v.location is None
            },
            _ => false,
        }
    }

    fn cloned_from_foreign(heap: &ForeignHeap, p: ForeignPtr) -> (v: Error) {
        let m = heap.value_at(p).as_err_msg();
        Error { msg: Option::Some(m), cause: Option::None, location: Option::None }
    }
}

/// An error slot handed to a fallible call: absent (the caller discards
/// errors, as a null slot pointer does), empty (no error reported yet), or
/// filled with the address of a foreign error object.
#[derive(Clone, Copy, PartialEq, Eq, Structural, Debug)]
pub enum ErrorSlot {
    Discard,
    Empty,
    Filled(ForeignPtr),
}

/// What propagating `e` into a slot does: a discarding slot absorbs the
/// error silently and leaves the heap alone; any other slot receives the
/// address of a freshly allocated foreign error object holding `e`'s text.
pub open spec fn propagate_ens(
    e: Error,
    heap0: Seq<CellState>,
    heap1: Seq<CellState>,
    slot0: ErrorSlot,
    slot1: ErrorSlot,
) -> bool {
    match slot0 {
        ErrorSlot::Discard => heap1 == heap0 && slot1 == ErrorSlot::Discard,
        _ => heap1 == heap0.push(CellState { value: CellView::ErrMsg(display_view(e)), live: true })
            && slot1 == ErrorSlot::Filled(ForeignPtr { addr: (heap0.len() + 1) as usize }),
    }
}

impl Error {
    /// Fill `errp` with this error's foreign form, consuming the error; a
    /// discarding slot is honored silently.
    pub fn propagate(self, heap: &mut ForeignHeap, errp: &mut ErrorSlot)
        requires
            old(heap)@.len() + 1 <= usize::MAX,
        ensures
            propagate_ens(self, old(heap)@, final(heap)@, *old(errp), *final(errp)),
    {
        match errp {
            ErrorSlot::Discard => {},
            _ => {
                let p = self.clone_to_foreign(heap).into_inner();
                *errp = ErrorSlot::Filled(p);
            },
        }
    }

    /// Consume a result and return its value, propagating a possible error
    /// into `errp`.
    pub fn ok_or_propagate<T>(result: Result<T, Error>, heap: &mut ForeignHeap, errp: &mut ErrorSlot) -> (r:
        Option<T>)
        requires
            old(heap)@.len() + 1 <= usize::MAX,
        ensures
            match result {
                Result::Ok(v) => r == Option::Some(v) && final(heap)@ == old(heap)@ && *final(errp)
                    == *old(errp),
                Result::Err(e) => r is None && propagate_ens(
                    e,
                    old(heap)@,
                    final(heap)@,
                    *old(errp),
                    *final(errp),
                ),
            },
    {
        match result {
            Result::Ok(v) => Option::Some(v),
            Result::Err(e) => {
                e.propagate(heap, errp);
                Option::None
            },
        }
    }

    /// Consume a result, returning whether it was successful and propagating
    /// a possible error into `errp`.
    pub fn bool_or_propagate(result: Result<(), Error>, heap: &mut ForeignHeap, errp: &mut ErrorSlot) -> (r:
        bool)
        requires
            old(heap)@.len() + 1 <= usize::MAX,
        ensures
            match result {
                Result::Ok(_) => r && final(heap)@ == old(heap)@ && *final(errp) == *old(errp),
                Result::Err(e) => !r && propagate_ens(
                    e,
                    old(heap)@,
                    final(heap)@,
                    *old(errp),
                    *final(errp),
                ),
            },
    {
        Error::ok_or_propagate(result, heap, errp).is_some()
    }

    /// Consume a result, returning a foreign copy of its value (null when the
    /// value's representation is a null pointer) and propagating a possible
    /// error into `errp` (returning null then, too).
    pub fn ptr_or_propagate<T: CloneToForeign>(
        result: Result<T, Error>,
        heap: &mut ForeignHeap,
        errp: &mut ErrorSlot,
    ) -> (r: ForeignPtr)
        requires
            old(heap)@.len() + 1 <= usize::MAX,
        ensures
            match result {
                Result::Ok(v) => *final(errp) == *old(errp) && match v.foreign_cell() {
                    Option::None => final(heap)@ == old(heap)@ && r.addr == 0,
                    Option::Some(cv) => final(heap)@ == old(heap)@.push(
                        CellState { value: cv, live: true },
                    ) && r.addr == old(heap)@.len() + 1,
                },
                Result::Err(e) => r.addr == 0 && propagate_ens(
                    e,
                    old(heap)@,
                    final(heap)@,
                    *old(errp),
                    *final(errp),
                ),
            },
    {
        match result {
            Result::Ok(v) => v.clone_to_foreign_ptr(heap),
            Result::Err(e) => {
                e.propagate(heap, errp);
                ForeignPtr::null()
            },
        }
    }

    /// Convert a foreign error pointer into a native result: null means
    /// success (with `f()`'s value); non-null means failure, wrapping the
    /// foreign message, after which the foreign error object is released.
    pub fn err_or_else<T, F: FnOnce() -> T>(
        heap: &mut ForeignHeap,
        c_error: ForeignPtr,
        f: F,
    ) -> (r: Result<T, Error>)
        requires
            c_error.addr != 0 ==> old(heap).live(c_error) && old(heap).value(c_error) is ErrMsg,
            c_error.addr == 0 ==> f.requires(()),
        ensures
            c_error.addr == 0 ==> final(heap)@ == old(heap)@ && (r matches Result::Ok(v)
                && f.ensures((), v)),
            c_error.addr != 0 ==> {
                &&& r matches Result::Err(e) && Error::from_cell(
                    Option::Some(old(heap).value(c_error)),
                    e,
                )
                &&& final(heap)@.len() == old(heap)@.len()
                &&& !final(heap)@[c_error.addr - 1].live
                &&& forall|j: int|
                    0 <= j < final(heap)@.len() && j != c_error.addr - 1 ==> final(heap)@[j]
                        == old(heap)@[j]
            },
    {
        if c_error.is_null() {
            Result::Ok(f())
        } else {
            Result::Err(Error::from_foreign(heap, c_error))
        }
    }
}

/// Round trip through the foreign error convention: an error read back from
/// the foreign object a native error was cloned into displays exactly the
/// original's text (so a message such as one reading `boom` is preserved).
pub proof fn lemma_error_round_trip(e: Error, back: Error)
    requires
        Error::from_cell(Option::Some(CellView::ErrMsg(display_view(e))), back),
    ensures
        display_view(back) == display_view(e),
{
    assert(back.msg is Some && back.cause is None && back.location is None);
    assert(display_view(back) == head_view(back.location, back.msg));
}

} // verus!
