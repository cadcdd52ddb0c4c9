//! The cursor over the streams of one file.
//!
//! Windows enumerates the streams of a file through a handle: opening the
//! enumeration finds the first stream, each advance finds the next, and the
//! handle has to be closed, once, when the enumeration is over. Each stream
//! found is written as UTF-16 units into a buffer of fixed length, ended by a
//! zero unit unless the name fills the buffer.
//!
//! `AttributesImpl` keeps track of where such an enumeration stands and
//! decides what is done next. The three native operations are handed in as
//! closures.

use crate::error::Error;
use crate::native::{accepts_wide, returns_on_wide};
use vstd::prelude::*;

verus! {

/// The code with which the enumeration reports that no stream is left, on
/// opening as on an advance: the Win32 code 38, "reached the end of the
/// file", in the form of an `HRESULT`, that is behind the severity bit and
/// the Win32 facility, `0x80070026`, read as a signed number.
pub const HANDLE_EOF: i32 = -2147024858;

/// The units of `data` before its first zero unit, or all of them if none is
/// zero: the name that a buffer holds.
pub open spec fn until_nul(data: Seq<u16>) -> Seq<u16>
    decreases data.len(),
{
    if data.len() == 0 || data[0] == 0 {
        Seq::empty()
    } else {
        seq![data[0]] + until_nul(data.drop_first())
    }
}

/// The name that a buffer holds is the longest run of units from its start
/// that holds no zero unit.
pub proof fn lemma_until_nul(data: Seq<u16>)
    ensures
        until_nul(data).len() <= data.len(),
        until_nul(data) == data.subrange(0, until_nul(data).len() as int),
        forall|i: int| 0 <= i < until_nul(data).len() ==> data[i] != 0,
        until_nul(data).len() < data.len() ==> data[until_nul(data).len() as int] == 0,
    decreases data.len(),
{
    if data.len() == 0 || data[0] == 0 {
        assert(until_nul(data) =~= data.subrange(0, 0));
    } else {
        let rest = data.drop_first();
        lemma_until_nul(rest);
        let n = until_nul(rest).len() as int;
        assert(until_nul(data) =~= data.subrange(0, n + 1)) by {
            assert(rest.subrange(0, n) =~= data.subrange(1, n + 1));
        }
        assert forall|i: int| 0 <= i < until_nul(data).len() implies data[i] != 0 by {
            if i > 0 {
                assert(data[i] == rest[i - 1]);
            }
        }
        if n + 1 < data.len() {
            assert(data[n + 1] == rest[n]);
        }
    }
}

/// The name that the buffer `data` holds.
pub fn stream_name(data: &[u16]) -> (name: Vec<u16>)
    ensures
        name@ == until_nul(data@),
{
    let mut name: Vec<u16> = Vec::new();
    let mut i: usize = 0;
    assert(data@.subrange(0, data@.len() as int) =~= data@);
    assert(name@ + until_nul(data@) =~= until_nul(data@));
    while i < data.len() && data[i] != 0
        invariant
            i <= data@.len(),
            until_nul(data@) == name@ + until_nul(data@.subrange(i as int, data@.len() as int)),
        decreases data@.len() - i,
    {
        let ghost tail = data@.subrange(i as int, data@.len() as int);
        assert(tail.drop_first() =~= data@.subrange(i + 1, data@.len() as int));
        assert(name@.push(data@[i as int]) + until_nul(tail.drop_first()) =~= name@ + until_nul(
            tail,
        ));
        name.push(data[i]);
        i += 1;
    }
    assert(until_nul(data@.subrange(i as int, data@.len() as int)) =~= Seq::<u16>::empty());
    assert(name@ + Seq::<u16>::empty() =~= name@);
    name
}

/// What the cursor hands out when an advance has failed with `code`: nothing
/// if the code says that no stream is left, and else the failure.
pub open spec fn ended_by(code: i32) -> Option<Result<Vec<u16>, Error>> {
    if code == HANDLE_EOF {
        None
    } else {
        Some(Err(Error::from_code(code)))
    }
}

/// `item` is the name `name`.
pub open spec fn is_name(item: Option<Result<Vec<u16>, Error>>, name: Seq<u16>) -> bool {
    item matches Some(Ok(units)) && units@ == name
}

/// Where the enumeration of one file's streams stands.
pub struct AttributesImpl {
    open: bool,
    first: bool,
    find_data: Vec<u16>,
}

impl AttributesImpl {
    /// The native handle is open and has to be closed.
    pub closed spec fn is_open(&self) -> bool {
        self.open
    }

    /// The stream that was found when the enumeration was opened has not
    /// been handed out yet.
    pub closed spec fn is_first(&self) -> bool {
        self.first
    }

    /// The buffer as the last native operation left it.
    pub closed spec fn find_data(&self) -> Seq<u16> {
        self.find_data@
    }

    /// Whether `r` is what opening the enumeration of the file at `path`
    /// with `find_first` gave: a cursor on the first stream; a cursor that
    /// is closed, where `find_first` found no stream at all; or the failure
    /// of `find_first`.
    pub open spec fn opened_by<F: FnOnce(&[u16]) -> Result<Vec<u16>, i32>>(
        path: Seq<u16>,
        find_first: F,
        r: Result<AttributesImpl, Error>,
    ) -> bool {
        exists|found: Result<Vec<u16>, i32>|
            returns_on_wide(find_first, path.push(0), found) && match found {
                Ok(data) => r is Ok && r.unwrap().is_open() && r.unwrap().is_first()
                    && r.unwrap().find_data() == data@,
                Err(code) => if code == HANDLE_EOF {
                    r is Ok && !r.unwrap().is_open()
                } else {
                    r == Err::<AttributesImpl, Error>(Error::from_code(code))
                },
            }
    }

    /// Opens the enumeration of the streams of the file at `path`.
    /// `find_first` is handed the path with a zero unit behind it and returns
    /// the buffer with the first stream, or the code of its failure.
    ///
    /// Opening finds the first stream, so it can find that there is none: a
    /// directory carries no stream. The code that says so is the end of the
    /// enumeration, not a failure. No handle was opened then, and the cursor
    /// returned is closed: it hands out nothing and there is nothing to
    /// release. Any other code is the failure of the operation.
    pub fn new<F: FnOnce(&[u16]) -> Result<Vec<u16>, i32>>(path: &[u16], find_first: F) -> (r:
        Result<AttributesImpl, Error>)
        requires
            accepts_wide(find_first, path@.push(0)),
        ensures
            AttributesImpl::opened_by(path@, find_first, r),
    {
        let mut wide_path: Vec<u16> = Vec::new();
        let mut i: usize = 0;
        while i < path.len()
            invariant
                i <= path@.len(),
                wide_path@ == path@.subrange(0, i as int),
            decreases path@.len() - i,
        {
            wide_path.push(path[i]);
            assert(wide_path@ =~= path@.subrange(0, i + 1));
            i += 1;
        }
        wide_path.push(0);
        assert(wide_path@ =~= path@.push(0));
        let found = find_first(wide_path.as_slice());
        assert(returns_on_wide(find_first, path@.push(0), found));
        match found {
            Ok(data) => Ok(AttributesImpl { open: true, first: true, find_data: data }),
            Err(code) => if code == HANDLE_EOF {
                Ok(AttributesImpl { open: false, first: false, find_data: Vec::new() })
            } else {
                Err(Error::from_code(code))
            },
        }
    }

    /// Whether `item` and `after` are what `next` makes of the cursor
    /// `before`.
    pub open spec fn advanced_by<A, C>(
        before: AttributesImpl,
        find_next: A,
        find_close: C,
        after: AttributesImpl,
        item: Option<Result<Vec<u16>, Error>>,
    ) -> bool where A: FnOnce() -> Result<Vec<u16>, i32>, C: FnOnce() -> () {
        if !before.is_open() {
            after == before && item is None
        } else if before.is_first() {
            after.is_open() && !after.is_first() && after.find_data() == before.find_data()
                && is_name(item, until_nul(before.find_data()))
        } else {
            exists|advanced: Result<Vec<u16>, i32>|
                find_next.ensures((), advanced) && match advanced {
                    Ok(data) => after.is_open() && !after.is_first() && after.find_data() == data@
                        && is_name(item, until_nul(data@)),
                    Err(code) => find_close.ensures((), ()) && !after.is_open() && item
                        == ended_by(code),
                }
        }
    }

    /// The name of the next stream, as the operating system wrote it.
    ///
    /// A cursor whose handle is closed hands out nothing and stays as it is.
    /// The first call on a fresh cursor hands out the stream that was found
    /// when the enumeration was opened. Every later call advances with
    /// `find_next`, which returns the buffer with the next stream, or the
    /// code of its failure. On a failure the handle is closed with
    /// `find_close`, and the failure is handed out unless its code says that
    /// no stream is left.
    ///
    /// Each native operation is asked for only where it is performed:
    /// `find_next` on an open cursor whose first stream has been handed out,
    /// and `find_close` where such an advance can fail. So no stream is
    /// skipped by an advance too many, and no handle is closed that is
    /// closed already or still in use.
    pub fn next<A, C>(&mut self, find_next: A, find_close: C) -> (item: Option<
        Result<Vec<u16>, Error>,
    >) where A: FnOnce() -> Result<Vec<u16>, i32>, C: FnOnce() -> ()
        requires
            old(self).is_open() && !old(self).is_first() ==> find_next.requires(()),
            old(self).is_open() && !old(self).is_first() && (exists|code: i32|
                find_next.ensures((), Err::<Vec<u16>, i32>(code))) ==> find_close.requires(()),
        ensures
            AttributesImpl::advanced_by(*old(self), find_next, find_close, *final(self), item),
    {
        if !self.open {
            return None;
        }
        if !self.first {
            let advanced = find_next();
            assert(find_next.ensures((), advanced));
            match advanced {
                Err(code) => {
                    find_close();
                    self.open = false;
                    return if code == HANDLE_EOF {
                        None
                    } else {
                        Some(Err(Error::from_code(code)))
                    };
                },
                Ok(data) => {
                    self.find_data = data;
                },
            }
        } else {
            self.first = false;
        }
        Some(Ok(stream_name(self.find_data.as_slice())))
    }

    /// Gives the native handle up: `find_close` is called if the handle is
    /// open, and not otherwise, so that over the life of a cursor its handle
    /// is closed once. Afterwards the cursor hands out nothing. A cursor
    /// whose handle is closed stays as it is.
    pub fn release<C: FnOnce() -> ()>(&mut self, find_close: C)
        requires
            old(self).is_open() ==> find_close.requires(()),
        ensures
            !final(self).is_open(),
            old(self).is_open() ==> find_close.ensures((), ()),
            !old(self).is_open() ==> *final(self) == *old(self),
    {
        if self.open {
            find_close();
            self.open = false;
        }
    }
}

} // verus!
