//! What is asked of the native operations.
//!
//! The operating system's part of each operation is handed in as a closure.
//! A contract then says of a result that it is what such a closure returned
//! on the identifier that the library composed, and a law says what follows
//! if the closures behave as the operating system does for a missing file.
//! The predicates that state this are collected here.

use crate::error::{Error, ErrorKind};
use vstd::prelude::*;

verus! {

/// `inner` may be called on the byte string `s`.
pub open spec fn accepts<R, F: FnOnce(&[u8]) -> R>(inner: F, s: Seq<u8>) -> bool {
    forall|given: &[u8]| given@ == s ==> inner.requires((given,))
}

/// `r` is what a call of `inner` on the byte string `s` returned.
pub open spec fn returns_on<R, F: FnOnce(&[u8]) -> R>(inner: F, s: Seq<u8>, r: R) -> bool {
    exists|given: &[u8]| given@ == s && inner.ensures((given,), r)
}

/// `inner` may be called on the byte strings `s` and `t`.
pub open spec fn accepts_pair<R, F: FnOnce(&[u8], &[u8]) -> R>(
    inner: F,
    s: Seq<u8>,
    t: Seq<u8>,
) -> bool {
    forall|first: &[u8], second: &[u8]|
        first@ == s && second@ == t ==> inner.requires((first, second))
}

/// `r` is what a call of `inner` on the byte strings `s` and `t` returned.
pub open spec fn returns_on_pair<R, F: FnOnce(&[u8], &[u8]) -> R>(
    inner: F,
    s: Seq<u8>,
    t: Seq<u8>,
    r: R,
) -> bool {
    exists|first: &[u8], second: &[u8]|
        first@ == s && second@ == t && inner.ensures((first, second), r)
}

/// `inner` may be called on the UTF-16 units `s`.
pub open spec fn accepts_wide<R, F: FnOnce(&[u16]) -> R>(inner: F, s: Seq<u16>) -> bool {
    forall|given: &[u16]| given@ == s ==> inner.requires((given,))
}

/// `r` is what a call of `inner` on the UTF-16 units `s` returned.
pub open spec fn returns_on_wide<R, F: FnOnce(&[u16]) -> R>(inner: F, s: Seq<u16>, r: R) -> bool {
    exists|given: &[u16]| given@ == s && inner.ensures((given,), r)
}

/// `r` is a failure of the kind `NotFound`.
pub open spec fn is_not_found<T>(r: Result<T, Error>) -> bool {
    r matches Err(e) && e.kind == ErrorKind::NotFound
}

/// Whenever `path_exists` answers, it answers that the file is missing.
pub open spec fn reports_missing<X: FnOnce() -> Result<bool, Error>>(path_exists: X) -> bool {
    forall|present: Result<bool, Error>| #[trigger]
        path_exists.ensures((), present) ==> present == Ok::<bool, Error>(false)
}

/// Whenever `path_exists` answers, it answers that the file is there.
pub open spec fn reports_present<X: FnOnce() -> Result<bool, Error>>(path_exists: X) -> bool {
    forall|present: Result<bool, Error>| #[trigger]
        path_exists.ensures((), present) ==> present == Ok::<bool, Error>(true)
}

/// `path_exists` can answer that the file is there.
pub open spec fn may_be_present<X: FnOnce() -> Result<bool, Error>>(path_exists: X) -> bool {
    path_exists.ensures((), Ok::<bool, Error>(true))
}

/// `native` can fail with `NotFound` for the identifier `id`.
pub open spec fn may_find_nothing<T, F: FnOnce(&[u8]) -> Result<T, Error>>(
    native: F,
    id: Seq<u8>,
) -> bool {
    exists|e: Error| e.kind == ErrorKind::NotFound && returns_on(native, id, Err::<T, Error>(e))
}

/// Whenever `native_get` returns for the identifier `id`, it has found no
/// value: what the operating system makes of an attribute that a file does
/// not carry.
pub open spec fn reports_absent<F: FnOnce(&[u8]) -> Result<Option<Vec<u8>>, Error>>(
    native_get: F,
    id: Seq<u8>,
) -> bool {
    forall|looked: Result<Option<Vec<u8>>, Error>| #[trigger]
        returns_on(native_get, id, looked) ==> looked == Ok::<Option<Vec<u8>>, Error>(None)
}

/// `native_get` can find a value for the identifier `id`.
pub open spec fn may_be_set<F: FnOnce(&[u8]) -> Result<Option<Vec<u8>>, Error>>(
    native_get: F,
    id: Seq<u8>,
) -> bool {
    exists|value: Vec<u8>|
        returns_on(native_get, id, Ok::<Option<Vec<u8>>, Error>(Some(value)))
}

/// Whenever `native` returns for the identifier `id`, it has failed with
/// `NotFound`: what the operating system makes of an identifier whose file
/// is missing.
pub open spec fn finds_nothing<T, F: FnOnce(&[u8]) -> Result<T, Error>>(
    native: F,
    id: Seq<u8>,
) -> bool {
    forall|r: Result<T, Error>| #[trigger] returns_on(native, id, r) ==> is_not_found(r)
}

/// Whenever `native` returns for the identifier `id` and the bytes `value`,
/// it has failed with `NotFound`.
pub open spec fn stores_nothing<F: FnOnce(&[u8], &[u8]) -> Result<(), Error>>(
    native: F,
    id: Seq<u8>,
    value: Seq<u8>,
) -> bool {
    forall|r: Result<(), Error>| #[trigger]
        returns_on_pair(native, id, value, r) ==> is_not_found(r)
}

} // verus!
