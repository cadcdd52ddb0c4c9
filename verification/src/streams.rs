//! Attributes kept as alternate data streams.
//!
//! On Windows a file may carry named streams beside its contents. An
//! attribute of this library is the stream of the attribute's name. A stream
//! is opened, written and deleted like a file, under the file's path
//! followed by a colon and the stream's name. When the streams of a file are
//! enumerated, each comes back as a colon, the stream's name, and the type
//! suffix `:$DATA`; the file's contents come back as the stream without a
//! name, which is no attribute.

use crate::bytes::{
    append, has_prefix, lemma_prefix_rebuilds, lemma_prefix_round_trip, lemma_suffix_rebuilds,
    lemma_suffix_round_trip, starts_with, strip_prefix, strip_suffix, without_prefix,
    without_suffix,
};
use crate::cursor::AttributesImpl;
use crate::error::{Error, ErrorKind};
use crate::native::{
    accepts, accepts_wide, finds_nothing, is_not_found, may_be_present, may_find_nothing,
    reports_missing, reports_present, returns_on,
};
use crate::scratch::ScratchBuffer;
use vstd::prelude::*;

verus! {

/// What stands between a path and a stream's name: the byte of `:`.
pub const SEPARATOR: [u8; 1] = [58];

/// What follows the name of an enumerated stream: the bytes of `:$DATA`.
pub const DATA_SUFFIX: [u8; 6] = [58, 36, 68, 65, 84, 65];

/// What the names of the operating system's own streams begin with: the
/// byte of `$`.
pub const SYSTEM_MARKER: [u8; 1] = [36];

/// The path under which the attribute `name` of the file at `path` is opened.
pub open spec fn ads_path(path: Seq<u8>, name: Seq<u8>) -> Seq<u8> {
    path + SEPARATOR@ + name
}

/// How the stream of the name `name` comes back from an enumeration.
pub open spec fn stream_entry(name: Seq<u8>) -> Seq<u8> {
    SEPARATOR@ + name + DATA_SUFFIX@
}

/// The attribute that the enumerated entry `raw` stands for, if it stands for
/// one: what is left of `raw` between the leading colon and the type suffix,
/// unless nothing is left.
pub open spec fn stream_attribute(raw: Seq<u8>) -> Option<Seq<u8>> {
    match without_prefix(raw, SEPARATOR@) {
        Some(rest) => match without_suffix(rest, DATA_SUFFIX@) {
            Some(name) => if name.len() == 0 {
                None
            } else {
                Some(name)
            },
            None => None,
        },
        None => None,
    }
}

/// The name addresses a stream of the operating system's own.
pub open spec fn is_system_name(name: Seq<u8>) -> bool {
    has_prefix(name, SYSTEM_MARKER@)
}

/// Hands `inner` the path of the stream that holds the attribute `name` of
/// the file at `path`, composed in `scratch`. The result is what `inner`
/// made of that path.
pub fn with_ads_path<R, F: FnOnce(&[u8]) -> R>(
    scratch: &mut ScratchBuffer,
    path: &[u8],
    name: &[u8],
    inner: F,
) -> (r: R)
    requires
        accepts(inner, ads_path(path@, name@)),
    ensures
        returns_on(inner, ads_path(path@, name@), r),
        final(scratch)@.len() == 0,
{
    scratch.with_buffer(
        |buffer: &mut Vec<u8>| -> (r: R)
            requires
                buffer@.len() == 0
            ensures
                returns_on(inner, ads_path(path@, name@), r)
            {
                append(buffer, path);
                append(buffer, SEPARATOR.as_slice());
                append(buffer, name);
                assert(buffer@ =~= ads_path(path@, name@));
                inner(buffer.as_slice())
            },
    )
}

/// The attribute that the enumerated entry `raw` stands for, or nothing if
/// `raw` is no stream of user data or is the stream without a name.
pub fn strip_stream_markers(raw: &[u8]) -> (name: Option<Vec<u8>>)
    ensures
        match name {
            Some(name) => stream_attribute(raw@) == Some(name@),
            None => stream_attribute(raw@) is None,
        },
{
    match strip_prefix(raw, SEPARATOR.as_slice()) {
        Some(rest) => match strip_suffix(rest, DATA_SUFFIX.as_slice()) {
            Some(name) => if name.len() == 0 {
                None
            } else {
                Some(vstd::slice::slice_to_vec(name))
            },
            None => None,
        },
        None => None,
    }
}

/// Whether `name` addresses a stream of the operating system's own.
pub fn is_system_stream(name: &[u8]) -> (b: bool)
    ensures
        b == is_system_name(name@),
{
    starts_with(name, SYSTEM_MARKER.as_slice())
}

/// What `get` makes of a stream that could not be opened because something
/// was missing: the attribute is absent if the file itself is there, and the
/// failure stands if it is not or if that could not be found out.
pub open spec fn absent_or_failed(failure: Error, present: Result<bool, Error>) -> Result<
    Option<Vec<u8>>,
    Error,
> {
    match present {
        Ok(true) => Ok(None),
        Ok(false) => Err(failure),
        Err(e) => Err(e),
    }
}

/// Whether `r` is what `get` makes of `opened`, the outcome of opening the
/// attribute's stream.
pub open spec fn got_from<H, R, X>(
    opened: Result<H, Error>,
    read_to_end: R,
    path_exists: X,
    r: Result<Option<Vec<u8>>, Error>,
) -> bool where R: FnOnce(H) -> Result<Vec<u8>, Error>, X: FnOnce() -> Result<bool, Error> {
    match opened {
        Ok(stream) => exists|value: Result<Vec<u8>, Error>|
            read_to_end.ensures((stream,), value) && r == match value {
                Ok(value) => Ok::<Option<Vec<u8>>, Error>(Some(value)),
                Err(e) => Err(e),
            },
        Err(failure) => if failure.kind == ErrorKind::NotFound {
            exists|present: Result<bool, Error>|
                path_exists.ensures((), present) && r == absent_or_failed(failure, present)
        } else {
            r == Err::<Option<Vec<u8>>, Error>(failure)
        },
    }
}

/// Whether `r` is what `get` returns for the stream at `id`.
pub open spec fn get_gives<H, O, R, X>(
    open: O,
    read_to_end: R,
    path_exists: X,
    id: Seq<u8>,
    r: Result<Option<Vec<u8>>, Error>,
) -> bool where
    O: FnOnce(&[u8]) -> Result<H, Error>,
    R: FnOnce(H) -> Result<Vec<u8>, Error>,
    X: FnOnce() -> Result<bool, Error>,
{
    exists|opened: Result<H, Error>|
        returns_on(open, id, opened) && got_from(opened, read_to_end, path_exists, r)
}

/// Reads the attribute `name` of the file at `path`.
///
/// The attribute's stream is opened with `open` and read with
/// `read_to_end`. Opening fails in the same way for a missing attribute and
/// for a missing file, so when it fails with `NotFound`, `path_exists` is
/// asked about the file itself: the attribute is absent if the file is
/// there, and the failure of `open` is the result if it is not. Any other
/// failure is handed on as it is.
///
/// Each native operation is asked for only where it is performed:
/// `read_to_end` on a stream that `open` returned, and `path_exists` where
/// `open` can fail with `NotFound`.
pub fn get<H, O, R, X>(
    scratch: &mut ScratchBuffer,
    path: &[u8],
    name: &[u8],
    open: O,
    read_to_end: R,
    path_exists: X,
) -> (r: Result<Option<Vec<u8>>, Error>) where
    O: FnOnce(&[u8]) -> Result<H, Error>,
    R: FnOnce(H) -> Result<Vec<u8>, Error>,
    X: FnOnce() -> Result<bool, Error>,

    requires
        accepts(open, ads_path(path@, name@)),
        forall|stream: H|
            returns_on(open, ads_path(path@, name@), Ok::<H, Error>(stream))
                ==> read_to_end.requires((stream,)),
        may_find_nothing(open, ads_path(path@, name@)) ==> path_exists.requires(()),
    ensures
        get_gives(open, read_to_end, path_exists, ads_path(path@, name@), r),
        final(scratch)@.len() == 0,
{
    with_ads_path(
        scratch,
        path,
        name,
        |id: &[u8]| -> (r: Result<Option<Vec<u8>>, Error>)
            requires
                id@ == ads_path(path@, name@)
            ensures
                get_gives(open, read_to_end, path_exists, ads_path(path@, name@), r)
            {
                let opened = open(id);
                assert(returns_on(open, ads_path(path@, name@), opened));
                let r = match opened {
                    Ok(stream) => {
                        let value = read_to_end(stream);
                        let r = match value {
                            Ok(value) => Ok(Some(value)),
                            Err(e) => Err(e),
                        };
                        assert(read_to_end.ensures((stream,), value));
                        assert(got_from(opened, read_to_end, path_exists, r));
                        r
                    },
                    Err(failure) => {
                        if failure.is_not_found() {
                            let present = path_exists();
                            let r = match present {
                                Ok(true) => Ok(None),
                                Ok(false) => Err(failure),
                                Err(e) => Err(e),
                            };
                            assert(path_exists.ensures((), present));
                            assert(r == absent_or_failed(failure, present));
                            r
                        } else {
                            Err(failure)
                        }
                    },
                };
                r
            },
    )
}

/// `written` is what `write_all` returned for the stream `stream` and the
/// bytes `value`.
pub open spec fn wrote<H, W: FnOnce(H, &[u8]) -> Result<H, Error>>(
    write_all: W,
    stream: H,
    value: Seq<u8>,
    written: Result<H, Error>,
) -> bool {
    exists|given: &[u8]| given@ == value && write_all.ensures((stream, given), written)
}

/// Whether `r` is what `set` makes of `created`, the outcome of creating or
/// emptying the attribute's stream: success only after the value was written
/// and the stream was synced, and else the first failure.
pub open spec fn stored_from<H, W, S>(
    created: Result<H, Error>,
    write_all: W,
    sync_all: S,
    value: Seq<u8>,
    r: Result<(), Error>,
) -> bool where W: FnOnce(H, &[u8]) -> Result<H, Error>, S: FnOnce(H) -> Result<(), Error> {
    match created {
        Err(e) => r == Err::<(), Error>(e),
        Ok(stream) => exists|written: Result<H, Error>|
            wrote(write_all, stream, value, written) && match written {
                Err(e) => r == Err::<(), Error>(e),
                Ok(stream) => sync_all.ensures((stream,), r),
            },
    }
}

/// Whether `r` is what `set` makes of `present`, the answer to whether the
/// file exists, for the stream at `id` and the bytes `value`.
pub open spec fn set_from<H, C, W, S>(
    present: Result<bool, Error>,
    create: C,
    write_all: W,
    sync_all: S,
    id: Seq<u8>,
    value: Seq<u8>,
    r: Result<(), Error>,
) -> bool where
    C: FnOnce(&[u8]) -> Result<H, Error>,
    W: FnOnce(H, &[u8]) -> Result<H, Error>,
    S: FnOnce(H) -> Result<(), Error>,
{
    match present {
        Err(e) => r == Err::<(), Error>(e),
        Ok(false) => r == Err::<(), Error>(Error::not_found()),
        Ok(true) => exists|created: Result<H, Error>|
            returns_on(create, id, created) && stored_from(created, write_all, sync_all, value, r),
    }
}

/// Whether `r` is what `set` returns for the stream at `id` and the bytes
/// `value`.
pub open spec fn set_gives<H, X, C, W, S>(
    path_exists: X,
    create: C,
    write_all: W,
    sync_all: S,
    id: Seq<u8>,
    value: Seq<u8>,
    r: Result<(), Error>,
) -> bool where
    X: FnOnce() -> Result<bool, Error>,
    C: FnOnce(&[u8]) -> Result<H, Error>,
    W: FnOnce(H, &[u8]) -> Result<H, Error>,
    S: FnOnce(H) -> Result<(), Error>,
{
    exists|present: Result<bool, Error>|
        path_exists.ensures((), present) && set_from(
            present,
            create,
            write_all,
            sync_all,
            id,
            value,
            r,
        )
}

/// Writes `value` as the attribute `name` of the file at `path`.
///
/// `path_exists` is asked first, since creating a stream of a missing file
/// would create a file of that odd name: a missing file is reported as
/// `NotFound` and nothing is written. Else the stream is created, or emptied
/// if it is there, with `create`, the value goes in with `write_all`, and
/// `sync_all` makes it durable. The first failure ends the operation and is
/// the result.
///
/// Each native operation is asked for only where it is performed: `create`
/// where the file can be there, `write_all` on a stream that `create`
/// returned, and `sync_all` on a stream that `write_all` returned. So
/// nothing is created for a file that is missing.
pub fn set<H, X, C, W, S>(
    scratch: &mut ScratchBuffer,
    path: &[u8],
    name: &[u8],
    value: &[u8],
    path_exists: X,
    create: C,
    write_all: W,
    sync_all: S,
) -> (r: Result<(), Error>) where
    X: FnOnce() -> Result<bool, Error>,
    C: FnOnce(&[u8]) -> Result<H, Error>,
    W: FnOnce(H, &[u8]) -> Result<H, Error>,
    S: FnOnce(H) -> Result<(), Error>,

    requires
        path_exists.requires(()),
        may_be_present(path_exists) ==> accepts(create, ads_path(path@, name@)),
        forall|stream: H, given: &[u8]|
            returns_on(create, ads_path(path@, name@), Ok::<H, Error>(stream)) && given@
                == value@ ==> #[trigger] write_all.requires((stream, given)),
        forall|created: H, written: H|
            returns_on(create, ads_path(path@, name@), Ok::<H, Error>(created)) && #[trigger] wrote(
                write_all,
                created,
                value@,
                Ok::<H, Error>(written),
            ) ==> sync_all.requires((written,)),
    ensures
        set_gives(path_exists, create, write_all, sync_all, ads_path(path@, name@), value@, r),
        final(scratch)@.len() == 0,
{
    proof {
        use_type_invariant(&*scratch);
    }
    let present = path_exists();
    let r = match present {
        Err(e) => Err(e),
        Ok(false) => Err(Error::not_found()),
        Ok(true) => with_ads_path(
            scratch,
            path,
            name,
            |id: &[u8]| -> (r: Result<(), Error>)
                requires
                    id@ == ads_path(path@, name@)
                ensures
                    exists|created: Result<H, Error>|
                        returns_on(create, ads_path(path@, name@), created) && stored_from(
                            created,
                            write_all,
                            sync_all,
                            value@,
                            r,
                        )
                {
                    let created = create(id);
                    assert(returns_on(create, ads_path(path@, name@), created));
                    match created {
                        Err(e) => Err(e),
                        Ok(stream) => {
                            let written = write_all(stream, value);
                            assert(wrote(write_all, stream, value@, written));
                            let r = match written {
                                Err(e) => Err(e),
                                Ok(stream) => sync_all(stream),
                            };
                            assert(stored_from(created, write_all, sync_all, value@, r));
                            r
                        },
                    }
                },
        ),
    };
    assert(path_exists.ensures((), present) && set_from(
        present,
        create,
        write_all,
        sync_all,
        ads_path(path@, name@),
        value@,
        r,
    ));
    r
}

/// What `remove` makes of what the native delete reported on a file that is
/// there. Deleting a stream fails with `NotFound` if the file has no such
/// stream; that is read as success, since the attribute is then gone as it
/// was asked. Any other failure stands.
pub open spec fn gone_or_failed(deleted: Result<(), Error>) -> Result<(), Error> {
    match deleted {
        Ok(_) => Ok(()),
        Err(e) => if e.kind == ErrorKind::NotFound {
            Ok(())
        } else {
            Err(e)
        },
    }
}

/// Whether `r` is what `remove` makes of `present`, the answer to whether
/// the file exists, for the attribute `name` and the stream at `id`.
pub open spec fn removed_from<D: FnOnce(&[u8]) -> Result<(), Error>>(
    present: Result<bool, Error>,
    delete: D,
    name: Seq<u8>,
    id: Seq<u8>,
    r: Result<(), Error>,
) -> bool {
    match present {
        Err(e) => r == Err::<(), Error>(e),
        Ok(false) => r == Err::<(), Error>(Error::not_found()),
        Ok(true) => if is_system_name(name) {
            r == Err::<(), Error>(Error::permission_denied())
        } else {
            exists|deleted: Result<(), Error>|
                returns_on(delete, id, deleted) && r == gone_or_failed(deleted)
        },
    }
}

/// Whether `r` is what `remove` returns for the attribute `name` and the
/// stream at `id`.
pub open spec fn remove_gives<X, D>(
    path_exists: X,
    delete: D,
    name: Seq<u8>,
    id: Seq<u8>,
    r: Result<(), Error>,
) -> bool where X: FnOnce() -> Result<bool, Error>, D: FnOnce(&[u8]) -> Result<(), Error> {
    exists|present: Result<bool, Error>|
        path_exists.ensures((), present) && removed_from(present, delete, name, id, r)
}

/// Deletes the attribute `name` of the file at `path`.
///
/// `path_exists` is asked first: a missing file is reported as `NotFound`,
/// whatever the name. On a file that is there, a name that addresses a
/// stream of the operating system's own is refused with `PermissionDenied`.
/// Else the stream is deleted with `delete`. Removing an attribute that the
/// file does not carry succeeds and changes nothing: where `delete` fails
/// with `NotFound`, the file having been found there, the result is success.
/// Any other failure of `delete` is handed on as it is. A file that
/// disappears between the two native operations is not told apart from an
/// attribute that is absent.
///
/// `delete` is asked for only where it is performed: for a name that is not
/// the operating system's, where the file can be there. So nothing is
/// deleted for a name that is refused, nor for a file that is missing.
pub fn remove<X, D>(
    scratch: &mut ScratchBuffer,
    path: &[u8],
    name: &[u8],
    path_exists: X,
    delete: D,
) -> (r: Result<(), Error>) where
    X: FnOnce() -> Result<bool, Error>,
    D: FnOnce(&[u8]) -> Result<(), Error>,

    requires
        path_exists.requires(()),
        !is_system_name(name@) && may_be_present(path_exists) ==> accepts(
            delete,
            ads_path(path@, name@),
        ),
    ensures
        remove_gives(path_exists, delete, name@, ads_path(path@, name@), r),
        final(scratch)@.len() == 0,
{
    proof {
        use_type_invariant(&*scratch);
    }
    let present = path_exists();
    let r = match present {
        Err(e) => Err(e),
        Ok(false) => Err(Error::not_found()),
        Ok(true) => {
            if is_system_stream(name) {
                Err(Error::permission_denied())
            } else {
                let deleted = with_ads_path(scratch, path, name, delete);
                let r = match deleted {
                    Ok(_) => Ok(()),
                    Err(e) => if e.is_not_found() {
                        Ok(())
                    } else {
                        Err(e)
                    },
                };
                assert(r == gone_or_failed(deleted));
                r
            }
        },
    };
    assert(path_exists.ensures((), present) && removed_from(
        present,
        delete,
        name@,
        ads_path(path@, name@),
        r,
    ));
    r
}

/// Whether `r` is what `list` makes of `present`, the answer to whether the
/// file at `path` exists.
pub open spec fn listed_from<F: FnOnce(&[u16]) -> Result<Vec<u16>, i32>>(
    present: Result<bool, Error>,
    path: Seq<u16>,
    find_first: F,
    r: Result<AttributesImpl, Error>,
) -> bool {
    match present {
        Err(e) => r == Err::<AttributesImpl, Error>(e),
        Ok(false) => r == Err::<AttributesImpl, Error>(Error::not_found()),
        Ok(true) => AttributesImpl::opened_by(path, find_first, r),
    }
}

/// Whether `r` is what `list` returns for the file at `path`.
pub open spec fn list_gives<X, F>(
    path_exists: X,
    path: Seq<u16>,
    find_first: F,
    r: Result<AttributesImpl, Error>,
) -> bool where X: FnOnce() -> Result<bool, Error>, F: FnOnce(&[u16]) -> Result<Vec<u16>, i32> {
    exists|present: Result<bool, Error>|
        path_exists.ensures((), present) && listed_from(present, path, find_first, r)
}

/// Opens the enumeration of the streams of the file at `path`, given in
/// UTF-16 units. `path_exists` is asked first: a missing file is reported as
/// `NotFound`, and only for a file that is there is the enumeration opened
/// with `find_first`, which is asked for only where the file can be there. A
/// file that carries no stream at all gives a cursor that hands out nothing.
///
/// The cursor hands out every stream. The attributes among them are had by
/// stepping it with `next_attribute`.
pub fn list<X, F>(path_exists: X, path: &[u16], find_first: F) -> (r: Result<
    AttributesImpl,
    Error,
>) where X: FnOnce() -> Result<bool, Error>, F: FnOnce(&[u16]) -> Result<Vec<u16>, i32>
    requires
        path_exists.requires(()),
        may_be_present(path_exists) ==> accepts_wide(find_first, path@.push(0)),
    ensures
        list_gives(path_exists, path@, find_first, r),
{
    let present = path_exists();
    let r = match present {
        Err(e) => Err(e),
        Ok(false) => Err(Error::not_found()),
        Ok(true) => AttributesImpl::new(path, find_first),
    };
    assert(path_exists.ensures((), present) && listed_from(present, path@, find_first, r));
    r
}

/// What one step through the streams of a file gives.
#[derive(Debug, PartialEq, Eq)]
pub enum Listed {
    /// The name of the next attribute.
    Attribute(Vec<u8>),
    /// The failure of the enumeration. Nothing follows it.
    Failure(Error),
    /// A stream that is no attribute was passed over. The next step goes on
    /// behind it.
    Passed,
    /// No stream is left.
    End,
}

/// Whether `step` is what `next_attribute` makes of `item`, what the cursor
/// handed out. The end and a failure stay what they are. A name is encoded
/// with `encode`; it is an attribute, without its markers, if it stands for
/// one, and is passed over if it does not. So the name of an attribute is
/// never empty and is the name of the stream that the cursor handed out, and
/// the file's contents are never an attribute.
pub open spec fn listed_from_item<E: FnOnce(Vec<u16>) -> Vec<u8>>(
    item: Option<Result<Vec<u16>, Error>>,
    encode: E,
    step: Listed,
) -> bool {
    match item {
        None => step == Listed::End,
        Some(Err(e)) => step == Listed::Failure(e),
        Some(Ok(units)) => exists|raw: Vec<u8>|
            encode.ensures((units,), raw) && match stream_attribute(raw@) {
                Some(name) => step matches Listed::Attribute(n) && n@ == name && n@.len() > 0
                    && raw@ == stream_entry(n@),
                None => step == Listed::Passed,
            },
    }
}

/// Whether `step` and `after` are what `next_attribute` makes of the cursor
/// `before`.
pub open spec fn next_attribute_gives<A, C, E>(
    before: AttributesImpl,
    find_next: A,
    find_close: C,
    encode: E,
    after: AttributesImpl,
    step: Listed,
) -> bool where
    A: FnOnce() -> Result<Vec<u16>, i32>,
    C: FnOnce() -> (),
    E: FnOnce(Vec<u16>) -> Vec<u8>,
{
    exists|item: Option<Result<Vec<u16>, Error>>|
        AttributesImpl::advanced_by(before, find_next, find_close, after, item)
            && listed_from_item(item, encode, step)
}

/// One step of listing a file's attributes: the cursor hands out its next
/// stream, as `AttributesImpl::next` says, and the stream is kept if it is
/// an attribute.
///
/// `encode` turns the name of a stream from UTF-16 units into the
/// platform's encoding of names. A stream that is no attribute, as the
/// file's contents are, gives `Passed`: the caller steps again. After `End`
/// and after a `Failure` every further step gives `End`.
///
/// The native operations are asked for as `AttributesImpl::next` asks for
/// them, and `encode` only for a cursor that is open.
pub fn next_attribute<A, C, E>(
    cursor: &mut AttributesImpl,
    find_next: A,
    find_close: C,
    encode: E,
) -> (step: Listed) where
    A: FnOnce() -> Result<Vec<u16>, i32>,
    C: FnOnce() -> (),
    E: FnOnce(Vec<u16>) -> Vec<u8>,

    requires
        old(cursor).is_open() && !old(cursor).is_first() ==> find_next.requires(()),
        old(cursor).is_open() && !old(cursor).is_first() && (exists|code: i32|
            find_next.ensures((), Err::<Vec<u16>, i32>(code))) ==> find_close.requires(()),
        old(cursor).is_open() ==> forall|units: Vec<u16>| encode.requires((units,)),
    ensures
        next_attribute_gives(*old(cursor), find_next, find_close, encode, *final(cursor), step),
{
    let item = cursor.next(find_next, find_close);
    let step = match item {
        None => Listed::End,
        Some(Err(e)) => Listed::Failure(e),
        Some(Ok(units)) => {
            let raw = encode(units);
            assert(encode.ensures((units,), raw));
            match strip_stream_markers(raw.as_slice()) {
                Some(name) => {
                    proof {
                        lemma_stream_attribute_is_named_stream(raw@, name@);
                    }
                    Listed::Attribute(name)
                },
                None => Listed::Passed,
            }
        },
    };
    assert(listed_from_item(item, encode, step));
    step
}

/// Reading an attribute of a file that is missing fails with `NotFound`,
/// whatever the attribute's name: no stream of a missing file can be
/// opened, and the file itself is then found missing.
pub proof fn lemma_get_of_missing_file<H, O, R, X>(
    open: O,
    read_to_end: R,
    path_exists: X,
    id: Seq<u8>,
    r: Result<Option<Vec<u8>>, Error>,
) where
    O: FnOnce(&[u8]) -> Result<H, Error>,
    R: FnOnce(H) -> Result<Vec<u8>, Error>,
    X: FnOnce() -> Result<bool, Error>,

    requires
        finds_nothing(open, id),
        reports_missing(path_exists),
        get_gives(open, read_to_end, path_exists, id, r),
    ensures
        is_not_found(r),
{
}

/// Writing an attribute of a file that is missing fails with `NotFound`,
/// whatever the attribute's name and value.
pub proof fn lemma_set_of_missing_file<H, X, C, W, S>(
    path_exists: X,
    create: C,
    write_all: W,
    sync_all: S,
    id: Seq<u8>,
    value: Seq<u8>,
    r: Result<(), Error>,
) where
    X: FnOnce() -> Result<bool, Error>,
    C: FnOnce(&[u8]) -> Result<H, Error>,
    W: FnOnce(H, &[u8]) -> Result<H, Error>,
    S: FnOnce(H) -> Result<(), Error>,

    requires
        reports_missing(path_exists),
        set_gives(path_exists, create, write_all, sync_all, id, value, r),
    ensures
        r == Err::<(), Error>(Error::not_found()),
{
}

/// Deleting an attribute of a file that is missing fails with `NotFound`,
/// whatever the attribute's name.
pub proof fn lemma_remove_of_missing_file<X, D>(
    path_exists: X,
    delete: D,
    name: Seq<u8>,
    id: Seq<u8>,
    r: Result<(), Error>,
) where X: FnOnce() -> Result<bool, Error>, D: FnOnce(&[u8]) -> Result<(), Error>
    requires
        reports_missing(path_exists),
        remove_gives(path_exists, delete, name, id, r),
    ensures
        r == Err::<(), Error>(Error::not_found()),
{
}

/// Deleting a stream of the operating system's own from a file that is
/// there is refused with `PermissionDenied`.
pub proof fn lemma_remove_of_system_stream<X, D>(
    path_exists: X,
    delete: D,
    name: Seq<u8>,
    id: Seq<u8>,
    r: Result<(), Error>,
) where X: FnOnce() -> Result<bool, Error>, D: FnOnce(&[u8]) -> Result<(), Error>
    requires
        is_system_name(name),
        reports_present(path_exists),
        remove_gives(path_exists, delete, name, id, r),
    ensures
        r == Err::<(), Error>(Error::permission_denied()),
{
}

/// Removing an attribute that a file does not carry succeeds, every time:
/// the file is there, and deleting the stream finds nothing to delete.
pub proof fn lemma_remove_of_absent_attribute<X, D>(
    path_exists: X,
    delete: D,
    name: Seq<u8>,
    id: Seq<u8>,
    r: Result<(), Error>,
) where X: FnOnce() -> Result<bool, Error>, D: FnOnce(&[u8]) -> Result<(), Error>
    requires
        !is_system_name(name),
        reports_present(path_exists),
        finds_nothing(delete, id),
        remove_gives(path_exists, delete, name, id, r),
    ensures
        r == Ok::<(), Error>(()),
{
}

/// Listing the attributes of a file that is missing fails with `NotFound`.
pub proof fn lemma_list_of_missing_file<X, F>(
    path_exists: X,
    path: Seq<u16>,
    find_first: F,
    r: Result<AttributesImpl, Error>,
) where X: FnOnce() -> Result<bool, Error>, F: FnOnce(&[u16]) -> Result<Vec<u16>, i32>
    requires
        reports_missing(path_exists),
        list_gives(path_exists, path, find_first, r),
    ensures
        r == Err::<AttributesImpl, Error>(Error::not_found()),
{
}

/// The entry under which a named stream is enumerated leads back to the
/// name.
pub proof fn lemma_stream_round_trip(name: Seq<u8>)
    requires
        name.len() > 0,
    ensures
        stream_attribute(stream_entry(name)) == Some(name),
{
    assert(stream_entry(name) =~= SEPARATOR@ + (name + DATA_SUFFIX@));
    lemma_prefix_round_trip(SEPARATOR@, name + DATA_SUFFIX@);
    lemma_suffix_round_trip(name, DATA_SUFFIX@);
}

/// An entry stands for an attribute exactly if it is the entry of a stream
/// with a name, and then for the attribute of that name.
pub proof fn lemma_stream_attribute_is_named_stream(raw: Seq<u8>, name: Seq<u8>)
    ensures
        stream_attribute(raw) == Some(name) <==> name.len() > 0 && raw == stream_entry(name),
{
    if stream_attribute(raw) == Some(name) {
        let rest = without_prefix(raw, SEPARATOR@).unwrap();
        lemma_prefix_rebuilds(raw, SEPARATOR@);
        lemma_suffix_rebuilds(rest, DATA_SUFFIX@);
        assert(raw =~= stream_entry(name));
    }
    if name.len() > 0 && raw == stream_entry(name) {
        lemma_stream_round_trip(name);
    }
}

/// The contents of a file, enumerated as the stream without a name, are no
/// attribute.
pub proof fn lemma_primary_stream_is_no_attribute()
    ensures
        stream_attribute(stream_entry(Seq::empty())) is None,
{
    let entry = stream_entry(Seq::empty());
    assert(entry =~= SEPARATOR@ + DATA_SUFFIX@);
    lemma_prefix_round_trip(SEPARATOR@, DATA_SUFFIX@);
    assert(DATA_SUFFIX@ =~= Seq::<u8>::empty() + DATA_SUFFIX@);
    lemma_suffix_round_trip(Seq::empty(), DATA_SUFFIX@);
}

/// Two attributes of one file are opened under the same path only if they
/// are the same attribute.
pub proof fn lemma_ads_path_injective(path: Seq<u8>, a: Seq<u8>, b: Seq<u8>)
    requires
        ads_path(path, a) == ads_path(path, b),
    ensures
        a == b,
{
    assert(ads_path(path, a) =~= (path + SEPARATOR@) + a);
    assert(ads_path(path, b) =~= (path + SEPARATOR@) + b);
    lemma_prefix_round_trip(path + SEPARATOR@, a);
    lemma_prefix_round_trip(path + SEPARATOR@, b);
}

/// The attributes that the file at `path` carries, by name, where `volume`
/// are the streams of a volume, by the path under which each is opened.
pub open spec fn attributes_of(volume: Map<Seq<u8>, Seq<u8>>, path: Seq<u8>) -> Map<
    Seq<u8>,
    Seq<u8>,
> {
    Map::new(
        |name: Seq<u8>| volume.contains_key(ads_path(path, name)),
        |name: Seq<u8>| volume[ads_path(path, name)],
    )
}

/// Writing a value to the stream of an attribute gives that attribute the
/// value written and leaves every other attribute of the file as it was. So
/// an attribute that was set is read back as it was written, whatever else
/// is set or removed on the file in between, and setting it twice to one
/// value is setting it once.
pub proof fn lemma_set_sets_one_attribute(
    volume: Map<Seq<u8>, Seq<u8>>,
    path: Seq<u8>,
    name: Seq<u8>,
    value: Seq<u8>,
)
    ensures
        attributes_of(volume.insert(ads_path(path, name), value), path) == attributes_of(
            volume,
            path,
        ).insert(name, value),
        attributes_of(volume.insert(ads_path(path, name), value), path).contains_key(name),
        attributes_of(volume.insert(ads_path(path, name), value), path)[name] == value,
        volume.insert(ads_path(path, name), value).insert(ads_path(path, name), value)
            == volume.insert(ads_path(path, name), value),
{
    let after = attributes_of(volume.insert(ads_path(path, name), value), path);
    let expected = attributes_of(volume, path).insert(name, value);
    assert forall|other: Seq<u8>| other != name implies ads_path(path, other) != ads_path(
        path,
        name,
    ) by {
        if ads_path(path, other) == ads_path(path, name) {
            lemma_ads_path_injective(path, other, name);
        }
    }
    assert(after =~= expected);
    assert(volume.insert(ads_path(path, name), value).insert(ads_path(path, name), value)
        =~= volume.insert(ads_path(path, name), value));
}

/// A name that was never set is no attribute of the file: it is absent as
/// long as the volume holds no stream of that name for the file.
pub proof fn lemma_never_set_is_absent(
    volume: Map<Seq<u8>, Seq<u8>>,
    path: Seq<u8>,
    name: Seq<u8>,
)
    requires
        !volume.contains_key(ads_path(path, name)),
    ensures
        !attributes_of(volume, path).contains_key(name),
{
}

/// Deleting the stream of an attribute removes that attribute and leaves
/// every other attribute of the file as it was. So an attribute that was
/// removed is absent, and removing an absent attribute changes nothing.
pub proof fn lemma_remove_removes_one_attribute(
    volume: Map<Seq<u8>, Seq<u8>>,
    path: Seq<u8>,
    name: Seq<u8>,
)
    ensures
        attributes_of(volume.remove(ads_path(path, name)), path) == attributes_of(
            volume,
            path,
        ).remove(name),
        !attributes_of(volume.remove(ads_path(path, name)), path).contains_key(name),
        !attributes_of(volume, path).contains_key(name) ==> volume.remove(ads_path(path, name))
            == volume,
{
    let after = attributes_of(volume.remove(ads_path(path, name)), path);
    let expected = attributes_of(volume, path).remove(name);
    assert forall|other: Seq<u8>| other != name implies ads_path(path, other) != ads_path(
        path,
        name,
    ) by {
        if ads_path(path, other) == ads_path(path, name) {
            lemma_ads_path_injective(path, other, name);
        }
    }
    assert(after =~= expected);
    if !attributes_of(volume, path).contains_key(name) {
        assert(volume.remove(ads_path(path, name)) =~= volume);
    }
}

} // verus!
