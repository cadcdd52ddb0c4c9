//! Attributes kept as POSIX extended attributes.
//!
//! The operating system stores extended attributes under names that begin
//! with a namespace. An attribute of this library is the native attribute
//! whose name is `user.` followed by the attribute's own name; native
//! attributes of any other namespace are not attributes of the library and
//! are passed over when a file's attributes are listed.

use crate::bytes::{
    append, lemma_prefix_rebuilds, lemma_prefix_round_trip, strip_prefix, without_prefix,
};
use crate::error::Error;
use crate::native::{
    accepts, accepts_pair, finds_nothing, is_not_found, may_be_present, may_be_set,
    reports_absent, reports_missing, returns_on, returns_on_pair, stores_nothing,
};
use crate::scratch::ScratchBuffer;
use vstd::prelude::*;

verus! {

/// The namespace of attributes that users may write: the bytes of `user.`.
pub const USER_NAMESPACE: [u8; 5] = [117, 115, 101, 114, 46];

/// The native name under which the attribute `name` is stored.
pub open spec fn namespaced(name: Seq<u8>) -> Seq<u8> {
    USER_NAMESPACE@ + name
}

/// The attribute that the native name `raw` stores, if it stores one.
pub open spec fn user_attribute(raw: Seq<u8>) -> Option<Seq<u8>> {
    without_prefix(raw, USER_NAMESPACE@)
}

/// The attributes among the native names `raw`, in the order of `raw`.
pub open spec fn user_attributes(raw: Seq<Seq<u8>>) -> Seq<Seq<u8>>
    decreases raw.len(),
{
    if raw.len() == 0 {
        Seq::empty()
    } else {
        match user_attribute(raw[0]) {
            Some(name) => seq![name] + user_attributes(raw.drop_first()),
            None => user_attributes(raw.drop_first()),
        }
    }
}

/// Hands `inner` the native name of the attribute `name`, composed in
/// `scratch`. The result is what `inner` made of that name.
pub fn with_namespaced_name<R, F: FnOnce(&[u8]) -> R>(
    scratch: &mut ScratchBuffer,
    name: &[u8],
    inner: F,
) -> (r: R)
    requires
        accepts(inner, namespaced(name@)),
    ensures
        returns_on(inner, namespaced(name@), r),
        final(scratch)@.len() == 0,
{
    scratch.with_buffer(
        |buffer: &mut Vec<u8>| -> (r: R)
            requires
                buffer@.len() == 0,
            ensures
                returns_on(inner, namespaced(name@), r)
            {
                append(buffer, USER_NAMESPACE.as_slice());
                append(buffer, name);
                assert(buffer@ =~= namespaced(name@));
                inner(buffer.as_slice())
            },
    )
}

/// The attribute that the native name `raw` stores, or nothing if `raw` lies
/// outside the user namespace.
pub fn strip_namespace(raw: &[u8]) -> (name: Option<Vec<u8>>)
    ensures
        match name {
            Some(name) => user_attribute(raw@) == Some(name@),
            None => user_attribute(raw@) is None,
        },
{
    match strip_prefix(raw, USER_NAMESPACE.as_slice()) {
        Some(name) => Some(vstd::slice::slice_to_vec(name)),
        None => None,
    }
}

/// Reads the attribute `name` through `native_get`, which is handed the
/// attribute's native name. Whatever `native_get` reports is the result: the
/// value, nothing where the file has no such attribute, or its failure.
pub fn get<F: FnOnce(&[u8]) -> Result<Option<Vec<u8>>, Error>>(
    scratch: &mut ScratchBuffer,
    name: &[u8],
    native_get: F,
) -> (r: Result<Option<Vec<u8>>, Error>)
    requires
        accepts(native_get, namespaced(name@)),
    ensures
        returns_on(native_get, namespaced(name@), r),
        final(scratch)@.len() == 0,
{
    with_namespaced_name(scratch, name, native_get)
}

/// Writes `value` as the attribute `name` through `native_set`, which is
/// handed the attribute's native name and the value as it was given.
pub fn set<F: FnOnce(&[u8], &[u8]) -> Result<(), Error>>(
    scratch: &mut ScratchBuffer,
    name: &[u8],
    value: &[u8],
    native_set: F,
) -> (r: Result<(), Error>)
    requires
        accepts_pair(native_set, namespaced(name@), value@),
    ensures
        returns_on_pair(native_set, namespaced(name@), value@, r),
        final(scratch)@.len() == 0,
{
    with_namespaced_name(
        scratch,
        name,
        |id: &[u8]| -> (r: Result<(), Error>)
            requires
                id@ == namespaced(name@)
            ensures
                returns_on_pair(native_set, namespaced(name@), value@, r)
            { native_set(id, value) },
    )
}

/// Whether `r` is what `remove` makes of `looked`, what the native read
/// found under the native name `id`.
pub open spec fn removed_from<F: FnOnce(&[u8]) -> Result<(), Error>>(
    looked: Result<Option<Vec<u8>>, Error>,
    native_remove: F,
    id: Seq<u8>,
    r: Result<(), Error>,
) -> bool {
    match looked {
        Err(e) => r == Err::<(), Error>(e),
        Ok(None) => r == Ok::<(), Error>(()),
        Ok(Some(_)) => returns_on(native_remove, id, r),
    }
}

/// Whether `r` is what `remove` returns for the native name `id`.
pub open spec fn remove_gives<G, F>(
    native_get: G,
    native_remove: F,
    id: Seq<u8>,
    r: Result<(), Error>,
) -> bool where
    G: FnOnce(&[u8]) -> Result<Option<Vec<u8>>, Error>,
    F: FnOnce(&[u8]) -> Result<(), Error>,
{
    exists|looked: Result<Option<Vec<u8>>, Error>|
        returns_on(native_get, id, looked) && removed_from(looked, native_remove, id, r)
}

/// Deletes the attribute `name`.
///
/// The operating system reports the delete of an attribute that a file does
/// not carry as a failure, under a code of its own. So the attribute is
/// looked for first, with `native_get`: if it fails, as it does for a
/// missing file, that failure is the result. Removing an attribute that the
/// file does not carry succeeds and changes nothing. Else the attribute is
/// deleted with `native_remove`, and what that reports is the result; an
/// attribute that disappears between the two native operations is therefore
/// reported as the operating system reports it. Both operations are handed
/// the attribute's native name.
///
/// `native_remove` is asked for only where it is performed: where
/// `native_get` can find a value. So nothing is deleted where there is
/// nothing to delete.
pub fn remove<G, F>(
    scratch: &mut ScratchBuffer,
    name: &[u8],
    native_get: G,
    native_remove: F,
) -> (r: Result<(), Error>) where
    G: FnOnce(&[u8]) -> Result<Option<Vec<u8>>, Error>,
    F: FnOnce(&[u8]) -> Result<(), Error>,

    requires
        accepts(native_get, namespaced(name@)),
        may_be_set(native_get, namespaced(name@)) ==> accepts(native_remove, namespaced(name@)),
    ensures
        remove_gives(native_get, native_remove, namespaced(name@), r),
        final(scratch)@.len() == 0,
{
    with_namespaced_name(
        scratch,
        name,
        |id: &[u8]| -> (r: Result<(), Error>)
            requires
                id@ == namespaced(name@)
            ensures
                remove_gives(native_get, native_remove, namespaced(name@), r)
            {
                let looked = native_get(id);
                assert(returns_on(native_get, namespaced(name@), looked));
                let r = match looked {
                    Err(e) => Err(e),
                    Ok(None) => Ok(()),
                    Ok(Some(value)) => {
                        assert(returns_on(
                            native_get,
                            namespaced(name@),
                            Ok::<Option<Vec<u8>>, Error>(Some(value)),
                        ));
                        native_remove(id)
                    },
                };
                assert(removed_from(looked, native_remove, namespaced(name@), r));
                r
            },
    )
}

/// The listing of a file's native attribute names that `xattr` hands out.
#[verifier::external_type_specification]
#[verifier::external_body]
pub struct ExXAttrs(xattr::XAttrs);

/// The native names that a listing has yet to yield, in the order in which
/// it yields them.
pub uninterp spec fn pending(listing: xattr::XAttrs) -> Seq<Seq<u8>>;

/// `Iterator::next` of `xattr::XAttrs`, with the name it returns turned into
/// its bytes.
///
/// A listing holds the names as the operating system wrote them, each ended
/// by a zero byte, and an offset. `next` returns the name at the offset and
/// moves the offset behind it, or returns nothing, and changes nothing, once
/// the offset has reached the end. The contract says that of the names that
/// are pending: the first one leaves and the others stay as they are. It
/// says nothing of which names a listing holds.
#[verifier::external_body]
fn next_raw(listing: &mut xattr::XAttrs) -> (raw: Option<Vec<u8>>)
    ensures
        match raw {
            Some(raw) => pending(*old(listing)).len() > 0 && raw@ == pending(*old(listing))[0]
                && pending(*final(listing)) == pending(*old(listing)).drop_first(),
            None => pending(*old(listing)).len() == 0 && pending(*final(listing)).len() == 0,
        },
{
    listing.next().map(|raw| raw.into_encoded_bytes())
}

/// The attributes of one file, handed out one by one.
pub struct Attributes {
    inner: xattr::XAttrs,
}

impl Attributes {
    /// The native names that are still to be looked at.
    pub closed spec fn raw(&self) -> Seq<Seq<u8>> {
        pending(self.inner)
    }

    /// The attributes that are still to come, in the order in which they come.
    pub open spec fn view(&self) -> Seq<Seq<u8>> {
        user_attributes(self.raw())
    }

    /// The attributes among the native names of `listing`.
    pub fn new(listing: xattr::XAttrs) -> (attributes: Attributes)
        ensures
            attributes.raw() == pending(listing),
    {
        Attributes { inner: listing }
    }

    /// The next attribute, or nothing when there is none left. Native names
    /// outside the user namespace are passed over, so every name handed out
    /// is the name of a native attribute of the listing. No item is a
    /// failure: the listing was read in full before the first attribute is
    /// handed out.
    pub fn next(&mut self) -> (item: Option<Result<Vec<u8>, Error>>)
        ensures
            match item {
                Some(Ok(name)) => old(self)@.len() > 0 && name@ == old(self)@[0] && final(self)@
                    == old(self)@.drop_first() && old(self).raw().contains(namespaced(name@)),
                Some(Err(_)) => false,
                None => old(self)@.len() == 0 && final(self)@.len() == 0,
            },
    {
        loop
            invariant
                self@ == old(self)@,
                forall|id: Seq<u8>| self.raw().contains(id) ==> old(self).raw().contains(id),
            decreases self.raw().len(),
        {
            let ghost before = self.raw();
            match next_raw(&mut self.inner) {
                None => {
                    return None;
                },
                Some(raw) => {
                    assert(before.drop_first() == self.raw());
                    assert(before.contains(raw@)) by {
                        assert(before[0] == raw@);
                    }
                    assert forall|id: Seq<u8>| self.raw().contains(id) implies before.contains(
                        id,
                    ) by {
                        let j = choose|j: int| 0 <= j < self.raw().len() && self.raw()[j] == id;
                        assert(before[j + 1] == id);
                    }
                    match strip_namespace(raw.as_slice()) {
                        Some(name) => {
                            proof {
                                lemma_user_attribute_is_namespaced(raw@);
                            }
                            assert(old(self)@.drop_first() =~= self@);
                            return Some(Ok(name));
                        },
                        None => {},
                    }
                },
            }
        }
    }
}

/// Whether `r` is what `list` makes of `present`, the answer to whether the
/// file exists.
pub open spec fn listed_from<L: FnOnce() -> Result<xattr::XAttrs, Error>>(
    present: Result<bool, Error>,
    native_list: L,
    r: Result<Attributes, Error>,
) -> bool {
    match present {
        Err(e) => r == Err::<Attributes, Error>(e),
        Ok(false) => r == Err::<Attributes, Error>(Error::not_found()),
        Ok(true) => exists|listing: Result<xattr::XAttrs, Error>|
            native_list.ensures((), listing) && match listing {
                Ok(listing) => r is Ok && r.unwrap().raw() == pending(listing),
                Err(e) => r == Err::<Attributes, Error>(e),
            },
    }
}

/// Whether `r` is what `list` returns.
pub open spec fn list_gives<X, L>(
    path_exists: X,
    native_list: L,
    r: Result<Attributes, Error>,
) -> bool where X: FnOnce() -> Result<bool, Error>, L: FnOnce() -> Result<xattr::XAttrs, Error> {
    exists|present: Result<bool, Error>|
        path_exists.ensures((), present) && listed_from(present, native_list, r)
}

/// The attributes of a file. `path_exists` says whether the file is there,
/// and only if it is, `native_list` is asked for the file's native names. A
/// missing file is reported as `NotFound`; a failure of either native
/// operation is handed on as it is. `native_list` is asked for only where
/// the file can be there.
pub fn list<X: FnOnce() -> Result<bool, Error>, L: FnOnce() -> Result<xattr::XAttrs, Error>>(
    path_exists: X,
    native_list: L,
) -> (r: Result<Attributes, Error>)
    requires
        path_exists.requires(()),
        may_be_present(path_exists) ==> native_list.requires(()),
    ensures
        list_gives(path_exists, native_list, r),
{
    let present = path_exists();
    let r = match present {
        Err(e) => Err(e),
        Ok(false) => Err(Error::not_found()),
        Ok(true) => {
            let listing = native_list();
            assert(native_list.ensures((), listing));
            match listing {
                Ok(listing) => Ok(Attributes::new(listing)),
                Err(e) => Err(e),
            }
        },
    };
    assert(path_exists.ensures((), present) && listed_from(present, native_list, r));
    r
}

/// Reading an attribute of a file that is missing fails with `NotFound`,
/// whatever the attribute's name: the operating system reports the missing
/// file, and its report is the result. `r` is the result of `get` through
/// `native_get`.
pub proof fn lemma_get_of_missing_file<F: FnOnce(&[u8]) -> Result<Option<Vec<u8>>, Error>>(
    native_get: F,
    name: Seq<u8>,
    r: Result<Option<Vec<u8>>, Error>,
)
    requires
        finds_nothing(native_get, namespaced(name)),
        returns_on(native_get, namespaced(name), r),
    ensures
        is_not_found(r),
{
}

/// Deleting an attribute of a file that is missing fails with `NotFound`,
/// whatever the attribute's name: looking for the attribute finds the file
/// missing.
pub proof fn lemma_remove_of_missing_file<G, F>(
    native_get: G,
    native_remove: F,
    name: Seq<u8>,
    r: Result<(), Error>,
) where G: FnOnce(&[u8]) -> Result<Option<Vec<u8>>, Error>, F: FnOnce(&[u8]) -> Result<(), Error>
    requires
        finds_nothing(native_get, namespaced(name)),
        remove_gives(native_get, native_remove, namespaced(name), r),
    ensures
        is_not_found(r),
{
}

/// Removing an attribute that a file does not carry succeeds, every time.
pub proof fn lemma_remove_of_absent_attribute<G, F>(
    native_get: G,
    native_remove: F,
    name: Seq<u8>,
    r: Result<(), Error>,
) where G: FnOnce(&[u8]) -> Result<Option<Vec<u8>>, Error>, F: FnOnce(&[u8]) -> Result<(), Error>
    requires
        reports_absent(native_get, namespaced(name)),
        remove_gives(native_get, native_remove, namespaced(name), r),
    ensures
        r == Ok::<(), Error>(()),
{
}

/// Writing an attribute of a file that is missing fails with `NotFound`,
/// whatever the attribute's name and value. `r` is the result of `set`
/// through `native_set`.
pub proof fn lemma_set_of_missing_file<F: FnOnce(&[u8], &[u8]) -> Result<(), Error>>(
    native_set: F,
    name: Seq<u8>,
    value: Seq<u8>,
    r: Result<(), Error>,
)
    requires
        stores_nothing(native_set, namespaced(name), value),
        returns_on_pair(native_set, namespaced(name), value, r),
    ensures
        is_not_found(r),
{
}

/// Listing the attributes of a file that is missing fails with `NotFound`.
pub proof fn lemma_list_of_missing_file<X, L>(
    path_exists: X,
    native_list: L,
    r: Result<Attributes, Error>,
) where X: FnOnce() -> Result<bool, Error>, L: FnOnce() -> Result<xattr::XAttrs, Error>
    requires
        reports_missing(path_exists),
        list_gives(path_exists, native_list, r),
    ensures
        r == Err::<Attributes, Error>(Error::not_found()),
{
}

/// The native name of an attribute leads back to the attribute.
pub proof fn lemma_namespace_round_trip(name: Seq<u8>)
    ensures
        user_attribute(namespaced(name)) == Some(name),
{
    lemma_prefix_round_trip(USER_NAMESPACE@, name);
}

/// A native name that stores an attribute is the native name of that
/// attribute.
pub proof fn lemma_user_attribute_is_namespaced(raw: Seq<u8>)
    requires
        user_attribute(raw) is Some,
    ensures
        raw == namespaced(user_attribute(raw).unwrap()),
{
    lemma_prefix_rebuilds(raw, USER_NAMESPACE@);
}

/// Two attributes are stored under the same native name only if they are the
/// same attribute.
pub proof fn lemma_namespaced_injective(a: Seq<u8>, b: Seq<u8>)
    requires
        namespaced(a) == namespaced(b),
    ensures
        a == b,
{
    lemma_namespace_round_trip(a);
    lemma_namespace_round_trip(b);
}

/// What a listing hands out are the file's attributes and nothing else: a
/// name is among the attributes of a listing exactly if the native names of
/// that listing hold the name's native name.
pub proof fn lemma_attributes_are_the_user_names(raw: Seq<Seq<u8>>, name: Seq<u8>)
    ensures
        user_attributes(raw).contains(name) <==> raw.contains(namespaced(name)),
    decreases raw.len(),
{
    if raw.len() > 0 {
        let rest = raw.drop_first();
        let tail = user_attributes(rest);
        let all = user_attributes(raw);
        lemma_attributes_are_the_user_names(rest, name);
        if all.contains(name) {
            let i = choose|i: int| 0 <= i < all.len() && all[i] == name;
            if user_attribute(raw[0]) is Some && i == 0 {
                lemma_user_attribute_is_namespaced(raw[0]);
                assert(raw[0] == namespaced(name));
            } else {
                if user_attribute(raw[0]) is Some {
                    assert(tail[i - 1] == name);
                } else {
                    assert(tail[i] == name);
                }
                let j = choose|j: int| 0 <= j < rest.len() && rest[j] == namespaced(name);
                assert(raw[j + 1] == namespaced(name));
            }
        }
        if raw.contains(namespaced(name)) {
            let i = choose|i: int| 0 <= i < raw.len() && raw[i] == namespaced(name);
            if i == 0 {
                lemma_namespace_round_trip(name);
                assert(all[0] == name);
            } else {
                assert(rest[i - 1] == namespaced(name));
                let j = choose|j: int| 0 <= j < tail.len() && tail[j] == name;
                if user_attribute(raw[0]) is Some {
                    assert(all[j + 1] == name);
                } else {
                    assert(all[j] == name);
                }
            }
        }
    }
}

/// The attributes that a file carries, by name, where `native` are the
/// native attributes it carries, by native name.
pub open spec fn attributes_of(native: Map<Seq<u8>, Seq<u8>>) -> Map<Seq<u8>, Seq<u8>> {
    Map::new(
        |name: Seq<u8>| native.contains_key(namespaced(name)),
        |name: Seq<u8>| native[namespaced(name)],
    )
}

/// Writing a value under the native name of an attribute gives that
/// attribute the value written and leaves every other attribute as it was.
/// So an attribute that was set is read back as it was written, whatever
/// else is set or removed in between, and setting it twice to one value is
/// setting it once.
pub proof fn lemma_set_sets_one_attribute(
    native: Map<Seq<u8>, Seq<u8>>,
    name: Seq<u8>,
    value: Seq<u8>,
)
    ensures
        attributes_of(native.insert(namespaced(name), value)) == attributes_of(native).insert(
            name,
            value,
        ),
        attributes_of(native.insert(namespaced(name), value)).contains_key(name),
        attributes_of(native.insert(namespaced(name), value))[name] == value,
        native.insert(namespaced(name), value).insert(namespaced(name), value) == native.insert(
            namespaced(name),
            value,
        ),
{
    let after = attributes_of(native.insert(namespaced(name), value));
    let expected = attributes_of(native).insert(name, value);
    assert forall|other: Seq<u8>| other != name implies namespaced(other) != namespaced(name) by {
        if namespaced(other) == namespaced(name) {
            lemma_namespaced_injective(other, name);
        }
    }
    assert(after =~= expected);
    assert(native.insert(namespaced(name), value).insert(namespaced(name), value)
        =~= native.insert(namespaced(name), value));
}

/// A name that was never set is no attribute of the file: it is absent as
/// long as the file carries no native attribute of its native name.
pub proof fn lemma_never_set_is_absent(native: Map<Seq<u8>, Seq<u8>>, name: Seq<u8>)
    requires
        !native.contains_key(namespaced(name)),
    ensures
        !attributes_of(native).contains_key(name),
{
}

/// Deleting the native attribute of an attribute's native name removes that
/// attribute and leaves every other attribute as it was. So an attribute
/// that was removed is absent, and removing an absent attribute changes
/// nothing.
pub proof fn lemma_remove_removes_one_attribute(native: Map<Seq<u8>, Seq<u8>>, name: Seq<u8>)
    ensures
        attributes_of(native.remove(namespaced(name))) == attributes_of(native).remove(name),
        !attributes_of(native.remove(namespaced(name))).contains_key(name),
        !attributes_of(native).contains_key(name) ==> native.remove(namespaced(name)) == native,
{
    let after = attributes_of(native.remove(namespaced(name)));
    let expected = attributes_of(native).remove(name);
    assert forall|other: Seq<u8>| other != name implies namespaced(other) != namespaced(name) by {
        if namespaced(other) == namespaced(name) {
            lemma_namespaced_injective(other, name);
        }
    }
    assert(after =~= expected);
    if !attributes_of(native).contains_key(name) {
        assert(native.remove(namespaced(name)) =~= native);
    }
}

/// A listing of a file's native names hands out the names of the attributes
/// that the file carries, and no other name.
pub proof fn lemma_listing_hands_out_the_attributes(
    native: Map<Seq<u8>, Seq<u8>>,
    raw: Seq<Seq<u8>>,
    name: Seq<u8>,
)
    requires
        forall|id: Seq<u8>| raw.contains(id) <==> native.contains_key(id),
    ensures
        user_attributes(raw).contains(name) <==> attributes_of(native).contains_key(name),
{
    lemma_attributes_are_the_user_names(raw, name);
}

} // verus!
