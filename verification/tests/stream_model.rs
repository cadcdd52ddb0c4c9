use fsquirrel::cursor::AttributesImpl;
use fsquirrel::error::{Error, ErrorKind};
use fsquirrel::scratch::ScratchBuffer;
use fsquirrel::streams;
use fsquirrel::streams::Listed;
use std::cell::RefCell;
use std::collections::BTreeMap;

fn missing() -> Error {
    Error { kind: ErrorKind::NotFound, code: Some(2) }
}

fn denied() -> Error {
    Error { kind: ErrorKind::PermissionDenied, code: Some(5) }
}

fn full() -> Error {
    Error { kind: ErrorKind::Other, code: Some(112) }
}

/// A volume held in memory: the files that exist and the streams they carry,
/// with a record of every native operation asked of it.
struct Volume {
    files: RefCell<Vec<Vec<u8>>>,
    streams: RefCell<BTreeMap<Vec<u8>, Vec<u8>>>,
    log: RefCell<Vec<String>>,
}

fn volume(files: &[&[u8]]) -> Volume {
    Volume {
        files: RefCell::new(files.iter().map(|f| f.to_vec()).collect()),
        streams: RefCell::new(BTreeMap::new()),
        log: RefCell::new(Vec::new()),
    }
}

fn note(v: &Volume, what: &str, id: &[u8]) {
    v.log.borrow_mut().push(format!("{what} {}", String::from_utf8_lossy(id)));
}

fn is_there(v: &Volume, path: &[u8]) -> Result<bool, Error> {
    note(v, "exists", path);
    Ok(v.files.borrow().iter().any(|f| f == path))
}

fn read_attr(v: &Volume, path: &[u8], name: &[u8]) -> Result<Option<Vec<u8>>, Error> {
    let mut scratch = ScratchBuffer::new();
    streams::get(
        &mut scratch,
        path,
        name,
        |id| {
            note(v, "open", id);
            if v.streams.borrow().contains_key(id) {
                Ok(id.to_vec())
            } else {
                Err(missing())
            }
        },
        |stream: Vec<u8>| {
            note(v, "read", &stream);
            Ok(v.streams.borrow()[&stream].clone())
        },
        || is_there(v, path),
    )
}

fn write_attr(v: &Volume, path: &[u8], name: &[u8], value: &[u8]) -> Result<(), Error> {
    let mut scratch = ScratchBuffer::new();
    streams::set(
        &mut scratch,
        path,
        name,
        value,
        || is_there(v, path),
        |id| {
            note(v, "create", id);
            v.streams.borrow_mut().insert(id.to_vec(), Vec::new());
            Ok(id.to_vec())
        },
        |stream: Vec<u8>, value| {
            note(v, "write", value);
            v.streams.borrow_mut().get_mut(&stream).unwrap().extend_from_slice(value);
            Ok(stream)
        },
        |stream: Vec<u8>| {
            note(v, "sync", &stream);
            Ok(())
        },
    )
}

fn delete_attr(v: &Volume, path: &[u8], name: &[u8]) -> Result<(), Error> {
    let mut scratch = ScratchBuffer::new();
    streams::remove(
        &mut scratch,
        path,
        name,
        || is_there(v, path),
        |id| {
            note(v, "delete", id);
            match v.streams.borrow_mut().remove(id) {
                Some(_) => Ok(()),
                None => Err(missing()),
            }
        },
    )
}

fn wide(text: &str) -> Vec<u16> {
    text.encode_utf16().collect()
}

fn buffer(text: &str) -> Vec<u16> {
    let mut units = wide(text);
    units.resize(296, 0);
    units
}

/// The attributes of a file of the volume, listed as the library lists
/// them, step by step.
fn list_attrs(v: &Volume, path: &[u8]) -> Result<Vec<Result<Vec<u8>, Error>>, Error> {
    let mut entries: Vec<Vec<u16>> = vec![buffer("::$DATA")];
    let prefix = [path, b":"].concat();
    for id in v.streams.borrow().keys() {
        if let Some(name) = id.strip_prefix(&prefix[..]) {
            entries.push(buffer(&format!(":{}:$DATA", String::from_utf8_lossy(name))));
        }
    }
    let entries = RefCell::new(entries.into_iter());
    let wide_path = wide(&String::from_utf8_lossy(path));
    let mut cursor = streams::list(
        || is_there(v, path),
        &wide_path,
        |_: &[u16]| Ok(entries.borrow_mut().next().unwrap()),
    )?;
    let mut kept = Vec::new();
    loop {
        let step = streams::next_attribute(
            &mut cursor,
            || entries.borrow_mut().next().ok_or(-2147024858),
            || (),
            encoded,
        );
        match step {
            Listed::End => break,
            Listed::Passed => {},
            Listed::Failure(e) => kept.push(Err(e)),
            Listed::Attribute(name) => kept.push(Ok(name)),
        }
    }
    Ok(kept)
}

fn encoded(units: Vec<u16>) -> Vec<u8> {
    String::from_utf16(&units).unwrap().into_bytes()
}

fn cursor_on(first: &str) -> AttributesImpl {
    AttributesImpl::new(&wide("file"), |_: &[u16]| Ok(buffer(first))).unwrap()
}

#[test]
fn stream_get_returns_what_was_read() {
    let v = volume(&[b"file"]);
    v.streams.borrow_mut().insert(b"file:key".to_vec(), b"hello".to_vec());
    assert_eq!(read_attr(&v, b"file", b"key"), Ok(Some(b"hello".to_vec())));
    assert_eq!(*v.log.borrow(), vec!["open file:key", "read file:key"]);
}

#[test]
fn stream_get_of_absent_attribute_is_nothing() {
    let v = volume(&[b"file"]);
    assert_eq!(read_attr(&v, b"file", b"key"), Ok(None));
    assert_eq!(*v.log.borrow(), vec!["open file:key", "exists file"]);
}

#[test]
fn stream_get_of_missing_file_is_the_failure_of_open() {
    let v = volume(&[]);
    assert_eq!(read_attr(&v, b"file", b"key"), Err(missing()));
    assert_eq!(*v.log.borrow(), vec!["open file:key", "exists file"]);
}

#[test]
fn stream_get_hands_on_a_failed_existence_check() {
    let mut scratch = ScratchBuffer::new();
    let r = streams::get(
        &mut scratch,
        b"file",
        b"key",
        |_| Err::<u8, Error>(missing()),
        |_| Ok(Vec::new()),
        || Err(denied()),
    );
    assert_eq!(r, Err(denied()));
}

#[test]
fn stream_get_hands_on_other_failures_of_open_unasked() {
    let asked = RefCell::new(false);
    let mut scratch = ScratchBuffer::new();
    let r = streams::get(
        &mut scratch,
        b"file",
        b"key",
        |_| Err::<u8, Error>(denied()),
        |_| Ok(Vec::new()),
        || {
            *asked.borrow_mut() = true;
            Ok(true)
        },
    );
    assert_eq!(r, Err(denied()));
    assert!(!*asked.borrow());
}

#[test]
fn stream_get_hands_on_a_failed_read_unasked() {
    let asked = RefCell::new(false);
    let mut scratch = ScratchBuffer::new();
    let r = streams::get(
        &mut scratch,
        b"file",
        b"key",
        |_| Ok(7u8),
        |stream| {
            assert_eq!(stream, 7);
            Err(missing())
        },
        || {
            *asked.borrow_mut() = true;
            Ok(true)
        },
    );
    assert_eq!(r, Err(missing()));
    assert!(!*asked.borrow());
}

#[test]
fn stream_get_reads_an_empty_value() {
    let v = volume(&[b"file"]);
    v.streams.borrow_mut().insert(b"file:key".to_vec(), Vec::new());
    assert_eq!(read_attr(&v, b"file", b"key"), Ok(Some(Vec::new())));
}

#[test]
fn stream_set_creates_writes_and_syncs_in_turn() {
    let v = volume(&[b"file"]);
    assert_eq!(write_attr(&v, b"file", b"key", b"hello"), Ok(()));
    assert_eq!(
        *v.log.borrow(),
        vec!["exists file", "create file:key", "write hello", "sync file:key"]
    );
    assert_eq!(v.streams.borrow().get(&b"file:key".to_vec()), Some(&b"hello".to_vec()));
}

#[test]
fn stream_set_of_missing_file_writes_nothing() {
    let v = volume(&[b"other"]);
    assert_eq!(write_attr(&v, b"file", b"key", b"hello"), Err(Error::not_found()));
    assert_eq!(*v.log.borrow(), vec!["exists file"]);
    assert!(v.streams.borrow().is_empty());
}

#[test]
fn stream_set_hands_on_a_failed_existence_check() {
    let mut scratch = ScratchBuffer::new();
    let r = streams::set(
        &mut scratch,
        b"file",
        b"key",
        b"hello",
        || Err(denied()),
        |_| -> Result<u8, Error> { panic!("created") },
        |_, _| panic!("wrote"),
        |_| panic!("synced"),
    );
    assert_eq!(r, Err(denied()));
}

#[test]
fn stream_set_stops_at_the_first_failure() {
    let mut scratch = ScratchBuffer::new();
    let r = streams::set(
        &mut scratch,
        b"file",
        b"key",
        b"hello",
        || Ok(true),
        |_| Err::<u8, Error>(full()),
        |_, _| panic!("wrote"),
        |_| panic!("synced"),
    );
    assert_eq!(r, Err(full()));

    let r = streams::set(
        &mut scratch,
        b"file",
        b"key",
        b"hello",
        || Ok(true),
        |_| Ok(1u8),
        |_, _| Err(full()),
        |_| panic!("synced"),
    );
    assert_eq!(r, Err(full()));

    let r = streams::set(
        &mut scratch,
        b"file",
        b"key",
        b"hello",
        || Ok(true),
        |_| Ok(1u8),
        |stream, _| Ok(stream + 1),
        |stream| {
            assert_eq!(stream, 2);
            Err(denied())
        },
    );
    assert_eq!(r, Err(denied()));
}

#[test]
fn stream_set_overwrites() {
    let v = volume(&[b"file"]);
    write_attr(&v, b"file", b"key", b"a long first value").unwrap();
    write_attr(&v, b"file", b"key", b"short").unwrap();
    assert_eq!(read_attr(&v, b"file", b"key"), Ok(Some(b"short".to_vec())));
    write_attr(&v, b"file", b"key", b"short").unwrap();
    assert_eq!(read_attr(&v, b"file", b"key"), Ok(Some(b"short".to_vec())));
}

#[test]
fn stream_remove_refuses_system_streams_undeleted() {
    let v = volume(&[b"file"]);
    v.streams.borrow_mut().insert(b"file:$DATA".to_vec(), b"contents".to_vec());
    assert_eq!(delete_attr(&v, b"file", b"$DATA"), Err(Error::permission_denied()));
    assert_eq!(delete_attr(&v, b"file", b"$"), Err(Error::permission_denied()));
    assert_eq!(delete_attr(&v, b"file", b"$x"), Err(Error::permission_denied()));
    assert_eq!(*v.log.borrow(), vec!["exists file", "exists file", "exists file"]);
    assert_eq!(v.streams.borrow().get(&b"file:$DATA".to_vec()), Some(&b"contents".to_vec()));
}

#[test]
fn stream_remove_of_missing_file_is_not_found_whatever_the_name() {
    let v = volume(&[b"file"]);
    assert_eq!(delete_attr(&v, b"does_not_exist_3", b"$x"), Err(Error::not_found()));
    assert_eq!(delete_attr(&v, b"does_not_exist_3", b"$DATA"), Err(Error::not_found()));
    assert_eq!(delete_attr(&v, b"does_not_exist_3", b"foo"), Err(Error::not_found()));
    assert_eq!(delete_attr(&v, b"does_not_exist_3", b""), Err(Error::not_found()));
    assert!(v.log.borrow().iter().all(|entry| entry == "exists does_not_exist_3"));
}

#[test]
fn stream_remove_of_missing_file_deletes_nothing() {
    let v = volume(&[]);
    assert_eq!(delete_attr(&v, b"file", b"key"), Err(Error::not_found()));
    assert_eq!(*v.log.borrow(), vec!["exists file"]);
}

#[test]
fn stream_remove_of_an_absent_attribute_succeeds_every_time() {
    let v = volume(&[b"file"]);
    write_attr(&v, b"file", b"stays", b"here").unwrap();
    assert_eq!(delete_attr(&v, b"file", b"key"), Ok(()));
    assert_eq!(delete_attr(&v, b"file", b"key"), Ok(()));
    assert_eq!(read_attr(&v, b"file", b"key"), Ok(None));

    write_attr(&v, b"file", b"key", b"hello").unwrap();
    assert_eq!(delete_attr(&v, b"file", b"key"), Ok(()));
    assert_eq!(delete_attr(&v, b"file", b"key"), Ok(()));
    assert_eq!(delete_attr(&v, b"file", b"key"), Ok(()));
    assert_eq!(read_attr(&v, b"file", b"key"), Ok(None));
    assert_eq!(v.log.borrow().last().unwrap(), "exists file");

    assert_eq!(read_attr(&v, b"file", b"stays"), Ok(Some(b"here".to_vec())));
    assert_eq!(list_attrs(&v, b"file"), Ok(vec![Ok(b"stays".to_vec())]));
}

#[test]
fn stream_remove_hands_on_other_failures_of_delete() {
    let mut scratch = ScratchBuffer::new();
    let r = streams::remove(&mut scratch, b"file", b"key", || Ok(true), |_| Err(denied()));
    assert_eq!(r, Err(denied()));
    let r = streams::remove(&mut scratch, b"file", b"key", || Ok(true), |_| Err(full()));
    assert_eq!(r, Err(full()));
    let r = streams::remove(&mut scratch, b"file", b"key", || Ok(true), |_| Err(missing()));
    assert_eq!(r, Ok(()));
    let r = streams::remove(&mut scratch, b"file", b"key", || Ok(true), |_| Ok(()));
    assert_eq!(r, Ok(()));
}

#[test]
fn stream_remove_hands_on_a_failed_existence_check() {
    let mut scratch = ScratchBuffer::new();
    let r = streams::remove(&mut scratch, b"file", b"key", || Err(full()), |_| panic!("deleted"));
    assert_eq!(r, Err(full()));
}

#[test]
fn stream_list_of_missing_file_opens_nothing() {
    let r = streams::list(|| Ok(false), &wide("file"), |_: &[u16]| panic!("opened"));
    assert_eq!(r.err(), Some(Error::not_found()));
    let r = streams::list(|| Err(denied()), &wide("file"), |_: &[u16]| panic!("opened"));
    assert_eq!(r.err(), Some(denied()));
}

#[test]
fn stream_list_hands_on_the_code_of_a_failed_open() {
    let r = streams::list(|| Ok(true), &wide("file"), |_: &[u16]| Err(-2147024891));
    assert_eq!(r.err(), Some(Error { kind: ErrorKind::Other, code: Some(-2147024891) }));
}

#[test]
fn stream_list_opens_on_the_terminated_path() {
    let seen = RefCell::new(Vec::new());
    let cursor: Result<AttributesImpl, Error> = streams::list(
        || Ok(true),
        &wide("a\\b"),
        |path: &[u16]| {
            *seen.borrow_mut() = path.to_vec();
            Ok(buffer("::$DATA"))
        },
    );
    assert!(cursor.is_ok());
    assert_eq!(*seen.borrow(), vec![97, 92, 98, 0]);
}

#[test]
fn stream_list_of_a_file_without_streams_is_empty() {
    let closed = RefCell::new(0);
    let mut cursor =
        streams::list(|| Ok(true), &wide("dir"), |_: &[u16]| Err(-2147024858)).unwrap();
    for _ in 0..3 {
        let step = streams::next_attribute(
            &mut cursor,
            || panic!("advanced"),
            || panic!("closed"),
            |_| panic!("encoded"),
        );
        assert_eq!(step, Listed::End);
    }
    cursor.release(|| *closed.borrow_mut() += 1);
    assert_eq!(*closed.borrow(), 0);
}

#[test]
fn a_step_keeps_an_attribute_without_its_markers() {
    let mut cursor = cursor_on(":key:$DATA");
    let step = streams::next_attribute(&mut cursor, || panic!("advanced"), || (), encoded);
    assert_eq!(step, Listed::Attribute(b"key".to_vec()));
    let step =
        streams::next_attribute(&mut cursor, || Ok(buffer(":a:b:$DATA")), || (), encoded);
    assert_eq!(step, Listed::Attribute(b"a:b".to_vec()));
}

#[test]
fn a_step_passes_over_what_is_no_attribute() {
    let mut cursor = cursor_on("::$DATA");
    let step = streams::next_attribute(&mut cursor, || panic!("advanced"), || (), encoded);
    assert_eq!(step, Listed::Passed);
    for other in [":key:$INDEX_ALLOCATION", ":key", "key:$DATA", ":$DATA", ":", ""] {
        let step = streams::next_attribute(&mut cursor, || Ok(buffer(other)), || (), encoded);
        assert_eq!(step, Listed::Passed);
    }
    let step = streams::next_attribute(&mut cursor, || Ok(buffer(":k:$DATA")), || (), encoded);
    assert_eq!(step, Listed::Attribute(b"k".to_vec()));
}

#[test]
fn a_step_hands_the_name_the_cursor_found_to_encode() {
    let seen = RefCell::new(Vec::new());
    let mut cursor = cursor_on(":key:$DATA");
    let step = streams::next_attribute(
        &mut cursor,
        || panic!("advanced"),
        || (),
        |units| {
            *seen.borrow_mut() = units;
            b":other:$DATA".to_vec()
        },
    );
    assert_eq!(*seen.borrow(), wide(":key:$DATA"));
    assert_eq!(step, Listed::Attribute(b"other".to_vec()));
}

#[test]
fn a_step_ends_with_the_enumeration() {
    let closed = RefCell::new(0);
    let mut cursor = cursor_on("::$DATA");
    streams::next_attribute(&mut cursor, || panic!("advanced"), || (), encoded);
    let step = streams::next_attribute(
        &mut cursor,
        || Err(-2147024858),
        || *closed.borrow_mut() += 1,
        |_| panic!("encoded"),
    );
    assert_eq!(step, Listed::End);
    assert_eq!(*closed.borrow(), 1);
    let step = streams::next_attribute(
        &mut cursor,
        || panic!("advanced"),
        || panic!("closed"),
        |_| panic!("encoded"),
    );
    assert_eq!(step, Listed::End);
}

#[test]
fn a_step_hands_out_a_failure_once() {
    let closed = RefCell::new(0);
    let mut cursor = cursor_on("::$DATA");
    streams::next_attribute(&mut cursor, || panic!("advanced"), || (), encoded);
    let step = streams::next_attribute(
        &mut cursor,
        || Err(-2147024891),
        || *closed.borrow_mut() += 1,
        |_| panic!("encoded"),
    );
    assert_eq!(step, Listed::Failure(Error::from_code(-2147024891)));
    assert_eq!(*closed.borrow(), 1);
    let step = streams::next_attribute(
        &mut cursor,
        || panic!("advanced"),
        || panic!("closed"),
        |_| panic!("encoded"),
    );
    assert_eq!(step, Listed::End);
}

#[test]
fn stream_key_hello_scenario() {
    let v = volume(&[b"f"]);
    write_attr(&v, b"f", b"key", b"hello").unwrap();
    assert_eq!(read_attr(&v, b"f", b"key"), Ok(Some(b"hello".to_vec())));
    assert_eq!(list_attrs(&v, b"f"), Ok(vec![Ok(b"key".to_vec())]));
    delete_attr(&v, b"f", b"key").unwrap();
    assert_eq!(read_attr(&v, b"f", b"key"), Ok(None));
    assert_eq!(list_attrs(&v, b"f"), Ok(Vec::new()));
}

#[test]
fn stream_hundred_keys_scenario() {
    let v = volume(&[b"f"]);
    let mut expected: Vec<Vec<u8>> = Vec::new();
    for i in 0..100 {
        let key = format!("key{i}").into_bytes();
        let value = format!("hello{i}").repeat(32).into_bytes();
        assert_eq!(read_attr(&v, b"f", &key), Ok(None));
        write_attr(&v, b"f", &key, &value).unwrap();
        assert_eq!(read_attr(&v, b"f", &key), Ok(Some(value)));
        if i % 2 == 1 && i < 10 {
            expected.push(key);
            continue;
        }
        delete_attr(&v, b"f", &key).unwrap();
        assert_eq!(read_attr(&v, b"f", &key), Ok(None));
    }
    expected.sort();
    let listed: Vec<Vec<u8>> =
        list_attrs(&v, b"f").unwrap().into_iter().map(|item| item.unwrap()).collect();
    assert_eq!(listed, expected);
    for i in [1, 3, 5, 7, 9] {
        let value = format!("hello{i}").repeat(32).into_bytes();
        assert_eq!(read_attr(&v, b"f", format!("key{i}").as_bytes()), Ok(Some(value)));
    }
}

#[test]
fn stream_list_of_a_file_on_the_volume_that_is_missing() {
    let v = volume(&[b"f"]);
    assert_eq!(list_attrs(&v, b"g"), Err(Error::not_found()));
}
