//! Named, out-of-band metadata on files: extended attributes in the POSIX
//! `user.` namespace and alternate data streams on Windows, behind one
//! contract.
//!
//! The crate holds everything that is decided or computed: how an attribute
//! name becomes the identifier the operating system stores it under and back,
//! which native entries count as attributes, and in which order the native
//! operations are tried and how their failures are read. The native
//! operations themselves are handed in by the caller as closures, so that
//! each contract can say what was asked of the operating system and what was
//! made of its answer.
//!
//! `posix` and `streams` are the two native models, each with `get`, `set`,
//! `remove` and `list`. `cursor` drives the enumeration of streams, `scratch`
//! lends the buffer in which identifiers are composed, `bytes` puts markers
//! on byte strings and takes them off, and `native` holds the vocabulary in
//! which the contracts speak of the closures.

pub mod bytes;
pub mod cursor;
pub mod error;
pub mod native;
pub mod posix;
pub mod scratch;
pub mod streams;
