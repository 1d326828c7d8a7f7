//! Equivalence classification of values: a small identifier per value such
//! that values sharing it are interchangeable for a consumer that explores
//! inputs class by class.
//!
//! A plain value has one of a handful of named classes (`integer`, `float`,
//! `text`, `boolean`, `date`). A value made of parts has a 64-bit digest of
//! the classes of its parts: in the order of the parts for tuples and
//! declared types (`tuple`, `record`), as a set with a size bucket for
//! collections (`collection`). The traits are in `classify`, the digest in
//! `digest`, and the order in which a set of classes is laid out in `order`
//! and `keys`.

pub mod boolean;
pub mod classify;
pub mod collection;
pub mod date;
pub mod digest;
pub mod float;
pub mod integer;
pub mod keys;
pub mod optional;
pub mod order;
pub mod record;
pub mod text;
pub mod tuple;
