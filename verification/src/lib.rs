//! A small real-time search library.
//!
//! A store holds records, each with a name. A client connection sends
//! search terms and receives, for each term, every stored record whose
//! name starts with that term, compared case-insensitively over ASCII
//! letters (the collation of the backing store). The matching rules,
//! the store lookup and the per-connection dispatch decisions live
//! here, fully verified; the transport and the backing database are
//! the surrounding application's concern.

pub mod laws;
pub mod matching;
pub mod protocol;
pub mod store;
