//! Study cards ("flashcards"): a validated question/answer record with an
//! identity and timestamps, and the collection logic of a store that keeps
//! all cards of one file, unique by identifier and in insertion order.

pub mod domain;
pub mod listagem;
pub mod storage;
