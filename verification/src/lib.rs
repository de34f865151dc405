//! The verified core of a knowledge base that is built from documents and
//! answers questions from them.
//!
//! A document is turned into text ([`transmutation`]), split into
//! overlapping chunks ([`chunker`]) and ingested chunk by chunk
//! ([`ingestion`]): each chunk is embedded and stored, and what a model
//! extracts from it is added to a graph. A question is answered from the
//! chunks found for it, which the answer cites by number ([`citation`]).
//! Replacing the provider's configuration destroys what is stored and is
//! guarded accordingly ([`admin`]).
//!
//! Nothing here talks to a network, a store or a model. Where such work has
//! to be done in some order, the order is decided here by a state machine
//! that hands out one action at a time and is told how it ended; doing the
//! work is left to the caller. Everything is proved to do what its contract
//! says, for every input, and never to panic. The calls into other crates
//! that read file formats are the exception: their contracts are believed,
//! and each says so where it stands.

pub mod admin;
pub mod chunker;
pub mod citation;
pub mod errors;
pub mod ingestion;
pub mod models;
pub mod provider;
pub mod text;
pub mod transmutation;
pub mod upload;
