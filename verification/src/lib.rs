//! The logic of a small message board whose posts and replies are written by
//! a language model: what the database rows become, what each page shows,
//! how a submitted generation is accepted or refused, and how the stream of
//! generated text is accumulated, stored and turned into events.
pub mod state_db;
pub mod web;
pub mod listen;
