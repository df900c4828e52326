//! Grading contracts for a blockchain runtime's collection API.
//!
//! A grader contract checks that a candidate contract correctly implements a
//! small collection API: a string key-value map and an append/pop byte
//! sequence.  For each capability the grader builds one ordered batch of
//! dependent cross-contract calls, registers a continuation that sees only the
//! final call's outcome, and records a boolean verdict keyed by the candidate's
//! account identifier.  The candidate reference store implements the collection
//! API itself.
//!
//! The host runtime's side (randomness, promise scheduling, storage commit) is
//! kept outside: entry points take the entropy bytes as arguments and return
//! the batch as plain data, and continuations take the chain's terminal result
//! as an argument.

pub mod candidate;
pub mod grader;
pub mod json;
