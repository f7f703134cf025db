//! Three ways of reporting the failure of one operation, reading a named
//! text file: a closed enumeration of failure kinds, a context-carrying
//! error with a causal chain, and an erased error that keeps only a
//! classification and a message.
//!
//! The file system is touched by the caller. The library takes what the
//! attempt produced (the contents, or the step that failed and the
//! underlying fault) and decides, with proved contracts, what each
//! strategy hands back.
pub mod contextual;
pub mod erased;
pub mod fault;
pub mod tagged;

