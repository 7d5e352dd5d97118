//! Tagless-final interpretation of a small integer language.
pub mod arith;
pub mod deferred;
pub mod eager;
pub mod lang;
pub mod printer;
pub mod laws;
