//! A generator for atomic bit-flag wrapper types.
//!
//! Given the description of a declared bit-flag type and a small ownership
//! configuration, the crate synthesizes the source of a companion type that
//! holds the flag value behind an atomic integer and exposes thread-safe
//! bitwise update operations (union, intersection, subtraction, membership
//! test, equality, conversion and rendering).
//!
//! The crate is organised along the three stages of the generator:
//! configuration resolution ([`config`]), wrapper type synthesis
//! ([`wrapper`]) and operation emission ([`emit`]).  The [`flags`] module
//! holds the semantic model of the generated operation surface: a verified
//! flag cell whose contracts state exactly what each emitted operation does
//! to the stored bits and what it returns.

pub mod config;
pub mod emit;
pub mod flags;
pub mod wrapper;
