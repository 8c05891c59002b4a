//! Generator for the flat-ABI artifacts of a Swift/Rust bridge module.
//!
//! A [`model::Module`] is a validated description of the types and functions
//! that cross the language boundary.  From it the library emits:
//!
//! * a C header describing every boundary-crossing symbol
//!   ([`header`]), and
//! * the Swift wrapper classes that own, borrow and free the underlying
//!   handles ([`swift`]).
//!
//! The [`bridged`] module classifies every type reference into a closed set
//! of representation kinds and exposes, per kind, its spelling in the common
//! ABI; the [`registry`] tracks which type names have already had their
//! declarations emitted across modules compiled together.  All generation is
//! deterministic: each emitted text is pinned, byte for byte, by a
//! specification function of the module value, and [`laws`] proves what is
//! emitted exactly once, what is never emitted, and how the header is laid
//! out.

pub mod bridged;
pub mod decimal;
pub mod fixture;
pub mod header;
pub mod laws;
pub mod model;
pub mod registry;
pub mod swift;
