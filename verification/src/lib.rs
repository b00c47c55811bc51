//! Safe ownership wrappers for the reference-counted handles of a foreign
//! widget toolkit, together with the toolkit's enumeration tables.
//!
//! The foreign side is modelled by an instrumented in-process library,
//! [`foreign::ForeignLib`], which owns every resource and its reference
//! count. The wrapper types in [`handle`] hold one of three relationships to
//! such a resource — exclusive ownership, shared reference-counted ownership,
//! or a plain borrow — and their contracts state exactly how each operation
//! moves the count. [`coverage`], [`font_face`] and [`font_desc`] are the
//! wrapped types themselves; [`enums`] and [`flags`] are the toolkit's closed
//! integer-constant tables.

pub mod coverage;
pub mod enums;
pub mod flags;
pub mod font_desc;
pub mod font_face;
pub mod foreign;
pub mod handle;
