//! Recognizes one outer attribute, such as `#[repr(C)]`, at the front of a
//! stream of already-lexed token trees, and splits it into its marker, its
//! bracket pair, its path and the argument tokens that follow the path.
//!
//! Two result shapes are offered: [`different_layout::OuterAttribute`] keeps
//! only the parts of an outer attribute and reads the path with mod-style
//! rules; [`same_layout::OuterAttribute`] wraps a general [`same_layout::Attribute`]
//! record whose style is fixed to outer and whose path follows syn's general
//! path grammar.

pub mod token;
pub mod cursor;
pub mod path;
pub mod different_layout;
pub mod text;
pub mod same_layout;
