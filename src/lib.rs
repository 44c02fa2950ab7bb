//! Shape analysis and code planning for a derived `Clone` implementation
//! whose `clone_from` overwrites a value field by field.
//!
//! The library works on a plain description of a type definition: its
//! name, its generic parameters and the kind and fields of its body. From
//! it the library plans the two procedure bodies of the implementation and
//! the bounds to add to the generic parameters, or reports why the type's
//! shape is not supported. A small model of what the planned code does to
//! live values states the laws the plans obey.

use vstd::prelude::*;

pub mod shape;
pub mod emit;
pub mod derive;
pub mod model;
