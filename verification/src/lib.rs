//! Computes the runtime-inspectable type definition (fields, names, variant
//! layout) of a struct, enum or union from a plain description of its shape.
//!
//! The shape of a declaration — its fields, their names and types, its
//! variants and their discriminants — is modelled by the types in [`shape`];
//! the resulting definition by the types in [`type_def`], together with the
//! verified functions that compute one from the other.

pub mod shape;
pub mod type_def;
