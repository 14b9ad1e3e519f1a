//! The input model: a plain description of a type declaration's shape.
//!
//! A declaration is a struct, an enum or a union. Its fields carry an
//! optional name and the source text of their type; an enum variant carries
//! a name, an optional discriminant and its own fields. These types hold
//! that structure as plain values, so that the definition of a type can be
//! computed, and reasoned about, without the declaration syntax itself.

use vstd::prelude::*;

verus! {

/// One field of a struct, tuple struct, union or enum variant: an optional
/// field name and the source text of the field's type.
pub struct FieldShape {
    /// The field's name; absent for the positional fields of a tuple struct
    /// or tuple variant.
    pub name: Option<String>,
    /// The source text of the field's type.
    pub ty: String,
}

/// The mathematical value of a [`FieldShape`].
#[verifier::ext_equal]
pub struct FieldShapeV {
    /// The field's name, as a sequence of characters, if it has one.
    pub name: Option<Seq<char>>,
    /// The source text of the field's type.
    pub ty: Seq<char>,
}

impl DeepView for FieldShape {
    type V = FieldShapeV;

    open spec fn deep_view(&self) -> FieldShapeV {
        FieldShapeV { name: self.name.deep_view(), ty: self.ty.deep_view() }
    }
}

/// The fields of a struct or of an enum variant: named (curly braces),
/// unnamed (parentheses), or none at all.
pub enum FieldsShape {
    /// Fields written in curly braces, each with a name.
    Named(Vec<FieldShape>),
    /// Positional fields written in parentheses, without names.
    Unnamed(Vec<FieldShape>),
    /// No fields: a unit struct or a unit variant.
    Unit,
}

/// The mathematical value of a [`FieldsShape`].
#[verifier::ext_equal]
pub enum FieldsShapeV {
    /// Fields written in curly braces, each with a name.
    Named(Seq<FieldShapeV>),
    /// Positional fields written in parentheses, without names.
    Unnamed(Seq<FieldShapeV>),
    /// No fields: a unit struct or a unit variant.
    Unit,
}

impl DeepView for FieldsShape {
    type V = FieldsShapeV;

    open spec fn deep_view(&self) -> FieldsShapeV {
        match self {
            FieldsShape::Named(fields) => FieldsShapeV::Named(fields.deep_view()),
            FieldsShape::Unnamed(fields) => FieldsShapeV::Unnamed(fields.deep_view()),
            FieldsShape::Unit => FieldsShapeV::Unit,
        }
    }
}

/// The discriminant written on an enum variant, if any.
///
/// Only an integer-literal discriminant carries a value that the definition
/// can record; any other discriminant expression is noted as present but
/// yields no value.
#[derive(Clone, Copy, PartialEq, Eq, Structural)]
pub enum DiscriminantShape {
    /// The variant has no discriminant.
    Absent,
    /// The discriminant is an integer literal with the given value.
    IntLit(u64),
    /// The discriminant is some other expression.
    Other,
}

impl DeepView for DiscriminantShape {
    type V = DiscriminantShape;

    open spec fn deep_view(&self) -> DiscriminantShape {
        *self
    }
}

/// One variant of an enum: its name, its discriminant if it has one, and
/// its fields.
pub struct VariantShape {
    /// The variant's name.
    pub name: String,
    /// The variant's discriminant, if any.
    pub discriminant: DiscriminantShape,
    /// The variant's fields.
    pub fields: FieldsShape,
}

/// The mathematical value of a [`VariantShape`].
#[verifier::ext_equal]
pub struct VariantShapeV {
    /// The variant's name.
    pub name: Seq<char>,
    /// The variant's discriminant, if any.
    pub discriminant: DiscriminantShape,
    /// The variant's fields.
    pub fields: FieldsShapeV,
}

impl DeepView for VariantShape {
    type V = VariantShapeV;

    open spec fn deep_view(&self) -> VariantShapeV {
        VariantShapeV {
            name: self.name.deep_view(),
            discriminant: self.discriminant,
            fields: self.fields.deep_view(),
        }
    }
}

/// The shape of a whole type declaration.
pub enum TypeShape {
    /// A struct with the given fields.
    Struct(FieldsShape),
    /// An enum with the given variants.
    Enum(Vec<VariantShape>),
    /// A union with the given named fields.
    Union(Vec<FieldShape>),
}

/// The mathematical value of a [`TypeShape`].
#[verifier::ext_equal]
pub enum TypeShapeV {
    /// A struct with the given fields.
    Struct(FieldsShapeV),
    /// An enum with the given variants.
    Enum(Seq<VariantShapeV>),
    /// A union with the given named fields.
    Union(Seq<FieldShapeV>),
}

impl DeepView for TypeShape {
    type V = TypeShapeV;

    open spec fn deep_view(&self) -> TypeShapeV {
        match self {
            TypeShape::Struct(fields) => TypeShapeV::Struct(fields.deep_view()),
            TypeShape::Enum(variants) => TypeShapeV::Enum(variants.deep_view()),
            TypeShape::Union(fields) => TypeShapeV::Union(fields.deep_view()),
        }
    }
}

} // verus!
