//! The output model: the definition of a type, and the verified functions
//! that compute it from a [`crate::shape`] description.
//!
//! A struct's definition records its fields; an enum's definition records
//! either its variants with their fields or, for a C-like enum, its variant
//! names with their discriminant values; a union's definition records its
//! named fields.

use vstd::prelude::*;

use crate::shape::{
    DiscriminantShape, FieldShape, FieldShapeV, FieldsShape, FieldsShapeV, TypeShape, TypeShapeV,
    VariantShape, VariantShapeV,
};

verus! {

/// One field of a definition: named, or positional.
#[derive(Clone, Debug, PartialEq, Eq)]
pub enum FieldDef {
    /// A field with a name.
    Named {
        /// The field's name.
        name: String,
        /// The source text of the field's type.
        ty: String,
    },
    /// A positional field without a name.
    Unnamed {
        /// The source text of the field's type.
        ty: String,
    },
}

/// The mathematical value of a [`FieldDef`].
#[verifier::ext_equal]
pub enum FieldDefV {
    /// A field with a name.
    Named {
        /// The field's name.
        name: Seq<char>,
        /// The source text of the field's type.
        ty: Seq<char>,
    },
    /// A positional field without a name.
    Unnamed {
        /// The source text of the field's type.
        ty: Seq<char>,
    },
}

impl DeepView for FieldDef {
    type V = FieldDefV;

    open spec fn deep_view(&self) -> FieldDefV {
        match self {
            FieldDef::Named { name, ty } => FieldDefV::Named {
                name: name.deep_view(),
                ty: ty.deep_view(),
            },
            FieldDef::Unnamed { ty } => FieldDefV::Unnamed { ty: ty.deep_view() },
        }
    }
}

/// One variant of a C-like enum's definition: its name and the discriminant
/// value assigned to it.
#[derive(Clone, Debug, PartialEq, Eq)]
pub struct ClikeEnumVariantDef {
    /// The variant's name.
    pub name: String,
    /// The discriminant value assigned to the variant.
    pub discriminant: u64,
}

/// The mathematical value of a [`ClikeEnumVariantDef`].
#[verifier::ext_equal]
pub struct ClikeEnumVariantDefV {
    /// The variant's name.
    pub name: Seq<char>,
    /// The discriminant value assigned to the variant.
    pub discriminant: u64,
}

impl DeepView for ClikeEnumVariantDef {
    type V = ClikeEnumVariantDefV;

    open spec fn deep_view(&self) -> ClikeEnumVariantDefV {
        ClikeEnumVariantDefV { name: self.name.deep_view(), discriminant: self.discriminant }
    }
}

/// One variant of a data-carrying enum's definition.
#[derive(Clone, Debug, PartialEq, Eq)]
pub enum EnumVariantDef {
    /// A variant with named fields.
    Struct {
        /// The variant's name.
        name: String,
        /// The variant's fields.
        fields: Vec<FieldDef>,
    },
    /// A variant with positional fields.
    TupleStruct {
        /// The variant's name.
        name: String,
        /// The variant's fields.
        fields: Vec<FieldDef>,
    },
    /// A variant without fields.
    Unit {
        /// The variant's name.
        name: String,
    },
}

/// The mathematical value of an [`EnumVariantDef`].
#[verifier::ext_equal]
pub enum EnumVariantDefV {
    /// A variant with named fields.
    Struct {
        /// The variant's name.
        name: Seq<char>,
        /// The variant's fields.
        fields: Seq<FieldDefV>,
    },
    /// A variant with positional fields.
    TupleStruct {
        /// The variant's name.
        name: Seq<char>,
        /// The variant's fields.
        fields: Seq<FieldDefV>,
    },
    /// A variant without fields.
    Unit {
        /// The variant's name.
        name: Seq<char>,
    },
}

impl DeepView for EnumVariantDef {
    type V = EnumVariantDefV;

    open spec fn deep_view(&self) -> EnumVariantDefV {
        match self {
            EnumVariantDef::Struct { name, fields } => EnumVariantDefV::Struct {
                name: name.deep_view(),
                fields: fields.deep_view(),
            },
            EnumVariantDef::TupleStruct { name, fields } => EnumVariantDefV::TupleStruct {
                name: name.deep_view(),
                fields: fields.deep_view(),
            },
            EnumVariantDef::Unit { name } => EnumVariantDefV::Unit { name: name.deep_view() },
        }
    }
}

/// The definition of a type: what the type looks like, as a value that can
/// be inspected at run time.
#[derive(Clone, Debug, PartialEq, Eq)]
pub enum TypeDef {
    /// A struct with named fields.
    Struct {
        /// The struct's fields.
        fields: Vec<FieldDef>,
    },
    /// A tuple struct; a unit struct is a tuple struct without fields.
    TupleStruct {
        /// The struct's fields.
        fields: Vec<FieldDef>,
    },
    /// A C-like enum: every variant is reduced to a name and a discriminant
    /// value.
    ClikeEnum {
        /// The enum's variants.
        variants: Vec<ClikeEnumVariantDef>,
    },
    /// A data-carrying enum.
    Enum {
        /// The enum's variants.
        variants: Vec<EnumVariantDef>,
    },
    /// A union with named fields.
    Union {
        /// The union's fields.
        fields: Vec<FieldDef>,
    },
}

/// The mathematical value of a [`TypeDef`].
#[verifier::ext_equal]
pub enum TypeDefV {
    /// A struct with named fields.
    Struct {
        /// The struct's fields.
        fields: Seq<FieldDefV>,
    },
    /// A tuple struct; a unit struct is a tuple struct without fields.
    TupleStruct {
        /// The struct's fields.
        fields: Seq<FieldDefV>,
    },
    /// A C-like enum: every variant is reduced to a name and a discriminant
    /// value.
    ClikeEnum {
        /// The enum's variants.
        variants: Seq<ClikeEnumVariantDefV>,
    },
    /// A data-carrying enum.
    Enum {
        /// The enum's variants.
        variants: Seq<EnumVariantDefV>,
    },
    /// A union with named fields.
    Union {
        /// The union's fields.
        fields: Seq<FieldDefV>,
    },
}

impl DeepView for TypeDef {
    type V = TypeDefV;

    open spec fn deep_view(&self) -> TypeDefV {
        match self {
            TypeDef::Struct { fields } => TypeDefV::Struct { fields: fields.deep_view() },
            TypeDef::TupleStruct { fields } => TypeDefV::TupleStruct {
                fields: fields.deep_view(),
            },
            TypeDef::ClikeEnum { variants } => TypeDefV::ClikeEnum {
                variants: variants.deep_view(),
            },
            TypeDef::Enum { variants } => TypeDefV::Enum { variants: variants.deep_view() },
            TypeDef::Union { fields } => TypeDefV::Union { fields: fields.deep_view() },
        }
    }
}

/// The definition of one field: a named field keeps its name, an unnamed
/// field only its type.
pub open spec fn spec_field_def(f: FieldShapeV) -> FieldDefV {
    match f.name {
        Some(name) => FieldDefV::Named { name: name, ty: f.ty },
        None => FieldDefV::Unnamed { ty: f.ty },
    }
}

/// The definition of a list of fields, in declaration order.
pub open spec fn spec_fields_def(fields: Seq<FieldShapeV>) -> Seq<FieldDefV> {
    fields.map_values(|f: FieldShapeV| spec_field_def(f))
}

/// Computes the definition of each field of `fields`, in order.
pub fn generate_fields_def(fields: &Vec<FieldShape>) -> (r: Vec<FieldDef>)
    ensures
        r.deep_view() == spec_fields_def(fields.deep_view()),
{
    let mut out: Vec<FieldDef> = Vec::new();
    let mut i: usize = 0;
    while i < fields.len()
        invariant
            i <= fields.len(),
            out.deep_view().len() == i,
            forall|j: int|
                0 <= j < i ==> out.deep_view()[j] == spec_field_def(fields.deep_view()[j]),
        decreases fields.len() - i,
    {
        let f = &fields[i];
        let def = match &f.name {
            Some(name) => FieldDef::Named { name: name.clone(), ty: f.ty.clone() },
            None => FieldDef::Unnamed { ty: f.ty.clone() },
        };
        proof {
            assert(def.deep_view() == spec_field_def(fields.deep_view()[i as int]));
        }
        let ghost prev = out.deep_view();
        out.push(def);
        i = i + 1;
        proof {
            assert forall|j: int| 0 <= j < i implies out.deep_view()[j] == spec_field_def(
                fields.deep_view()[j],
            ) by {
                if j < i - 1 {
                    assert(out.deep_view()[j] == prev[j]);
                }
            }
        }
    }
    proof {
        assert(out.deep_view() =~~= spec_fields_def(fields.deep_view()));
    }
    out
}

/// The definition of a struct: named fields give a struct definition,
/// positional fields a tuple-struct definition, and a unit struct the
/// tuple-struct definition without fields.
pub open spec fn spec_struct_def(fields: FieldsShapeV) -> TypeDefV {
    match fields {
        FieldsShapeV::Named(list) => TypeDefV::Struct { fields: spec_fields_def(list) },
        FieldsShapeV::Unnamed(list) => TypeDefV::TupleStruct { fields: spec_fields_def(list) },
        FieldsShapeV::Unit => TypeDefV::TupleStruct { fields: Seq::empty() },
    }
}

/// Computes the definition of a struct with the given fields.
pub fn generate_struct_def(fields: &FieldsShape) -> (r: TypeDef)
    ensures
        r.deep_view() == spec_struct_def(fields.deep_view()),
{
    match fields {
        FieldsShape::Named(list) => TypeDef::Struct { fields: generate_fields_def(list) },
        FieldsShape::Unnamed(list) => TypeDef::TupleStruct { fields: generate_fields_def(list) },
        FieldsShape::Unit => {
            let empty: Vec<FieldDef> = Vec::new();
            proof {
                assert(empty.deep_view() =~= Seq::<FieldDefV>::empty());
            }
            TypeDef::TupleStruct { fields: empty }
        },
    }
}

/// The definition of a union: its named fields.
pub open spec fn spec_union_def(fields: Seq<FieldShapeV>) -> TypeDefV {
    TypeDefV::Union { fields: spec_fields_def(fields) }
}

/// Computes the definition of a union with the given named fields.
pub fn generate_union_def(fields: &Vec<FieldShape>) -> (r: TypeDef)
    ensures
        r.deep_view() == spec_union_def(fields.deep_view()),
{
    TypeDef::Union { fields: generate_fields_def(fields) }
}

/// Whether an enum is treated as C-like: some variant carries an explicit
/// discriminant, or every variant is a unit variant.
pub open spec fn spec_is_c_like_enum(variants: Seq<VariantShapeV>) -> bool {
    ||| exists|i: int|
        0 <= i < variants.len() && !(variants[i].discriminant is Absent)
    ||| forall|i: int| 0 <= i < variants.len() ==> variants[i].fields is Unit
}

/// Decides whether an enum with the given variants is treated as C-like.
pub fn is_c_like_enum(variants: &Vec<VariantShape>) -> (r: bool)
    ensures
        r == spec_is_c_like_enum(variants.deep_view()),
{
    let mut i: usize = 0;
    while i < variants.len()
        invariant
            i <= variants.len(),
            forall|j: int|
                0 <= j < i ==> variants.deep_view()[j].discriminant is Absent,
        decreases variants.len() - i,
    {
        match variants[i].discriminant {
            DiscriminantShape::Absent => {},
            _ => {
                proof {
                    assert(!(variants.deep_view()[i as int].discriminant is Absent));
                }
                return true;
            },
        }
        i = i + 1;
    }
    let mut k: usize = 0;
    while k < variants.len()
        invariant
            k <= variants.len(),
            forall|j: int|
                0 <= j < variants.len() ==> variants.deep_view()[j].discriminant is Absent,
            forall|j: int| 0 <= j < k ==> variants.deep_view()[j].fields is Unit,
        decreases variants.len() - k,
    {
        match &variants[k].fields {
            FieldsShape::Unit => {},
            _ => {
                proof {
                    assert(!(variants.deep_view()[k as int].fields is Unit));
                }
                return false;
            },
        }
        k = k + 1;
    }
    true
}

/// The discriminant value assigned to the variant at position `i`: the value
/// of its integer-literal discriminant if it has one, and its position
/// otherwise.
pub open spec fn spec_clike_discriminant(v: VariantShapeV, i: int) -> u64 {
    match v.discriminant {
        DiscriminantShape::IntLit(value) => value,
        _ => i as u64,
    }
}

/// The definition of a C-like enum: each variant keeps its name and is
/// assigned a discriminant value.
pub open spec fn spec_clike_enum_def(variants: Seq<VariantShapeV>) -> TypeDefV {
    TypeDefV::ClikeEnum {
        variants: Seq::new(
            variants.len(),
            |i: int| ClikeEnumVariantDefV {
                name: variants[i].name,
                discriminant: spec_clike_discriminant(variants[i], i),
            },
        ),
    }
}

/// Computes the definition of a C-like enum with the given variants.
pub fn generate_c_like_enum_def(variants: &Vec<VariantShape>) -> (r: TypeDef)
    ensures
        r.deep_view() == spec_clike_enum_def(variants.deep_view()),
{
    let mut out: Vec<ClikeEnumVariantDef> = Vec::new();
    let mut i: usize = 0;
    while i < variants.len()
        invariant
            i <= variants.len(),
            out.deep_view().len() == i,
            forall|j: int|
                0 <= j < i ==> out.deep_view()[j] == (ClikeEnumVariantDefV {
                    name: variants.deep_view()[j].name,
                    discriminant: spec_clike_discriminant(variants.deep_view()[j], j),
                }),
        decreases variants.len() - i,
    {
        let v = &variants[i];
        let discriminant = match v.discriminant {
            DiscriminantShape::IntLit(value) => value,
            _ => i as u64,
        };
        let def = ClikeEnumVariantDef { name: v.name.clone(), discriminant };
        proof {
            assert(def.deep_view() == (ClikeEnumVariantDefV {
                name: variants.deep_view()[i as int].name,
                discriminant: spec_clike_discriminant(variants.deep_view()[i as int], i as int),
            }));
        }
        let ghost prev = out.deep_view();
        out.push(def);
        i = i + 1;
        proof {
            assert forall|j: int| 0 <= j < i implies out.deep_view()[j] == (ClikeEnumVariantDefV {
                name: variants.deep_view()[j].name,
                discriminant: spec_clike_discriminant(variants.deep_view()[j], j),
            }) by {
                if j < i - 1 {
                    assert(out.deep_view()[j] == prev[j]);
                }
            }
        }
    }
    let r = TypeDef::ClikeEnum { variants: out };
    proof {
        assert(r.deep_view() =~~= spec_clike_enum_def(variants.deep_view()));
    }
    r
}

/// The definition of one variant of a data-carrying enum: the variant keeps
/// its name, and its fields are defined as a struct's would be.
pub open spec fn spec_enum_variant_def(v: VariantShapeV) -> EnumVariantDefV {
    match v.fields {
        FieldsShapeV::Named(list) => EnumVariantDefV::Struct {
            name: v.name,
            fields: spec_fields_def(list),
        },
        FieldsShapeV::Unnamed(list) => EnumVariantDefV::TupleStruct {
            name: v.name,
            fields: spec_fields_def(list),
        },
        FieldsShapeV::Unit => EnumVariantDefV::Unit { name: v.name },
    }
}

/// The definition of an enum: a C-like enum is reduced to names and
/// discriminant values, any other enum keeps its variants with their fields.
pub open spec fn spec_enum_def(variants: Seq<VariantShapeV>) -> TypeDefV {
    if spec_is_c_like_enum(variants) {
        spec_clike_enum_def(variants)
    } else {
        TypeDefV::Enum {
            variants: variants.map_values(|v: VariantShapeV| spec_enum_variant_def(v)),
        }
    }
}

/// Computes the definition of an enum with the given variants.
pub fn generate_enum_def(variants: &Vec<VariantShape>) -> (r: TypeDef)
    ensures
        r.deep_view() == spec_enum_def(variants.deep_view()),
{
    if is_c_like_enum(variants) {
        return generate_c_like_enum_def(variants);
    }
    let mut out: Vec<EnumVariantDef> = Vec::new();
    let mut i: usize = 0;
    while i < variants.len()
        invariant
            i <= variants.len(),
            out.deep_view().len() == i,
            forall|j: int|
                0 <= j < i ==> out.deep_view()[j] == spec_enum_variant_def(
                    variants.deep_view()[j],
                ),
        decreases variants.len() - i,
    {
        let v = &variants[i];
        let def = match &v.fields {
            FieldsShape::Named(list) => EnumVariantDef::Struct {
                name: v.name.clone(),
                fields: generate_fields_def(list),
            },
            FieldsShape::Unnamed(list) => EnumVariantDef::TupleStruct {
                name: v.name.clone(),
                fields: generate_fields_def(list),
            },
            FieldsShape::Unit => EnumVariantDef::Unit { name: v.name.clone() },
        };
        proof {
            assert(def.deep_view() == spec_enum_variant_def(variants.deep_view()[i as int]));
        }
        let ghost prev = out.deep_view();
        out.push(def);
        i = i + 1;
        proof {
            assert forall|j: int| 0 <= j < i implies out.deep_view()[j] == spec_enum_variant_def(
                variants.deep_view()[j],
            ) by {
                if j < i - 1 {
                    assert(out.deep_view()[j] == prev[j]);
                }
            }
        }
    }
    let r = TypeDef::Enum { variants: out };
    proof {
        assert(r.deep_view() =~~= spec_enum_def(variants.deep_view()));
    }
    r
}

/// The definition of a whole type declaration.
pub open spec fn spec_type_def(shape: TypeShapeV) -> TypeDefV {
    match shape {
        TypeShapeV::Struct(fields) => spec_struct_def(fields),
        TypeShapeV::Enum(variants) => spec_enum_def(variants),
        TypeShapeV::Union(fields) => spec_union_def(fields),
    }
}

/// Computes the definition of a type declaration from its shape.
pub fn generate_type_def(shape: &TypeShape) -> (r: TypeDef)
    ensures
        r.deep_view() == spec_type_def(shape.deep_view()),
{
    match shape {
        TypeShape::Struct(fields) => generate_struct_def(fields),
        TypeShape::Enum(variants) => generate_enum_def(variants),
        TypeShape::Union(fields) => generate_union_def(fields),
    }
}

} // verus!

