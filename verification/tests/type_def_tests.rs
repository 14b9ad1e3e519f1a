use type_metadata_derive::shape::{
    DiscriminantShape, FieldShape, FieldsShape, TypeShape, VariantShape,
};
use type_metadata_derive::type_def::{
    generate_c_like_enum_def, generate_enum_def, generate_fields_def, generate_struct_def,
    generate_type_def, generate_union_def, is_c_like_enum, ClikeEnumVariantDef, EnumVariantDef,
    FieldDef, TypeDef,
};

fn named(name: &str, ty: &str) -> FieldShape {
    FieldShape {
        name: Some(String::from(name)),
        ty: String::from(ty),
    }
}

fn unnamed(ty: &str) -> FieldShape {
    FieldShape {
        name: None,
        ty: String::from(ty),
    }
}

fn variant(name: &str, discriminant: DiscriminantShape, fields: FieldsShape) -> VariantShape {
    VariantShape {
        name: String::from(name),
        discriminant,
        fields,
    }
}

fn named_def(name: &str, ty: &str) -> FieldDef {
    FieldDef::Named {
        name: String::from(name),
        ty: String::from(ty),
    }
}

fn unnamed_def(ty: &str) -> FieldDef {
    FieldDef::Unnamed {
        ty: String::from(ty),
    }
}

#[test]
fn fields_def_keeps_names_and_order() {
    let fields = vec![named("a", "bool"), named("b", "u32"), unnamed("String")];
    let defs = generate_fields_def(&fields);
    assert_eq!(
        defs,
        vec![
            named_def("a", "bool"),
            named_def("b", "u32"),
            unnamed_def("String"),
        ]
    );
}

#[test]
fn fields_def_of_no_fields_is_empty() {
    let defs = generate_fields_def(&vec![]);
    assert_eq!(defs, vec![]);
}

#[test]
fn named_struct_def() {
    let fields = FieldsShape::Named(vec![named("x", "i64"), named("y", "i64")]);
    let def = generate_struct_def(&fields);
    assert_eq!(
        def,
        TypeDef::Struct {
            fields: vec![named_def("x", "i64"), named_def("y", "i64")],
        }
    );
}

#[test]
fn tuple_struct_def() {
    let fields = FieldsShape::Unnamed(vec![unnamed("u8"), unnamed("u16")]);
    let def = generate_struct_def(&fields);
    assert_eq!(
        def,
        TypeDef::TupleStruct {
            fields: vec![unnamed_def("u8"), unnamed_def("u16")],
        }
    );
}

#[test]
fn unit_struct_is_empty_tuple_struct() {
    let def = generate_struct_def(&FieldsShape::Unit);
    assert_eq!(def, TypeDef::TupleStruct { fields: vec![] });
}

#[test]
fn union_def_keeps_named_fields() {
    let fields = vec![named("int_view", "u32"), named("float_bits", "u32")];
    let def = generate_union_def(&fields);
    assert_eq!(
        def,
        TypeDef::Union {
            fields: vec![named_def("int_view", "u32"), named_def("float_bits", "u32")],
        }
    );
}

#[test]
fn all_unit_variants_are_c_like() {
    let variants = vec![
        variant("A", DiscriminantShape::Absent, FieldsShape::Unit),
        variant("B", DiscriminantShape::Absent, FieldsShape::Unit),
    ];
    assert!(is_c_like_enum(&variants));
}

#[test]
fn any_discriminant_makes_c_like() {
    let variants = vec![
        variant("A", DiscriminantShape::IntLit(3), FieldsShape::Unit),
        variant(
            "B",
            DiscriminantShape::Absent,
            FieldsShape::Unnamed(vec![unnamed("u8")]),
        ),
    ];
    assert!(is_c_like_enum(&variants));
}

#[test]
fn data_variant_without_discriminants_is_not_c_like() {
    let variants = vec![
        variant("A", DiscriminantShape::Absent, FieldsShape::Unit),
        variant(
            "B",
            DiscriminantShape::Absent,
            FieldsShape::Named(vec![named("v", "u8")]),
        ),
    ];
    assert!(!is_c_like_enum(&variants));
}

#[test]
fn empty_enum_is_c_like() {
    let variants: Vec<VariantShape> = vec![];
    assert!(is_c_like_enum(&variants));
    let def = generate_enum_def(&variants);
    assert_eq!(def, TypeDef::ClikeEnum { variants: vec![] });
}

#[test]
fn c_like_variants_without_discriminants_get_their_positions() {
    let variants = vec![
        variant("A", DiscriminantShape::Absent, FieldsShape::Unit),
        variant("B", DiscriminantShape::Absent, FieldsShape::Unit),
        variant("C", DiscriminantShape::Absent, FieldsShape::Unit),
    ];
    let def = generate_c_like_enum_def(&variants);
    assert_eq!(
        def,
        TypeDef::ClikeEnum {
            variants: vec![
                ClikeEnumVariantDef {
                    name: String::from("A"),
                    discriminant: 0,
                },
                ClikeEnumVariantDef {
                    name: String::from("B"),
                    discriminant: 1,
                },
                ClikeEnumVariantDef {
                    name: String::from("C"),
                    discriminant: 2,
                },
            ],
        }
    );
}

#[test]
fn int_literal_discriminant_keeps_its_value() {
    let variants = vec![
        variant("A", DiscriminantShape::Absent, FieldsShape::Unit),
        variant("B", DiscriminantShape::IntLit(10), FieldsShape::Unit),
        variant("C", DiscriminantShape::Absent, FieldsShape::Unit),
    ];
    let def = generate_enum_def(&variants);
    assert_eq!(
        def,
        TypeDef::ClikeEnum {
            variants: vec![
                ClikeEnumVariantDef {
                    name: String::from("A"),
                    discriminant: 0,
                },
                ClikeEnumVariantDef {
                    name: String::from("B"),
                    discriminant: 10,
                },
                ClikeEnumVariantDef {
                    name: String::from("C"),
                    discriminant: 2,
                },
            ],
        }
    );
}

#[test]
fn non_literal_discriminant_falls_back_to_position() {
    let variants = vec![
        variant("A", DiscriminantShape::Other, FieldsShape::Unit),
        variant(
            "B",
            DiscriminantShape::Absent,
            FieldsShape::Unnamed(vec![unnamed("u8")]),
        ),
    ];
    // The discriminant on `A` makes the enum C-like even though `B` carries a
    // field; `A` gets its position because its discriminant has no value, and
    // `B`'s field is dropped.
    let def = generate_enum_def(&variants);
    assert_eq!(
        def,
        TypeDef::ClikeEnum {
            variants: vec![
                ClikeEnumVariantDef {
                    name: String::from("A"),
                    discriminant: 0,
                },
                ClikeEnumVariantDef {
                    name: String::from("B"),
                    discriminant: 1,
                },
            ],
        }
    );
}

#[test]
fn data_enum_keeps_variant_fields() {
    let variants = vec![
        variant(
            "Point",
            DiscriminantShape::Absent,
            FieldsShape::Named(vec![named("x", "i32"), named("y", "i32")]),
        ),
        variant(
            "Pair",
            DiscriminantShape::Absent,
            FieldsShape::Unnamed(vec![unnamed("bool"), unnamed("char")]),
        ),
        variant("Nothing", DiscriminantShape::Absent, FieldsShape::Unit),
    ];
    let def = generate_enum_def(&variants);
    assert_eq!(
        def,
        TypeDef::Enum {
            variants: vec![
                EnumVariantDef::Struct {
                    name: String::from("Point"),
                    fields: vec![named_def("x", "i32"), named_def("y", "i32")],
                },
                EnumVariantDef::TupleStruct {
                    name: String::from("Pair"),
                    fields: vec![unnamed_def("bool"), unnamed_def("char")],
                },
                EnumVariantDef::Unit {
                    name: String::from("Nothing"),
                },
            ],
        }
    );
}

#[test]
fn type_def_dispatches_on_the_shape() {
    let s = TypeShape::Struct(FieldsShape::Named(vec![named("len", "usize")]));
    assert_eq!(
        generate_type_def(&s),
        TypeDef::Struct {
            fields: vec![named_def("len", "usize")],
        }
    );

    let e = TypeShape::Enum(vec![
        variant("On", DiscriminantShape::Absent, FieldsShape::Unit),
        variant("Off", DiscriminantShape::Absent, FieldsShape::Unit),
    ]);
    assert_eq!(
        generate_type_def(&e),
        TypeDef::ClikeEnum {
            variants: vec![
                ClikeEnumVariantDef {
                    name: String::from("On"),
                    discriminant: 0,
                },
                ClikeEnumVariantDef {
                    name: String::from("Off"),
                    discriminant: 1,
                },
            ],
        }
    );

    let u = TypeShape::Union(vec![named("bits", "u64")]);
    assert_eq!(
        generate_type_def(&u),
        TypeDef::Union {
            fields: vec![named_def("bits", "u64")],
        }
    );
}
