use typeshare_reasonml::ir::{
    ConstDecl, ConstExpr, Decl, EnumDecl, EnumShared, EnumVariant, Field, FormatError, Id,
    SpecialType, StructDecl, TypeAliasDecl, TypeNode, VariantShared,
};
use typeshare_reasonml::reasonml::ReasonML;

fn lang() -> ReasonML {
    ReasonML { type_mappings: Vec::new(), no_version_header: true }
}

fn id(name: &str) -> Id {
    Id { original: name.to_string(), renamed: name.to_string() }
}

fn field(name: &str, ty: TypeNode) -> Field {
    Field {
        id: id(name),
        ty,
        comments: Vec::new(),
        type_override: None,
        decorators: Vec::new(),
        has_default: false,
    }
}

fn text() -> TypeNode {
    TypeNode::Special(SpecialType::Text)
}

#[test]
fn comments_zero_lines_emit_nothing() {
    let mut out = String::new();
    lang().write_comments(&mut out, 0, &Vec::new());
    assert_eq!(out, "");
}

#[test]
fn comments_one_line_is_single_line() {
    let mut out = String::new();
    lang().write_comments(&mut out, 0, &vec!["hello".to_string()]);
    assert_eq!(out, "/* hello */\n");
}

#[test]
fn comments_many_lines_form_indented_block() {
    let mut out = String::new();
    lang().write_comments(&mut out, 1, &vec!["one".to_string(), "two".to_string()]);
    assert_eq!(out, "  /*\n   * one\n   * two\n   */\n");
}

#[test]
fn empty_struct_is_opaque_type() {
    let rs = StructDecl {
        id: id("EmptyThing"),
        generic_types: Vec::new(),
        fields: Vec::new(),
        comments: Vec::new(),
    };
    let mut out = String::new();
    lang().write_struct(&mut out, &rs).unwrap();
    assert_eq!(out, "type emptyThing;\n");
    assert!(!out.contains('{'));
}

#[test]
fn struct_with_fields_and_generics() {
    let rs = StructDecl {
        id: id("MyStruct"),
        generic_types: vec!["A".to_string(), "B".to_string()],
        fields: vec![
            field("count", TypeNode::Special(SpecialType::I32)),
            field("my-field", text()),
        ],
        comments: vec!["A test struct.".to_string()],
    };
    let mut out = String::new();
    lang().write_struct(&mut out, &rs).unwrap();
    assert_eq!(
        out,
        "/* A test struct. */\ntype myStruct('A, 'B) = {\n    count: float,\n    \"my-field\": string,\n};\n\n"
    );
}

#[test]
fn struct_field_override_wins() {
    let mut f = field("raw", TypeNode::Special(SpecialType::I32));
    f.type_override = Some("Js.Json.t".to_string());
    let rs = StructDecl {
        id: id("WithOverride"),
        generic_types: Vec::new(),
        fields: vec![f],
        comments: Vec::new(),
    };
    let mut out = String::new();
    lang().write_struct(&mut out, &rs).unwrap();
    assert_eq!(out, "type withOverride = {\n    raw: Js.Json.t,\n};\n\n");
}

#[test]
fn has_default_field_is_emitted_optional() {
    let mut f = field("mode", text());
    f.has_default = true;
    let rs = StructDecl {
        id: id("WithDefault"),
        generic_types: Vec::new(),
        fields: vec![f],
        comments: Vec::new(),
    };
    let mut out = String::new();
    lang().write_struct(&mut out, &rs).unwrap();
    assert_eq!(out, "type withDefault = {\n    mode: option(string),\n};\n\n");
}

#[test]
fn has_default_optional_field_is_not_double_wrapped() {
    let mut f = field(
        "mode",
        TypeNode::Special(SpecialType::Optional(Box::new(text()))),
    );
    f.has_default = true;
    let rs = StructDecl {
        id: id("DefaultedOption"),
        generic_types: Vec::new(),
        fields: vec![f],
        comments: Vec::new(),
    };
    let mut out = String::new();
    lang().write_struct(&mut out, &rs).unwrap();
    assert_eq!(out, "type defaultedOption = {\n    mode: option(string),\n};\n\n");
}

#[test]
fn has_default_wraps_an_override_too() {
    let mut f = field("raw", text());
    f.has_default = true;
    f.type_override = Some("Js.Json.t".to_string());
    let rs = StructDecl {
        id: id("DefaultedOverride"),
        generic_types: Vec::new(),
        fields: vec![f],
        comments: Vec::new(),
    };
    let mut out = String::new();
    lang().write_struct(&mut out, &rs).unwrap();
    assert_eq!(out, "type defaultedOverride = {\n    raw: option(Js.Json.t),\n};\n\n");
}

#[test]
fn struct_with_wide64_field_fails_and_writes_nothing() {
    let rs = StructDecl {
        id: id("Bad"),
        generic_types: Vec::new(),
        fields: vec![field("big", TypeNode::Special(SpecialType::U64))],
        comments: vec!["doc".to_string()],
    };
    let mut out = String::from("prefix");
    let r = lang().write_struct(&mut out, &rs);
    assert!(matches!(r, Err(FormatError::UnsupportedNumericWidth)));
    assert_eq!(out, "prefix");
}

#[test]
fn emitter_is_deterministic() {
    let rs = StructDecl {
        id: id("MyStruct"),
        generic_types: vec!["A".to_string()],
        fields: vec![field("x", text())],
        comments: vec!["line one".to_string(), "line two".to_string()],
    };
    let mut first = String::new();
    let mut second = String::new();
    lang().write_struct(&mut first, &rs).unwrap();
    lang().write_struct(&mut second, &rs).unwrap();
    assert_eq!(first, second);
}

#[test]
fn type_alias_plain() {
    let a = TypeAliasDecl {
        id: id("ItemName"),
        generic_types: Vec::new(),
        ty: TypeNode::Special(SpecialType::Optional(Box::new(text()))),
        comments: Vec::new(),
    };
    let mut out = String::new();
    lang().write_type_alias(&mut out, &a).unwrap();
    assert_eq!(out, "type itemName = option(string);\n\n");
}

#[test]
fn type_alias_with_generics() {
    let a = TypeAliasDecl {
        id: id("Wrapper"),
        generic_types: vec!["T".to_string()],
        ty: TypeNode::Special(SpecialType::Optional(Box::new(TypeNode::Simple {
            name: "T".to_string(),
            args: Vec::new(),
        }))),
        comments: Vec::new(),
    };
    let mut out = String::new();
    lang().write_type_alias(&mut out, &a).unwrap();
    assert_eq!(out, "type wrapper('T) = option(t);\n\n");
}

#[test]
fn const_declaration() {
    let c = ConstDecl {
        id: id("max_count"),
        ty: TypeNode::Special(SpecialType::U53),
        expr: ConstExpr::Int(10),
    };
    let mut out = String::new();
    lang().write_const(&mut out, &c).unwrap();
    assert_eq!(out, "let MAX_COUNT = (10: float);\n");
}

#[test]
fn const_negative_value() {
    let c = ConstDecl {
        id: id("lowestPoint"),
        ty: TypeNode::Special(SpecialType::I32),
        expr: ConstExpr::Int(-5),
    };
    let mut out = String::new();
    lang().write_const(&mut out, &c).unwrap();
    assert_eq!(out, "let LOWEST_POINT = (-5: float);\n");
}

#[test]
fn const_with_wide64_type_fails() {
    let c = ConstDecl {
        id: id("too_big"),
        ty: TypeNode::Special(SpecialType::U64),
        expr: ConstExpr::Int(1),
    };
    let mut out = String::new();
    let r = lang().write_const(&mut out, &c);
    assert!(matches!(r, Err(FormatError::UnsupportedNumericWidth)));
    assert_eq!(out, "");
}

#[test]
fn unit_enum_keeps_literal_tags() {
    let e = EnumDecl::Unit {
        shared: EnumShared {
            id: id("Color"),
            generic_types: Vec::new(),
            comments: Vec::new(),
        },
        variants: vec![
            VariantShared { id: id("Red"), comments: Vec::new() },
            VariantShared { id: id("Green"), comments: vec!["a comment".to_string()] },
        ],
    };
    let mut out = String::new();
    lang().write_enum(&mut out, &e).unwrap();
    assert_eq!(out, "type color =\n  | Red\n  /* a comment */\n  | Green\n;\n\n");
    // the comment sits above its variant
    let mut with_comments = String::new();
    lang().write_enum_variants(&mut with_comments, &e).unwrap();
    assert_eq!(with_comments, "  | Red\n  /* a comment */\n  | Green\n");
}

#[test]
fn algebraic_enum_degrades_to_placeholder() {
    let e = EnumDecl::Algebraic {
        tag_key: "type".to_string(),
        content_key: "content".to_string(),
        shared: EnumShared {
            id: id("SomeEnum"),
            generic_types: Vec::new(),
            comments: vec!["docs".to_string()],
        },
        variants: vec![EnumVariant::Unit {
            shared: VariantShared { id: id("A"), comments: Vec::new() },
        }],
    };
    let mut out = String::new();
    lang().write_enum(&mut out, &e).unwrap();
    assert_eq!(out, "/* docs */\n/* Unsupported Serde Serialisation */\ntype someEnum;\n\n");
}

#[test]
fn algebraic_variants_carry_wire_keys_literally() {
    let e = EnumDecl::Algebraic {
        tag_key: "type".to_string(),
        content_key: "data".to_string(),
        shared: EnumShared {
            id: id("Message"),
            generic_types: Vec::new(),
            comments: Vec::new(),
        },
        variants: vec![
            EnumVariant::Unit { shared: VariantShared { id: id("A"), comments: Vec::new() } },
            EnumVariant::Tuple {
                ty: TypeNode::Special(SpecialType::I32),
                shared: VariantShared { id: id("B"), comments: Vec::new() },
            },
            EnumVariant::AnonymousStruct {
                fields: vec![field("x", text())],
                shared: VariantShared { id: id("C"), comments: Vec::new() },
            },
        ],
    };
    let mut out = String::new();
    lang().write_enum_variants(&mut out, &e).unwrap();
    assert_eq!(
        out,
        "  | A(type: string)\n  | B(type: string, data: float)\n  | C(type: string, data: {\n    x: string,\n  })\n"
    );
}

#[test]
fn algebraic_variant_with_wide64_payload_fails() {
    let e = EnumDecl::Algebraic {
        tag_key: "t".to_string(),
        content_key: "c".to_string(),
        shared: EnumShared {
            id: id("Bad"),
            generic_types: Vec::new(),
            comments: Vec::new(),
        },
        variants: vec![EnumVariant::Tuple {
            ty: TypeNode::Special(SpecialType::I64),
            shared: VariantShared { id: id("Big"), comments: Vec::new() },
        }],
    };
    let mut out = String::new();
    let r = lang().write_enum_variants(&mut out, &e);
    assert!(matches!(r, Err(FormatError::UnsupportedNumericWidth)));
    assert_eq!(out, "");
}

#[test]
fn begin_file_writes_header_unless_suppressed() {
    let with_header = ReasonML { type_mappings: Vec::new(), no_version_header: false };
    let mut out = String::new();
    with_header.begin_file(&mut out);
    assert_eq!(out, "/*\n * Generated by typeshare\n */\n\n");
    let mut silent = String::new();
    lang().begin_file(&mut silent);
    assert_eq!(silent, "");
}

#[test]
fn imports_open_each_module() {
    let imports = vec![
        ("Colors".to_string(), vec!["color".to_string()]),
        ("Shared".to_string(), Vec::new()),
    ];
    let mut out = String::new();
    lang().write_imports(&mut out, &imports);
    assert_eq!(out, "open Colors;\n\nopen Shared;\n\n");
}

#[test]
fn ignored_reference_types_are_the_mapping_keys() {
    let l = ReasonML {
        type_mappings: vec![
            ("Uuid".to_string(), "string".to_string()),
            ("DateTime".to_string(), "Js.Date.t".to_string()),
        ],
        no_version_header: true,
    };
    assert_eq!(l.ignored_reference_types(), vec!["Uuid".to_string(), "DateTime".to_string()]);
    assert_eq!(l.type_map().len(), 2);
}

#[test]
fn module_concatenates_declarations_in_order() {
    let l = ReasonML { type_mappings: Vec::new(), no_version_header: false };
    let decls = vec![
        Decl::Alias(TypeAliasDecl {
            id: id("ItemName"),
            generic_types: Vec::new(),
            ty: TypeNode::Special(SpecialType::Text),
            comments: Vec::new(),
        }),
        Decl::Const(ConstDecl {
            id: id("limit"),
            ty: TypeNode::Special(SpecialType::U53),
            expr: ConstExpr::Int(3),
        }),
        Decl::Struct(StructDecl {
            id: id("Empty"),
            generic_types: Vec::new(),
            fields: Vec::new(),
            comments: Vec::new(),
        }),
    ];
    let imports = vec![("Shared".to_string(), Vec::new())];
    let mut out = String::new();
    l.write_module(&mut out, &imports, &decls).unwrap();
    assert_eq!(
        out,
        "/*\n * Generated by typeshare\n */\n\nopen Shared;\n\ntype itemName = string;\n\nlet LIMIT = (3: float);\ntype empty;\n"
    );
}

#[test]
fn failing_module_writes_nothing() {
    let decls = vec![
        Decl::Alias(TypeAliasDecl {
            id: id("Fine"),
            generic_types: Vec::new(),
            ty: TypeNode::Special(SpecialType::Text),
            comments: Vec::new(),
        }),
        Decl::Const(ConstDecl {
            id: id("bad"),
            ty: TypeNode::Special(SpecialType::USize),
            expr: ConstExpr::Int(3),
        }),
    ];
    let mut out = String::from("kept");
    let r = lang().write_module(&mut out, &Vec::new(), &decls);
    assert!(matches!(r, Err(FormatError::UnsupportedNumericWidth)));
    assert_eq!(out, "kept");
}

#[test]
fn default_configuration() {
    let l = ReasonML::default();
    assert!(l.type_mappings.is_empty());
    assert!(!l.no_version_header);
}
