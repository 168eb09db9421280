use typeshare_reasonml::ir::{FormatError, SpecialType, TypeNode};
use typeshare_reasonml::naming::{
    reasonml_property_aware_rename, to_camel_case, to_screaming_snake_case,
};
use typeshare_reasonml::reasonml::ReasonML;

fn lang() -> ReasonML {
    ReasonML { type_mappings: Vec::new(), no_version_header: true }
}

fn simple(name: &str) -> TypeNode {
    TypeNode::Simple { name: name.to_string(), args: Vec::new() }
}

fn fmt_special(sp: SpecialType) -> Result<String, FormatError> {
    lang().format_special_type(&sp, &Vec::new())
}

#[test]
fn special_leaf_tokens() {
    assert_eq!(fmt_special(SpecialType::Unit).unwrap(), "unit");
    assert_eq!(fmt_special(SpecialType::DateTime).unwrap(), "Js.Date.t");
    assert_eq!(fmt_special(SpecialType::Text).unwrap(), "string");
    assert_eq!(fmt_special(SpecialType::SingleChar).unwrap(), "string");
    assert_eq!(fmt_special(SpecialType::Bool).unwrap(), "bool");
}

#[test]
fn narrow_numeric_kinds_are_float() {
    assert_eq!(fmt_special(SpecialType::I8).unwrap(), "float");
    assert_eq!(fmt_special(SpecialType::U8).unwrap(), "float");
    assert_eq!(fmt_special(SpecialType::I16).unwrap(), "float");
    assert_eq!(fmt_special(SpecialType::U16).unwrap(), "float");
    assert_eq!(fmt_special(SpecialType::I32).unwrap(), "float");
    assert_eq!(fmt_special(SpecialType::U32).unwrap(), "float");
    assert_eq!(fmt_special(SpecialType::I54).unwrap(), "float");
    assert_eq!(fmt_special(SpecialType::U53).unwrap(), "float");
    assert_eq!(fmt_special(SpecialType::F32).unwrap(), "float");
    assert_eq!(fmt_special(SpecialType::F64).unwrap(), "float");
}

#[test]
fn composition_is_structural() {
    let list_of_optional_of_string = SpecialType::List(Box::new(TypeNode::Special(
        SpecialType::Optional(Box::new(TypeNode::Special(SpecialType::Text))),
    )));
    assert_eq!(fmt_special(list_of_optional_of_string).unwrap(), "array(option(string))");
}

#[test]
fn array_and_slice_render_like_list() {
    let arr = SpecialType::FixedArray(Box::new(TypeNode::Special(SpecialType::I32)), 4);
    assert_eq!(fmt_special(arr).unwrap(), "array(float)");
    let sl = SpecialType::SliceView(Box::new(TypeNode::Special(SpecialType::Bool)));
    assert_eq!(fmt_special(sl).unwrap(), "array(bool)");
}

#[test]
fn double_optional_nests() {
    let sp = SpecialType::Optional(Box::new(TypeNode::Special(SpecialType::Optional(Box::new(
        TypeNode::Special(SpecialType::Text),
    )))));
    assert_eq!(fmt_special(sp).unwrap(), "option(option(string))");
}

#[test]
fn wide64_kinds_always_fail() {
    assert!(matches!(
        fmt_special(SpecialType::U64),
        Err(FormatError::UnsupportedNumericWidth)
    ));
    assert!(matches!(
        fmt_special(SpecialType::I64),
        Err(FormatError::UnsupportedNumericWidth)
    ));
    assert!(matches!(
        fmt_special(SpecialType::ISize),
        Err(FormatError::UnsupportedNumericWidth)
    ));
    assert!(matches!(
        fmt_special(SpecialType::USize),
        Err(FormatError::UnsupportedNumericWidth)
    ));
}

#[test]
fn wide64_nested_in_list_fails() {
    let sp = SpecialType::List(Box::new(TypeNode::Special(SpecialType::U64)));
    assert!(matches!(fmt_special(sp), Err(FormatError::UnsupportedNumericWidth)));
}

#[test]
fn generic_map_key_forbidden() {
    let l = lang();
    let generics = vec!["K".to_string()];
    let sp = SpecialType::AssocMap(
        Box::new(simple("K")),
        Box::new(TypeNode::Special(SpecialType::Text)),
    );
    assert!(matches!(
        l.format_special_type(&sp, &generics),
        Err(FormatError::GenericKeyForbidden)
    ));
}

#[test]
fn generic_map_key_reported_before_wide_value() {
    let l = lang();
    let generics = vec!["K".to_string()];
    let sp = SpecialType::AssocMap(
        Box::new(simple("K")),
        Box::new(TypeNode::Special(SpecialType::U64)),
    );
    assert!(matches!(
        l.format_special_type(&sp, &generics),
        Err(FormatError::GenericKeyForbidden)
    ));
}

#[test]
fn concrete_map_key_keeps_value_type_only() {
    let l = lang();
    let sp = SpecialType::AssocMap(
        Box::new(TypeNode::Special(SpecialType::Text)),
        Box::new(TypeNode::Special(SpecialType::I32)),
    );
    assert_eq!(l.format_special_type(&sp, &Vec::new()).unwrap(), "Js.Dict.t(float)");
}

#[test]
fn map_key_name_outside_generics_is_allowed() {
    let l = lang();
    let generics = vec!["T".to_string()];
    let sp = SpecialType::AssocMap(
        Box::new(simple("K")),
        Box::new(TypeNode::Special(SpecialType::Bool)),
    );
    assert_eq!(l.format_special_type(&sp, &generics).unwrap(), "Js.Dict.t(bool)");
}

#[test]
fn simple_type_is_camel_cased() {
    let l = lang();
    let r = l.format_simple_type(&"MyType".to_string(), &Vec::new()).unwrap();
    assert_eq!(r, "myType");
}

#[test]
fn simple_type_mapping_takes_precedence() {
    let l = ReasonML {
        type_mappings: vec![("Uuid".to_string(), "string".to_string())],
        no_version_header: true,
    };
    let r = l.format_simple_type(&"Uuid".to_string(), &Vec::new()).unwrap();
    assert_eq!(r, "string");
    let nested = SpecialType::List(Box::new(simple("Uuid")));
    assert_eq!(l.format_special_type(&nested, &Vec::new()).unwrap(), "array(string)");
}

#[test]
fn format_type_dispatches_both_shapes() {
    let l = lang();
    assert_eq!(l.format_type(&simple("SomeType"), &Vec::new()).unwrap(), "someType");
    assert_eq!(
        l.format_type(&TypeNode::Special(SpecialType::Bool), &Vec::new()).unwrap(),
        "bool"
    );
}

#[test]
fn camel_case_conversions() {
    assert_eq!(to_camel_case("MyType"), "myType");
    assert_eq!(to_camel_case("my_type"), "myType");
    assert_eq!(to_camel_case("my-long-name"), "myLongName");
    assert_eq!(to_camel_case(""), "");
}

#[test]
fn screaming_snake_conversions() {
    assert_eq!(to_screaming_snake_case("myConst"), "MY_CONST");
    assert_eq!(to_screaming_snake_case("max-value"), "MAX_VALUE");
    assert_eq!(to_screaming_snake_case("ALREADY_UPPER"), "ALREADY_UPPER");
}

#[test]
fn hyphenated_field_name_is_quoted_exactly() {
    let r = reasonml_property_aware_rename("my-field");
    assert_eq!(r, "\"my-field\"");
    assert_eq!(&r[1..r.len() - 1], "my-field");
}

#[test]
fn keyword_field_name_is_quoted() {
    assert_eq!(reasonml_property_aware_rename("type"), "\"type\"");
    assert_eq!(reasonml_property_aware_rename("switch"), "\"switch\"");
}

#[test]
fn ordinary_field_name_is_unchanged() {
    assert_eq!(reasonml_property_aware_rename("plain"), "plain");
    assert_eq!(reasonml_property_aware_rename("alsoFine2"), "alsoFine2");
}

#[test]
fn error_descriptions() {
    assert_eq!(
        FormatError::UnsupportedNumericWidth.describe(),
        "64-bit-class numeric types cannot be represented"
    );
    assert_eq!(
        FormatError::GenericKeyForbidden.describe(),
        "map keys cannot be generic parameters"
    );
}
