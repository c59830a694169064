use gcloud_observability::macros::{
    derive_observability_attributes, get_option_inner_type,
    is_i64_type, is_option_type, is_string_type, is_supported_type, ArgumentsDesc, AttrDesc,
    DataDesc, DerivePlan, FieldDesc, FieldValue, FieldValueKind, GenericArgDesc, MacroArgs,
    MetaDesc, MetaValue, SegmentDesc, StructDesc, TypeDesc, TypePathDesc,
};
use gcloud_observability::span::AttributeValue;

fn path_type(name: &str) -> TypeDesc {
    TypeDesc::Path(TypePathDesc {
        leading_colon: false,
        segments: vec![SegmentDesc { ident: name.to_string(), arguments: ArgumentsDesc::Bare }],
    })
}

fn option_of(inner: TypeDesc) -> TypeDesc {
    TypeDesc::Path(TypePathDesc {
        leading_colon: false,
        segments: vec![SegmentDesc {
            ident: "Option".to_string(),
            arguments: ArgumentsDesc::AngleBracketed(vec![GenericArgDesc::Type(inner)]),
        }],
    })
}

fn str_meta(name: &str, value: &str) -> MetaDesc {
    MetaDesc::NameValue { path: Some(name.to_string()), value: MetaValue::Str(value.to_string()) }
}

fn obs(args: Vec<MetaDesc>) -> AttrDesc {
    AttrDesc { observability: true, args: Some(args) }
}

fn field(name: &str, ty: TypeDesc, attrs: Vec<AttrDesc>) -> FieldDesc {
    FieldDesc { name: name.to_string(), ty, attrs }
}

fn keyed(name: &str, ty: TypeDesc, key: &str) -> FieldDesc {
    field(name, ty, vec![obs(vec![str_meta("key", key)])])
}

fn plan(input: StructDesc) -> DerivePlan {
    match derive_observability_attributes(&input) {
        Ok(p) => p,
        Err(m) => panic!("derive failed: {}", m),
    }
}

fn pairs(v: Vec<(&str, AttributeValue)>) -> Vec<(String, AttributeValue)> {
    v.into_iter().map(|(k, x)| (k.to_string(), x)).collect()
}

fn s(v: &str) -> AttributeValue {
    AttributeValue::Str(v.to_string())
}

#[test]
fn test_create_span_name() {
    let p = plan(StructDesc {
        name: "TestInfo".to_string(),
        attrs: vec![obs(vec![str_meta("name", "test_span")])],
        data: DataDesc::NamedStruct(vec![
            keyed("s", path_type("String"), "my.string"),
            keyed("i", path_type("i64"), "my.int"),
        ]),
    });
    assert_eq!(p.span_name, "test_span");
    let attrs = p.span_attributes(&vec![FieldValue::Str("hello".to_string()), FieldValue::Int(123)]);
    assert_eq!(attrs, Some(pairs(vec![("my.string", s("hello")), ("my.int", AttributeValue::Int(123))])));
}

#[test]
fn test_create_span_default_name() {
    let p = plan(StructDesc {
        name: "DefaultNameInfo".to_string(),
        attrs: vec![],
        data: DataDesc::NamedStruct(vec![keyed("f", path_type("String"), "my.field")]),
    });
    assert_eq!(p.span_name, "DefaultNameInfo");
    let attrs = p.span_attributes(&vec![FieldValue::Str("world".to_string())]);
    assert_eq!(attrs, Some(pairs(vec![("my.field", s("world"))])));
}

#[test]
fn test_basic_struct_attributes() {
    let p = plan(StructDesc {
        name: "BasicSpanInfo".to_string(),
        attrs: vec![],
        data: DataDesc::NamedStruct(vec![
            keyed("test_string", path_type("String"), "test.string"),
            keyed("test_i64", path_type("i64"), "test.i64"),
        ]),
    });
    assert_eq!(p.span_name, "BasicSpanInfo");
    assert_eq!(p.key_consts.len(), 2);
    assert_eq!(p.key_consts[0].ident, "KEY_TEST_STRING");
    assert_eq!(p.key_consts[0].key, "test.string");
    assert_eq!(p.key_consts[1].ident, "KEY_TEST_I64");
    let attrs = p.span_attributes(&vec![FieldValue::Str("basic".to_string()), FieldValue::Int(42)]);
    assert_eq!(attrs, Some(pairs(vec![("test.string", s("basic")), ("test.i64", AttributeValue::Int(42))])));
}

#[test]
fn test_initial_options_attributes() {
    let p = plan(StructDesc {
        name: "InitialOptionsSpanInfo".to_string(),
        attrs: vec![],
        data: DataDesc::NamedStruct(vec![
            keyed("opt_string_some", option_of(path_type("String")), "opt.string.some"),
            keyed("opt_string_none", option_of(path_type("String")), "opt.string.none"),
            keyed("opt_i64_some", option_of(path_type("i64")), "opt.i64.some"),
            keyed("opt_i64_none", option_of(path_type("i64")), "opt.i64.none"),
        ]),
    });
    assert_eq!(p.span_name, "InitialOptionsSpanInfo");
    assert_eq!(p.span_fields.len(), 4);
    assert_eq!(p.span_fields[0].kind, FieldValueKind::OptionString);
    assert_eq!(p.span_fields[2].kind, FieldValueKind::OptionI64);
    let attrs = p.span_attributes(&vec![
        FieldValue::OptStr(Some("hello".to_string())),
        FieldValue::OptStr(None),
        FieldValue::OptInt(Some(100)),
        FieldValue::OptInt(None),
    ]);
    assert_eq!(attrs, Some(pairs(vec![("opt.string.some", s("hello")), ("opt.i64.some", AttributeValue::Int(100))])));
}

#[test]
fn test_response_options_struct_attributes() {
    let p = plan(StructDesc {
        name: "ResponseOptionsSpanInfo".to_string(),
        attrs: vec![],
        data: DataDesc::NamedStruct(vec![
            keyed("test_string_req", path_type("String"), "test.string.req"),
            field(
                "test_string_opt",
                option_of(path_type("String")),
                vec![obs(vec![str_meta("key", "test.string.opt"), str_meta("phase", "response")])],
            ),
            field(
                "test_i64_opt",
                option_of(path_type("i64")),
                vec![obs(vec![str_meta("key", "test.i64.opt"), str_meta("phase", "response")])],
            ),
        ]),
    });
    assert_eq!(p.span_name, "ResponseOptionsSpanInfo");
    // Response phase fields are not part of the span at creation.
    assert_eq!(p.span_fields.len(), 1);
    assert_eq!(p.span_fields[0].field, "test_string_req");
    // Every keyed field still declares its key constant.
    assert_eq!(p.key_consts.len(), 3);
    let attrs = p.span_attributes(&vec![FieldValue::Str("required".to_string())]);
    assert_eq!(attrs, Some(pairs(vec![("test.string.req", s("required"))])));
}

#[test]
fn span_attributes_reject_mismatched_values() {
    let p = plan(StructDesc {
        name: "S".to_string(),
        attrs: vec![],
        data: DataDesc::NamedStruct(vec![keyed("a", path_type("i64"), "a.key")]),
    });
    assert_eq!(p.span_attributes(&vec![FieldValue::Str("x".to_string())]), None);
    assert_eq!(p.span_attributes(&vec![]), None);
}

#[test]
fn missing_key_is_rejected() {
    let r = derive_observability_attributes(&StructDesc {
        name: "MissingKey".to_string(),
        attrs: vec![],
        data: DataDesc::NamedStruct(vec![field("f", path_type("String"), vec![obs(vec![str_meta("phase", "response")])])]),
    });
    match r {
        Err(m) => assert_eq!(m, "Missing 'key' argument in #[observability] attribute on field: f"),
        Ok(_) => panic!("expected an error"),
    }
}

#[test]
fn unsupported_type_is_rejected() {
    let r = derive_observability_attributes(&StructDesc {
        name: "Unsupported".to_string(),
        attrs: vec![],
        data: DataDesc::NamedStruct(vec![keyed("f", path_type("u32"), "f.key")]),
    });
    match r {
        Err(m) => assert_eq!(
            m,
            "Unsupported field type for observability key on field: f. Only String, i64, Option<String>, and Option<i64> are supported."
        ),
        Ok(_) => panic!("expected an error"),
    }
}

#[test]
fn non_literal_key_and_non_structs_are_rejected() {
    let r = derive_observability_attributes(&StructDesc {
        name: "S".to_string(),
        attrs: vec![],
        data: DataDesc::NamedStruct(vec![field(
            "f",
            path_type("String"),
            vec![obs(vec![MetaDesc::NameValue { path: Some("key".to_string()), value: MetaValue::NotLit }])],
        )]),
    });
    assert!(matches!(r, Err(ref m) if m == "Observability key must be a string literal on field: f"));
    let r = derive_observability_attributes(&StructDesc { name: "T".to_string(), attrs: vec![], data: DataDesc::OtherStruct });
    assert!(matches!(r, Err(ref m) if m == "Only structs with named fields are supported"));
    let r = derive_observability_attributes(&StructDesc { name: "E".to_string(), attrs: vec![], data: DataDesc::NotStruct });
    assert!(matches!(r, Err(ref m) if m == "Only structs are supported"));
}

#[test]
fn type_classification() {
    let string = path_type("String");
    let int = path_type("i64");
    let opt = option_of(path_type("String"));
    let other = path_type("u8");
    assert!(is_string_type(&string) && !is_string_type(&int));
    assert!(is_i64_type(&int) && !is_i64_type(&TypeDesc::Other));
    assert!(is_option_type(&opt) && !is_option_type(&string));
    assert!(get_option_inner_type(&opt).is_some());
    assert!(get_option_inner_type(&string).is_none());
    assert!(is_supported_type(&opt) && is_supported_type(&int) && !is_supported_type(&other));
    assert!(!is_supported_type(&option_of(path_type("u8"))));
}

#[test]
fn macro_args_parse() {
    let args = MacroArgs::parse(&vec![str_meta("struct_name", "MyStruct")]);
    match args {
        Ok(a) => {
            assert_eq!(a.struct_name, "MyStruct");
            assert_eq!(a.key_prefix, "KEY");
        }
        Err(m) => panic!("unexpected error {}", m),
    }
    let args = MacroArgs::parse(&vec![str_meta("struct_name", "AnotherStruct"), str_meta("key_prefix", "ATTR")]);
    assert!(matches!(args, Ok(ref a) if a.struct_name == "AnotherStruct" && a.key_prefix == "ATTR"));
}

#[test]
fn macro_args_errors() {
    assert!(matches!(MacroArgs::parse(&vec![]), Err(ref m) if m == "Missing required argument: struct_name"));
    assert!(matches!(
        MacroArgs::parse(&vec![str_meta("struct_name", "A"), str_meta("struct_name", "B")]),
        Err(ref m) if m == "Duplicate struct_name argument"
    ));
    assert!(matches!(MacroArgs::parse(&vec![str_meta("other", "A")]), Err(ref m) if m == "Unknown argument"));
    assert!(matches!(MacroArgs::parse(&vec![MetaDesc::Other]), Err(ref m) if m == "Expected name-value argument, e.g., struct_name = \"MyStruct\""));
    assert!(matches!(
        MacroArgs::parse(&vec![MetaDesc::NameValue { path: Some("struct_name".to_string()), value: MetaValue::OtherLit }]),
        Err(ref m) if m == "Expected string literal for struct_name"
    ));
    assert!(matches!(MacroArgs::parse(&vec![str_meta("struct_name", "not an ident")]), Err(_)));
}

#[test]
fn suffixed_struct_name_is_rejected() {
    let suffixed = MetaDesc::NameValue {
        path: Some("struct_name".to_string()),
        value: MetaValue::SuffixedStr("S".to_string(), "xyz".to_string()),
    };
    assert!(matches!(MacroArgs::parse(&vec![suffixed]), Err(ref m) if m == "unexpected suffix `xyz` on string literal"));
    let prefix = MetaDesc::NameValue {
        path: Some("key_prefix".to_string()),
        value: MetaValue::SuffixedStr("ATTR".to_string(), "x".to_string()),
    };
    assert!(matches!(MacroArgs::parse(&vec![str_meta("struct_name", "S"), prefix]), Ok(ref a) if a.key_prefix == "ATTR"));
}
