use racros::auto_debug::render::{render_struct, render_variant};
use racros::auto_debug::resolve::{
    resolve_enum_config, resolve_member, resolve_struct_config, resolve_type,
};
use racros::auto_debug::{
    auto_debug_enum, auto_debug_internal, auto_debug_struct, check_debug_format,
    check_debug_style, effective_format_of, DebugFormat, DebugStyle, MemberConfig, TypeConfig,
};
use racros::declaration::{
    AnnotationClause, ClauseForm, FieldDeclaration, Generics, RawBody, RawDeclaration, Shape,
    TypeDeclaration, VariantDeclaration, VariantFields,
};
use racros::diagnostic::{
    GenerationError, GenerationResult, RecognizedKey, SourceSpan, ValueProblem,
};

fn no_generics() -> Generics {
    Generics {
        impl_generics: String::new(),
        type_generics: String::new(),
        where_clause: String::new(),
    }
}

fn flag(key: &str) -> AnnotationClause {
    AnnotationClause { key: key.to_string(), form: ClauseForm::Flag }
}

fn key_value(key: &str, value: &str) -> AnnotationClause {
    AnnotationClause { key: key.to_string(), form: ClauseForm::KeyValue(value.to_string()) }
}

fn field(name: &str, annotations: Vec<AnnotationClause>) -> FieldDeclaration {
    FieldDeclaration {
        name: Some(name.to_string()),
        type_reference: "MyType".to_string(),
        annotations,
    }
}

fn positional(type_reference: &str) -> FieldDeclaration {
    FieldDeclaration { name: None, type_reference: type_reference.to_string(), annotations: vec![] }
}

fn declaration(name: &str, annotations: Vec<AnnotationClause>) -> TypeDeclaration {
    TypeDeclaration {
        name: name.to_string(),
        generics: no_generics(),
        annotations,
        shape: Shape::Struct(vec![]),
    }
}

fn texts(list: &[&str]) -> Vec<String> {
    list.iter().map(|s| s.to_string()).collect()
}

fn code_of(result: GenerationResult) -> String {
    match result {
        GenerationResult::Implementation(code) => code,
        GenerationResult::Diagnostic(diagnostic) => panic!("{:?}", diagnostic),
    }
}

fn foo1_fields() -> Vec<FieldDeclaration> {
    vec![
        field("foo1", vec![key_value("name", "my_foo1")]),
        field("foo2", vec![flag("ignore")]),
        field("foo3", vec![flag("display")]),
        field("foo4", vec![key_value("value", "foo4, MyType")]),
    ]
}

fn foo2_declaration() -> TypeDeclaration {
    declaration("Foo2", vec![key_value("format", "display"), key_value("style", "tuple")])
}

fn foo2_fields() -> Vec<FieldDeclaration> {
    vec![field("foo1", vec![flag("debug")]), field("foo2", vec![])]
}

fn foo3_variants() -> Vec<VariantDeclaration> {
    vec![
        VariantDeclaration { name: "Foo1".to_string(), fields: VariantFields::Unit, annotations: vec![] },
        VariantDeclaration {
            name: "Foo2".to_string(),
            fields: VariantFields::Positional(vec![positional("(i32, u32)")]),
            annotations: vec![],
        },
        VariantDeclaration {
            name: "Foo3".to_string(),
            fields: VariantFields::Positional(vec![positional("Foo2")]),
            annotations: vec![],
        },
        VariantDeclaration {
            name: "Foo4".to_string(),
            fields: VariantFields::Named(vec![
                FieldDeclaration {
                    name: Some("a".to_string()),
                    type_reference: "i32".to_string(),
                    annotations: vec![],
                },
                FieldDeclaration {
                    name: Some("b".to_string()),
                    type_reference: "u32".to_string(),
                    annotations: vec![],
                },
            ]),
            annotations: vec![],
        },
    ]
}

#[derive(Clone, Copy)]
struct MyType;

impl std::fmt::Debug for MyType {
    fn fmt(&self, f: &mut std::fmt::Formatter<'_>) -> std::fmt::Result {
        f.write_str("debug MyType")
    }
}

impl std::fmt::Display for MyType {
    fn fmt(&self, f: &mut std::fmt::Formatter<'_>) -> std::fmt::Result {
        f.write_str("display MyType")
    }
}

// Stands for a formatting request (`&format_args!(..)`) of the synthesized code: the
// request is carried out at once and its text written as it is.
struct Shown(String);

impl std::fmt::Debug for Shown {
    fn fmt(&self, f: &mut std::fmt::Formatter<'_>) -> std::fmt::Result {
        f.write_str(&self.0)
    }
}

#[allow(dead_code)]
struct Foo1 {
    foo1: MyType,
    foo2: MyType,
    foo3: MyType,
    foo4: MyType,
}

// The formatter that is synthesized for `Foo1`, statement for statement, with `Shown` in
// place of each formatting request.
impl std::fmt::Debug for Foo1 {
    fn fmt(&self, f: &mut std::fmt::Formatter<'_>) -> std::fmt::Result {
        let mut ff = f.debug_struct("Foo1");
        ff.field("my_foo1", &Shown(format!("{:#?}", self.foo1)));
        ff.field("foo3", &Shown(format!("{}", self.foo3)));
        ff.field("foo4", &Shown(format!("{}", "\u{22}foo4, MyType\u{22}")));
        ff.finish()
    }
}

struct Foo2 {
    foo1: MyType,
    foo2: MyType,
}

// The formatter that is synthesized for `Foo2`.
impl std::fmt::Debug for Foo2 {
    fn fmt(&self, f: &mut std::fmt::Formatter<'_>) -> std::fmt::Result {
        let mut ff = f.debug_tuple("Foo2");
        ff.field(&Shown(format!("{:#?}", self.foo1)));
        ff.field(&Shown(format!("{}", self.foo2)));
        ff.finish()
    }
}

#[allow(dead_code)]
enum Foo3 {
    Foo1,
    Foo2((i32, u32)),
    Foo3(Foo2),
    Foo4 { a: i32, b: u32 },
}

// The formatter that is synthesized for `Foo3`.
impl std::fmt::Debug for Foo3 {
    fn fmt(&self, f: &mut std::fmt::Formatter<'_>) -> std::fmt::Result {
        match *self {
            Self::Foo1 => f.write_str("\u{22}Foo1\u{22}"),
            Self::Foo2(ref v0) => f.debug_tuple("Foo2").field(&Shown(format!("{:#?}", v0))).finish(),
            Self::Foo3(ref v0) => f.debug_tuple("Foo3").field(&Shown(format!("{:#?}", v0))).finish(),
            Self::Foo4 { a: ref v0, b: ref v1 } => f
                .debug_map()
                .key(&Shown(format!("{}", "a")))
                .value(&Shown(format!("{:#?}", v0)))
                .key(&Shown(format!("{}", "b")))
                .value(&Shown(format!("{:#?}", v1)))
                .finish(),
        }
    }
}

const FOO1_CODE: &str = "impl std::fmt::Debug for Foo1  {\n    \
    fn fmt(&self, f: &mut std::fmt::Formatter<'_>) -> std::fmt::Result {\n        \
    let mut ff = f.debug_struct(\"Foo1\");\n        \
    ff.field(\"my_foo1\", &format_args!(\"{:#?}\", self.foo1));\n        \
    ff.field(\"foo3\", &format_args!(\"{}\", self.foo3));\n        \
    ff.field(\"foo4\", &format_args!(\"{}\", \"\\u{22}foo4, MyType\\u{22}\"));\n        \
    ff.finish()\n    }\n}\n";

const FOO2_CODE: &str = "impl std::fmt::Debug for Foo2  {\n    \
    fn fmt(&self, f: &mut std::fmt::Formatter<'_>) -> std::fmt::Result {\n        \
    let mut ff = f.debug_tuple(\"Foo2\");\n        \
    ff.field(&format_args!(\"{:#?}\", self.foo1));\n        \
    ff.field(&format_args!(\"{}\", self.foo2));\n        \
    ff.finish()\n    }\n}\n";

const FOO3_CODE: &str = "impl std::fmt::Debug for Foo3  {\n    \
    fn fmt(&self, f: &mut std::fmt::Formatter<'_>) -> std::fmt::Result {\n        \
    match *self {\n            \
    Self::Foo1 => f.write_str(\"\\u{22}Foo1\\u{22}\"),\n            \
    Self::Foo2(ref v0) => f.debug_tuple(\"Foo2\").field(&format_args!(\"{:#?}\", v0)).finish(),\n            \
    Self::Foo3(ref v0) => f.debug_tuple(\"Foo3\").field(&format_args!(\"{:#?}\", v0)).finish(),\n            \
    Self::Foo4 { a: ref v0, b: ref v1 } => f.debug_map().key(&format_args!(\"{}\", \"a\")).value(&format_args!(\"{:#?}\", v0)).key(&format_args!(\"{}\", \"b\")).value(&format_args!(\"{:#?}\", v1)).finish(),\n        \
    }\n    }\n}\n";

#[test]
fn struct_style_output_block() {
    let values = texts(&["debug MyType", "debug MyType", "display MyType", "debug MyType"]);
    let shown = render_struct(&declaration("Foo1", vec![]), &foo1_fields(), &values).unwrap();
    assert_eq!(
        shown,
        "Foo1 {\n    my_foo1: debug MyType,\n    foo3: display MyType,\n    foo4: \"foo4, MyType\",\n}"
    );
    assert!(shown.contains("my_foo1: debug MyType"));
    assert!(!shown.contains("foo2"));
    assert!(!shown.contains(" foo1:"));
}

#[test]
fn tuple_style_output_block() {
    let values = texts(&["debug MyType", "display MyType"]);
    let shown = render_struct(&foo2_declaration(), &foo2_fields(), &values).unwrap();
    assert_eq!(shown, "Foo2(\n    debug MyType,\n    display MyType,\n)");
    assert!(!shown.contains("foo1"));
    assert!(!shown.contains("foo2"));
}

#[test]
fn synthesized_struct_formatters() {
    let code = code_of(auto_debug_struct(&declaration("Foo1", vec![]), &foo1_fields()));
    assert_eq!(code, FOO1_CODE);
    assert!(syn::parse_str::<syn::ItemImpl>(&code).is_ok());
    assert!(!code.contains("foo2"));
    let code = code_of(auto_debug_struct(&foo2_declaration(), &foo2_fields()));
    assert_eq!(code, FOO2_CODE);
    assert!(syn::parse_str::<syn::ItemImpl>(&code).is_ok());
}

#[test]
fn synthesized_enum_formatter() {
    let code = code_of(auto_debug_enum(&declaration("Foo3", vec![]), &foo3_variants()));
    assert_eq!(code, FOO3_CODE);
    assert!(syn::parse_str::<syn::ItemImpl>(&code).is_ok());
}

#[test]
fn rendering_agrees_with_the_synthesized_struct_formatters() {
    let value = MyType;
    let foo1 = Foo1 { foo1: value, foo2: value, foo3: value, foo4: value };
    let debug = format!("{:#?}", value);
    let display = format!("{}", value);
    let values = vec![debug.clone(), debug.clone(), display.clone(), debug.clone()];
    assert_eq!(
        render_struct(&declaration("Foo1", vec![]), &foo1_fields(), &values).unwrap(),
        format!("{:#?}", foo1)
    );
    let foo2 = Foo2 { foo1: value, foo2: value };
    let values = vec![debug, display];
    assert_eq!(
        render_struct(&foo2_declaration(), &foo2_fields(), &values).unwrap(),
        format!("{:#?}", foo2)
    );
}

#[test]
fn rendering_agrees_with_the_synthesized_enum_formatter() {
    let enum_declaration = declaration("Foo3", vec![]);
    let variants = foo3_variants();
    assert_eq!(
        render_variant(&enum_declaration, &variants, 0, &vec![]).unwrap(),
        format!("{:#?}", Foo3::Foo1)
    );
    let pair = (-1, 2);
    assert_eq!(
        render_variant(&enum_declaration, &variants, 1, &vec![format!("{:#?}", pair)]).unwrap(),
        format!("{:#?}", Foo3::Foo2(pair))
    );
    let inner = Foo2 { foo1: MyType, foo2: MyType };
    let inner_shown = format!("{:#?}", inner);
    assert_eq!(
        render_variant(&enum_declaration, &variants, 2, &vec![inner_shown]).unwrap(),
        format!("{:#?}", Foo3::Foo3(inner))
    );
    let values = vec![format!("{:#?}", -100), format!("{:#?}", 200)];
    assert_eq!(
        render_variant(&enum_declaration, &variants, 3, &values).unwrap(),
        format!("{:#?}", Foo3::Foo4 { a: -100, b: 200 })
    );
}

#[test]
fn nested_values_are_indented_to_their_depth() {
    let enum_declaration = declaration("Foo3", vec![]);
    let variants = foo3_variants();
    let inner = render_struct(
        &foo2_declaration(),
        &foo2_fields(),
        &texts(&["debug MyType", "display MyType"]),
    )
    .unwrap();
    let shown = render_variant(&enum_declaration, &variants, 2, &vec![inner]).unwrap();
    assert_eq!(
        shown,
        "Foo3(\n    Foo2(\n        debug MyType,\n        display MyType,\n    ),\n)"
    );
    let values = texts(&["-100", "200"]);
    let shown = render_variant(&enum_declaration, &variants, 3, &values).unwrap();
    assert_eq!(shown, "{\n    a: -100,\n    b: 200,\n}");
    // One level deeper: every line of the inner block moves four more columns in.
    let outer = vec![VariantDeclaration {
        name: "Outer".to_string(),
        fields: VariantFields::Positional(vec![positional("Foo3")]),
        annotations: vec![],
    }];
    let deeper = render_variant(&declaration("Wrap", vec![]), &outer, 0, &vec![shown]).unwrap();
    assert_eq!(deeper, "Outer(\n    {\n        a: -100,\n        b: 200,\n    },\n)");
}

#[test]
fn unit_variants_are_quoted_and_ignored_variants_silent() {
    let enum_declaration = declaration("E", vec![]);
    let variants = vec![
        VariantDeclaration { name: "A".to_string(), fields: VariantFields::Unit, annotations: vec![] },
        VariantDeclaration {
            name: "B".to_string(),
            fields: VariantFields::Positional(vec![positional("u8")]),
            annotations: vec![flag("ignore")],
        },
        VariantDeclaration {
            name: "C".to_string(),
            fields: VariantFields::Positional(vec![]),
            annotations: vec![],
        },
        VariantDeclaration {
            name: "D".to_string(),
            fields: VariantFields::Named(vec![]),
            annotations: vec![],
        },
    ];
    assert_eq!(render_variant(&enum_declaration, &variants, 0, &vec![]).unwrap(), "\"A\"");
    assert_eq!(render_variant(&enum_declaration, &variants, 1, &texts(&["7"])).unwrap(), "");
    assert_eq!(render_variant(&enum_declaration, &variants, 2, &vec![]).unwrap(), "C");
    assert_eq!(render_variant(&enum_declaration, &variants, 3, &vec![]).unwrap(), "{}");
    let code = code_of(auto_debug_enum(&enum_declaration, &variants));
    assert!(syn::parse_str::<syn::ItemImpl>(&code).is_ok());
    assert!(code.contains("Self::B(..) => Ok(()),"));
    assert!(code.contains("Self::C() => f.debug_tuple(\"C\").finish(),"));
    assert!(code.contains("Self::D {  } => f.debug_map().finish(),"));
}

#[test]
fn variant_format_overrides_the_default() {
    let enum_declaration = declaration("E", vec![key_value("format", "display")]);
    let variants = vec![
        VariantDeclaration {
            name: "A".to_string(),
            fields: VariantFields::Positional(vec![positional("u8"), positional("u8")]),
            annotations: vec![],
        },
        VariantDeclaration {
            name: "B".to_string(),
            fields: VariantFields::Positional(vec![positional("u8")]),
            annotations: vec![flag("debug")],
        },
    ];
    let config = resolve_enum_config(&enum_declaration, &variants).unwrap();
    assert_eq!(config.default_format, DebugFormat::Display);
    assert_eq!(effective_format_of(&config.members[0], config.default_format), DebugFormat::Display);
    assert_eq!(effective_format_of(&config.members[1], config.default_format), DebugFormat::Debug);
    let code = code_of(auto_debug_enum(&enum_declaration, &variants));
    assert!(code.contains(
        "Self::A(ref v0, ref v1) => f.debug_tuple(\"A\").field(&format_args!(\"{}\", v0)).field(&format_args!(\"{}\", v1)).finish(),"
    ));
    assert!(code.contains(
        "Self::B(ref v0) => f.debug_tuple(\"B\").field(&format_args!(\"{:#?}\", v0)).finish(),"
    ));
    assert_eq!(
        render_variant(&enum_declaration, &variants, 0, &texts(&["1", "2"])).unwrap(),
        "A(\n    1,\n    2,\n)"
    );
}

#[test]
fn styles_and_formats_are_parsed() {
    assert_eq!(check_debug_style("struct"), Some(DebugStyle::Struct));
    assert_eq!(check_debug_style("tuple"), Some(DebugStyle::Tuple));
    assert_eq!(check_debug_style("Tuple"), None);
    assert_eq!(check_debug_style(""), None);
    assert_eq!(check_debug_format("debug"), Some(DebugFormat::Debug));
    assert_eq!(check_debug_format("display"), Some(DebugFormat::Display));
    assert_eq!(check_debug_format("struct"), None);
}

#[test]
fn type_clauses_resolve_in_order() {
    assert_eq!(
        resolve_type(&vec![], true),
        Ok(TypeConfig { style: DebugStyle::Struct, default_format: DebugFormat::Debug })
    );
    let clauses = vec![
        key_value("style", "tuple"),
        key_value("doc", "skipped"),
        key_value("format", "display"),
        key_value("style", "struct"),
    ];
    assert_eq!(
        resolve_type(&clauses, true),
        Ok(TypeConfig { style: DebugStyle::Struct, default_format: DebugFormat::Display })
    );
    // For an enum `style` is no key at all, so not even its value is looked at.
    let clauses = vec![key_value("style", "round"), key_value("format", "display")];
    assert_eq!(
        resolve_type(&clauses, false),
        Ok(TypeConfig { style: DebugStyle::Struct, default_format: DebugFormat::Display })
    );
    assert_eq!(
        resolve_type(&clauses, true),
        Err(GenerationError::InvalidAnnotationValue {
            key: RecognizedKey::Style,
            member: None,
            clause: 0,
            reason: ValueProblem::NotInLegalSet,
        })
    );
}

#[test]
fn member_clauses_resolve_in_order() {
    let clauses = vec![
        key_value("name", "first"),
        flag("display"),
        key_value("value", "shown"),
        flag("unknown"),
        key_value("name", "second"),
        flag("debug"),
    ];
    assert_eq!(
        resolve_member(&clauses, 3, true),
        Ok(MemberConfig {
            override_name: Some("second".to_string()),
            override_value: Some("shown".to_string()),
            ignored: false,
            format: Some(DebugFormat::Debug),
        })
    );
    // On a variant `name` and `value` are no keys.
    assert_eq!(
        resolve_member(&clauses, 3, false),
        Ok(MemberConfig {
            override_name: None,
            override_value: None,
            ignored: false,
            format: Some(DebugFormat::Debug),
        })
    );
    let clauses = vec![flag("ignore"), flag("name")];
    assert_eq!(
        resolve_member(&clauses, 3, true),
        Err(GenerationError::InvalidAnnotationValue {
            key: RecognizedKey::Name,
            member: Some(3),
            clause: 1,
            reason: ValueProblem::WrongForm,
        })
    );
    assert_eq!(
        resolve_member(&vec![key_value("ignore", "yes")], 0, false),
        Err(GenerationError::InvalidAnnotationValue {
            key: RecognizedKey::Ignore,
            member: Some(0),
            clause: 0,
            reason: ValueProblem::WrongForm,
        })
    );
}

#[test]
fn first_failure_is_reported() {
    let fields = vec![
        field("a", vec![]),
        field("b", vec![flag("ignore"), key_value("display", "x")]),
        field("c", vec![flag("value")]),
    ];
    assert_eq!(
        resolve_struct_config(&declaration("S", vec![]), &fields),
        Err(GenerationError::InvalidAnnotationValue {
            key: RecognizedKey::Display,
            member: Some(1),
            clause: 1,
            reason: ValueProblem::WrongForm,
        })
    );
    // A failure of the type comes before any failure of a member.
    let with_style = declaration("S", vec![key_value("style", "map")]);
    let input = RawDeclaration {
        name: "S".to_string(),
        generics: no_generics(),
        annotations: with_style.annotations.clone(),
        body: RawBody::Struct(fields.clone()),
    };
    match auto_debug_internal(input) {
        GenerationResult::Diagnostic(diagnostic) => {
            assert_eq!(diagnostic.span, SourceSpan::TypeClause { clause: 0 });
            assert_eq!(
                diagnostic.message,
                "invalid `style` annotation: the value is not one of the legal values"
            );
        }
        GenerationResult::Implementation(code) => panic!("{}", code),
    }
    let input = RawDeclaration {
        name: "S".to_string(),
        generics: no_generics(),
        annotations: vec![],
        body: RawBody::Struct(fields),
    };
    match auto_debug_internal(input) {
        GenerationResult::Diagnostic(diagnostic) => {
            assert_eq!(diagnostic.span, SourceSpan::MemberClause { member: 1, clause: 1 });
            assert_eq!(
                diagnostic.message,
                "invalid `display` annotation: the clause has the wrong form for this key"
            );
        }
        GenerationResult::Implementation(code) => panic!("{}", code),
    }
}

#[test]
fn unions_are_refused() {
    let input = RawDeclaration {
        name: "U".to_string(),
        generics: no_generics(),
        annotations: vec![key_value("style", "nonsense")],
        body: RawBody::Union,
    };
    match auto_debug_internal(input) {
        GenerationResult::Diagnostic(diagnostic) => {
            assert_eq!(diagnostic.span, SourceSpan::CallSite);
            assert_eq!(diagnostic.message, "#[derive(AutoDebug)] does not support unions");
        }
        GenerationResult::Implementation(code) => panic!("{}", code),
    }
}

#[test]
fn positional_fields_are_shown_by_position() {
    let fields = vec![positional("u8"), positional("u8")];
    let values = texts(&["1", "2"]);
    let struct_style = declaration("Pair", vec![]);
    assert_eq!(
        render_struct(&struct_style, &fields, &values).unwrap(),
        "Pair {\n    0: 1,\n    1: 2,\n}"
    );
    let tuple_style = declaration("Pair", vec![key_value("style", "tuple")]);
    assert_eq!(render_struct(&tuple_style, &fields, &values).unwrap(), "Pair(\n    1,\n    2,\n)");
    let code = code_of(auto_debug_struct(&tuple_style, &fields));
    assert!(syn::parse_str::<syn::ItemImpl>(&code).is_ok());
    assert!(code.contains("ff.field(&format_args!(\"{:#?}\", self.0));"));
    assert!(code.contains("ff.field(&format_args!(\"{:#?}\", self.1));"));
}

#[test]
fn struct_without_visible_fields_shows_its_name() {
    let fields = vec![field("a", vec![flag("ignore")])];
    assert_eq!(render_struct(&declaration("Empty", vec![]), &fields, &texts(&["1"])).unwrap(), "Empty");
    assert_eq!(render_struct(&declaration("Unit", vec![]), &vec![], &vec![]).unwrap(), "Unit");
}

#[test]
fn ignored_field_leaves_no_trace() {
    let values = texts(&["1", "2", "3", "4"]);
    let with_ignored = render_struct(&declaration("Foo1", vec![]), &foo1_fields(), &values).unwrap();
    let mut fields = foo1_fields();
    fields.remove(1);
    let without = render_struct(&declaration("Foo1", vec![]), &fields, &texts(&["1", "3", "4"])).unwrap();
    assert_eq!(with_ignored, without);
    let code = code_of(auto_debug_struct(&declaration("Foo1", vec![]), &foo1_fields()));
    assert_eq!(code, code_of(auto_debug_struct(&declaration("Foo1", vec![]), &fields)));
}

#[test]
fn override_value_wins_over_the_field() {
    let fields = vec![field("a", vec![key_value("value", "say \"hi\"\\")])];
    let first = render_struct(&declaration("S", vec![]), &fields, &texts(&["1"])).unwrap();
    let second = render_struct(&declaration("S", vec![]), &fields, &texts(&["2"])).unwrap();
    assert_eq!(first, second);
    assert_eq!(first, "S {\n    a: \"say \\u{22}hi\\u{22}\\u{5c}\",\n}");
}

#[test]
fn missing_value_is_shown_empty() {
    let fields = vec![field("a", vec![]), field("b", vec![])];
    assert_eq!(
        render_struct(&declaration("S", vec![]), &fields, &texts(&["1"])).unwrap(),
        "S {\n    a: 1,\n    b: ,\n}"
    );
}

#[test]
fn generics_are_passed_through() {
    let input = RawDeclaration {
        name: "Holder".to_string(),
        generics: Generics {
            impl_generics: "<'a, T: std::fmt::Debug>".to_string(),
            type_generics: "<'a, T>".to_string(),
            where_clause: "where T: 'a".to_string(),
        },
        annotations: vec![],
        body: RawBody::Struct(vec![field("inner", vec![])]),
    };
    let code = code_of(auto_debug_internal(input));
    assert!(code.starts_with(
        "impl<'a, T: std::fmt::Debug> std::fmt::Debug for Holder<'a, T> where T: 'a {\n"
    ));
    assert!(syn::parse_str::<syn::ItemImpl>(&code).is_ok());
}

#[test]
fn unnamed_field_in_named_variant_is_refused() {
    let input = RawDeclaration {
        name: "E".to_string(),
        generics: no_generics(),
        annotations: vec![],
        body: RawBody::Enum(vec![
            VariantDeclaration { name: "A".to_string(), fields: VariantFields::Unit, annotations: vec![] },
            VariantDeclaration {
                name: "B".to_string(),
                fields: VariantFields::Named(vec![positional("u8")]),
                annotations: vec![],
            },
        ]),
    };
    match auto_debug_internal(input) {
        GenerationResult::Diagnostic(diagnostic) => {
            assert_eq!(diagnostic.span, SourceSpan::Member { member: 1 });
            assert_eq!(
                diagnostic.message,
                "#[derive(AutoDebug)] needs a name for every field of a named-field variant"
            );
        }
        GenerationResult::Implementation(code) => panic!("{}", code),
    }
}

#[test]
fn empty_enum_has_an_exhaustive_match() {
    let input = RawDeclaration {
        name: "Never".to_string(),
        generics: no_generics(),
        annotations: vec![],
        body: RawBody::Enum(vec![]),
    };
    let code = code_of(auto_debug_internal(input));
    assert!(syn::parse_str::<syn::ItemImpl>(&code).is_ok());
    assert!(code.contains("match *self {\n        }\n"));
}
