use racros::auto_str::convert::ConversionError;
use racros::auto_str::resolve::resolve_conversions;
use racros::auto_str::{
    auto_str_internal, parse_rule, string_target_with_rule, ConversionConfig, Mapping, Rules,
};
use racros::declaration::{
    AnnotationClause, ClauseForm, FieldDeclaration, Generics, RawBody, RawDeclaration, Shape,
    TypeDeclaration, VariantDeclaration, VariantFields,
};
use racros::diagnostic::{
    Derivation, GenerationError, GenerationResult, RecognizedKey, ShapeProblem, SourceSpan,
    ValueProblem,
};

fn no_generics() -> Generics {
    Generics {
        impl_generics: String::new(),
        type_generics: String::new(),
        where_clause: String::new(),
    }
}

fn literals(list: &[&str]) -> AnnotationClause {
    AnnotationClause {
        key: "str".to_string(),
        form: ClauseForm::List(list.iter().map(|s| s.to_string()).collect()),
    }
}

fn autorule(rule: &str) -> AnnotationClause {
    AnnotationClause { key: "autorule".to_string(), form: ClauseForm::KeyValue(rule.to_string()) }
}

fn unit(name: &str, annotations: Vec<AnnotationClause>) -> VariantDeclaration {
    VariantDeclaration { name: name.to_string(), fields: VariantFields::Unit, annotations }
}

fn wrapping(name: &str, inner: &str, annotations: Vec<AnnotationClause>) -> VariantDeclaration {
    VariantDeclaration {
        name: name.to_string(),
        fields: VariantFields::Positional(vec![FieldDeclaration {
            name: None,
            type_reference: inner.to_string(),
            annotations: vec![],
        }]),
        annotations,
    }
}

fn declaration(name: &str, annotations: Vec<AnnotationClause>) -> TypeDeclaration {
    TypeDeclaration {
        name: name.to_string(),
        generics: no_generics(),
        annotations,
        shape: Shape::Enum(vec![]),
    }
}

fn config(
    name: &str,
    annotations: Vec<AnnotationClause>,
    variants: Vec<VariantDeclaration>,
) -> ConversionConfig {
    resolve_conversions(&declaration(name, annotations), &variants).unwrap()
}

fn my_enum() -> ConversionConfig {
    config(
        "MyEnum",
        vec![],
        vec![
            unit("E1", vec![literals(&["e1", "E1"])]),
            unit("E2", vec![literals(&["e2"])]),
            unit("E3", vec![literals(&["e3", "ee"])]),
        ],
    )
}

fn my_enum2() -> ConversionConfig {
    config(
        "MyEnum2",
        vec![],
        vec![unit("E21", vec![]), wrapping("E22", "MyEnum", vec![literals(&["e1", "e2"])])],
    )
}

fn my_enum3() -> ConversionConfig {
    config(
        "MyEnum3",
        vec![autorule("lowercase")],
        vec![
            unit("E31", vec![literals(&["E31"])]),
            unit("E32TesT", vec![]),
            wrapping("E33Test", "MyEnum2", vec![literals(&["e2"])]),
        ],
    )
}

fn my_enum4() -> ConversionConfig {
    config(
        "MyEnum4",
        vec![],
        vec![wrapping("E41", "MyEnum", vec![]), wrapping("E42", "MyEnum2", vec![])],
    )
}

fn converts(config: &ConversionConfig, input: &str, accepts: &[bool]) -> bool {
    config.from_string(input, &accepts.to_vec()).is_ok()
}

#[test]
fn explicit_literals_scenario() {
    let config = my_enum();
    assert_eq!(config.from_string("E1", &vec![]), Ok(0));
    assert_eq!(config.from_string("ee", &vec![]), Ok(2));
    assert_eq!(
        config.from_string("x", &vec![]),
        Err(ConversionError::InvalidValue { input: "x".to_string() })
    );
}

#[test]
fn every_literal_converts_and_the_first_is_canonical() {
    let config = my_enum();
    assert_eq!(config.from_string("e1", &vec![]), Ok(0));
    assert_eq!(config.from_string("E1", &vec![]), Ok(0));
    assert_eq!(config.from_string("e2", &vec![]), Ok(1));
    assert_eq!(config.from_string("e3", &vec![]), Ok(2));
    assert_eq!(config.from_string("ee", &vec![]), Ok(2));
    assert!(config.from_string("e4", &vec![]).is_err());
    assert_eq!(config.to_canonical_string(0, ""), Some("e1".to_string()));
    assert_eq!(config.to_canonical_string(1, ""), Some("e2".to_string()));
    assert_eq!(config.to_canonical_string(2, ""), Some("e3".to_string()));
    assert_eq!(config.to_canonical_string(3, ""), None);
}

#[test]
fn canonical_strings_convert_back() {
    for config in [my_enum(), my_enum3()] {
        for variant in 0..config.variants.len() {
            let wraps = matches!(
                config.variants[variant].mapping,
                Mapping::WrappedLiterals { .. } | Mapping::Fallback { .. }
            );
            if wraps {
                continue;
            }
            let text = config.to_canonical_string(variant, "").unwrap();
            assert_eq!(config.from_string(&text, &vec![]), Ok(variant));
        }
    }
}

#[test]
fn wrapping_variant_with_literals_delegates() {
    let inner = my_enum();
    let outer = my_enum2();
    assert_eq!(outer.from_string("E21", &vec![]), Ok(0));
    for input in ["e1", "e2"] {
        let accepts = vec![false, converts(&inner, input, &[])];
        assert_eq!(outer.from_string(input, &accepts), Ok(1));
    }
    // The wrapped value's own string is the string of the wrapping value.
    let wrapped = inner.to_canonical_string(0, "").unwrap();
    assert_eq!(outer.to_canonical_string(1, &wrapped), Some("e1".to_string()));
    assert_eq!(outer.to_canonical_string(0, ""), Some("E21".to_string()));
}

#[test]
fn wrapped_failure_is_passed_on() {
    let outer = my_enum2();
    // The literal matches, the wrapped type refuses: no other variant is tried.
    assert_eq!(
        outer.from_string("e1", &vec![false, false]),
        Err(ConversionError::WrappedFailure { variant: 1 })
    );
    // Without an answer the wrapped type counts as refusing.
    assert_eq!(
        outer.from_string("e2", &vec![]),
        Err(ConversionError::WrappedFailure { variant: 1 })
    );
}

#[test]
fn rule_names_follow_the_autorule() {
    let config = my_enum3();
    assert_eq!(config.rule, Some(Rules::Lowercase));
    assert_eq!(config.from_string("E31", &vec![]), Ok(0));
    assert_eq!(config.from_string("e32test", &vec![]), Ok(1));
    assert!(config.from_string("E32TesT", &vec![]).is_err());
    assert_eq!(config.from_string("e2", &vec![false, false, true]), Ok(2));
    assert_eq!(config.to_canonical_string(0, ""), Some("E31".to_string()));
    assert_eq!(config.to_canonical_string(1, ""), Some("e32test".to_string()));
    assert_eq!(config.to_canonical_string(2, "e3"), Some("e3".to_string()));
}

#[test]
fn single_fallback_candidate_is_chosen() {
    let first = my_enum();
    let second = my_enum2();
    let outer = my_enum4();
    let input = "E1";
    let second_accepts = vec![false, converts(&first, input, &[])];
    let accepts = vec![converts(&first, input, &[]), converts(&second, input, &second_accepts)];
    assert_eq!(accepts, vec![true, false]);
    assert_eq!(outer.from_string(input, &accepts), Ok(0));
}

#[test]
fn ambiguous_fallback_names_both_candidates() {
    let first = my_enum();
    let second = my_enum2();
    let outer = my_enum4();
    let input = "e1";
    let second_accepts = vec![false, converts(&first, input, &[])];
    let accepts = vec![converts(&first, input, &[]), converts(&second, input, &second_accepts)];
    assert_eq!(accepts, vec![true, true]);
    assert_eq!(
        outer.from_string(input, &accepts),
        Err(ConversionError::AmbiguousConversion {
            candidate_type_names: vec!["MyEnum".to_string(), "MyEnum2".to_string()],
        })
    );
}

#[test]
fn no_fallback_candidate_is_an_invalid_value() {
    let outer = my_enum4();
    assert_eq!(
        outer.from_string("e11", &vec![false, false]),
        Err(ConversionError::InvalidValue { input: "e11".to_string() })
    );
}

#[test]
fn explicit_literals_come_before_rule_names() {
    // `A` is both the name of the first variant and a literal of the second.
    let config = config("E", vec![], vec![unit("A", vec![]), unit("B", vec![literals(&["A"])])]);
    assert_eq!(config.from_string("A", &vec![]), Ok(1));
    // Among variants that list the same literal the first declared one wins.
    let config = self::config(
        "E",
        vec![],
        vec![unit("A", vec![literals(&["x"])]), unit("B", vec![literals(&["x", "y"])])],
    );
    assert_eq!(config.from_string("x", &vec![]), Ok(0));
    assert_eq!(config.from_string("y", &vec![]), Ok(1));
}

#[test]
fn rules_are_parsed() {
    assert_eq!(parse_rule("lowercase"), Some(Rules::Lowercase));
    assert_eq!(parse_rule("UPPERCASE"), Some(Rules::Uppercase));
    assert_eq!(parse_rule("camelCase"), Some(Rules::CamelCase));
    assert_eq!(parse_rule("PascalCase"), Some(Rules::PascalCase));
    assert_eq!(parse_rule("snake_case"), Some(Rules::SnakeCase));
    assert_eq!(parse_rule("SCREAMING_CASE"), None);
    assert_eq!(parse_rule("Lowercase"), None);
}

#[test]
fn rules_transform_names() {
    assert_eq!(string_target_with_rule(&None, "HttpClient"), "HttpClient");
    assert_eq!(string_target_with_rule(&Some(Rules::Lowercase), "HttpClient"), "httpclient");
    assert_eq!(string_target_with_rule(&Some(Rules::Uppercase), "HttpClient"), "HTTPCLIENT");
    assert_eq!(string_target_with_rule(&Some(Rules::CamelCase), "HttpClient"), "httpClient");
    assert_eq!(string_target_with_rule(&Some(Rules::PascalCase), "httpClient"), "HttpClient");
    assert_eq!(string_target_with_rule(&Some(Rules::SnakeCase), "HttpClient"), "http_client");
}

#[test]
fn later_autorule_overrides_earlier() {
    let config = config(
        "E",
        vec![autorule("lowercase"), autorule("UPPERCASE")],
        vec![unit("Ab", vec![])],
    );
    assert_eq!(config.rule, Some(Rules::Uppercase));
    assert_eq!(config.to_canonical_string(0, ""), Some("AB".to_string()));
}

#[test]
fn unknown_autorule_is_reported() {
    let input = RawDeclaration {
        name: "E".to_string(),
        generics: no_generics(),
        annotations: vec![literals(&["ignored"]), autorule("Title Case")],
        body: RawBody::Enum(vec![unit("A", vec![])]),
    };
    match auto_str_internal(input) {
        GenerationResult::Diagnostic(diagnostic) => {
            assert_eq!(diagnostic.span, SourceSpan::TypeClause { clause: 1 });
            assert_eq!(
                diagnostic.message,
                "invalid `autorule` annotation: the value is not one of the legal values"
            );
        }
        GenerationResult::Implementation(code) => panic!("{}", code),
    }
}

#[test]
fn malformed_str_is_reported() {
    let flag = AnnotationClause { key: "str".to_string(), form: ClauseForm::Flag };
    let variants = vec![unit("A", vec![literals(&["a"])]), unit("B", vec![flag])];
    assert_eq!(
        resolve_conversions(&declaration("E", vec![]), &variants),
        Err(GenerationError::InvalidAnnotationValue {
            key: RecognizedKey::Str,
            member: Some(1),
            clause: 0,
            reason: ValueProblem::WrongForm,
        })
    );
    let variants = vec![unit("A", vec![literals(&[])])];
    assert_eq!(
        resolve_conversions(&declaration("E", vec![]), &variants),
        Err(GenerationError::InvalidAnnotationValue {
            key: RecognizedKey::Str,
            member: Some(0),
            clause: 0,
            reason: ValueProblem::NoLiteral,
        })
    );
}

#[test]
fn unsupported_payload_is_reported() {
    let named = VariantDeclaration {
        name: "B".to_string(),
        fields: VariantFields::Named(vec![FieldDeclaration {
            name: Some("a".to_string()),
            type_reference: "i32".to_string(),
            annotations: vec![],
        }]),
        annotations: vec![],
    };
    let variants = vec![unit("A", vec![]), named];
    assert_eq!(
        resolve_conversions(&declaration("E", vec![]), &variants),
        Err(GenerationError::UnsupportedShape {
            derivation: Derivation::AutoStr,
            problem: ShapeProblem::VariantPayload,
            member: Some(1),
        })
    );
}

#[test]
fn structs_and_unions_are_refused() {
    let input = RawDeclaration {
        name: "S".to_string(),
        generics: no_generics(),
        annotations: vec![],
        body: RawBody::Struct(vec![]),
    };
    match auto_str_internal(input) {
        GenerationResult::Diagnostic(diagnostic) => {
            assert_eq!(diagnostic.span, SourceSpan::CallSite);
            assert_eq!(diagnostic.message, "#[derive(AutoStr)] only supports enums");
        }
        GenerationResult::Implementation(code) => panic!("{}", code),
    }
    let input = RawDeclaration {
        name: "U".to_string(),
        generics: no_generics(),
        annotations: vec![],
        body: RawBody::Union,
    };
    match auto_str_internal(input) {
        GenerationResult::Diagnostic(diagnostic) => {
            assert_eq!(diagnostic.span, SourceSpan::CallSite);
            assert_eq!(diagnostic.message, "#[derive(AutoStr)] does not support unions");
        }
        GenerationResult::Implementation(code) => panic!("{}", code),
    }
}

#[test]
fn synthesized_conversions_parse() {
    let input = RawDeclaration {
        name: "MyEnum3".to_string(),
        generics: no_generics(),
        annotations: vec![autorule("lowercase")],
        body: RawBody::Enum(vec![
            unit("E31", vec![literals(&["E31", "say \"E31\""])]),
            unit("E32TesT", vec![]),
            wrapping("E33Test", "MyEnum2", vec![literals(&["e2"])]),
            wrapping("E34", "Vec<u8>", vec![]),
        ]),
    };
    let code = match auto_str_internal(input) {
        GenerationResult::Implementation(code) => code,
        GenerationResult::Diagnostic(diagnostic) => panic!("{:?}", diagnostic),
    };
    let file = syn::parse_file(&code).unwrap();
    assert_eq!(file.items.len(), 2);
    assert!(code.contains("impl TryFrom<&str> for MyEnum3"));
    assert!(code.contains("impl ToString for MyEnum3"));
    assert!(code.contains("\"E31\" | \"say \\u{22}E31\\u{22}\" => Ok(Self::E31),"));
    assert!(code.contains("\"e32test\" => Ok(Self::E32TesT),"));
    assert!(code.contains("\"e2\" => match <MyEnum2>::try_from(value) {"));
    assert!(code.contains("if let Ok(v) = <Vec<u8>>::try_from(value) {"));
    assert!(code.contains("Self::E32TesT => \"e32test\".to_string(),"));
    assert!(code.contains("Self::E33Test(ref v) => v.to_string(),"));
}

#[test]
fn variant_without_any_literal_gets_no_arm() {
    // Resolution refuses an empty list; a configuration written by hand may hold one.
    let config = ConversionConfig {
        rule: None,
        variants: vec![
            racros::auto_str::VariantConversion {
                name: "A".to_string(),
                mapping: Mapping::Literals { literals: vec![] },
            },
            racros::auto_str::VariantConversion {
                name: "B".to_string(),
                mapping: Mapping::Literals { literals: vec!["b".to_string()] },
            },
        ],
    };
    assert!(config.from_string("A", &vec![]).is_err());
    assert!(config.from_string("", &vec![]).is_err());
    assert_eq!(config.from_string("b", &vec![]), Ok(1));
    assert_eq!(config.to_canonical_string(0, ""), Some("A".to_string()));
    let code = racros::auto_str::emit::generate_try_from(&declaration("E", vec![]), &config);
    assert!(syn::parse_str::<syn::ItemImpl>(&code).is_ok());
    assert!(!code.contains("Self::A"));
    assert!(code.contains("\"b\" => Ok(Self::B),"));
    let code = racros::auto_str::emit::generate_to_string(&declaration("E", vec![]), &config);
    assert!(code.contains("Self::A => \"A\".to_string(),"));
}
