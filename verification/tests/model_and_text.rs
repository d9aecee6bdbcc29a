use racros::annotation::{check_flag, read_list, read_single, recognize};
use racros::declaration::{
    normalize, AnnotationClause, ClauseForm, FieldDeclaration, Generics, RawBody, RawDeclaration,
    Shape, TypeDeclaration, VariantDeclaration, VariantFields,
};
use racros::diagnostic::{
    deliver, key_name_of, report, Derivation, Diagnostic, GenerationError, GenerationResult,
    RecognizedKey, ShapeProblem, SourceSpan, ValueProblem,
};
use racros::text::{
    decimal_text, impl_header_text, literal_text, push_indented, push_literal, same_text,
};
use racros::util::chars_of;

const KEYS: [RecognizedKey; 11] = [
    RecognizedKey::Style,
    RecognizedKey::Format,
    RecognizedKey::Name,
    RecognizedKey::Value,
    RecognizedKey::Ignore,
    RecognizedKey::Display,
    RecognizedKey::Debug,
    RecognizedKey::Autorule,
    RecognizedKey::Str,
    RecognizedKey::Copy,
    RecognizedKey::Bundle,
];

fn generics() -> Generics {
    Generics {
        impl_generics: "<T>".to_string(),
        type_generics: "<T>".to_string(),
        where_clause: String::new(),
    }
}

fn clause(key: &str, form: ClauseForm) -> AnnotationClause {
    AnnotationClause { key: key.to_string(), form }
}

fn named_variant(fields: Vec<FieldDeclaration>) -> VariantDeclaration {
    VariantDeclaration {
        name: "V".to_string(),
        fields: VariantFields::Named(fields),
        annotations: vec![],
    }
}

fn a_field(name: Option<&str>) -> FieldDeclaration {
    FieldDeclaration {
        name: name.map(|s| s.to_string()),
        type_reference: "u8".to_string(),
        annotations: vec![clause("copy", ClauseForm::Flag)],
    }
}

#[test]
fn every_key_is_recognized_by_its_spelling() {
    for key in KEYS {
        assert_eq!(recognize(key_name_of(key)), Some(key));
    }
    assert_eq!(recognize("debug_style"), None);
    assert_eq!(recognize("Style"), None);
    assert_eq!(recognize(""), None);
}

#[test]
fn clauses_carry_what_their_form_holds() {
    let flag = clause("ignore", ClauseForm::Flag);
    let single = clause("name", ClauseForm::KeyValue("x".to_string()));
    let list = clause("str", ClauseForm::List(vec!["a".to_string(), "b".to_string()]));
    let empty = clause("str", ClauseForm::List(vec![]));
    assert_eq!(check_flag(&flag), None);
    assert_eq!(check_flag(&single), Some(ValueProblem::WrongForm));
    assert_eq!(check_flag(&list), Some(ValueProblem::WrongForm));
    assert_eq!(read_single(&single), Ok(&"x".to_string()));
    assert_eq!(read_single(&flag), Err(ValueProblem::WrongForm));
    assert_eq!(read_single(&list), Err(ValueProblem::WrongForm));
    assert_eq!(read_list(&list), Ok(&vec!["a".to_string(), "b".to_string()]));
    assert_eq!(read_list(&empty), Err(ValueProblem::NoLiteral));
    assert_eq!(read_list(&flag), Err(ValueProblem::WrongForm));
    assert_eq!(read_list(&single), Err(ValueProblem::WrongForm));
}

#[test]
fn normalization_keeps_everything_in_order() {
    let annotations = vec![
        clause("style", ClauseForm::KeyValue("tuple".to_string())),
        clause("doc", ClauseForm::KeyValue("text".to_string())),
    ];
    let fields = vec![a_field(Some("b")), a_field(None), a_field(Some("a"))];
    let raw = RawDeclaration {
        name: "S".to_string(),
        generics: generics(),
        annotations: annotations.clone(),
        body: RawBody::Struct(fields.clone()),
    };
    assert_eq!(
        normalize(raw, Derivation::AutoDebug),
        Ok(TypeDeclaration {
            name: "S".to_string(),
            generics: generics(),
            annotations: annotations.clone(),
            shape: Shape::Struct(fields),
        })
    );
    let variants = vec![
        named_variant(vec![a_field(Some("x")), a_field(Some("y"))]),
        VariantDeclaration {
            name: "P".to_string(),
            fields: VariantFields::Positional(vec![a_field(None)]),
            annotations: vec![clause("str", ClauseForm::List(vec!["p".to_string()]))],
        },
        VariantDeclaration { name: "U".to_string(), fields: VariantFields::Unit, annotations: vec![] },
    ];
    let raw = RawDeclaration {
        name: "E".to_string(),
        generics: generics(),
        annotations: annotations.clone(),
        body: RawBody::Enum(variants.clone()),
    };
    assert_eq!(
        normalize(raw, Derivation::AutoStr),
        Ok(TypeDeclaration {
            name: "E".to_string(),
            generics: generics(),
            annotations,
            shape: Shape::Enum(variants),
        })
    );
}

#[test]
fn normalization_refuses_unsupported_shapes() {
    let raw = RawDeclaration {
        name: "U".to_string(),
        generics: generics(),
        annotations: vec![],
        body: RawBody::Union,
    };
    assert_eq!(
        normalize(raw, Derivation::CopyWith),
        Err(GenerationError::UnsupportedShape {
            derivation: Derivation::CopyWith,
            problem: ShapeProblem::Union,
            member: None,
        })
    );
    let variants = vec![
        named_variant(vec![a_field(Some("x"))]),
        named_variant(vec![a_field(Some("x")), a_field(None)]),
        named_variant(vec![a_field(None)]),
    ];
    let raw = RawDeclaration {
        name: "E".to_string(),
        generics: generics(),
        annotations: vec![],
        body: RawBody::Enum(variants),
    };
    assert_eq!(
        normalize(raw, Derivation::AutoDebug),
        Err(GenerationError::UnsupportedShape {
            derivation: Derivation::AutoDebug,
            problem: ShapeProblem::UnnamedField,
            member: Some(1),
        })
    );
}

#[test]
fn every_failure_has_its_report() {
    let shapes = [
        (ShapeProblem::Union, "does not support unions"),
        (ShapeProblem::NotAnEnum, "only supports enums"),
        (ShapeProblem::NotAStruct, "only supports structs"),
        (ShapeProblem::UnnamedField, "needs a name for every field of a named-field variant"),
        (ShapeProblem::VariantPayload, "needs variants that are units or wrap exactly one type"),
        (ShapeProblem::ReferenceField, "cannot copy a field of a borrowed type by value"),
    ];
    let derivations = [
        (Derivation::AutoDebug, "AutoDebug"),
        (Derivation::AutoStr, "AutoStr"),
        (Derivation::CopyWith, "CopyWith"),
        (Derivation::BundleText, "BundleText"),
    ];
    for (problem, sentence) in shapes {
        for (derivation, name) in derivations {
            let error = GenerationError::UnsupportedShape { derivation, problem, member: None };
            assert_eq!(
                report(error),
                Diagnostic {
                    span: SourceSpan::CallSite,
                    message: format!("#[derive({})] {}", name, sentence),
                }
            );
            let error = GenerationError::UnsupportedShape { derivation, problem, member: Some(2) };
            assert_eq!(report(error).span, SourceSpan::Member { member: 2 });
        }
    }
    let reasons = [
        (ValueProblem::WrongForm, "the clause has the wrong form for this key"),
        (ValueProblem::NotInLegalSet, "the value is not one of the legal values"),
        (ValueProblem::NoLiteral, "the list holds no literal"),
    ];
    for (reason, sentence) in reasons {
        for key in KEYS {
            let error =
                GenerationError::InvalidAnnotationValue { key, member: None, clause: 3, reason };
            assert_eq!(
                report(error),
                Diagnostic {
                    span: SourceSpan::TypeClause { clause: 3 },
                    message: format!("invalid `{}` annotation: {}", key_name_of(key), sentence),
                }
            );
            let error =
                GenerationError::InvalidAnnotationValue { key, member: Some(1), clause: 3, reason };
            assert_eq!(report(error).span, SourceSpan::MemberClause { member: 1, clause: 3 });
        }
    }
}

#[test]
fn outcomes_are_delivered() {
    assert_eq!(
        deliver(Ok("impl X {}".to_string())),
        GenerationResult::Implementation("impl X {}".to_string())
    );
    let error = GenerationError::UnsupportedShape {
        derivation: Derivation::AutoStr,
        problem: ShapeProblem::NotAnEnum,
        member: None,
    };
    assert_eq!(deliver(Err(error)), GenerationResult::Diagnostic(report(error)));
}

#[test]
fn texts_are_compared_by_their_characters() {
    assert!(same_text("", ""));
    assert!(same_text("style", "style"));
    assert!(!same_text("style", "Style"));
    assert!(!same_text("style", "styles"));
    assert_eq!(chars_of("a\u{e9}b"), vec!['a', '\u{e9}', 'b']);
    assert_eq!(chars_of(""), Vec::<char>::new());
}

#[test]
fn numbers_are_written_in_decimal() {
    assert_eq!(decimal_text(0), "0");
    assert_eq!(decimal_text(7), "7");
    assert_eq!(decimal_text(10), "10");
    assert_eq!(decimal_text(409), "409");
    assert_eq!(decimal_text(usize::MAX), usize::MAX.to_string());
}

#[test]
fn literals_escape_everything_that_is_not_plain() {
    assert_eq!(literal_text(""), "\"\"");
    assert_eq!(literal_text("foo4, MyType"), "\"foo4, MyType\"");
    assert_eq!(literal_text("{:#?}"), "\"{:#?}\"");
    assert_eq!(literal_text("a\"b"), "\"a\\u{22}b\"");
    assert_eq!(literal_text("a\\b"), "\"a\\u{5c}b\"");
    assert_eq!(literal_text("a\nb\tc\0"), "\"a\\u{a}b\\u{9}c\\u{0}\"");
    assert_eq!(literal_text("\u{7f}\u{e9}\u{10ffff}"), "\"\\u{7f}\\u{e9}\\u{10ffff}\"");
    assert_eq!(literal_text(" ~"), "\" ~\"");
    let mut out = "x = ".to_string();
    push_literal(&mut out, "y");
    assert_eq!(out, "x = \"y\"");
}

#[test]
fn literals_denote_the_text_they_were_made_of() {
    for text in ["", "plain", "say \"hi\"", "back\\slash", "line\nfeed\r\n", "\u{e9}\u{1f600}\0\u{7f}"] {
        let parsed = syn::parse_str::<syn::LitStr>(&literal_text(text)).unwrap();
        assert_eq!(parsed.value(), text);
    }
}

#[test]
fn every_line_is_indented() {
    let mut out = String::new();
    push_indented(&mut out, "a: 1,\n");
    assert_eq!(out, "    a: 1,\n");
    let mut out = "X(\n".to_string();
    push_indented(&mut out, "Y {\n    a: 1,\n},\n");
    assert_eq!(out, "X(\n    Y {\n        a: 1,\n    },\n");
    let mut out = String::new();
    push_indented(&mut out, "");
    assert_eq!(out, "");
    // An empty line gets its margin too, and a text that ends a line begins no new one.
    let mut out = String::new();
    push_indented(&mut out, "a\n\nb");
    assert_eq!(out, "    a\n    \n    b");
}

#[test]
fn implementation_headers() {
    assert_eq!(
        impl_header_text("<T: Clone>", "ToString", "Name", "<T>", "where T: Copy"),
        "impl<T: Clone> ToString for Name<T> where T: Copy {\n"
    );
    assert_eq!(impl_header_text("", "", "Name", "", ""), "impl Name  {\n");
}
