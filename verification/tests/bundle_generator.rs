use racros::bundle_text::{
    bundle_text_enum, bundle_text_internal, is_identifier, is_identifier_from, plan_bundles,
    prepare_name, resolve_requests, split_words, BundleClause, BundleRequest, BundleSource,
    NameChar,
};
use racros::declaration::{
    Generics, RawBody, RawDeclaration, Shape, TypeDeclaration, VariantDeclaration, VariantFields,
};
use racros::diagnostic::{
    Derivation, GenerationError, GenerationResult, RecognizedKey, ShapeProblem, SourceSpan,
    ValueProblem,
};

fn no_generics() -> Generics {
    Generics {
        impl_generics: String::new(),
        type_generics: String::new(),
        where_clause: String::new(),
    }
}

fn mapping(keys: &[&str], values: &[&str]) -> BundleClause {
    BundleClause {
        keys: keys.iter().map(|s| s.to_string()).collect(),
        values: values.iter().map(|s| s.to_string()).collect(),
    }
}

fn enum_input() -> RawDeclaration {
    RawDeclaration {
        name: "Texts".to_string(),
        generics: no_generics(),
        annotations: vec![],
        body: RawBody::Enum(vec![VariantDeclaration {
            name: "A".to_string(),
            fields: VariantFields::Unit,
            annotations: vec![],
        }]),
    }
}

#[test]
fn mappings_become_requests() {
    let mappings = vec![
        mapping(&["name", "file"], &["get_file", "file/path"]),
        mapping(&["name", "command"], &["get_rustc_version", "rustc --version"]),
    ];
    assert_eq!(
        resolve_requests(&mappings),
        Ok(vec![
            BundleRequest {
                accessor: "get_file".to_string(),
                source: BundleSource::File { path: "file/path".to_string() },
            },
            BundleRequest {
                accessor: "get_rustc_version".to_string(),
                source: BundleSource::Command {
                    program: "rustc".to_string(),
                    arguments: vec!["--version".to_string()],
                },
            },
        ])
    );
    assert_eq!(resolve_requests(&vec![]), Ok(vec![]));
}

#[test]
fn commands_are_split_at_single_spaces() {
    assert_eq!(split_words("rustc --version"), vec!["rustc", "--version"]);
    assert_eq!(split_words("ls"), vec!["ls"]);
    assert_eq!(split_words(""), vec![""]);
    assert_eq!(split_words("a  b "), vec!["a", "", "b", ""]);
    assert_eq!(split_words(" a"), vec!["", "a"]);
    let mappings = vec![mapping(&["name", "command"], &["run", "echo  hello world"])];
    assert_eq!(
        resolve_requests(&mappings).unwrap()[0].source,
        BundleSource::Command {
            program: "echo".to_string(),
            arguments: vec!["".to_string(), "hello".to_string(), "world".to_string()],
        }
    );
}

#[test]
fn malformed_mappings_are_reported() {
    let wrong_form = |clause: usize| GenerationError::InvalidAnnotationValue {
        key: RecognizedKey::Bundle,
        member: None,
        clause,
        reason: ValueProblem::WrongForm,
    };
    let good = mapping(&["name", "file"], &["get_file", "file/path"]);
    for bad in [
        mapping(&["name"], &["get_file"]),
        mapping(&["name", "file", "mode"], &["get_file", "path", "text"]),
        mapping(&["name", "file"], &["get_file"]),
        mapping(&["file", "name"], &["path", "get_file"]),
        mapping(&["name", "url"], &["get_file", "http://localhost"]),
        mapping(&[], &[]),
    ] {
        assert_eq!(resolve_requests(&vec![good.clone(), bad]), Err(wrong_form(1)));
    }
    let bad_name = mapping(&["name", "file"], &["get file", "file/path"]);
    assert_eq!(
        resolve_requests(&vec![bad_name, mapping(&[], &[])]),
        Err(GenerationError::InvalidAnnotationValue {
            key: RecognizedKey::Bundle,
            member: None,
            clause: 0,
            reason: ValueProblem::NotInLegalSet,
        })
    );
}

#[test]
fn accessor_names_are_identifiers() {
    assert!(is_identifier("get_file"));
    assert!(is_identifier("_x1"));
    assert!(is_identifier("_"));
    assert!(is_identifier("\u{e9}t\u{e9}"));
    assert!(!is_identifier(""));
    assert!(!is_identifier("1x"));
    assert!(!is_identifier("42"));
    assert!(!is_identifier("get file"));
    assert!(!is_identifier("get-file"));
    assert!(!is_identifier("x()"));
}

#[test]
fn identifiers_are_judged_by_what_is_known_of_their_characters() {
    assert_eq!(
        prepare_name("a1_"),
        vec![
            NameChar { content: 'a', starts: true, continues: true },
            NameChar { content: '1', starts: false, continues: true },
            NameChar { content: '_', starts: false, continues: true },
        ]
    );
    let known = |content, starts, continues| NameChar { content, starts, continues };
    assert!(is_identifier_from(&vec![known('a', true, false)]));
    assert!(is_identifier_from(&vec![known('_', false, false)]));
    assert!(is_identifier_from(&vec![known('a', true, false), known('b', false, true)]));
    assert!(!is_identifier_from(&vec![]));
    assert!(!is_identifier_from(&vec![known('a', false, true)]));
    assert!(!is_identifier_from(&vec![known('a', true, true), known('b', true, false)]));
    assert!(!is_identifier_from(&vec![
        known('a', true, true),
        known('b', true, true),
        known('_', true, false),
    ]));
}

#[test]
fn accessors_return_the_bundled_text() {
    let mappings = vec![
        mapping(&["name", "file"], &["get_file", "file/path"]),
        mapping(&["name", "command"], &["get_version", "rustc --version"]),
    ];
    let contents = vec!["line one\nline \"two\"".to_string(), "rustc 1.0".to_string()];
    let code = match bundle_text_internal(enum_input(), &mappings, &contents) {
        GenerationResult::Implementation(code) => code,
        GenerationResult::Diagnostic(diagnostic) => panic!("{:?}", diagnostic),
    };
    assert_eq!(
        code,
        "impl Texts  {\n    \
         fn get_file() -> &'static str {\n        \"line one\\u{a}line \\u{22}two\\u{22}\"\n    }\n    \
         fn get_version() -> &'static str {\n        \"rustc 1.0\"\n    }\n}\n"
    );
    let parsed = syn::parse_str::<syn::ItemImpl>(&code).unwrap();
    assert_eq!(parsed.items.len(), 2);
    // The literals denote the bundled text exactly.
    let mut found = Vec::new();
    for item in parsed.items {
        if let syn::ImplItem::Fn(function) = item {
            if let Some(syn::Stmt::Expr(syn::Expr::Lit(literal), _)) = function.block.stmts.first() {
                if let syn::Lit::Str(text) = &literal.lit {
                    found.push(text.value());
                }
            }
        }
    }
    assert_eq!(found, contents);
}

#[test]
fn missing_content_is_empty() {
    let declaration = TypeDeclaration {
        name: "Texts".to_string(),
        generics: no_generics(),
        annotations: vec![],
        shape: Shape::Enum(vec![]),
    };
    let requests = resolve_requests(&vec![mapping(&["name", "file"], &["get_file", "p"])]).unwrap();
    assert_eq!(
        bundle_text_enum(&declaration, &requests, &vec![]),
        "impl Texts  {\n    fn get_file() -> &'static str {\n        \"\"\n    }\n}\n"
    );
}

#[test]
fn nothing_is_asked_for_a_refused_declaration() {
    let mappings = vec![mapping(&["name", "file"], &["get_file", "file/path"])];
    assert_eq!(plan_bundles(&enum_input(), &mappings), resolve_requests(&mappings));
    let input = RawDeclaration {
        name: "S".to_string(),
        generics: no_generics(),
        annotations: vec![],
        body: RawBody::Struct(vec![]),
    };
    assert_eq!(
        plan_bundles(&input, &mappings),
        Err(GenerationError::UnsupportedShape {
            derivation: Derivation::BundleText,
            problem: ShapeProblem::NotAnEnum,
            member: None,
        })
    );
    let input = RawDeclaration {
        name: "U".to_string(),
        generics: no_generics(),
        annotations: vec![],
        body: RawBody::Union,
    };
    assert_eq!(
        plan_bundles(&input, &mappings),
        Err(GenerationError::UnsupportedShape {
            derivation: Derivation::BundleText,
            problem: ShapeProblem::Union,
            member: None,
        })
    );
}

#[test]
fn only_enums_bundle_text() {
    let input = RawDeclaration {
        name: "S".to_string(),
        generics: no_generics(),
        annotations: vec![],
        body: RawBody::Struct(vec![]),
    };
    // The shape is judged before any mapping.
    let mappings = vec![mapping(&[], &[])];
    match bundle_text_internal(input, &mappings, &vec![]) {
        GenerationResult::Diagnostic(diagnostic) => {
            assert_eq!(diagnostic.span, SourceSpan::CallSite);
            assert_eq!(diagnostic.message, "#[derive(BundleText)] only supports enums");
        }
        GenerationResult::Implementation(code) => panic!("{}", code),
    }
    match bundle_text_internal(enum_input(), &mappings, &vec![]) {
        GenerationResult::Diagnostic(diagnostic) => {
            assert_eq!(diagnostic.span, SourceSpan::TypeClause { clause: 0 });
            assert_eq!(
                diagnostic.message,
                "invalid `bundle` annotation: the clause has the wrong form for this key"
            );
        }
        GenerationResult::Implementation(code) => panic!("{}", code),
    }
}
