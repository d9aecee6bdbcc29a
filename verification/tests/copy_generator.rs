use racros::copy_with::{
    copy_with_internal, is_borrowed, merge_field, resolve_merge, FieldMerge, MergeConfig,
    MergeMode,
};
use racros::declaration::{
    AnnotationClause, ClauseForm, FieldDeclaration, Generics, RawBody, RawDeclaration,
    VariantDeclaration, VariantFields,
};
use racros::diagnostic::{
    Derivation, GenerationError, GenerationResult, RecognizedKey, ShapeProblem, SourceSpan,
    ValueProblem,
};

fn no_generics() -> Generics {
    Generics {
        impl_generics: String::new(),
        type_generics: String::new(),
        where_clause: String::new(),
    }
}

fn field(name: &str, type_reference: &str, annotations: Vec<AnnotationClause>) -> FieldDeclaration {
    FieldDeclaration {
        name: Some(name.to_string()),
        type_reference: type_reference.to_string(),
        annotations,
    }
}

fn copy() -> AnnotationClause {
    AnnotationClause { key: "copy".to_string(), form: ClauseForm::Flag }
}

fn my_struct() -> Vec<FieldDeclaration> {
    vec![
        field("foo1", "i8", vec![]),
        field("foo2", "String", vec![]),
        field("foo3", "Option<String>", vec![]),
    ]
}

fn merge(config: &MergeConfig, current: &[&str], incoming: &[&str], default: &str) -> Vec<String> {
    let mut merged = Vec::new();
    for (index, field) in config.fields.iter().enumerate() {
        merged.push(merge_field(
            field.mode,
            current[index].to_string(),
            incoming[index].to_string(),
            incoming[index] == default,
            format!("{}+{}", current[index], incoming[index]),
        ));
    }
    merged
}

#[test]
fn fields_resolve_in_declaration_order() {
    let config = resolve_merge(&my_struct()).unwrap();
    assert_eq!(
        config.fields,
        vec![
            FieldMerge {
                accessor: "foo1".to_string(),
                type_reference: "i8".to_string(),
                mode: MergeMode::ReplaceIfSet,
            },
            FieldMerge {
                accessor: "foo2".to_string(),
                type_reference: "String".to_string(),
                mode: MergeMode::ReplaceIfSet,
            },
            FieldMerge {
                accessor: "foo3".to_string(),
                type_reference: "Option<String>".to_string(),
                mode: MergeMode::ReplaceIfSet,
            },
        ]
    );
}

#[test]
fn merging_a_default_value_changes_nothing() {
    let config = resolve_merge(&my_struct()).unwrap();
    let current = ["64", "hello world", "Some(hello world)"];
    let incoming = ["", "", ""];
    assert_eq!(merge(&config, &current, &incoming, ""), current);
    let current = ["", "", ""];
    assert_eq!(merge(&config, &current, &incoming, ""), current);
}

#[test]
fn fields_that_are_set_replace() {
    let config = resolve_merge(&my_struct()).unwrap();
    let current = ["", "", ""];
    let incoming = ["64", "hello world", "Some(hello world)"];
    assert_eq!(merge(&config, &current, &incoming, ""), incoming);
    let current = ["1", "kept", "2"];
    let incoming = ["64", "", "Some(hello world)"];
    assert_eq!(merge(&config, &current, &incoming, ""), ["64", "kept", "Some(hello world)"]);
}

#[test]
fn copy_fields_delegate() {
    let fields = vec![field("bar1", "MyStruct", vec![copy()]), field("bar2", "u8", vec![])];
    let config = resolve_merge(&fields).unwrap();
    assert_eq!(config.fields[0].mode, MergeMode::Delegate);
    assert_eq!(config.fields[1].mode, MergeMode::ReplaceIfSet);
    // A delegating field takes what its own merge made, whatever the other value holds.
    assert_eq!(merge(&config, &["a", "b"], &["", ""], ""), ["a+", "b"]);
    assert_eq!(merge(&config, &["a", "b"], &["c", "d"], ""), ["a+c", "d"]);
}

#[test]
fn whole_values_merge_in_one_pass() {
    let fields = vec![
        field("a", "u8", vec![]),
        field("b", "Inner", vec![copy()]),
        field("c", "u8", vec![]),
    ];
    let config = resolve_merge(&fields).unwrap();
    let current = vec![1, 2, 3];
    let incoming = vec![0, 5, 6];
    let defaults = vec![true, false, false];
    let delegated = vec![70, 80, 90];
    assert_eq!(config.merge(&current, &incoming, &defaults, &delegated), Some(vec![1, 80, 6]));
    // The other value at its default: nothing changes, given that the nested merge changes nothing.
    let incoming = vec![0, 0, 0];
    let defaults = vec![true, true, true];
    let delegated = vec![70, 2, 90];
    assert_eq!(config.merge(&current, &incoming, &defaults, &delegated), Some(current.clone()));
    // Every list must hold one entry for each field.
    assert_eq!(config.merge(&vec![1, 2], &incoming, &defaults, &delegated), None);
    assert_eq!(config.merge(&current, &vec![], &defaults, &delegated), None);
    assert_eq!(config.merge(&current, &incoming, &vec![true], &delegated), None);
    assert_eq!(config.merge(&current, &incoming, &defaults, &vec![1, 2, 3, 4]), None);
    let empty = resolve_merge(&vec![]).unwrap();
    assert_eq!(empty.merge::<u8>(&vec![], &vec![], &vec![], &vec![]), Some(vec![]));
}

#[test]
fn merge_field_formula() {
    assert_eq!(merge_field(MergeMode::ReplaceIfSet, 1, 0, true, 9), 1);
    assert_eq!(merge_field(MergeMode::ReplaceIfSet, 1, 2, false, 9), 2);
    assert_eq!(merge_field(MergeMode::Delegate, 1, 0, true, 9), 9);
    assert_eq!(merge_field(MergeMode::Delegate, 1, 2, false, 9), 9);
}

#[test]
fn borrowed_types_are_recognized() {
    assert!(is_borrowed("&str"));
    assert!(is_borrowed("& 'a str"));
    assert!(is_borrowed("&mut T"));
    assert!(!is_borrowed("String"));
    assert!(!is_borrowed("Option<&str>"));
    assert!(!is_borrowed(""));
}

#[test]
fn reference_fields_are_refused() {
    let fields = vec![field("a", "u8", vec![]), field("b", "& 'a str", vec![])];
    assert_eq!(
        resolve_merge(&fields),
        Err(GenerationError::UnsupportedShape {
            derivation: Derivation::CopyWith,
            problem: ShapeProblem::ReferenceField,
            member: Some(1),
        })
    );
    let input = RawDeclaration {
        name: "S".to_string(),
        generics: no_generics(),
        annotations: vec![],
        body: RawBody::Struct(fields),
    };
    match copy_with_internal(input) {
        GenerationResult::Diagnostic(diagnostic) => {
            assert_eq!(diagnostic.span, SourceSpan::Member { member: 1 });
            assert_eq!(
                diagnostic.message,
                "#[derive(CopyWith)] cannot copy a field of a borrowed type by value"
            );
        }
        GenerationResult::Implementation(code) => panic!("{}", code),
    }
}

#[test]
fn malformed_copy_is_reported_before_the_type() {
    let clause = AnnotationClause {
        key: "copy".to_string(),
        form: ClauseForm::KeyValue("yes".to_string()),
    };
    let fields = vec![field("a", "&str", vec![copy(), clause])];
    assert_eq!(
        resolve_merge(&fields),
        Err(GenerationError::InvalidAnnotationValue {
            key: RecognizedKey::Copy,
            member: Some(0),
            clause: 1,
            reason: ValueProblem::WrongForm,
        })
    );
}

#[test]
fn enums_are_refused() {
    let input = RawDeclaration {
        name: "E".to_string(),
        generics: no_generics(),
        annotations: vec![],
        body: RawBody::Enum(vec![VariantDeclaration {
            name: "A".to_string(),
            fields: VariantFields::Unit,
            annotations: vec![],
        }]),
    };
    match copy_with_internal(input) {
        GenerationResult::Diagnostic(diagnostic) => {
            assert_eq!(diagnostic.span, SourceSpan::CallSite);
            assert_eq!(diagnostic.message, "#[derive(CopyWith)] only supports structs");
        }
        GenerationResult::Implementation(code) => panic!("{}", code),
    }
}

#[test]
fn synthesized_merge_parses() {
    let mut fields = my_struct();
    fields.push(field("bar1", "MyStruct", vec![copy()]));
    fields.push(FieldDeclaration {
        name: None,
        type_reference: "u8".to_string(),
        annotations: vec![],
    });
    let input = RawDeclaration {
        name: "MyStruct2".to_string(),
        generics: Generics {
            impl_generics: "<T: Clone>".to_string(),
            type_generics: "<T>".to_string(),
            where_clause: "where T: Default".to_string(),
        },
        annotations: vec![],
        body: RawBody::Struct(fields),
    };
    let code = match copy_with_internal(input) {
        GenerationResult::Implementation(code) => code,
        GenerationResult::Diagnostic(diagnostic) => panic!("{:?}", diagnostic),
    };
    assert!(syn::parse_str::<syn::ItemImpl>(&code).is_ok());
    assert_eq!(
        code,
        "impl<T: Clone> MyStruct2<T> where T: Default {\n    \
         fn copy_with(&mut self, other: &Self) {\n        \
         if other.foo1 != <i8>::default() {\n            self.foo1 = other.foo1.clone();\n        }\n        \
         if other.foo2 != <String>::default() {\n            self.foo2 = other.foo2.clone();\n        }\n        \
         if other.foo3 != <Option<String>>::default() {\n            self.foo3 = other.foo3.clone();\n        }\n        \
         self.bar1.copy_with(&other.bar1);\n        \
         if other.4 != <u8>::default() {\n            self.4 = other.4.clone();\n        }\n    \
         }\n}\n"
    );
}
