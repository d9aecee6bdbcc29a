//! The declaration model: what a derivation reads of the annotated type.
//!
//! The host parser's tree is handed over as a `RawDeclaration` of plain
//! values. `normalize` turns it into the `TypeDeclaration` that the three
//! generators walk, or refuses its shape.

use vstd::prelude::*;
use crate::diagnostic::{Derivation, GenerationError, ShapeProblem};
use crate::text::{decimal, decimal_text};

verus! {

/// The three forms of an annotation clause.
#[derive(Debug, Clone, PartialEq, Eq)]
pub enum ClauseForm {
    /// `key`
    Flag,
    /// `key = "literal"`
    KeyValue(String),
    /// `key(lit1, lit2, ...)`
    List(Vec<String>),
}

/// One annotation clause as it was parsed, before any key is given a
/// meaning.
#[derive(Debug, Clone, PartialEq, Eq)]
pub struct AnnotationClause {
    pub key: String,
    pub form: ClauseForm,
}

/// One field of a struct or of a variant.
#[derive(Debug, Clone, PartialEq, Eq)]
pub struct FieldDeclaration {
    /// The identifier; none for a positional field.
    pub name: Option<String>,
    /// The declared type as written, used only to spell calls on that type.
    pub type_reference: String,
    /// The clauses attached to the field, in attachment order.
    pub annotations: Vec<AnnotationClause>,
}

/// The payload of a variant.
#[derive(Debug, Clone, PartialEq, Eq)]
pub enum VariantFields {
    Unit,
    Positional(Vec<FieldDeclaration>),
    Named(Vec<FieldDeclaration>),
}

/// One variant of an enum.
#[derive(Debug, Clone, PartialEq, Eq)]
pub struct VariantDeclaration {
    pub name: String,
    pub fields: VariantFields,
    /// The clauses attached to the variant, in attachment order.
    pub annotations: Vec<AnnotationClause>,
}

/// The generic parameters of the type, passed through as the host parser
/// splits them for an implementation header. Each part may be empty.
#[derive(Debug, Clone, PartialEq, Eq)]
pub struct Generics {
    /// The parameters with their bounds, as they follow `impl`.
    pub impl_generics: String,
    /// The parameters alone, as they follow the type's name.
    pub type_generics: String,
    /// The `where` clause.
    pub where_clause: String,
}

/// What the host parser found under the type's name.
#[derive(Debug, Clone, PartialEq, Eq)]
pub enum RawBody {
    Struct(Vec<FieldDeclaration>),
    Enum(Vec<VariantDeclaration>),
    Union,
}

/// The annotated declaration as the host parser hands it over.
#[derive(Debug, Clone, PartialEq, Eq)]
pub struct RawDeclaration {
    pub name: String,
    pub generics: Generics,
    /// The clauses attached to the type, in attachment order.
    pub annotations: Vec<AnnotationClause>,
    pub body: RawBody,
}

/// The members of a supported declaration.
#[derive(Debug, Clone, PartialEq, Eq)]
pub enum Shape {
    Struct(Vec<FieldDeclaration>),
    Enum(Vec<VariantDeclaration>),
}

/// The normalized view of one annotated type.
#[derive(Debug, Clone, PartialEq, Eq)]
pub struct TypeDeclaration {
    pub name: String,
    pub generics: Generics,
    /// The clauses attached to the type, in attachment order.
    pub annotations: Vec<AnnotationClause>,
    pub shape: Shape,
}

/// How synthesized code reaches field number `index`: by its name, or by
/// its position where it has none.
pub open spec fn field_accessor(field: FieldDeclaration, index: int) -> Seq<char> {
    match field.name {
        Some(name) => name@,
        None => decimal(index as nat),
    }
}

/// Writes how synthesized code reaches field number `index`.
pub fn field_accessor_text(field: &FieldDeclaration, index: usize) -> (out: String)
    ensures
        out@ == field_accessor(*field, index as int),
{
    match &field.name {
        Some(name) => name.clone(),
        None => decimal_text(index),
    }
}

/// Whether every one of `fields` has a name.
pub open spec fn all_named(fields: Seq<FieldDeclaration>) -> bool {
    forall|i: int| 0 <= i < fields.len() ==> (#[trigger] fields[i]).name is Some
}

/// Whether the fields of a named-field variant all have names.
pub open spec fn variant_wf(variant: VariantDeclaration) -> bool {
    variant.fields matches VariantFields::Named(fields) ==> all_named(fields@)
}

/// The position of the first variant from `from` on that is not well
/// formed.
pub open spec fn first_malformed(variants: Seq<VariantDeclaration>, from: int) -> Option<int>
    decreases variants.len() - from,
{
    if from < 0 || from >= variants.len() {
        None
    } else if !variant_wf(variants[from]) {
        Some(from)
    } else {
        first_malformed(variants, from + 1)
    }
}

impl TypeDeclaration {
    /// The invariant of a normalized declaration: every variant is well
    /// formed.
    pub open spec fn wf(&self) -> bool {
        self.shape matches Shape::Enum(variants) ==> forall|i: int|
            0 <= i < variants@.len() ==> variant_wf(#[trigger] variants@[i])
    }
}

/// What `normalize` makes of `raw` for `derivation`: the same name,
/// generics, clauses and members in the same order, or the refusal of a
/// union or of the first variant that is not well formed.
pub open spec fn normalized(raw: RawDeclaration, derivation: Derivation) -> Result<
    TypeDeclaration,
    GenerationError,
> {
    match raw.body {
        RawBody::Union => Err(
            GenerationError::UnsupportedShape {
                derivation,
                problem: ShapeProblem::Union,
                member: None,
            },
        ),
        RawBody::Struct(fields) => Ok(
            TypeDeclaration {
                name: raw.name,
                generics: raw.generics,
                annotations: raw.annotations,
                shape: Shape::Struct(fields),
            },
        ),
        RawBody::Enum(variants) => match first_malformed(variants@, 0) {
            Some(member) => Err(
                GenerationError::UnsupportedShape {
                    derivation,
                    problem: ShapeProblem::UnnamedField,
                    member: Some(member as usize),
                },
            ),
            None => Ok(
                TypeDeclaration {
                    name: raw.name,
                    generics: raw.generics,
                    annotations: raw.annotations,
                    shape: Shape::Enum(variants),
                },
            ),
        },
    }
}

/// Where no variant from `from` on is malformed, each of them is well
/// formed.
pub proof fn lemma_none_malformed(variants: Seq<VariantDeclaration>, from: int)
    requires
        0 <= from,
        first_malformed(variants, from) is None,
    ensures
        forall|i: int| from <= i < variants.len() ==> variant_wf(#[trigger] variants[i]),
    decreases variants.len() - from,
{
    if from < variants.len() {
        lemma_none_malformed(variants, from + 1);
    }
}

fn fields_all_named(fields: &Vec<FieldDeclaration>) -> (r: bool)
    ensures
        r == all_named(fields@),
{
    let mut i: usize = 0;
    while i < fields.len()
        invariant
            i <= fields.len(),
            forall|j: int| 0 <= j < i ==> (#[trigger] fields@[j]).name is Some,
        decreases fields.len() - i,
    {
        if fields[i].name.is_none() {
            return false;
        }
        i += 1;
    }
    true
}

fn variant_is_wf(variant: &VariantDeclaration) -> (r: bool)
    ensures
        r == variant_wf(*variant),
{
    match &variant.fields {
        VariantFields::Named(fields) => fields_all_named(fields),
        _ => true,
    }
}

fn find_malformed(variants: &Vec<VariantDeclaration>) -> (r: Option<usize>)
    ensures
        match first_malformed(variants@, 0) {
            Some(member) => r == Some(member as usize) && member < variants@.len(),
            None => r is None,
        },
{
    let mut i: usize = 0;
    while i < variants.len()
        invariant
            i <= variants.len(),
            first_malformed(variants@, 0) == first_malformed(variants@, i as int),
        decreases variants.len() - i,
    {
        if !variant_is_wf(&variants[i]) {
            return Some(i);
        }
        i += 1;
    }
    None
}

/// The declaration model adapter: accepts a struct or an enum as it is and
/// refuses every other shape.
pub fn normalize(raw: RawDeclaration, derivation: Derivation) -> (r: Result<
    TypeDeclaration,
    GenerationError,
>)
    ensures
        r == normalized(raw, derivation),
        r matches Ok(declaration) ==> declaration.wf(),
{
    let RawDeclaration { name, generics, annotations, body } = raw;
    match body {
        RawBody::Union => Err(
            GenerationError::UnsupportedShape {
                derivation,
                problem: ShapeProblem::Union,
                member: None,
            },
        ),
        RawBody::Struct(fields) => Ok(
            TypeDeclaration { name, generics, annotations, shape: Shape::Struct(fields) },
        ),
        RawBody::Enum(variants) => match find_malformed(&variants) {
            Some(member) => Err(
                GenerationError::UnsupportedShape {
                    derivation,
                    problem: ShapeProblem::UnnamedField,
                    member: Some(member),
                },
            ),
            None => {
                proof {
                    lemma_none_malformed(variants@, 0);
                }
                Ok(TypeDeclaration { name, generics, annotations, shape: Shape::Enum(variants) })
            },
        },
    }
}

/// Why `normalize` would refuse `raw`, if it would.
pub fn refusal(raw: &RawDeclaration, derivation: Derivation) -> (r: Option<GenerationError>)
    ensures
        match normalized(*raw, derivation) {
            Ok(_) => r is None,
            Err(error) => r == Some(error),
        },
{
    match &raw.body {
        RawBody::Union => Some(
            GenerationError::UnsupportedShape {
                derivation,
                problem: ShapeProblem::Union,
                member: None,
            },
        ),
        RawBody::Struct(_) => None,
        RawBody::Enum(variants) => match find_malformed(variants) {
            Some(member) => Some(
                GenerationError::UnsupportedShape {
                    derivation,
                    problem: ShapeProblem::UnnamedField,
                    member: Some(member),
                },
            ),
            None => None,
        },
    }
}

} // verus!
