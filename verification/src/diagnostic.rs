//! Failures of a derivation and the diagnostics that report them.
//!
//! A generator never emits partial code: the first problem it meets ends the
//! invocation with one `GenerationError`, which `report` turns into a
//! positioned message for the host compiler.

use vstd::prelude::*;
use vstd::string::StringExecFns;

verus! {

/// The derivations of this toolkit.
#[derive(Debug, Clone, Copy, PartialEq, Eq, Structural)]
pub enum Derivation {
    AutoDebug,
    AutoStr,
    CopyWith,
    BundleText,
}

/// The annotation keys that some generator gives a meaning to.
#[derive(Debug, Clone, Copy, PartialEq, Eq, Structural)]
pub enum RecognizedKey {
    Style,
    Format,
    Name,
    Value,
    Ignore,
    Display,
    Debug,
    Autorule,
    Str,
    Copy,
    Bundle,
}

/// Where in the annotated declaration a diagnostic points.
#[derive(Debug, Clone, Copy, PartialEq, Eq, Structural)]
pub enum SourceSpan {
    /// The derivation invocation as a whole.
    CallSite,
    /// An annotation clause of the type, by position.
    TypeClause { clause: usize },
    /// A field or variant, by position.
    Member { member: usize },
    /// An annotation clause of a field or variant, both by position.
    MemberClause { member: usize, clause: usize },
}

/// Why a declaration has a shape that a generator cannot handle.
#[derive(Debug, Clone, Copy, PartialEq, Eq, Structural)]
pub enum ShapeProblem {
    /// The declaration is a union.
    Union,
    /// The derivation is for enums and the declaration is none.
    NotAnEnum,
    /// The derivation is for structs and the declaration is none.
    NotAStruct,
    /// A field of a named-field variant has no name.
    UnnamedField,
    /// A variant is neither a unit nor a wrapper of exactly one type.
    VariantPayload,
    /// A field is declared with a borrowed type.
    ReferenceField,
}

/// Why the value of a recognized key is malformed.
#[derive(Debug, Clone, Copy, PartialEq, Eq, Structural)]
pub enum ValueProblem {
    /// The clause is a flag, a key-value pair or a list where the key asks
    /// for another of the three.
    WrongForm,
    /// The value is not one of the legal values of the key.
    NotInLegalSet,
    /// The list holds no literal.
    NoLiteral,
}

/// A problem that ends a derivation invocation.
#[derive(Debug, Clone, Copy, PartialEq, Eq, Structural)]
pub enum GenerationError {
    UnsupportedShape { derivation: Derivation, problem: ShapeProblem, member: Option<usize> },
    InvalidAnnotationValue {
        key: RecognizedKey,
        member: Option<usize>,
        clause: usize,
        reason: ValueProblem,
    },
}

/// A compile-time error message with its position.
#[derive(Debug, Clone, PartialEq, Eq)]
pub struct Diagnostic {
    pub span: SourceSpan,
    pub message: String,
}

/// What a derivation invocation hands back to the host compiler: the source
/// text of the synthesized implementation, or a diagnostic in its place.
#[derive(Debug, Clone, PartialEq, Eq)]
pub enum GenerationResult {
    Implementation(String),
    Diagnostic(Diagnostic),
}

/// The name under which a derivation is requested.
pub open spec fn derivation_name(derivation: Derivation) -> Seq<char> {
    match derivation {
        Derivation::AutoDebug => "AutoDebug"@,
        Derivation::AutoStr => "AutoStr"@,
        Derivation::CopyWith => "CopyWith"@,
        Derivation::BundleText => "BundleText"@,
    }
}

/// The spelling of a recognized key.
pub open spec fn key_name(key: RecognizedKey) -> Seq<char> {
    match key {
        RecognizedKey::Style => "style"@,
        RecognizedKey::Format => "format"@,
        RecognizedKey::Name => "name"@,
        RecognizedKey::Value => "value"@,
        RecognizedKey::Ignore => "ignore"@,
        RecognizedKey::Display => "display"@,
        RecognizedKey::Debug => "debug"@,
        RecognizedKey::Autorule => "autorule"@,
        RecognizedKey::Str => "str"@,
        RecognizedKey::Copy => "copy"@,
        RecognizedKey::Bundle => "bundle"@,
    }
}

/// The sentence that describes a shape problem.
pub open spec fn shape_problem_text(problem: ShapeProblem) -> Seq<char> {
    match problem {
        ShapeProblem::Union => "does not support unions"@,
        ShapeProblem::NotAnEnum => "only supports enums"@,
        ShapeProblem::NotAStruct => "only supports structs"@,
        ShapeProblem::UnnamedField => "needs a name for every field of a named-field variant"@,
        ShapeProblem::VariantPayload => "needs variants that are units or wrap exactly one type"@,
        ShapeProblem::ReferenceField => "cannot copy a field of a borrowed type by value"@,
    }
}

/// The sentence that describes a malformed value.
pub open spec fn value_problem_text(reason: ValueProblem) -> Seq<char> {
    match reason {
        ValueProblem::WrongForm => "the clause has the wrong form for this key"@,
        ValueProblem::NotInLegalSet => "the value is not one of the legal values"@,
        ValueProblem::NoLiteral => "the list holds no literal"@,
    }
}

/// The message of the diagnostic that reports `error`.
pub open spec fn message_text(error: GenerationError) -> Seq<char> {
    match error {
        GenerationError::UnsupportedShape { derivation, problem, .. } => "#[derive("@
            + derivation_name(derivation) + ")] "@ + shape_problem_text(problem),
        GenerationError::InvalidAnnotationValue { key, reason, .. } => "invalid `"@ + key_name(key)
            + "` annotation: "@ + value_problem_text(reason),
    }
}

/// The position of the diagnostic that reports `error`: the offending clause
/// or member where there is one, else the invocation.
pub open spec fn error_span(error: GenerationError) -> SourceSpan {
    match error {
        GenerationError::UnsupportedShape { member, .. } => match member {
            Some(member) => SourceSpan::Member { member },
            None => SourceSpan::CallSite,
        },
        GenerationError::InvalidAnnotationValue { member, clause, .. } => match member {
            Some(member) => SourceSpan::MemberClause { member, clause },
            None => SourceSpan::TypeClause { clause },
        },
    }
}

/// Whether `diagnostic` is the report of `error`.
pub open spec fn reports(diagnostic: Diagnostic, error: GenerationError) -> bool {
    diagnostic.span == error_span(error) && diagnostic.message@ == message_text(error)
}

/// Whether `result` is what a generator hands back for `outcome`: the
/// implementation with exactly that text, or the report of exactly that
/// error.
pub open spec fn delivers(
    result: GenerationResult,
    outcome: Result<Seq<char>, GenerationError>,
) -> bool {
    match outcome {
        Ok(code) => result matches GenerationResult::Implementation(text) && text@ == code,
        Err(error) => result matches GenerationResult::Diagnostic(diagnostic) && reports(
            diagnostic,
            error,
        ),
    }
}

/// Whether `result` is `expected` seen through the view of its value.
pub open spec fn yields<T: View>(
    result: Result<T, GenerationError>,
    expected: Result<T::V, GenerationError>,
) -> bool {
    match expected {
        Ok(value) => result matches Ok(found) && found@ == value,
        Err(error) => result matches Err(found) && found == error,
    }
}

fn derivation_name_of(derivation: Derivation) -> (name: &'static str)
    ensures
        name@ == derivation_name(derivation),
{
    match derivation {
        Derivation::AutoDebug => "AutoDebug",
        Derivation::AutoStr => "AutoStr",
        Derivation::CopyWith => "CopyWith",
        Derivation::BundleText => "BundleText",
    }
}

/// The spelling of `key` in annotations.
pub fn key_name_of(key: RecognizedKey) -> (name: &'static str)
    ensures
        name@ == key_name(key),
{
    match key {
        RecognizedKey::Style => "style",
        RecognizedKey::Format => "format",
        RecognizedKey::Name => "name",
        RecognizedKey::Value => "value",
        RecognizedKey::Ignore => "ignore",
        RecognizedKey::Display => "display",
        RecognizedKey::Debug => "debug",
        RecognizedKey::Autorule => "autorule",
        RecognizedKey::Str => "str",
        RecognizedKey::Copy => "copy",
        RecognizedKey::Bundle => "bundle",
    }
}

fn shape_problem_text_of(problem: ShapeProblem) -> (text: &'static str)
    ensures
        text@ == shape_problem_text(problem),
{
    match problem {
        ShapeProblem::Union => "does not support unions",
        ShapeProblem::NotAnEnum => "only supports enums",
        ShapeProblem::NotAStruct => "only supports structs",
        ShapeProblem::UnnamedField => "needs a name for every field of a named-field variant",
        ShapeProblem::VariantPayload => "needs variants that are units or wrap exactly one type",
        ShapeProblem::ReferenceField => "cannot copy a field of a borrowed type by value",
    }
}

fn value_problem_text_of(reason: ValueProblem) -> (text: &'static str)
    ensures
        text@ == value_problem_text(reason),
{
    match reason {
        ValueProblem::WrongForm => "the clause has the wrong form for this key",
        ValueProblem::NotInLegalSet => "the value is not one of the legal values",
        ValueProblem::NoLiteral => "the list holds no literal",
    }
}

/// Turns a failure into the diagnostic that the host compiler shows.
pub fn report(error: GenerationError) -> (diagnostic: Diagnostic)
    ensures
        reports(diagnostic, error),
{
    match error {
        GenerationError::UnsupportedShape { derivation, problem, member } => {
            let mut message = String::from_str("#[derive(");
            message.append(derivation_name_of(derivation));
            message.append(")] ");
            message.append(shape_problem_text_of(problem));
            let span = match member {
                Some(member) => SourceSpan::Member { member },
                None => SourceSpan::CallSite,
            };
            Diagnostic { span, message }
        },
        GenerationError::InvalidAnnotationValue { key, member, clause, reason } => {
            let mut message = String::from_str("invalid `");
            message.append(key_name_of(key));
            message.append("` annotation: ");
            message.append(value_problem_text_of(reason));
            let span = match member {
                Some(member) => SourceSpan::MemberClause { member, clause },
                None => SourceSpan::TypeClause { clause },
            };
            Diagnostic { span, message }
        },
    }
}

/// Hands an outcome back to the host: the code as it is, a failure as its
/// report.
pub fn deliver(outcome: Result<String, GenerationError>) -> (result: GenerationResult)
    ensures
        match outcome {
            Ok(code) => delivers(result, Ok(code@)),
            Err(error) => delivers(result, Err(error)),
        },
{
    match outcome {
        Ok(code) => GenerationResult::Implementation(code),
        Err(error) => GenerationResult::Diagnostic(report(error)),
    }
}

} // verus!
