//! The string-conversion generator: resolves the `autorule` and `str`
//! annotations of an enum and synthesizes its conversions from and to
//! strings.

use vstd::prelude::*;
use vstd::string::StringExecFns;
use crate::auto_str::emit::{generate_to_string, generate_try_from, to_string_code, try_from_code};
use crate::auto_str::resolve::{conversion_config, resolve_conversions};
use crate::declaration::{normalize, normalized, RawDeclaration, Shape};
use crate::diagnostic::{
    deliver,
    delivers,
    Derivation,
    GenerationError,
    GenerationResult,
    ShapeProblem,
};
use crate::text::{same_text, texts};
use crate::util::{
    case_convert,
    lowercase_text,
    snake_convert,
    to_camel_case,
    to_pascal_case,
    to_snake_case,
    uppercase_text,
};

pub mod convert;
pub mod emit;
pub mod resolve;

verus! {

/// The rule that turns the name of a variant without `str` into its string.
#[derive(Debug, Clone, Copy, PartialEq, Eq, Structural)]
pub enum Rules {
    Lowercase,
    Uppercase,
    CamelCase,
    PascalCase,
    SnakeCase,
}

/// The rule that `text` names.
pub open spec fn rule_of(text: Seq<char>) -> Option<Rules> {
    if text == "lowercase"@ {
        Some(Rules::Lowercase)
    } else if text == "UPPERCASE"@ {
        Some(Rules::Uppercase)
    } else if text == "camelCase"@ {
        Some(Rules::CamelCase)
    } else if text == "PascalCase"@ {
        Some(Rules::PascalCase)
    } else if text == "snake_case"@ {
        Some(Rules::SnakeCase)
    } else {
        None
    }
}

/// The name of a rule.
pub open spec fn rule_name(rule: Rules) -> Seq<char> {
    match rule {
        Rules::Lowercase => "lowercase"@,
        Rules::Uppercase => "UPPERCASE"@,
        Rules::CamelCase => "camelCase"@,
        Rules::PascalCase => "PascalCase"@,
        Rules::SnakeCase => "snake_case"@,
    }
}

/// The names of the rules are told apart by their length or by their first
/// character, so that each names its rule and no other.
pub proof fn law_rule_names_differ(rule: Rules)
    ensures
        rule_of(rule_name(rule)) == Some(rule),
{
    reveal_strlit("lowercase");
    reveal_strlit("UPPERCASE");
    reveal_strlit("camelCase");
    reveal_strlit("PascalCase");
    reveal_strlit("snake_case");
    assert("lowercase"@[0] == 'l' && "UPPERCASE"@[0] == 'U' && "camelCase"@[0] == 'c');
    assert("PascalCase"@[0] == 'P' && "snake_case"@[0] == 's');
}

/// Parses the value of `autorule`.
pub fn parse_rule(text: &str) -> (rule: Option<Rules>)
    ensures
        rule == rule_of(text@),
        text@ == "lowercase"@ ==> rule == Some(Rules::Lowercase),
        text@ == "UPPERCASE"@ ==> rule == Some(Rules::Uppercase),
        text@ == "camelCase"@ ==> rule == Some(Rules::CamelCase),
        text@ == "PascalCase"@ ==> rule == Some(Rules::PascalCase),
        text@ == "snake_case"@ ==> rule == Some(Rules::SnakeCase),
{
    proof {
        law_rule_names_differ(Rules::Lowercase);
        law_rule_names_differ(Rules::Uppercase);
        law_rule_names_differ(Rules::CamelCase);
        law_rule_names_differ(Rules::PascalCase);
        law_rule_names_differ(Rules::SnakeCase);
    }
    if same_text(text, "lowercase") {
        Some(Rules::Lowercase)
    } else if same_text(text, "UPPERCASE") {
        Some(Rules::Uppercase)
    } else if same_text(text, "camelCase") {
        Some(Rules::CamelCase)
    } else if same_text(text, "PascalCase") {
        Some(Rules::PascalCase)
    } else if same_text(text, "snake_case") {
        Some(Rules::SnakeCase)
    } else {
        None
    }
}

/// The string of a variant named `name` under `rule`: the name as it is
/// where no rule is set.
pub open spec fn rule_text(rule: Option<Rules>, name: Seq<char>) -> Seq<char> {
    match rule {
        Some(Rules::Lowercase) => lowercase_text(name),
        Some(Rules::Uppercase) => uppercase_text(name),
        Some(Rules::CamelCase) => case_convert(name, false),
        Some(Rules::PascalCase) => case_convert(name, true),
        Some(Rules::SnakeCase) => snake_convert(name),
        None => name,
    }
}

/// Applies `rule` to the name of a variant.
pub fn string_target_with_rule(rule: &Option<Rules>, str: &str) -> (r: String)
    ensures
        r@ == rule_text(*rule, str@),
{
    match rule {
        Some(Rules::Lowercase) => str.to_lowercase(),
        Some(Rules::Uppercase) => str.to_uppercase(),
        Some(Rules::CamelCase) => to_camel_case(str),
        Some(Rules::PascalCase) => to_pascal_case(str),
        Some(Rules::SnakeCase) => to_snake_case(str),
        None => String::from_str(str),
    }
}

/// How one variant converts from and to strings.
#[derive(Debug, Clone, PartialEq, Eq)]
pub enum Mapping {
    /// A unit variant with explicit literals: each of them converts to it,
    /// and it converts to the first.
    Literals { literals: Vec<String> },
    /// A wrapping variant with explicit literals: each of them hands the
    /// input to the wrapped type's conversion.
    WrappedLiterals { literals: Vec<String>, wrapped: String },
    /// A unit variant without literals: exactly the string that the rule
    /// makes of its name.
    RuleName { text: String },
    /// A wrapping variant without literals: a fallback candidate, tried
    /// through the wrapped type's conversion.
    Fallback { wrapped: String },
}

/// One variant with its mapping.
#[derive(Debug, Clone, PartialEq, Eq)]
pub struct VariantConversion {
    pub name: String,
    pub mapping: Mapping,
}

/// The resolved configuration of the string conversions of an enum.
#[derive(Debug, Clone, PartialEq, Eq)]
pub struct ConversionConfig {
    pub rule: Option<Rules>,
    /// One entry for each variant, in declaration order.
    pub variants: Vec<VariantConversion>,
}

/// A mapping, as plain text.
pub enum MappingView {
    Literals { literals: Seq<Seq<char>> },
    WrappedLiterals { literals: Seq<Seq<char>>, wrapped: Seq<char> },
    RuleName { text: Seq<char> },
    Fallback { wrapped: Seq<char> },
}

/// A variant with its mapping, as plain text.
pub struct VariantConversionView {
    pub name: Seq<char>,
    pub mapping: MappingView,
}

/// The resolved configuration, as plain text.
pub struct ConversionConfigView {
    pub rule: Option<Rules>,
    pub variants: Seq<VariantConversionView>,
}

impl View for Mapping {
    type V = MappingView;

    open spec fn view(&self) -> MappingView {
        match *self {
            Mapping::Literals { literals } => MappingView::Literals { literals: texts(literals@) },
            Mapping::WrappedLiterals { literals, wrapped } => MappingView::WrappedLiterals {
                literals: texts(literals@),
                wrapped: wrapped@,
            },
            Mapping::RuleName { text } => MappingView::RuleName { text: text@ },
            Mapping::Fallback { wrapped } => MappingView::Fallback { wrapped: wrapped@ },
        }
    }
}

impl View for VariantConversion {
    type V = VariantConversionView;

    open spec fn view(&self) -> VariantConversionView {
        VariantConversionView { name: self.name@, mapping: self.mapping@ }
    }
}

/// The views of the variant conversions, in order.
pub open spec fn conversion_views(variants: Seq<VariantConversion>) -> Seq<VariantConversionView> {
    Seq::new(variants.len(), |i: int| variants[i]@)
}

impl View for ConversionConfig {
    type V = ConversionConfigView;

    open spec fn view(&self) -> ConversionConfigView {
        ConversionConfigView { rule: self.rule, variants: conversion_views(self.variants@) }
    }
}

/// The explicit literals of a mapping; none for a mapping without.
pub open spec fn explicit_literals(mapping: MappingView) -> Seq<Seq<char>> {
    match mapping {
        MappingView::Literals { literals } => literals,
        MappingView::WrappedLiterals { literals, .. } => literals,
        _ => Seq::empty(),
    }
}

/// What the string-conversion derivation hands back for a declaration as
/// the host parser delivers it: the refusal of anything but an enum, or the
/// failure of the resolution, else both conversions, from strings first.
pub open spec fn str_outcome(input: RawDeclaration) -> Result<Seq<char>, GenerationError> {
    match normalized(input, Derivation::AutoStr) {
        Err(error) => Err(error),
        Ok(declaration) => match declaration.shape {
            Shape::Struct(_) => Err(
                GenerationError::UnsupportedShape {
                    derivation: Derivation::AutoStr,
                    problem: ShapeProblem::NotAnEnum,
                    member: None,
                },
            ),
            Shape::Enum(variants) => match conversion_config(declaration.annotations@, variants@) {
                Err(error) => Err(error),
                Ok(config) => Ok(
                    try_from_code(declaration, config) + to_string_code(declaration, config),
                ),
            },
        },
    }
}

/// The string-conversion derivation: synthesizes both conversions of the
/// declared enum, or the diagnostic that takes their place.
pub fn auto_str_internal(input: RawDeclaration) -> (result: GenerationResult)
    ensures
        delivers(result, str_outcome(input)),
{
    let declaration = match normalize(input, Derivation::AutoStr) {
        Err(error) => {
            return deliver(Err(error));
        },
        Ok(declaration) => declaration,
    };
    match &declaration.shape {
        Shape::Struct(_) => deliver(
            Err(
                GenerationError::UnsupportedShape {
                    derivation: Derivation::AutoStr,
                    problem: ShapeProblem::NotAnEnum,
                    member: None,
                },
            ),
        ),
        Shape::Enum(variants) => match resolve_conversions(&declaration, variants) {
            Err(error) => deliver(Err(error)),
            Ok(config) => {
                let mut code = generate_try_from(&declaration, &config);
                let rest = generate_to_string(&declaration, &config);
                code.append(rest.as_str());
                deliver(Ok(code))
            },
        },
    }
}

} // verus!
