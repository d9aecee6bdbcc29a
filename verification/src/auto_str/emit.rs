//! The source text of the synthesized conversions.

use vstd::prelude::*;
use vstd::string::StringExecFns;
use crate::auto_str::{
    ConversionConfig,
    ConversionConfigView,
    Mapping,
    MappingView,
    VariantConversion,
    VariantConversionView,
};
use crate::declaration::TypeDeclaration;
use crate::text::{impl_header, impl_header_text, literal, push_literal, texts};

verus! {

/// The separator in front of alternative number `index` of a pattern.
pub open spec fn alternative_separator(index: int) -> Seq<char> {
    if index == 0 {
        Seq::empty()
    } else {
        " | "@
    }
}

/// The pattern that matches any of the first `n` literals.
pub open spec fn alternatives(literals: Seq<Seq<char>>, n: nat) -> Seq<char>
    decreases n,
{
    if n == 0 {
        Seq::empty()
    } else {
        alternatives(literals, (n - 1) as nat) + alternative_separator(n - 1) + literal(
            literals[n - 1],
        )
    }
}

/// The arm of a variant with explicit literals; nothing for another
/// variant, nor for one whose list of literals is empty, to which no string
/// converts. A unit variant is the result as it is; a wrapping variant
/// hands the input to the wrapped type's conversion and passes its error
/// on.
pub open spec fn explicit_arm(variant: VariantConversionView, target: Seq<char>) -> Seq<char> {
    match variant.mapping {
        MappingView::Literals { literals } => if literals.len() == 0 {
            Seq::empty()
        } else {
            "            "@ + alternatives(literals, literals.len()) + " => Ok(Self::"@
                + variant.name + "),\n"@
        },
        MappingView::WrappedLiterals { literals, wrapped } => if literals.len() == 0 {
            Seq::empty()
        } else {
            "            "@ + alternatives(literals, literals.len()) + " => match <"@ + wrapped
                + ">::try_from(value) {\n                Ok(v) => Ok(Self::"@ + variant.name
                + "(v)),\n                Err(e) => Err(Self::Error::from(format!(\"failed to convert to {}: {}\", "@
                + literal(target) + ", e))),\n            },\n"@
        },
        _ => Seq::empty(),
    }
}

/// The arm of a unit variant without literals; nothing for another
/// variant.
pub open spec fn rule_arm(variant: VariantConversionView) -> Seq<char> {
    match variant.mapping {
        MappingView::RuleName { text } => "            "@ + literal(text) + " => Ok(Self::"@
            + variant.name + "),\n"@,
        _ => Seq::empty(),
    }
}

/// The attempt of a fallback candidate; nothing for another variant. A
/// success is recorded under the name of the wrapped type.
pub open spec fn fallback_attempt(variant: VariantConversionView) -> Seq<char> {
    match variant.mapping {
        MappingView::Fallback { wrapped } => "                if let Ok(v) = <"@ + wrapped
            + ">::try_from(value) {\n                    candidates.push("@ + literal(wrapped)
            + ");\n                    fallback = Some(Self::"@ + variant.name
            + "(v));\n                }\n"@,
        _ => Seq::empty(),
    }
}

/// The explicit arms of the first `n` variants, in declaration order.
pub open spec fn explicit_arms(
    variants: Seq<VariantConversionView>,
    target: Seq<char>,
    n: nat,
) -> Seq<char>
    decreases n,
{
    if n == 0 {
        Seq::empty()
    } else {
        explicit_arms(variants, target, (n - 1) as nat) + explicit_arm(variants[n - 1], target)
    }
}

/// The rule-made arms of the first `n` variants, in declaration order.
pub open spec fn rule_arms(variants: Seq<VariantConversionView>, n: nat) -> Seq<char>
    decreases n,
{
    if n == 0 {
        Seq::empty()
    } else {
        rule_arms(variants, (n - 1) as nat) + rule_arm(variants[n - 1])
    }
}

/// The fallback attempts of the first `n` variants, in declaration order.
pub open spec fn fallback_attempts(variants: Seq<VariantConversionView>, n: nat) -> Seq<char>
    decreases n,
{
    if n == 0 {
        Seq::empty()
    } else {
        fallback_attempts(variants, (n - 1) as nat) + fallback_attempt(variants[n - 1])
    }
}

/// The lines that open the conversion from strings, after the header of
/// the implementation.
pub open spec fn try_from_opening() -> Seq<char> {
    "    type Error = Box<dyn std::error::Error>;\n\n    fn try_from(value: &str) -> Result<Self, Self::Error> {\n        match value {\n"@
}

/// The lines that open the fallback arm.
pub open spec fn fallback_opening() -> Seq<char> {
    "            _ => {\n                let mut candidates: Vec<&str> = Vec::new();\n                let mut fallback: Option<Self> = None;\n"@
}

/// The decision of the fallback arm: the single candidate that accepted,
/// or the error that no variant accepts the input, or the error that names
/// every candidate that accepted.
pub open spec fn fallback_decision(target: Seq<char>) -> Seq<char> {
    "                match (candidates.len(), fallback) {\n                    (1, Some(v)) => Ok(v),\n                    (0, _) => Err(Self::Error::from(format!(\"failed to convert to {}: invalid value {:?}\", "@
        + literal(target)
        + ", value))),\n                    _ => Err(Self::Error::from(format!(\"#[str(...)] attribute not set and fallback guess is ambiguous: {} can accept the conversion from {:?}\", candidates.join(\" and \"), value))),\n                }\n            },\n        }\n    }\n}\n"@
}

/// The conversion from strings of an enum under a resolved configuration:
/// the arms of the explicit literals, then those of the rule-made names,
/// then the fallback arm with one attempt for each candidate.
pub open spec fn try_from_code(declaration: TypeDeclaration, config: ConversionConfigView) -> Seq<
    char,
> {
    impl_header(
        declaration.generics.impl_generics@,
        "TryFrom<&str>"@,
        declaration.name@,
        declaration.generics.type_generics@,
        declaration.generics.where_clause@,
    ) + try_from_opening() + explicit_arms(
        config.variants,
        declaration.name@,
        config.variants.len(),
    ) + rule_arms(config.variants, config.variants.len()) + fallback_opening() + fallback_attempts(
        config.variants,
        config.variants.len(),
    ) + fallback_decision(declaration.name@)
}

/// The arm of one variant in the conversion to strings: its canonical
/// string, or for a wrapping variant the string of the wrapped value.
pub open spec fn to_string_arm(variant: VariantConversionView) -> Seq<char> {
    "            Self::"@ + variant.name + (match variant.mapping {
        MappingView::Literals { literals } => " => "@ + literal(
            if literals.len() > 0 {
                literals[0]
            } else {
                variant.name
            },
        ) + ".to_string(),\n"@,
        MappingView::RuleName { text } => " => "@ + literal(text) + ".to_string(),\n"@,
        MappingView::WrappedLiterals { .. } => "(ref v) => v.to_string(),\n"@,
        MappingView::Fallback { .. } => "(ref v) => v.to_string(),\n"@,
    })
}

/// The arms of the first `n` variants in the conversion to strings.
pub open spec fn to_string_arms(variants: Seq<VariantConversionView>, n: nat) -> Seq<char>
    decreases n,
{
    if n == 0 {
        Seq::empty()
    } else {
        to_string_arms(variants, (n - 1) as nat) + to_string_arm(variants[n - 1])
    }
}

/// The conversion to strings of an enum under a resolved configuration:
/// one arm for every variant.
pub open spec fn to_string_code(declaration: TypeDeclaration, config: ConversionConfigView) -> Seq<
    char,
> {
    impl_header(
        declaration.generics.impl_generics@,
        "ToString"@,
        declaration.name@,
        declaration.generics.type_generics@,
        declaration.generics.where_clause@,
    ) + "    fn to_string(&self) -> String {\n        match *self {\n"@ + to_string_arms(
        config.variants,
        config.variants.len(),
    ) + "        }\n    }\n}\n"@
}

fn push_alternatives(out: &mut String, literals: &Vec<String>)
    ensures
        final(out)@ == old(out)@ + alternatives(texts(literals@), literals@.len()),
{
    let ghost start = out@;
    let mut i: usize = 0;
    while i < literals.len()
        invariant
            i <= literals.len(),
            out@ == start + alternatives(texts(literals@), i as nat),
        decreases literals.len() - i,
    {
        if i != 0 {
            out.append(" | ");
        }
        push_literal(out, literals[i].as_str());
        i += 1;
    }
}

fn explicit_arm_text(variant: &VariantConversion, target: &str) -> (out: String)
    ensures
        out@ == explicit_arm(variant@, target@),
{
    match &variant.mapping {
        Mapping::Literals { literals } => {
            if literals.len() == 0 {
                return String::new();
            }
            let mut out = String::from_str("            ");
            push_alternatives(&mut out, literals);
            out.append(" => Ok(Self::");
            out.append(variant.name.as_str());
            out.append("),\n");
            out
        },
        Mapping::WrappedLiterals { literals, wrapped } => {
            if literals.len() == 0 {
                return String::new();
            }
            let mut out = String::from_str("            ");
            push_alternatives(&mut out, literals);
            out.append(" => match <");
            out.append(wrapped.as_str());
            out.append(">::try_from(value) {\n                Ok(v) => Ok(Self::");
            out.append(variant.name.as_str());
            out.append(
                "(v)),\n                Err(e) => Err(Self::Error::from(format!(\"failed to convert to {}: {}\", ",
            );
            push_literal(&mut out, target);
            out.append(", e))),\n            },\n");
            out
        },
        _ => String::new(),
    }
}

fn rule_arm_text(variant: &VariantConversion) -> (out: String)
    ensures
        out@ == rule_arm(variant@),
{
    match &variant.mapping {
        Mapping::RuleName { text } => {
            let mut out = String::from_str("            ");
            push_literal(&mut out, text.as_str());
            out.append(" => Ok(Self::");
            out.append(variant.name.as_str());
            out.append("),\n");
            out
        },
        _ => String::new(),
    }
}

fn fallback_attempt_text(variant: &VariantConversion) -> (out: String)
    ensures
        out@ == fallback_attempt(variant@),
{
    match &variant.mapping {
        Mapping::Fallback { wrapped } => {
            let mut out = String::from_str("                if let Ok(v) = <");
            out.append(wrapped.as_str());
            out.append(">::try_from(value) {\n                    candidates.push(");
            push_literal(&mut out, wrapped.as_str());
            out.append(");\n                    fallback = Some(Self::");
            out.append(variant.name.as_str());
            out.append("(v));\n                }\n");
            out
        },
        _ => String::new(),
    }
}

fn fallback_decision_text(target: &str) -> (out: String)
    ensures
        out@ == fallback_decision(target@),
{
    let mut out = String::from_str(
        "                match (candidates.len(), fallback) {\n                    (1, Some(v)) => Ok(v),\n                    (0, _) => Err(Self::Error::from(format!(\"failed to convert to {}: invalid value {:?}\", ",
    );
    push_literal(&mut out, target);
    out.append(
        ", value))),\n                    _ => Err(Self::Error::from(format!(\"#[str(...)] attribute not set and fallback guess is ambiguous: {} can accept the conversion from {:?}\", candidates.join(\" and \"), value))),\n                }\n            },\n        }\n    }\n}\n",
    );
    out
}

/// Writes the conversion from strings of an enum under a resolved
/// configuration.
pub fn generate_try_from(declaration: &TypeDeclaration, config: &ConversionConfig) -> (out: String)
    ensures
        out@ == try_from_code(*declaration, config@),
{
    let mut out = impl_header_text(
        declaration.generics.impl_generics.as_str(),
        "TryFrom<&str>",
        declaration.name.as_str(),
        declaration.generics.type_generics.as_str(),
        declaration.generics.where_clause.as_str(),
    );
    out.append(
        "    type Error = Box<dyn std::error::Error>;\n\n    fn try_from(value: &str) -> Result<Self, Self::Error> {\n        match value {\n",
    );
    let target = declaration.name.as_str();
    let count = config.variants.len();
    let mut arms = String::new();
    let mut i: usize = 0;
    while i < count
        invariant
            i <= count,
            count == config.variants@.len(),
            target@ == declaration.name@,
            arms@ == explicit_arms(config@.variants, target@, i as nat),
        decreases count - i,
    {
        let arm = explicit_arm_text(&config.variants[i], target);
        arms.append(arm.as_str());
        i += 1;
    }
    out.append(arms.as_str());
    let mut arms = String::new();
    let mut i: usize = 0;
    while i < count
        invariant
            i <= count,
            count == config.variants@.len(),
            arms@ == rule_arms(config@.variants, i as nat),
        decreases count - i,
    {
        let arm = rule_arm_text(&config.variants[i]);
        arms.append(arm.as_str());
        i += 1;
    }
    out.append(arms.as_str());
    out.append(
        "            _ => {\n                let mut candidates: Vec<&str> = Vec::new();\n                let mut fallback: Option<Self> = None;\n",
    );
    let mut attempts = String::new();
    let mut i: usize = 0;
    while i < count
        invariant
            i <= count,
            count == config.variants@.len(),
            attempts@ == fallback_attempts(config@.variants, i as nat),
        decreases count - i,
    {
        let attempt = fallback_attempt_text(&config.variants[i]);
        attempts.append(attempt.as_str());
        i += 1;
    }
    out.append(attempts.as_str());
    let decision = fallback_decision_text(target);
    out.append(decision.as_str());
    out
}

fn to_string_arm_text(variant: &VariantConversion) -> (out: String)
    ensures
        out@ == to_string_arm(variant@),
{
    let mut out = String::from_str("            Self::");
    out.append(variant.name.as_str());
    let rest = match &variant.mapping {
        Mapping::Literals { literals } => {
            let mut rest = String::from_str(" => ");
            if literals.len() > 0 {
                push_literal(&mut rest, literals[0].as_str());
            } else {
                push_literal(&mut rest, variant.name.as_str());
            }
            rest.append(".to_string(),\n");
            rest
        },
        Mapping::RuleName { text } => {
            let mut rest = String::from_str(" => ");
            push_literal(&mut rest, text.as_str());
            rest.append(".to_string(),\n");
            rest
        },
        Mapping::WrappedLiterals { .. } => String::from_str("(ref v) => v.to_string(),\n"),
        Mapping::Fallback { .. } => String::from_str("(ref v) => v.to_string(),\n"),
    };
    out.append(rest.as_str());
    out
}

/// Writes the conversion to strings of an enum under a resolved
/// configuration.
pub fn generate_to_string(declaration: &TypeDeclaration, config: &ConversionConfig) -> (out: String)
    ensures
        out@ == to_string_code(*declaration, config@),
{
    let mut out = impl_header_text(
        declaration.generics.impl_generics.as_str(),
        "ToString",
        declaration.name.as_str(),
        declaration.generics.type_generics.as_str(),
        declaration.generics.where_clause.as_str(),
    );
    out.append("    fn to_string(&self) -> String {\n        match *self {\n");
    let count = config.variants.len();
    let mut arms = String::new();
    let mut i: usize = 0;
    while i < count
        invariant
            i <= count,
            count == config.variants@.len(),
            arms@ == to_string_arms(config@.variants, i as nat),
        decreases count - i,
    {
        let arm = to_string_arm_text(&config.variants[i]);
        arms.append(arm.as_str());
        i += 1;
    }
    out.append(arms.as_str());
    out.append("        }\n    }\n}\n");
    out
}

} // verus!
