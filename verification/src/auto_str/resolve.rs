//! Resolution of the string-conversion annotations: the rule of the enum
//! first, then the mapping of each variant in declaration order.

use vstd::prelude::*;
use crate::annotation::{
    invalid,
    listed_values,
    read_list,
    read_single,
    recognize,
    recognized,
    single_value,
};
use crate::auto_str::{
    conversion_views,
    explicit_literals,
    parse_rule,
    rule_of,
    rule_text,
    string_target_with_rule,
    ConversionConfig,
    ConversionConfigView,
    Mapping,
    MappingView,
    Rules,
    VariantConversion,
    VariantConversionView,
};
use crate::declaration::{AnnotationClause, TypeDeclaration, VariantDeclaration, VariantFields};
use crate::diagnostic::{
    yields,
    Derivation,
    GenerationError,
    RecognizedKey,
    ShapeProblem,
    ValueProblem,
};
use crate::text::{copy_texts, texts};

verus! {

/// What one clause of the type does to the rule: `autorule` sets it, every
/// other key is skipped.
pub open spec fn rule_step(rule: Option<Rules>, clause: AnnotationClause) -> Result<
    Option<Rules>,
    ValueProblem,
> {
    if recognized(clause.key@) == Some(RecognizedKey::Autorule) {
        match single_value(clause) {
            Err(problem) => Err(problem),
            Ok(text) => match rule_of(text) {
                Some(found) => Ok(Some(found)),
                None => Err(ValueProblem::NotInLegalSet),
            },
        }
    } else {
        Ok(rule)
    }
}

/// The rule after the clauses of the type from `from` on, taken in
/// attachment order from `rule`: a later `autorule` overrides an earlier
/// one, and the first malformed one ends the resolution.
pub open spec fn resolve_rule_from(
    clauses: Seq<AnnotationClause>,
    from: int,
    rule: Option<Rules>,
) -> Result<Option<Rules>, GenerationError>
    decreases clauses.len() - from,
{
    if from < 0 || from >= clauses.len() {
        Ok(rule)
    } else {
        match rule_step(rule, clauses[from]) {
            Err(reason) => Err(invalid(RecognizedKey::Autorule, None, from, reason)),
            Ok(next) => resolve_rule_from(clauses, from + 1, next),
        }
    }
}

/// The rule that the clauses of the type resolve to.
pub open spec fn type_rule(
    clauses: Seq<AnnotationClause>,
) -> Result<Option<Rules>, GenerationError> {
    resolve_rule_from(clauses, 0, None)
}

/// What one clause of a variant does to its literals: `str` sets them,
/// every other key is skipped.
pub open spec fn literals_step(
    literals: Option<Seq<Seq<char>>>,
    clause: AnnotationClause,
) -> Result<Option<Seq<Seq<char>>>, ValueProblem> {
    if recognized(clause.key@) == Some(RecognizedKey::Str) {
        match listed_values(clause) {
            Err(problem) => Err(problem),
            Ok(list) => Ok(Some(texts(list))),
        }
    } else {
        Ok(literals)
    }
}

/// The literals of variant number `member` after its clauses from `from`
/// on, taken in attachment order from `literals`.
pub open spec fn resolve_literals_from(
    clauses: Seq<AnnotationClause>,
    from: int,
    literals: Option<Seq<Seq<char>>>,
    member: usize,
) -> Result<Option<Seq<Seq<char>>>, GenerationError>
    decreases clauses.len() - from,
{
    if from < 0 || from >= clauses.len() {
        Ok(literals)
    } else {
        match literals_step(literals, clauses[from]) {
            Err(reason) => Err(invalid(RecognizedKey::Str, Some(member), from, reason)),
            Ok(next) => resolve_literals_from(clauses, from + 1, next, member),
        }
    }
}

/// The type that a variant wraps: none for a unit variant, the type of the
/// single field of a positional variant. Every other payload is refused.
pub open spec fn wrapped_type(fields: VariantFields) -> Result<Option<Seq<char>>, ShapeProblem> {
    match fields {
        VariantFields::Unit => Ok(None),
        VariantFields::Positional(list) => if list@.len() == 1 {
            Ok(Some(list@[0].type_reference@))
        } else {
            Err(ShapeProblem::VariantPayload)
        },
        VariantFields::Named(_) => Err(ShapeProblem::VariantPayload),
    }
}

/// The mapping of variant number `member` under `rule`: its clauses are
/// resolved first, then its payload is checked.
pub open spec fn variant_mapping(
    variant: VariantDeclaration,
    member: usize,
    rule: Option<Rules>,
) -> Result<MappingView, GenerationError> {
    match resolve_literals_from(variant.annotations@, 0, None, member) {
        Err(error) => Err(error),
        Ok(literals) => match wrapped_type(variant.fields) {
            Err(problem) => Err(
                GenerationError::UnsupportedShape {
                    derivation: Derivation::AutoStr,
                    problem,
                    member: Some(member),
                },
            ),
            Ok(wrapped) => Ok(
                match (literals, wrapped) {
                    (Some(list), None) => MappingView::Literals { literals: list },
                    (Some(list), Some(inner)) => MappingView::WrappedLiterals {
                        literals: list,
                        wrapped: inner,
                    },
                    (None, None) => MappingView::RuleName { text: rule_text(rule, variant.name@) },
                    (None, Some(inner)) => MappingView::Fallback { wrapped: inner },
                },
            ),
        },
    }
}

/// The conversions of the first `n` variants under `rule`: the failure of
/// the first variant that has one, else all the conversions in order.
pub open spec fn variant_conversions(
    variants: Seq<VariantDeclaration>,
    rule: Option<Rules>,
    n: nat,
) -> Result<Seq<VariantConversionView>, GenerationError>
    decreases n,
{
    if n == 0 {
        Ok(Seq::empty())
    } else {
        match variant_conversions(variants, rule, (n - 1) as nat) {
            Err(error) => Err(error),
            Ok(before) => match variant_mapping(variants[n - 1], (n - 1) as usize, rule) {
                Err(error) => Err(error),
                Ok(mapping) => Ok(
                    before.push(VariantConversionView { name: variants[n - 1].name@, mapping }),
                ),
            },
        }
    }
}

/// The configuration that the clauses of an enum and of its variants
/// resolve to. The clauses of the type are resolved first, then each
/// variant in declaration order; the first failure is the result.
pub open spec fn conversion_config(
    type_clauses: Seq<AnnotationClause>,
    variants: Seq<VariantDeclaration>,
) -> Result<ConversionConfigView, GenerationError> {
    match type_rule(type_clauses) {
        Err(error) => Err(error),
        Ok(rule) => match variant_conversions(variants, rule, variants.len()) {
            Err(error) => Err(error),
            Ok(resolved) => Ok(ConversionConfigView { rule, variants: resolved }),
        },
    }
}

/// A failure among the first `n` variants stays the result however many
/// variants follow.
pub proof fn lemma_variant_failure_stays(
    variants: Seq<VariantDeclaration>,
    rule: Option<Rules>,
    n: nat,
    m: nat,
)
    requires
        n <= m,
        variant_conversions(variants, rule, n) is Err,
    ensures
        variant_conversions(variants, rule, m) == variant_conversions(variants, rule, n),
    decreases m,
{
    if n < m {
        lemma_variant_failure_stays(variants, rule, n, (m - 1) as nat);
    }
}

/// Resolves the `autorule` of the type.
pub fn resolve_rule(clauses: &Vec<AnnotationClause>) -> (r: Result<Option<Rules>, GenerationError>)
    ensures
        r == type_rule(clauses@),
{
    let mut rule: Option<Rules> = None;
    let mut i: usize = 0;
    while i < clauses.len()
        invariant
            i <= clauses.len(),
            type_rule(clauses@) == resolve_rule_from(clauses@, i as int, rule),
        decreases clauses.len() - i,
    {
        let clause = &clauses[i];
        if recognize(clause.key.as_str()) == Some(RecognizedKey::Autorule) {
            match read_single(clause) {
                Err(reason) => {
                    return Err(
                        GenerationError::InvalidAnnotationValue {
                            key: RecognizedKey::Autorule,
                            member: None,
                            clause: i,
                            reason,
                        },
                    );
                },
                Ok(text) => match parse_rule(text.as_str()) {
                    Some(found) => {
                        rule = Some(found);
                    },
                    None => {
                        return Err(
                            GenerationError::InvalidAnnotationValue {
                                key: RecognizedKey::Autorule,
                                member: None,
                                clause: i,
                                reason: ValueProblem::NotInLegalSet,
                            },
                        );
                    },
                },
            }
        }
        i += 1;
    }
    Ok(rule)
}

/// The view of an optional list of strings.
pub open spec fn optional_texts(list: Option<Vec<String>>) -> Option<Seq<Seq<char>>> {
    match list {
        Some(found) => Some(texts(found@)),
        None => None,
    }
}

fn resolve_literals(clauses: &Vec<AnnotationClause>, member: usize) -> (r: Result<
    Option<Vec<String>>,
    GenerationError,
>)
    ensures
        match resolve_literals_from(clauses@, 0, None, member) {
            Ok(literals) => r matches Ok(found) && optional_texts(found) == literals,
            Err(error) => r matches Err(found) && found == error,
        },
{
    let mut literals: Option<Vec<String>> = None;
    let mut i: usize = 0;
    while i < clauses.len()
        invariant
            i <= clauses.len(),
            resolve_literals_from(clauses@, 0, None, member) == resolve_literals_from(
                clauses@,
                i as int,
                optional_texts(literals),
                member,
            ),
        decreases clauses.len() - i,
    {
        let clause = &clauses[i];
        if recognize(clause.key.as_str()) == Some(RecognizedKey::Str) {
            match read_list(clause) {
                Err(reason) => {
                    return Err(
                        GenerationError::InvalidAnnotationValue {
                            key: RecognizedKey::Str,
                            member: Some(member),
                            clause: i,
                            reason,
                        },
                    );
                },
                Ok(list) => {
                    literals = Some(copy_texts(list));
                },
            }
        }
        i += 1;
    }
    Ok(literals)
}

fn resolve_wrapped_type(fields: &VariantFields) -> (r: Result<Option<String>, ShapeProblem>)
    ensures
        match wrapped_type(*fields) {
            Ok(Some(inner)) => r matches Ok(Some(found)) && found@ == inner,
            Ok(None) => r matches Ok(None),
            Err(problem) => r matches Err(found) && found == problem,
        },
{
    match fields {
        VariantFields::Unit => Ok(None),
        VariantFields::Positional(list) => if list.len() == 1 {
            Ok(Some(list[0].type_reference.clone()))
        } else {
            Err(ShapeProblem::VariantPayload)
        },
        VariantFields::Named(_) => Err(ShapeProblem::VariantPayload),
    }
}

fn resolve_mapping(variant: &VariantDeclaration, member: usize, rule: &Option<Rules>) -> (r: Result<
    Mapping,
    GenerationError,
>)
    ensures
        yields(r, variant_mapping(*variant, member, *rule)),
{
    let literals = match resolve_literals(&variant.annotations, member) {
        Err(error) => {
            return Err(error);
        },
        Ok(literals) => literals,
    };
    let wrapped = match resolve_wrapped_type(&variant.fields) {
        Err(problem) => {
            return Err(
                GenerationError::UnsupportedShape {
                    derivation: Derivation::AutoStr,
                    problem,
                    member: Some(member),
                },
            );
        },
        Ok(wrapped) => wrapped,
    };
    Ok(
        match (literals, wrapped) {
            (Some(list), None) => Mapping::Literals { literals: list },
            (Some(list), Some(inner)) => Mapping::WrappedLiterals {
                literals: list,
                wrapped: inner,
            },
            (None, None) => Mapping::RuleName {
                text: string_target_with_rule(rule, variant.name.as_str()),
            },
            (None, Some(inner)) => Mapping::Fallback { wrapped: inner },
        },
    )
}

/// Resolves the configuration of the string conversions of an enum: the
/// `autorule` of the type, then the `str` and the payload of each variant
/// in declaration order.
pub fn resolve_conversions(declaration: &TypeDeclaration, variants: &Vec<VariantDeclaration>) -> (r:
    Result<ConversionConfig, GenerationError>)
    ensures
        yields(r, conversion_config(declaration.annotations@, variants@)),
{
    let rule = match resolve_rule(&declaration.annotations) {
        Ok(rule) => rule,
        Err(error) => {
            return Err(error);
        },
    };
    let mut resolved: Vec<VariantConversion> = Vec::new();
    let mut i: usize = 0;
    assert(conversion_views(resolved@) =~= Seq::empty());
    while i < variants.len()
        invariant
            i <= variants.len(),
            type_rule(declaration.annotations@) == Ok::<Option<Rules>, GenerationError>(rule),
            resolved@.len() == i,
            variant_conversions(variants@, rule, i as nat) == Ok::<
                Seq<VariantConversionView>,
                GenerationError,
            >(conversion_views(resolved@)),
        decreases variants.len() - i,
    {
        match resolve_mapping(&variants[i], i, &rule) {
            Err(error) => {
                proof {
                    lemma_variant_failure_stays(variants@, rule, (i + 1) as nat, variants@.len());
                }
                return Err(error);
            },
            Ok(mapping) => {
                let ghost before = conversion_views(resolved@);
                let conversion = VariantConversion { name: variants[i].name.clone(), mapping };
                resolved.push(conversion);
                assert(conversion_views(resolved@) =~= before.push(conversion@));
            },
        }
        i += 1;
    }
    Ok(ConversionConfig { rule, variants: resolved })
}

/// The literals are not touched by clauses with other keys.
pub proof fn lemma_literals_stay(
    clauses: Seq<AnnotationClause>,
    from: int,
    literals: Option<Seq<Seq<char>>>,
    member: usize,
)
    requires
        0 <= from,
        forall|k: int|
            from <= k < clauses.len() ==> recognized(#[trigger] clauses[k].key@) != Some(
                RecognizedKey::Str,
            ),
    ensures
        resolve_literals_from(clauses, from, literals, member) == Ok::<
            Option<Seq<Seq<char>>>,
            GenerationError,
        >(literals),
    decreases clauses.len() - from,
{
    if from < clauses.len() {
        lemma_literals_stay(clauses, from + 1, literals, member);
    }
}

/// The last clause with the key `str` gives the literals.
pub proof fn lemma_literals_apply(
    clauses: Seq<AnnotationClause>,
    from: int,
    literals: Option<Seq<Seq<char>>>,
    member: usize,
    at: int,
)
    requires
        0 <= from <= at < clauses.len(),
        recognized(clauses[at].key@) == Some(RecognizedKey::Str),
        forall|k: int|
            at < k < clauses.len() ==> recognized(#[trigger] clauses[k].key@) != Some(
                RecognizedKey::Str,
            ),
        resolve_literals_from(clauses, from, literals, member) is Ok,
    ensures
        listed_values(clauses[at]) is Ok,
        resolve_literals_from(clauses, from, literals, member) == Ok::<
            Option<Seq<Seq<char>>>,
            GenerationError,
        >(Some(texts(listed_values(clauses[at])->Ok_0))),
    decreases clauses.len() - from,
{
    let next = literals_step(literals, clauses[from])->Ok_0;
    if from == at {
        lemma_literals_stay(clauses, from + 1, next, member);
    } else {
        lemma_literals_apply(clauses, from + 1, next, member, at);
    }
}

/// Resolution of a variant. Where a variant resolves without failure, its
/// last clause `str` gives its explicit literals, of which there is at
/// least one; a variant without such a clause answers to the string that
/// the rule makes of its name if it is a unit, and is a fallback candidate
/// if it wraps a type.
pub proof fn law_variant_resolution(variant: VariantDeclaration, member: usize, rule: Option<Rules>)
    requires
        variant_mapping(variant, member, rule) is Ok,
    ensures
        forall|at: int|
            0 <= at < variant.annotations@.len() && recognized(
                #[trigger] variant.annotations@[at].key@,
            ) == Some(RecognizedKey::Str) && (forall|k: int|
                at < k < variant.annotations@.len() ==> recognized(
                    #[trigger] variant.annotations@[k].key@,
                ) != Some(RecognizedKey::Str)) ==> {
                let mapping = variant_mapping(variant, member, rule)->Ok_0;
                &&& mapping is Literals || mapping is WrappedLiterals
                &&& listed_values(variant.annotations@[at]) is Ok
                &&& explicit_literals(mapping) == texts(
                    listed_values(variant.annotations@[at])->Ok_0,
                )
                &&& explicit_literals(mapping).len() > 0
            },
        (forall|k: int|
            0 <= k < variant.annotations@.len() ==> recognized(
                #[trigger] variant.annotations@[k].key@,
            ) != Some(RecognizedKey::Str)) ==> {
            let mapping = variant_mapping(variant, member, rule)->Ok_0;
            &&& variant.fields is Unit ==> mapping == MappingView::RuleName {
                text: rule_text(rule, variant.name@),
            }
            &&& !(variant.fields is Unit) ==> mapping is Fallback
        },
{
    let clauses = variant.annotations@;
    assert forall|at: int|
        0 <= at < clauses.len() && recognized(#[trigger] clauses[at].key@) == Some(
            RecognizedKey::Str,
        ) && (forall|k: int|
            at < k < clauses.len() ==> recognized(#[trigger] clauses[k].key@) != Some(
                RecognizedKey::Str,
            )) implies {
        let mapping = variant_mapping(variant, member, rule)->Ok_0;
        &&& mapping is Literals || mapping is WrappedLiterals
        &&& listed_values(clauses[at]) is Ok
        &&& explicit_literals(mapping) == texts(listed_values(clauses[at])->Ok_0)
        &&& explicit_literals(mapping).len() > 0
    } by {
        lemma_literals_apply(clauses, 0, None, member, at);
    }
    if forall|k: int|
        0 <= k < clauses.len() ==> recognized(#[trigger] clauses[k].key@) != Some(
            RecognizedKey::Str,
        ) {
        lemma_literals_stay(clauses, 0, None, member);
    }
}

/// The rule is not touched by clauses with other keys.
pub proof fn lemma_rule_stays(clauses: Seq<AnnotationClause>, from: int, rule: Option<Rules>)
    requires
        0 <= from,
        forall|k: int|
            from <= k < clauses.len() ==> recognized(#[trigger] clauses[k].key@) != Some(
                RecognizedKey::Autorule,
            ),
    ensures
        resolve_rule_from(clauses, from, rule) == Ok::<Option<Rules>, GenerationError>(rule),
    decreases clauses.len() - from,
{
    if from < clauses.len() {
        lemma_rule_stays(clauses, from + 1, rule);
    }
}

/// The last clause with the key `autorule` gives the rule.
pub proof fn lemma_rule_applies(
    clauses: Seq<AnnotationClause>,
    from: int,
    rule: Option<Rules>,
    at: int,
)
    requires
        0 <= from <= at < clauses.len(),
        recognized(clauses[at].key@) == Some(RecognizedKey::Autorule),
        forall|k: int|
            at < k < clauses.len() ==> recognized(#[trigger] clauses[k].key@) != Some(
                RecognizedKey::Autorule,
            ),
        resolve_rule_from(clauses, from, rule) is Ok,
    ensures
        single_value(clauses[at]) is Ok,
        rule_of(single_value(clauses[at])->Ok_0) is Some,
        resolve_rule_from(clauses, from, rule) == Ok::<Option<Rules>, GenerationError>(
            rule_of(single_value(clauses[at])->Ok_0),
        ),
    decreases clauses.len() - from,
{
    let next = rule_step(rule, clauses[from])->Ok_0;
    if from == at {
        lemma_rule_stays(clauses, from + 1, next);
    } else {
        lemma_rule_applies(clauses, from + 1, next, at);
    }
}

/// Resolution of the rule. An enum without a clause `autorule` has no
/// rule, so that the names of its variants stand for themselves; where the
/// clauses resolve without failure, the last clause `autorule` names the
/// rule.
pub proof fn law_rule_resolution(clauses: Seq<AnnotationClause>, at: int, name: Seq<char>)
    ensures
        (forall|k: int|
            0 <= k < clauses.len() ==> recognized(#[trigger] clauses[k].key@) != Some(
                RecognizedKey::Autorule,
            )) ==> type_rule(clauses) == Ok::<Option<Rules>, GenerationError>(None) && rule_text(
            None,
            name,
        ) == name,
        type_rule(clauses) is Ok && 0 <= at < clauses.len() && recognized(clauses[at].key@)
            == Some(RecognizedKey::Autorule) && (forall|k: int|
            at < k < clauses.len() ==> recognized(#[trigger] clauses[k].key@) != Some(
                RecognizedKey::Autorule,
            )) ==> type_rule(clauses) == Ok::<Option<Rules>, GenerationError>(
            rule_of(single_value(clauses[at])->Ok_0),
        ),
{
    if forall|k: int|
        0 <= k < clauses.len() ==> recognized(#[trigger] clauses[k].key@) != Some(
            RecognizedKey::Autorule,
        ) {
        lemma_rule_stays(clauses, 0, None);
    }
    if type_rule(clauses) is Ok && 0 <= at < clauses.len() && recognized(clauses[at].key@) == Some(
        RecognizedKey::Autorule,
    ) && (forall|k: int|
        at < k < clauses.len() ==> recognized(#[trigger] clauses[k].key@) != Some(
            RecognizedKey::Autorule,
        )) {
        lemma_rule_applies(clauses, 0, None, at);
    }
}

} // verus!
