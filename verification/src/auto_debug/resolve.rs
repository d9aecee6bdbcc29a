//! Resolution of the debug annotations: the settings of the type first,
//! then those of each member, clause by clause in attachment order.

use vstd::prelude::*;
use crate::annotation::{
    check_flag,
    flag_problem,
    invalid,
    read_single,
    recognize,
    recognized,
    single_value,
};
use crate::auto_debug::{
    check_debug_format,
    check_debug_style,
    effective_format,
    format_of,
    member_views,
    style_of,
    DebugFormat,
    DebugStyle,
    MemberConfig,
    MemberConfigView,
    ResolvedConfig,
    ResolvedConfigView,
    TypeConfig,
};
use crate::declaration::{AnnotationClause, FieldDeclaration, TypeDeclaration, VariantDeclaration};
use crate::diagnostic::{yields, GenerationError, RecognizedKey, ValueProblem};

verus! {

/// The settings of a type without annotations: struct style, debug format.
pub open spec fn default_type_config() -> TypeConfig {
    TypeConfig { style: DebugStyle::Struct, default_format: DebugFormat::Debug }
}

/// The settings of a member without annotations.
pub open spec fn default_member_config() -> MemberConfigView {
    MemberConfigView { override_name: None, override_value: None, ignored: false, format: None }
}

/// What one clause of the type does to its settings. `style` counts only
/// for structs (`with_style`); every other key but `format` is skipped.
pub open spec fn type_step(
    config: TypeConfig,
    clause: AnnotationClause,
    with_style: bool,
) -> Result<TypeConfig, (RecognizedKey, ValueProblem)> {
    let key = recognized(clause.key@);
    if key == Some(RecognizedKey::Style) && with_style {
        match single_value(clause) {
            Err(problem) => Err((RecognizedKey::Style, problem)),
            Ok(text) => match style_of(text) {
                Some(style) => Ok(TypeConfig { style, default_format: config.default_format }),
                None => Err((RecognizedKey::Style, ValueProblem::NotInLegalSet)),
            },
        }
    } else if key == Some(RecognizedKey::Format) {
        match single_value(clause) {
            Err(problem) => Err((RecognizedKey::Format, problem)),
            Ok(text) => match format_of(text) {
                Some(format) => Ok(TypeConfig { style: config.style, default_format: format }),
                None => Err((RecognizedKey::Format, ValueProblem::NotInLegalSet)),
            },
        }
    } else {
        Ok(config)
    }
}

/// The settings of the type after its clauses from `from` on, taken in
/// attachment order from `config`: a later clause of a key overrides an
/// earlier one, and the first malformed clause ends the resolution.
pub open spec fn resolve_type_from(
    clauses: Seq<AnnotationClause>,
    from: int,
    config: TypeConfig,
    with_style: bool,
) -> Result<TypeConfig, GenerationError>
    decreases clauses.len() - from,
{
    if from < 0 || from >= clauses.len() {
        Ok(config)
    } else {
        match type_step(config, clauses[from], with_style) {
            Err((key, reason)) => Err(invalid(key, None, from, reason)),
            Ok(next) => resolve_type_from(clauses, from + 1, next, with_style),
        }
    }
}

/// The settings of the type that its clauses resolve to.
pub open spec fn type_config(clauses: Seq<AnnotationClause>, with_style: bool) -> Result<
    TypeConfig,
    GenerationError,
> {
    resolve_type_from(clauses, 0, default_type_config(), with_style)
}

/// What one clause of a member does to its settings. `name` and `value`
/// count only for the fields of a struct (`with_overrides`); `ignore`,
/// `display` and `debug` count for every member.
pub open spec fn member_step(
    config: MemberConfigView,
    clause: AnnotationClause,
    with_overrides: bool,
) -> Result<MemberConfigView, (RecognizedKey, ValueProblem)> {
    let key = recognized(clause.key@);
    if key == Some(RecognizedKey::Name) && with_overrides {
        match single_value(clause) {
            Err(problem) => Err((RecognizedKey::Name, problem)),
            Ok(text) => Ok(MemberConfigView { override_name: Some(text), ..config }),
        }
    } else if key == Some(RecognizedKey::Value) && with_overrides {
        match single_value(clause) {
            Err(problem) => Err((RecognizedKey::Value, problem)),
            Ok(text) => Ok(MemberConfigView { override_value: Some(text), ..config }),
        }
    } else if key == Some(RecognizedKey::Ignore) {
        match flag_problem(clause) {
            Some(problem) => Err((RecognizedKey::Ignore, problem)),
            None => Ok(MemberConfigView { ignored: true, ..config }),
        }
    } else if key == Some(RecognizedKey::Display) {
        match flag_problem(clause) {
            Some(problem) => Err((RecognizedKey::Display, problem)),
            None => Ok(MemberConfigView { format: Some(DebugFormat::Display), ..config }),
        }
    } else if key == Some(RecognizedKey::Debug) {
        match flag_problem(clause) {
            Some(problem) => Err((RecognizedKey::Debug, problem)),
            None => Ok(MemberConfigView { format: Some(DebugFormat::Debug), ..config }),
        }
    } else {
        Ok(config)
    }
}

/// The settings of member number `member` after its clauses from `from`
/// on, taken in attachment order from `config`.
pub open spec fn resolve_member_from(
    clauses: Seq<AnnotationClause>,
    from: int,
    config: MemberConfigView,
    member: usize,
    with_overrides: bool,
) -> Result<MemberConfigView, GenerationError>
    decreases clauses.len() - from,
{
    if from < 0 || from >= clauses.len() {
        Ok(config)
    } else {
        match member_step(config, clauses[from], with_overrides) {
            Err((key, reason)) => Err(invalid(key, Some(member), from, reason)),
            Ok(next) => resolve_member_from(clauses, from + 1, next, member, with_overrides),
        }
    }
}

/// The settings of member number `member` that its clauses resolve to.
pub open spec fn member_config(
    clauses: Seq<AnnotationClause>,
    member: usize,
    with_overrides: bool,
) -> Result<MemberConfigView, GenerationError> {
    resolve_member_from(clauses, 0, default_member_config(), member, with_overrides)
}

/// The settings of the first `n` members, given the clauses of each: the
/// failure of the first member that has one, else all the settings in
/// order.
pub open spec fn member_configs(
    clauses: Seq<Seq<AnnotationClause>>,
    n: nat,
    with_overrides: bool,
) -> Result<Seq<MemberConfigView>, GenerationError>
    decreases n,
{
    if n == 0 {
        Ok(Seq::empty())
    } else {
        match member_configs(clauses, (n - 1) as nat, with_overrides) {
            Err(error) => Err(error),
            Ok(before) => match member_config(clauses[n - 1], (n - 1) as usize, with_overrides) {
                Err(error) => Err(error),
                Ok(config) => Ok(before.push(config)),
            },
        }
    }
}

/// The clauses of each field, in declaration order.
pub open spec fn field_clauses(fields: Seq<FieldDeclaration>) -> Seq<Seq<AnnotationClause>> {
    Seq::new(fields.len(), |i: int| fields[i].annotations@)
}

/// The clauses of each variant, in declaration order.
pub open spec fn variant_clauses(variants: Seq<VariantDeclaration>) -> Seq<Seq<AnnotationClause>> {
    Seq::new(variants.len(), |i: int| variants[i].annotations@)
}

/// The configuration that the clauses of a type and of its members resolve
/// to. The clauses of the type are resolved first, then those of each
/// member in declaration order; the first failure is the result.
pub open spec fn resolved_config(
    type_clauses: Seq<AnnotationClause>,
    members: Seq<Seq<AnnotationClause>>,
    is_struct: bool,
) -> Result<ResolvedConfigView, GenerationError> {
    match type_config(type_clauses, is_struct) {
        Err(error) => Err(error),
        Ok(config) => match member_configs(members, members.len(), is_struct) {
            Err(error) => Err(error),
            Ok(resolved) => Ok(
                ResolvedConfigView {
                    style: config.style,
                    default_format: config.default_format,
                    members: resolved,
                },
            ),
        },
    }
}

/// A failure among the first `n` members stays the result however many
/// members follow.
pub proof fn lemma_member_failure_stays(
    clauses: Seq<Seq<AnnotationClause>>,
    n: nat,
    m: nat,
    with_overrides: bool,
)
    requires
        n <= m,
        member_configs(clauses, n, with_overrides) is Err,
    ensures
        member_configs(clauses, m, with_overrides) == member_configs(clauses, n, with_overrides),
    decreases m,
{
    if n < m {
        lemma_member_failure_stays(clauses, n, (m - 1) as nat, with_overrides);
    }
}

/// Resolves the clauses of the type itself.
pub fn resolve_type(clauses: &Vec<AnnotationClause>, with_style: bool) -> (r: Result<
    TypeConfig,
    GenerationError,
>)
    ensures
        r == type_config(clauses@, with_style),
{
    let mut config = TypeConfig { style: DebugStyle::Struct, default_format: DebugFormat::Debug };
    let mut i: usize = 0;
    while i < clauses.len()
        invariant
            i <= clauses.len(),
            type_config(clauses@, with_style) == resolve_type_from(
                clauses@,
                i as int,
                config,
                with_style,
            ),
        decreases clauses.len() - i,
    {
        let clause = &clauses[i];
        let key = recognize(clause.key.as_str());
        if key == Some(RecognizedKey::Style) && with_style {
            match read_single(clause) {
                Err(reason) => {
                    return Err(
                        GenerationError::InvalidAnnotationValue {
                            key: RecognizedKey::Style,
                            member: None,
                            clause: i,
                            reason,
                        },
                    );
                },
                Ok(text) => match check_debug_style(text.as_str()) {
                    Some(style) => {
                        config = TypeConfig { style, default_format: config.default_format };
                    },
                    None => {
                        return Err(
                            GenerationError::InvalidAnnotationValue {
                                key: RecognizedKey::Style,
                                member: None,
                                clause: i,
                                reason: ValueProblem::NotInLegalSet,
                            },
                        );
                    },
                },
            }
        } else if key == Some(RecognizedKey::Format) {
            match read_single(clause) {
                Err(reason) => {
                    return Err(
                        GenerationError::InvalidAnnotationValue {
                            key: RecognizedKey::Format,
                            member: None,
                            clause: i,
                            reason,
                        },
                    );
                },
                Ok(text) => match check_debug_format(text.as_str()) {
                    Some(format) => {
                        config = TypeConfig { style: config.style, default_format: format };
                    },
                    None => {
                        return Err(
                            GenerationError::InvalidAnnotationValue {
                                key: RecognizedKey::Format,
                                member: None,
                                clause: i,
                                reason: ValueProblem::NotInLegalSet,
                            },
                        );
                    },
                },
            }
        }
        i += 1;
    }
    Ok(config)
}

/// Resolves the clauses of member number `member`.
pub fn resolve_member(clauses: &Vec<AnnotationClause>, member: usize, with_overrides: bool) -> (r:
    Result<MemberConfig, GenerationError>)
    ensures
        yields(r, member_config(clauses@, member, with_overrides)),
{
    let mut config = MemberConfig {
        override_name: None,
        override_value: None,
        ignored: false,
        format: None,
    };
    let mut i: usize = 0;
    while i < clauses.len()
        invariant
            i <= clauses.len(),
            member_config(clauses@, member, with_overrides) == resolve_member_from(
                clauses@,
                i as int,
                config@,
                member,
                with_overrides,
            ),
        decreases clauses.len() - i,
    {
        let clause = &clauses[i];
        let key = recognize(clause.key.as_str());
        if key == Some(RecognizedKey::Name) && with_overrides {
            match read_single(clause) {
                Err(reason) => {
                    return Err(
                        GenerationError::InvalidAnnotationValue {
                            key: RecognizedKey::Name,
                            member: Some(member),
                            clause: i,
                            reason,
                        },
                    );
                },
                Ok(text) => {
                    config.override_name = Some(text.clone());
                },
            }
        } else if key == Some(RecognizedKey::Value) && with_overrides {
            match read_single(clause) {
                Err(reason) => {
                    return Err(
                        GenerationError::InvalidAnnotationValue {
                            key: RecognizedKey::Value,
                            member: Some(member),
                            clause: i,
                            reason,
                        },
                    );
                },
                Ok(text) => {
                    config.override_value = Some(text.clone());
                },
            }
        } else if key == Some(RecognizedKey::Ignore) {
            match check_flag(clause) {
                Some(reason) => {
                    return Err(
                        GenerationError::InvalidAnnotationValue {
                            key: RecognizedKey::Ignore,
                            member: Some(member),
                            clause: i,
                            reason,
                        },
                    );
                },
                None => {
                    config.ignored = true;
                },
            }
        } else if key == Some(RecognizedKey::Display) {
            match check_flag(clause) {
                Some(reason) => {
                    return Err(
                        GenerationError::InvalidAnnotationValue {
                            key: RecognizedKey::Display,
                            member: Some(member),
                            clause: i,
                            reason,
                        },
                    );
                },
                None => {
                    config.format = Some(DebugFormat::Display);
                },
            }
        } else if key == Some(RecognizedKey::Debug) {
            match check_flag(clause) {
                Some(reason) => {
                    return Err(
                        GenerationError::InvalidAnnotationValue {
                            key: RecognizedKey::Debug,
                            member: Some(member),
                            clause: i,
                            reason,
                        },
                    );
                },
                None => {
                    config.format = Some(DebugFormat::Debug);
                },
            }
        }
        i += 1;
    }
    Ok(config)
}

/// Resolves the configuration of a struct: the clauses of the type, then
/// those of each field in declaration order.
pub fn resolve_struct_config(declaration: &TypeDeclaration, fields: &Vec<FieldDeclaration>) -> (r:
    Result<ResolvedConfig, GenerationError>)
    ensures
        yields(r, resolved_config(declaration.annotations@, field_clauses(fields@), true)),
        r matches Ok(config) ==> config.members@.len() == fields@.len(),
{
    let config = match resolve_type(&declaration.annotations, true) {
        Ok(config) => config,
        Err(error) => {
            return Err(error);
        },
    };
    let ghost clauses = field_clauses(fields@);
    let mut members: Vec<MemberConfig> = Vec::new();
    let mut i: usize = 0;
    assert(member_views(members@) =~= Seq::empty());
    while i < fields.len()
        invariant
            i <= fields.len(),
            clauses == field_clauses(fields@),
            type_config(declaration.annotations@, true) == Ok::<TypeConfig, GenerationError>(
                config,
            ),
            members@.len() == i,
            member_configs(clauses, i as nat, true) == Ok::<
                Seq<MemberConfigView>,
                GenerationError,
            >(member_views(members@)),
        decreases fields.len() - i,
    {
        match resolve_member(&fields[i].annotations, i, true) {
            Err(error) => {
                proof {
                    lemma_member_failure_stays(clauses, (i + 1) as nat, clauses.len(), true);
                }
                return Err(error);
            },
            Ok(member) => {
                let ghost before = member_views(members@);
                members.push(member);
                assert(member_views(members@) =~= before.push(member@));
            },
        }
        i += 1;
    }
    Ok(ResolvedConfig { style: config.style, default_format: config.default_format, members })
}

/// Resolves the configuration of an enum: the `format` of the type, then
/// the flags of each variant in declaration order.
pub fn resolve_enum_config(declaration: &TypeDeclaration, variants: &Vec<VariantDeclaration>) -> (r:
    Result<ResolvedConfig, GenerationError>)
    ensures
        yields(r, resolved_config(declaration.annotations@, variant_clauses(variants@), false)),
        r matches Ok(config) ==> config.members@.len() == variants@.len(),
{
    let config = match resolve_type(&declaration.annotations, false) {
        Ok(config) => config,
        Err(error) => {
            return Err(error);
        },
    };
    let ghost clauses = variant_clauses(variants@);
    let mut members: Vec<MemberConfig> = Vec::new();
    let mut i: usize = 0;
    assert(member_views(members@) =~= Seq::empty());
    while i < variants.len()
        invariant
            i <= variants.len(),
            clauses == variant_clauses(variants@),
            type_config(declaration.annotations@, false) == Ok::<TypeConfig, GenerationError>(
                config,
            ),
            members@.len() == i,
            member_configs(clauses, i as nat, false) == Ok::<
                Seq<MemberConfigView>,
                GenerationError,
            >(member_views(members@)),
        decreases variants.len() - i,
    {
        match resolve_member(&variants[i].annotations, i, false) {
            Err(error) => {
                proof {
                    lemma_member_failure_stays(clauses, (i + 1) as nat, clauses.len(), false);
                }
                return Err(error);
            },
            Ok(member) => {
                let ghost before = member_views(members@);
                members.push(member);
                assert(member_views(members@) =~= before.push(member@));
            },
        }
        i += 1;
    }
    Ok(ResolvedConfig { style: config.style, default_format: config.default_format, members })
}

/// A member that is ignored at some clause stays ignored to the end.
pub proof fn lemma_ignore_stays(
    clauses: Seq<AnnotationClause>,
    from: int,
    config: MemberConfigView,
    member: usize,
    with_overrides: bool,
)
    requires
        0 <= from,
        config.ignored,
        resolve_member_from(clauses, from, config, member, with_overrides) is Ok,
    ensures
        resolve_member_from(clauses, from, config, member, with_overrides)->Ok_0.ignored,
    decreases clauses.len() - from,
{
    if from < clauses.len() {
        let next = member_step(config, clauses[from], with_overrides)->Ok_0;
        lemma_ignore_stays(clauses, from + 1, next, member, with_overrides);
    }
}

/// A clause with the key `ignore` makes the member ignored, wherever among
/// the clauses of the member it stands.
pub proof fn lemma_ignore_applies(
    clauses: Seq<AnnotationClause>,
    from: int,
    config: MemberConfigView,
    member: usize,
    with_overrides: bool,
    at: int,
)
    requires
        0 <= from <= at < clauses.len(),
        recognized(clauses[at].key@) == Some(RecognizedKey::Ignore),
        resolve_member_from(clauses, from, config, member, with_overrides) is Ok,
    ensures
        resolve_member_from(clauses, from, config, member, with_overrides)->Ok_0.ignored,
    decreases clauses.len() - from,
{
    let next = member_step(config, clauses[from], with_overrides)->Ok_0;
    if from == at {
        lemma_ignore_stays(clauses, from + 1, next, member, with_overrides);
    } else {
        lemma_ignore_applies(clauses, from + 1, next, member, with_overrides, at);
    }
}

/// The overriding name is not touched by clauses with other keys.
pub proof fn lemma_name_stays(
    clauses: Seq<AnnotationClause>,
    from: int,
    config: MemberConfigView,
    member: usize,
    with_overrides: bool,
)
    requires
        0 <= from,
        forall|k: int|
            from <= k < clauses.len() ==> recognized(#[trigger] clauses[k].key@) != Some(
                RecognizedKey::Name,
            ),
        resolve_member_from(clauses, from, config, member, with_overrides) is Ok,
    ensures
        resolve_member_from(clauses, from, config, member, with_overrides)->Ok_0.override_name
            == config.override_name,
    decreases clauses.len() - from,
{
    if from < clauses.len() {
        let next = member_step(config, clauses[from], with_overrides)->Ok_0;
        lemma_name_stays(clauses, from + 1, next, member, with_overrides);
    }
}

/// The last clause with the key `name` gives the overriding name.
pub proof fn lemma_name_applies(
    clauses: Seq<AnnotationClause>,
    from: int,
    config: MemberConfigView,
    member: usize,
    at: int,
)
    requires
        0 <= from <= at < clauses.len(),
        recognized(clauses[at].key@) == Some(RecognizedKey::Name),
        forall|k: int|
            at < k < clauses.len() ==> recognized(#[trigger] clauses[k].key@) != Some(
                RecognizedKey::Name,
            ),
        resolve_member_from(clauses, from, config, member, true) is Ok,
    ensures
        single_value(clauses[at]) is Ok,
        resolve_member_from(clauses, from, config, member, true)->Ok_0.override_name == Some(
            single_value(clauses[at])->Ok_0,
        ),
    decreases clauses.len() - from,
{
    let next = member_step(config, clauses[from], true)->Ok_0;
    if from == at {
        lemma_name_stays(clauses, from + 1, next, member, true);
    } else {
        lemma_name_applies(clauses, from + 1, next, member, at);
    }
}

/// The overriding value is not touched by clauses with other keys.
pub proof fn lemma_value_stays(
    clauses: Seq<AnnotationClause>,
    from: int,
    config: MemberConfigView,
    member: usize,
    with_overrides: bool,
)
    requires
        0 <= from,
        forall|k: int|
            from <= k < clauses.len() ==> recognized(#[trigger] clauses[k].key@) != Some(
                RecognizedKey::Value,
            ),
        resolve_member_from(clauses, from, config, member, with_overrides) is Ok,
    ensures
        resolve_member_from(clauses, from, config, member, with_overrides)->Ok_0.override_value
            == config.override_value,
    decreases clauses.len() - from,
{
    if from < clauses.len() {
        let next = member_step(config, clauses[from], with_overrides)->Ok_0;
        lemma_value_stays(clauses, from + 1, next, member, with_overrides);
    }
}

/// The last clause with the key `value` gives the overriding value.
pub proof fn lemma_value_applies(
    clauses: Seq<AnnotationClause>,
    from: int,
    config: MemberConfigView,
    member: usize,
    at: int,
)
    requires
        0 <= from <= at < clauses.len(),
        recognized(clauses[at].key@) == Some(RecognizedKey::Value),
        forall|k: int|
            at < k < clauses.len() ==> recognized(#[trigger] clauses[k].key@) != Some(
                RecognizedKey::Value,
            ),
        resolve_member_from(clauses, from, config, member, true) is Ok,
    ensures
        single_value(clauses[at]) is Ok,
        resolve_member_from(clauses, from, config, member, true)->Ok_0.override_value == Some(
            single_value(clauses[at])->Ok_0,
        ),
    decreases clauses.len() - from,
{
    let next = member_step(config, clauses[from], true)->Ok_0;
    if from == at {
        lemma_value_stays(clauses, from + 1, next, member, true);
    } else {
        lemma_value_applies(clauses, from + 1, next, member, at);
    }
}

/// Whether a clause forces a format on its member.
pub open spec fn forces_format(clause: AnnotationClause) -> bool {
    recognized(clause.key@) == Some(RecognizedKey::Display) || recognized(clause.key@) == Some(
        RecognizedKey::Debug,
    )
}

/// The forced format is not touched by clauses with other keys.
pub proof fn lemma_format_stays(
    clauses: Seq<AnnotationClause>,
    from: int,
    config: MemberConfigView,
    member: usize,
    with_overrides: bool,
)
    requires
        0 <= from,
        forall|k: int| from <= k < clauses.len() ==> !forces_format(#[trigger] clauses[k]),
        resolve_member_from(clauses, from, config, member, with_overrides) is Ok,
    ensures
        resolve_member_from(clauses, from, config, member, with_overrides)->Ok_0.format
            == config.format,
    decreases clauses.len() - from,
{
    if from < clauses.len() {
        let next = member_step(config, clauses[from], with_overrides)->Ok_0;
        lemma_format_stays(clauses, from + 1, next, member, with_overrides);
    }
}

/// The last clause with the key `display` or `debug` gives the format of
/// the member.
pub proof fn lemma_format_applies(
    clauses: Seq<AnnotationClause>,
    from: int,
    config: MemberConfigView,
    member: usize,
    with_overrides: bool,
    at: int,
)
    requires
        0 <= from <= at < clauses.len(),
        forces_format(clauses[at]),
        forall|k: int| at < k < clauses.len() ==> !forces_format(#[trigger] clauses[k]),
        resolve_member_from(clauses, from, config, member, with_overrides) is Ok,
    ensures
        resolve_member_from(clauses, from, config, member, with_overrides)->Ok_0.format == Some(
            if recognized(clauses[at].key@) == Some(RecognizedKey::Display) {
                DebugFormat::Display
            } else {
                DebugFormat::Debug
            },
        ),
    decreases clauses.len() - from,
{
    let next = member_step(config, clauses[from], with_overrides)->Ok_0;
    if from == at {
        lemma_format_stays(clauses, from + 1, next, member, with_overrides);
    } else {
        lemma_format_applies(clauses, from + 1, next, member, with_overrides, at);
    }
}

/// Resolution of a member. Where the clauses of a member resolve without
/// failure: a clause `ignore` anywhere among them makes the member ignored;
/// the last clause `name` gives its overriding name and the last clause
/// `value` its overriding value (both for the fields of a struct); and the
/// last clause `display` or `debug` gives its format, which then replaces
/// the default of the type.
pub proof fn law_last_clause_wins(
    clauses: Seq<AnnotationClause>,
    member: usize,
    with_overrides: bool,
    at: int,
    default_format: DebugFormat,
)
    requires
        0 <= at < clauses.len(),
        member_config(clauses, member, with_overrides) is Ok,
    ensures
        ({
            let config = member_config(clauses, member, with_overrides)->Ok_0;
            let key = recognized(clauses[at].key@);
            let last = |wanted: RecognizedKey|
                key == Some(wanted) && forall|k: int|
                    at < k < clauses.len() ==> recognized(#[trigger] clauses[k].key@) != Some(
                        wanted,
                    );
            &&& key == Some(RecognizedKey::Ignore) ==> config.ignored
            &&& with_overrides && last(RecognizedKey::Name) ==> config.override_name == Some(
                single_value(clauses[at])->Ok_0,
            )
            &&& with_overrides && last(RecognizedKey::Value) ==> config.override_value == Some(
                single_value(clauses[at])->Ok_0,
            )
            &&& forces_format(clauses[at]) && (forall|k: int|
                at < k < clauses.len() ==> !forces_format(#[trigger] clauses[k]))
                ==> effective_format(config, default_format) == (if key == Some(
                RecognizedKey::Display,
            ) {
                DebugFormat::Display
            } else {
                DebugFormat::Debug
            })
        }),
{
    let start = default_member_config();
    let key = recognized(clauses[at].key@);
    if key == Some(RecognizedKey::Ignore) {
        lemma_ignore_applies(clauses, 0, start, member, with_overrides, at);
    }
    if with_overrides && key == Some(RecognizedKey::Name) && forall|k: int|
        at < k < clauses.len() ==> recognized(#[trigger] clauses[k].key@) != Some(
            RecognizedKey::Name,
        ) {
        lemma_name_applies(clauses, 0, start, member, at);
    }
    if with_overrides && key == Some(RecognizedKey::Value) && forall|k: int|
        at < k < clauses.len() ==> recognized(#[trigger] clauses[k].key@) != Some(
            RecognizedKey::Value,
        ) {
        lemma_value_applies(clauses, 0, start, member, at);
    }
    if forces_format(clauses[at]) && forall|k: int|
        at < k < clauses.len() ==> !forces_format(#[trigger] clauses[k]) {
        lemma_format_applies(clauses, 0, start, member, with_overrides, at);
    }
}

/// The style is not touched by clauses with other keys.
pub proof fn lemma_style_stays(
    clauses: Seq<AnnotationClause>,
    from: int,
    config: TypeConfig,
    with_style: bool,
)
    requires
        0 <= from,
        !with_style || forall|k: int|
            from <= k < clauses.len() ==> recognized(#[trigger] clauses[k].key@) != Some(
                RecognizedKey::Style,
            ),
        resolve_type_from(clauses, from, config, with_style) is Ok,
    ensures
        resolve_type_from(clauses, from, config, with_style)->Ok_0.style == config.style,
    decreases clauses.len() - from,
{
    if from < clauses.len() {
        let next = type_step(config, clauses[from], with_style)->Ok_0;
        lemma_style_stays(clauses, from + 1, next, with_style);
    }
}

/// The last clause with the key `style` gives the style of a struct.
pub proof fn lemma_style_applies(
    clauses: Seq<AnnotationClause>,
    from: int,
    config: TypeConfig,
    at: int,
)
    requires
        0 <= from <= at < clauses.len(),
        recognized(clauses[at].key@) == Some(RecognizedKey::Style),
        forall|k: int|
            at < k < clauses.len() ==> recognized(#[trigger] clauses[k].key@) != Some(
                RecognizedKey::Style,
            ),
        resolve_type_from(clauses, from, config, true) is Ok,
    ensures
        single_value(clauses[at]) is Ok,
        Some(resolve_type_from(clauses, from, config, true)->Ok_0.style) == style_of(
            single_value(clauses[at])->Ok_0,
        ),
    decreases clauses.len() - from,
{
    let next = type_step(config, clauses[from], true)->Ok_0;
    if from == at {
        lemma_style_stays(clauses, from + 1, next, true);
    } else {
        lemma_style_applies(clauses, from + 1, next, at);
    }
}

/// The default format is not touched by clauses with other keys.
pub proof fn lemma_default_format_stays(
    clauses: Seq<AnnotationClause>,
    from: int,
    config: TypeConfig,
    with_style: bool,
)
    requires
        0 <= from,
        forall|k: int|
            from <= k < clauses.len() ==> recognized(#[trigger] clauses[k].key@) != Some(
                RecognizedKey::Format,
            ),
        resolve_type_from(clauses, from, config, with_style) is Ok,
    ensures
        resolve_type_from(clauses, from, config, with_style)->Ok_0.default_format
            == config.default_format,
    decreases clauses.len() - from,
{
    if from < clauses.len() {
        let next = type_step(config, clauses[from], with_style)->Ok_0;
        lemma_default_format_stays(clauses, from + 1, next, with_style);
    }
}

/// The last clause with the key `format` gives the default format.
pub proof fn lemma_default_format_applies(
    clauses: Seq<AnnotationClause>,
    from: int,
    config: TypeConfig,
    with_style: bool,
    at: int,
)
    requires
        0 <= from <= at < clauses.len(),
        recognized(clauses[at].key@) == Some(RecognizedKey::Format),
        forall|k: int|
            at < k < clauses.len() ==> recognized(#[trigger] clauses[k].key@) != Some(
                RecognizedKey::Format,
            ),
        resolve_type_from(clauses, from, config, with_style) is Ok,
    ensures
        single_value(clauses[at]) is Ok,
        Some(resolve_type_from(clauses, from, config, with_style)->Ok_0.default_format)
            == format_of(single_value(clauses[at])->Ok_0),
    decreases clauses.len() - from,
{
    let next = type_step(config, clauses[from], with_style)->Ok_0;
    if from == at {
        lemma_default_format_stays(clauses, from + 1, next, with_style);
    } else {
        lemma_default_format_applies(clauses, from + 1, next, with_style, at);
    }
}

/// Resolution of the type. Where the clauses of a type resolve without
/// failure: a type without a clause `style` has struct style and one
/// without a clause `format` has debug format; the last clause `style` of
/// a struct names its style and the last clause `format` names the default
/// format; and on an enum no clause `style` has any effect.
pub proof fn law_type_resolution(clauses: Seq<AnnotationClause>, with_style: bool, at: int)
    requires
        type_config(clauses, with_style) is Ok,
    ensures
        ({
            let config = type_config(clauses, with_style)->Ok_0;
            let absent = |wanted: RecognizedKey|
                forall|k: int|
                    0 <= k < clauses.len() ==> recognized(#[trigger] clauses[k].key@) != Some(
                        wanted,
                    );
            let last = |wanted: RecognizedKey|
                0 <= at < clauses.len() && recognized(clauses[at].key@) == Some(wanted)
                    && forall|k: int|
                    at < k < clauses.len() ==> recognized(#[trigger] clauses[k].key@) != Some(
                        wanted,
                    );
            &&& !with_style || absent(RecognizedKey::Style) ==> config.style == DebugStyle::Struct
            &&& absent(RecognizedKey::Format) ==> config.default_format == DebugFormat::Debug
            &&& with_style && last(RecognizedKey::Style) ==> Some(config.style) == style_of(
                single_value(clauses[at])->Ok_0,
            )
            &&& last(RecognizedKey::Format) ==> Some(config.default_format) == format_of(
                single_value(clauses[at])->Ok_0,
            )
        }),
{
    let start = default_type_config();
    if !with_style || forall|k: int|
        0 <= k < clauses.len() ==> recognized(#[trigger] clauses[k].key@) != Some(
            RecognizedKey::Style,
        ) {
        lemma_style_stays(clauses, 0, start, with_style);
    }
    if forall|k: int|
        0 <= k < clauses.len() ==> recognized(#[trigger] clauses[k].key@) != Some(
            RecognizedKey::Format,
        ) {
        lemma_default_format_stays(clauses, 0, start, with_style);
    }
    if 0 <= at < clauses.len() {
        let key = recognized(clauses[at].key@);
        if with_style && key == Some(RecognizedKey::Style) && forall|k: int|
            at < k < clauses.len() ==> recognized(#[trigger] clauses[k].key@) != Some(
                RecognizedKey::Style,
            ) {
            lemma_style_applies(clauses, 0, start, at);
        }
        if key == Some(RecognizedKey::Format) && forall|k: int|
            at < k < clauses.len() ==> recognized(#[trigger] clauses[k].key@) != Some(
                RecognizedKey::Format,
            ) {
            lemma_default_format_applies(clauses, 0, start, with_style, at);
        }
    }
}

} // verus!
