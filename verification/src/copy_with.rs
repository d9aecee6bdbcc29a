//! The partial-copy generator: resolves the `copy` annotation of the fields
//! of a struct and synthesizes the merge that copies every field of the
//! other value that is not at its default.

use vstd::prelude::*;
use vstd::string::StringExecFns;
use crate::annotation::{check_flag, flag_problem, invalid, recognize, recognized};
use crate::declaration::{
    field_accessor,
    field_accessor_text,
    normalize,
    normalized,
    AnnotationClause,
    FieldDeclaration,
    RawDeclaration,
    Shape,
    TypeDeclaration,
};
use crate::diagnostic::{
    deliver,
    delivers,
    yields,
    Derivation,
    GenerationError,
    GenerationResult,
    RecognizedKey,
    ShapeProblem,
    ValueProblem,
};
use crate::text::{impl_header, impl_header_text};

verus! {

/// How the merge treats one field.
#[derive(Debug, Clone, Copy, PartialEq, Eq, Structural)]
pub enum MergeMode {
    /// The field's own merge takes the other value's field in.
    Delegate,
    /// The other value's field replaces this one unless it is at the
    /// default of its type.
    ReplaceIfSet,
}

/// One field of the merge.
#[derive(Debug, Clone, PartialEq, Eq)]
pub struct FieldMerge {
    /// How the field is reached: its name, or its position.
    pub accessor: String,
    /// The declared type, whose default the field is compared with.
    pub type_reference: String,
    pub mode: MergeMode,
}

/// The resolved configuration of the merge: one entry for each field, in
/// declaration order.
#[derive(Debug, Clone, PartialEq, Eq)]
pub struct MergeConfig {
    pub fields: Vec<FieldMerge>,
}

/// One field of the merge, as plain text.
pub struct FieldMergeView {
    pub accessor: Seq<char>,
    pub type_reference: Seq<char>,
    pub mode: MergeMode,
}

impl View for FieldMerge {
    type V = FieldMergeView;

    open spec fn view(&self) -> FieldMergeView {
        FieldMergeView {
            accessor: self.accessor@,
            type_reference: self.type_reference@,
            mode: self.mode,
        }
    }
}

/// The views of the fields of a merge, in order.
pub open spec fn merge_views(fields: Seq<FieldMerge>) -> Seq<FieldMergeView> {
    Seq::new(fields.len(), |i: int| fields[i]@)
}

impl View for MergeConfig {
    type V = Seq<FieldMergeView>;

    open spec fn view(&self) -> Seq<FieldMergeView> {
        merge_views(self.fields@)
    }
}

/// Whether a type is written as a borrow.
pub open spec fn borrowed(type_reference: Seq<char>) -> bool {
    type_reference.len() > 0 && type_reference[0] == '&'
}

/// What one clause of a field does to its mode: `copy` delegates, every
/// other key is skipped.
pub open spec fn mode_step(mode: MergeMode, clause: AnnotationClause) -> Result<
    MergeMode,
    ValueProblem,
> {
    if recognized(clause.key@) == Some(RecognizedKey::Copy) {
        match flag_problem(clause) {
            Some(problem) => Err(problem),
            None => Ok(MergeMode::Delegate),
        }
    } else {
        Ok(mode)
    }
}

/// The mode of field number `member` after its clauses from `from` on,
/// taken in attachment order from `mode`.
pub open spec fn resolve_mode_from(
    clauses: Seq<AnnotationClause>,
    from: int,
    mode: MergeMode,
    member: usize,
) -> Result<MergeMode, GenerationError>
    decreases clauses.len() - from,
{
    if from < 0 || from >= clauses.len() {
        Ok(mode)
    } else {
        match mode_step(mode, clauses[from]) {
            Err(reason) => Err(invalid(RecognizedKey::Copy, Some(member), from, reason)),
            Ok(next) => resolve_mode_from(clauses, from + 1, next, member),
        }
    }
}

/// The merge of field number `member`: its clauses are resolved first,
/// then a borrowed type is refused, since a copy of it would alias what
/// the other value borrows.
pub open spec fn field_merge(field: FieldDeclaration, member: usize) -> Result<
    FieldMergeView,
    GenerationError,
> {
    match resolve_mode_from(field.annotations@, 0, MergeMode::ReplaceIfSet, member) {
        Err(error) => Err(error),
        Ok(mode) => if borrowed(field.type_reference@) {
            Err(
                GenerationError::UnsupportedShape {
                    derivation: Derivation::CopyWith,
                    problem: ShapeProblem::ReferenceField,
                    member: Some(member),
                },
            )
        } else {
            Ok(
                FieldMergeView {
                    accessor: field_accessor(field, member as int),
                    type_reference: field.type_reference@,
                    mode,
                },
            )
        },
    }
}

/// The merges of the first `n` fields: the failure of the first field that
/// has one, else all the merges in order.
pub open spec fn field_merges(fields: Seq<FieldDeclaration>, n: nat) -> Result<
    Seq<FieldMergeView>,
    GenerationError,
>
    decreases n,
{
    if n == 0 {
        Ok(Seq::empty())
    } else {
        match field_merges(fields, (n - 1) as nat) {
            Err(error) => Err(error),
            Ok(before) => match field_merge(fields[n - 1], (n - 1) as usize) {
                Err(error) => Err(error),
                Ok(merge) => Ok(before.push(merge)),
            },
        }
    }
}

/// The configuration that the fields of a struct resolve to.
pub open spec fn merge_config(fields: Seq<FieldDeclaration>) -> Result<
    Seq<FieldMergeView>,
    GenerationError,
> {
    field_merges(fields, fields.len())
}

/// A failure among the first `n` fields stays the result however many
/// fields follow.
pub proof fn lemma_field_failure_stays(fields: Seq<FieldDeclaration>, n: nat, m: nat)
    requires
        n <= m,
        field_merges(fields, n) is Err,
    ensures
        field_merges(fields, m) == field_merges(fields, n),
    decreases m,
{
    if n < m {
        lemma_field_failure_stays(fields, n, (m - 1) as nat);
    }
}

fn resolve_mode(clauses: &Vec<AnnotationClause>, member: usize) -> (r: Result<
    MergeMode,
    GenerationError,
>)
    ensures
        r == resolve_mode_from(clauses@, 0, MergeMode::ReplaceIfSet, member),
{
    let mut mode = MergeMode::ReplaceIfSet;
    let mut i: usize = 0;
    while i < clauses.len()
        invariant
            i <= clauses.len(),
            resolve_mode_from(clauses@, 0, MergeMode::ReplaceIfSet, member) == resolve_mode_from(
                clauses@,
                i as int,
                mode,
                member,
            ),
        decreases clauses.len() - i,
    {
        let clause = &clauses[i];
        if recognize(clause.key.as_str()) == Some(RecognizedKey::Copy) {
            match check_flag(clause) {
                Some(reason) => {
                    return Err(
                        GenerationError::InvalidAnnotationValue {
                            key: RecognizedKey::Copy,
                            member: Some(member),
                            clause: i,
                            reason,
                        },
                    );
                },
                None => {
                    mode = MergeMode::Delegate;
                },
            }
        }
        i += 1;
    }
    Ok(mode)
}

/// Whether a type is written as a borrow.
pub fn is_borrowed(type_reference: &str) -> (r: bool)
    ensures
        r == borrowed(type_reference@),
{
    type_reference.unicode_len() > 0 && type_reference.get_char(0) == '&'
}

fn resolve_field(
    field: &FieldDeclaration,
    member: usize,
) -> (r: Result<FieldMerge, GenerationError>)
    ensures
        yields(r, field_merge(*field, member)),
{
    let mode = match resolve_mode(&field.annotations, member) {
        Err(error) => {
            return Err(error);
        },
        Ok(mode) => mode,
    };
    if is_borrowed(field.type_reference.as_str()) {
        return Err(
            GenerationError::UnsupportedShape {
                derivation: Derivation::CopyWith,
                problem: ShapeProblem::ReferenceField,
                member: Some(member),
            },
        );
    }
    let accessor = field_accessor_text(field, member);
    Ok(FieldMerge { accessor, type_reference: field.type_reference.clone(), mode })
}

/// Resolves the configuration of the merge of a struct, field by field in
/// declaration order.
pub fn resolve_merge(fields: &Vec<FieldDeclaration>) -> (r: Result<MergeConfig, GenerationError>)
    ensures
        yields(r, merge_config(fields@)),
{
    let mut resolved: Vec<FieldMerge> = Vec::new();
    let mut i: usize = 0;
    assert(merge_views(resolved@) =~= Seq::empty());
    while i < fields.len()
        invariant
            i <= fields.len(),
            resolved@.len() == i,
            field_merges(fields@, i as nat) == Ok::<Seq<FieldMergeView>, GenerationError>(
                merge_views(resolved@),
            ),
        decreases fields.len() - i,
    {
        match resolve_field(&fields[i], i) {
            Err(error) => {
                proof {
                    lemma_field_failure_stays(fields@, (i + 1) as nat, fields@.len());
                }
                return Err(error);
            },
            Ok(merge) => {
                let ghost before = merge_views(resolved@);
                resolved.push(merge);
                assert(merge_views(resolved@) =~= before.push(merge@));
            },
        }
        i += 1;
    }
    Ok(MergeConfig { fields: resolved })
}

/// The statement that merges one field.
pub open spec fn merge_statement(field: FieldMergeView) -> Seq<char> {
    match field.mode {
        MergeMode::Delegate => "        self."@ + field.accessor + ".copy_with(&other."@
            + field.accessor + ");\n"@,
        MergeMode::ReplaceIfSet => "        if other."@ + field.accessor + " != <"@
            + field.type_reference + ">::default() {\n            self."@ + field.accessor
            + " = other."@ + field.accessor + ".clone();\n        }\n"@,
    }
}

/// The statements that merge the first `n` fields, in declaration order.
pub open spec fn merge_statements(fields: Seq<FieldMergeView>, n: nat) -> Seq<char>
    decreases n,
{
    if n == 0 {
        Seq::empty()
    } else {
        merge_statements(fields, (n - 1) as nat) + merge_statement(fields[n - 1])
    }
}

/// The merge of a struct under a resolved configuration: one statement for
/// each field, in declaration order, in a single pass.
pub open spec fn merge_code(
    declaration: TypeDeclaration,
    config: Seq<FieldMergeView>,
) -> Seq<char> {
    impl_header(
        declaration.generics.impl_generics@,
        Seq::empty(),
        declaration.name@,
        declaration.generics.type_generics@,
        declaration.generics.where_clause@,
    ) + "    fn copy_with(&mut self, other: &Self) {\n"@ + merge_statements(config, config.len())
        + "    }\n}\n"@
}

/// What the partial-copy derivation hands back for a declaration as the
/// host parser delivers it: the refusal of anything but a struct, or the
/// failure of the resolution, else the merge.
pub open spec fn copy_outcome(input: RawDeclaration) -> Result<Seq<char>, GenerationError> {
    match normalized(input, Derivation::CopyWith) {
        Err(error) => Err(error),
        Ok(declaration) => match declaration.shape {
            Shape::Enum(_) => Err(
                GenerationError::UnsupportedShape {
                    derivation: Derivation::CopyWith,
                    problem: ShapeProblem::NotAStruct,
                    member: None,
                },
            ),
            Shape::Struct(fields) => match merge_config(fields@) {
                Err(error) => Err(error),
                Ok(config) => Ok(merge_code(declaration, config)),
            },
        },
    }
}

fn merge_statement_text(field: &FieldMerge) -> (out: String)
    ensures
        out@ == merge_statement(field@),
{
    match field.mode {
        MergeMode::Delegate => {
            let mut out = String::from_str("        self.");
            out.append(field.accessor.as_str());
            out.append(".copy_with(&other.");
            out.append(field.accessor.as_str());
            out.append(");\n");
            out
        },
        MergeMode::ReplaceIfSet => {
            let mut out = String::from_str("        if other.");
            out.append(field.accessor.as_str());
            out.append(" != <");
            out.append(field.type_reference.as_str());
            out.append(">::default() {\n            self.");
            out.append(field.accessor.as_str());
            out.append(" = other.");
            out.append(field.accessor.as_str());
            out.append(".clone();\n        }\n");
            out
        },
    }
}

/// Writes the merge of a struct under a resolved configuration.
pub fn emit_merge(declaration: &TypeDeclaration, config: &MergeConfig) -> (out: String)
    ensures
        out@ == merge_code(*declaration, config@),
{
    proof {
        reveal_strlit("");
    }
    let mut out = impl_header_text(
        declaration.generics.impl_generics.as_str(),
        "",
        declaration.name.as_str(),
        declaration.generics.type_generics.as_str(),
        declaration.generics.where_clause.as_str(),
    );
    out.append("    fn copy_with(&mut self, other: &Self) {\n");
    let mut statements = String::new();
    let mut i: usize = 0;
    while i < config.fields.len()
        invariant
            i <= config.fields.len(),
            statements@ == merge_statements(config@, i as nat),
        decreases config.fields.len() - i,
    {
        let statement = merge_statement_text(&config.fields[i]);
        statements.append(statement.as_str());
        i += 1;
    }
    out.append(statements.as_str());
    out.append("    }\n}\n");
    out
}

/// The partial-copy derivation: synthesizes the merge of the declared
/// struct, or the diagnostic that takes its place.
pub fn copy_with_internal(input: RawDeclaration) -> (result: GenerationResult)
    ensures
        delivers(result, copy_outcome(input)),
{
    let declaration = match normalize(input, Derivation::CopyWith) {
        Err(error) => {
            return deliver(Err(error));
        },
        Ok(declaration) => declaration,
    };
    match &declaration.shape {
        Shape::Enum(_) => deliver(
            Err(
                GenerationError::UnsupportedShape {
                    derivation: Derivation::CopyWith,
                    problem: ShapeProblem::NotAStruct,
                    member: None,
                },
            ),
        ),
        Shape::Struct(fields) => match resolve_merge(fields) {
            Err(error) => deliver(Err(error)),
            Ok(config) => deliver(Ok(emit_merge(&declaration, &config))),
        },
    }
}

/// The value of a field after the merge. A delegating field holds what its
/// own merge made of the two values; another field holds the other value's
/// field unless that is at the default of its type, and else stays as it
/// was.
pub open spec fn merged_value<T>(
    mode: MergeMode,
    current: T,
    incoming: T,
    incoming_is_default: bool,
    delegated: T,
) -> T {
    match mode {
        MergeMode::Delegate => delegated,
        MergeMode::ReplaceIfSet => if incoming_is_default {
            current
        } else {
            incoming
        },
    }
}

/// Merges one field: `incoming` is the other value's field,
/// `incoming_is_default` says whether it is at the default of its type, and
/// `delegated` is what the field's own merge makes of the two values.
pub fn merge_field<T>(
    mode: MergeMode,
    current: T,
    incoming: T,
    incoming_is_default: bool,
    delegated: T,
) -> (merged: T)
    ensures
        merged == merged_value(mode, current, incoming, incoming_is_default, delegated),
        mode == MergeMode::ReplaceIfSet && incoming_is_default ==> merged == current,
        mode == MergeMode::ReplaceIfSet && !incoming_is_default ==> merged == incoming,
{
    match mode {
        MergeMode::Delegate => delegated,
        MergeMode::ReplaceIfSet => if incoming_is_default {
            current
        } else {
            incoming
        },
    }
}

/// The values of all fields after the merge, given for each field its
/// value, the other value's field, whether that is at the default of its
/// type, and what the field's own merge makes of the two.
pub open spec fn merged_values<T>(
    config: Seq<FieldMergeView>,
    current: Seq<T>,
    incoming: Seq<T>,
    incoming_is_default: Seq<bool>,
    delegated: Seq<T>,
) -> Seq<T> {
    Seq::new(
        config.len(),
        |i: int|
            merged_value(
                config[i].mode,
                current[i],
                incoming[i],
                incoming_is_default[i],
                delegated[i],
            ),
    )
}

impl MergeConfig {
    /// Merges all fields in one pass. Each list holds one entry for each
    /// field, in declaration order; the result is none where a list has
    /// another length.
    pub fn merge<T: Copy>(
        &self,
        current: &Vec<T>,
        incoming: &Vec<T>,
        incoming_is_default: &Vec<bool>,
        delegated: &Vec<T>,
    ) -> (merged: Option<Vec<T>>)
        ensures
            merged is Some <==> current@.len() == self@.len() && incoming@.len() == self@.len()
                && incoming_is_default@.len() == self@.len() && delegated@.len() == self@.len(),
            merged matches Some(values) ==> values@ == merged_values(
                self@,
                current@,
                incoming@,
                incoming_is_default@,
                delegated@,
            ),
    {
        let count = self.fields.len();
        if current.len() != count || incoming.len() != count || incoming_is_default.len() != count
            || delegated.len() != count {
            return None;
        }
        let mut values: Vec<T> = Vec::new();
        let mut i: usize = 0;
        while i < count
            invariant
                i <= count,
                count == self.fields@.len(),
                current@.len() == count,
                incoming@.len() == count,
                incoming_is_default@.len() == count,
                delegated@.len() == count,
                values@.len() == i,
                forall|j: int|
                    0 <= j < i ==> values@[j] == merged_value(
                        self@[j].mode,
                        current@[j],
                        incoming@[j],
                        incoming_is_default@[j],
                        delegated@[j],
                    ),
            decreases count - i,
        {
            values.push(
                merge_field(
                    self.fields[i].mode,
                    current[i],
                    incoming[i],
                    incoming_is_default[i],
                    delegated[i],
                ),
            );
            i += 1;
        }
        Some(values)
    }
}

/// Merge law for one field. Where the other value's field is at its
/// default, this value's field stays as it was; for a delegating field
/// this holds provided that the field's own merge obeys the same law. Where
/// the other value's field is not at its default and the field does not
/// delegate, the field becomes the other value's field.
pub proof fn law_merge_field<T>(
    mode: MergeMode,
    current: T,
    incoming: T,
    incoming_is_default: bool,
    delegated: T,
)
    ensures
        incoming_is_default && (mode == MergeMode::Delegate ==> delegated == current)
            ==> merged_value(mode, current, incoming, incoming_is_default, delegated) == current,
        !incoming_is_default && mode != MergeMode::Delegate ==> merged_value(
            mode,
            current,
            incoming,
            incoming_is_default,
            delegated,
        ) == incoming,
{
}

/// Merging a default value changes nothing: where every field of the other
/// value is at its default, and the merges of the delegating fields change
/// nothing either, every field is after the merge what it was before.
pub proof fn law_merge_of_default<T>(
    config: Seq<FieldMergeView>,
    current: Seq<T>,
    incoming: Seq<T>,
    incoming_is_default: Seq<bool>,
    delegated: Seq<T>,
)
    requires
        current.len() == config.len(),
        incoming.len() == config.len(),
        incoming_is_default.len() == config.len(),
        delegated.len() == config.len(),
        forall|i: int| 0 <= i < config.len() ==> incoming_is_default[i],
        forall|i: int|
            0 <= i < config.len() && config[i].mode == MergeMode::Delegate ==> delegated[i]
                == current[i],
    ensures
        merged_values(config, current, incoming, incoming_is_default, delegated) == current,
{
}

} // verus!
