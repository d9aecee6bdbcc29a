//! What the synthesized formatters print in pretty mode, as a function of
//! the declaration and of the formatted values of the members.

use vstd::prelude::*;
use vstd::string::StringExecFns;
use crate::auto_debug::{DebugStyle, MemberConfig, MemberConfigView, ResolvedConfigView};
use crate::auto_debug::emit::{entries_code, entry_code, entry_label, entry_label_text, struct_code};
use crate::auto_debug::resolve::{
    field_clauses,
    resolve_enum_config,
    resolve_struct_config,
    resolved_config,
    variant_clauses,
};
use crate::declaration::{
    field_accessor,
    field_accessor_text,
    FieldDeclaration,
    TypeDeclaration,
    VariantDeclaration,
    VariantFields,
};
use crate::diagnostic::{yields, GenerationError};
use crate::text::{
    indented,
    law_nesting_matches_depth,
    literal,
    literal_text,
    margin_of,
    margined,
    nested,
    push_indented,
    push_literal,
    value_at,
    value_text,
};

verus! {

/// What the formatter shows as the value of field number `index`: the
/// override literal in quotes, else the field's own formatted value.
pub open spec fn entry_shown(index: int, config: MemberConfigView, values: Seq<String>) -> Seq<
    char,
> {
    match config.override_value {
        Some(value) => literal(value),
        None => value_at(values, index),
    }
}

/// The line of field number `index` before indentation: in struct style
/// the label and a colon, then the value and a comma.
pub open spec fn entry_line(
    field: FieldDeclaration,
    index: int,
    config: MemberConfigView,
    style: DebugStyle,
    values: Seq<String>,
) -> Seq<char> {
    (match style {
        DebugStyle::Struct => entry_label(field, index, config) + ": "@,
        DebugStyle::Tuple => Seq::empty(),
    }) + entry_shown(index, config, values) + ",\n"@
}

/// The indented lines of those of the first `n` fields that are not
/// ignored.
pub open spec fn entries_shown(
    fields: Seq<FieldDeclaration>,
    config: ResolvedConfigView,
    values: Seq<String>,
    n: nat,
) -> Seq<char>
    decreases n,
{
    if n == 0 {
        Seq::empty()
    } else {
        entries_shown(fields, config, values, (n - 1) as nat) + (if config.members[n - 1].ignored {
            Seq::empty()
        } else {
            indented(entry_line(fields[n - 1], n - 1, config.members[n - 1], config.style, values))
        })
    }
}

/// How many of the first `n` members are not ignored.
pub open spec fn visible(members: Seq<MemberConfigView>, n: nat) -> nat
    decreases n,
{
    if n == 0 {
        0
    } else {
        visible(members, (n - 1) as nat) + (if members[n - 1].ignored {
            0nat
        } else {
            1nat
        })
    }
}

/// The bracket that opens the entries of a style.
pub open spec fn opening(style: DebugStyle) -> Seq<char> {
    match style {
        DebugStyle::Struct => " {\n"@,
        DebugStyle::Tuple => "(\n"@,
    }
}

/// The bracket that closes the entries of a style.
pub open spec fn closing(style: DebugStyle) -> Seq<char> {
    match style {
        DebugStyle::Struct => "}"@,
        DebugStyle::Tuple => ")"@,
    }
}

/// The pretty output of the synthesized formatter of a struct, given the
/// formatted value of each field: the name of the type and, unless every
/// field is ignored, the indented entries between brackets.
pub open spec fn struct_shown(
    declaration: TypeDeclaration,
    fields: Seq<FieldDeclaration>,
    config: ResolvedConfigView,
    values: Seq<String>,
) -> Seq<char> {
    if visible(config.members, fields.len()) == 0 {
        declaration.name@
    } else {
        declaration.name@ + opening(config.style) + entries_shown(
            fields,
            config,
            values,
            fields.len(),
        ) + closing(config.style)
    }
}

/// The pretty output for a struct, or the failure for which no formatter is
/// synthesized.
pub open spec fn struct_rendering(
    declaration: TypeDeclaration,
    fields: Seq<FieldDeclaration>,
    values: Seq<String>,
) -> Result<Seq<char>, GenerationError> {
    match resolved_config(declaration.annotations@, field_clauses(fields), true) {
        Err(error) => Err(error),
        Ok(config) => Ok(struct_shown(declaration, fields, config, values)),
    }
}

/// The indented lines of the first `n` values of a positional variant.
pub open spec fn positional_shown(values: Seq<String>, n: nat) -> Seq<char>
    decreases n,
{
    if n == 0 {
        Seq::empty()
    } else {
        positional_shown(values, (n - 1) as nat) + indented(value_at(values, n - 1) + ",\n"@)
    }
}

/// The indented lines of the first `n` fields of a named-field variant.
pub open spec fn named_shown(fields: Seq<FieldDeclaration>, values: Seq<String>, n: nat) -> Seq<
    char,
>
    decreases n,
{
    if n == 0 {
        Seq::empty()
    } else {
        named_shown(fields, values, (n - 1) as nat) + indented(
            field_accessor(fields[n - 1], n - 1) + ": "@ + value_at(values, n - 1) + ",\n"@,
        )
    }
}

/// The pretty output of the synthesized formatter of an enum for a value
/// of `variant`, given the formatted value of each of its fields. An
/// ignored variant shows nothing, a unit variant its name in quotes, a
/// positional variant a tuple under its name, a named-field variant a block
/// of keys and values.
pub open spec fn variant_shown(
    variant: VariantDeclaration,
    config: MemberConfigView,
    values: Seq<String>,
) -> Seq<char> {
    if config.ignored {
        Seq::empty()
    } else {
        match variant.fields {
            VariantFields::Unit => literal(variant.name@),
            VariantFields::Positional(fields) => if fields@.len() == 0 {
                variant.name@
            } else {
                variant.name@ + "(\n"@ + positional_shown(values, fields@.len()) + ")"@
            },
            VariantFields::Named(fields) => if fields@.len() == 0 {
                "{}"@
            } else {
                "{\n"@ + named_shown(fields@, values, fields@.len()) + "}"@
            },
        }
    }
}

/// The pretty output for a value of variant number `index`, or the failure
/// for which no formatter is synthesized.
pub open spec fn variant_rendering(
    declaration: TypeDeclaration,
    variants: Seq<VariantDeclaration>,
    index: int,
    values: Seq<String>,
) -> Result<Seq<char>, GenerationError> {
    match resolved_config(declaration.annotations@, variant_clauses(variants), false) {
        Err(error) => Err(error),
        Ok(config) => Ok(variant_shown(variants[index], config.members[index], values)),
    }
}

fn entry_line_text(
    field: &FieldDeclaration,
    index: usize,
    config: &MemberConfig,
    style: DebugStyle,
    values: &Vec<String>,
) -> (out: String)
    ensures
        out@ == entry_line(*field, index as int, config@, style, values@),
{
    let mut out = match style {
        DebugStyle::Struct => {
            let mut label = entry_label_text(field, index, config);
            label.append(": ");
            label
        },
        DebugStyle::Tuple => String::new(),
    };
    match &config.override_value {
        Some(value) => {
            push_literal(&mut out, value.as_str());
        },
        None => {
            out.append(value_text(values, index));
        },
    }
    out.append(",\n");
    out
}

/// Renders what the synthesized formatter of a struct prints in pretty
/// mode, given the formatted value of each field in declaration order.
pub fn render_struct(
    declaration: &TypeDeclaration,
    fields: &Vec<FieldDeclaration>,
    values: &Vec<String>,
) -> (r: Result<String, GenerationError>)
    ensures
        yields(r, struct_rendering(*declaration, fields@, values@)),
{
    let config = match resolve_struct_config(declaration, fields) {
        Err(error) => {
            return Err(error);
        },
        Ok(config) => config,
    };
    let mut body = String::new();
    let mut shown: usize = 0;
    let mut i: usize = 0;
    while i < fields.len()
        invariant
            i <= fields.len(),
            config.members@.len() == fields@.len(),
            shown == visible(config@.members, i as nat),
            shown <= i,
            body@ == entries_shown(fields@, config@, values@, i as nat),
        decreases fields.len() - i,
    {
        if !config.members[i].ignored {
            let line = entry_line_text(&fields[i], i, &config.members[i], config.style, values);
            push_indented(&mut body, line.as_str());
            shown += 1;
        }
        i += 1;
    }
    let mut out = declaration.name.clone();
    if shown != 0 {
        out.append(
            match config.style {
                DebugStyle::Struct => " {\n",
                DebugStyle::Tuple => "(\n",
            },
        );
        out.append(body.as_str());
        out.append(
            match config.style {
                DebugStyle::Struct => "}",
                DebugStyle::Tuple => ")",
            },
        );
    }
    Ok(out)
}

fn positional_shown_text(values: &Vec<String>, count: usize) -> (out: String)
    ensures
        out@ == positional_shown(values@, count as nat),
{
    let mut out = String::new();
    let mut i: usize = 0;
    while i < count
        invariant
            i <= count,
            out@ == positional_shown(values@, i as nat),
        decreases count - i,
    {
        let mut line = String::from_str(value_text(values, i));
        line.append(",\n");
        push_indented(&mut out, line.as_str());
        i += 1;
    }
    out
}

fn named_shown_text(fields: &Vec<FieldDeclaration>, values: &Vec<String>) -> (out: String)
    ensures
        out@ == named_shown(fields@, values@, fields@.len()),
{
    let mut out = String::new();
    let mut i: usize = 0;
    while i < fields.len()
        invariant
            i <= fields.len(),
            out@ == named_shown(fields@, values@, i as nat),
        decreases fields.len() - i,
    {
        let mut line = field_accessor_text(&fields[i], i);
        line.append(": ");
        line.append(value_text(values, i));
        line.append(",\n");
        push_indented(&mut out, line.as_str());
        i += 1;
    }
    out
}

fn variant_shown_text(
    variant: &VariantDeclaration,
    config: &MemberConfig,
    values: &Vec<String>,
) -> (out: String)
    ensures
        out@ == variant_shown(*variant, config@, values@),
{
    if config.ignored {
        return String::new();
    }
    match &variant.fields {
        VariantFields::Unit => literal_text(variant.name.as_str()),
        VariantFields::Positional(fields) => {
            let mut out = variant.name.clone();
            if fields.len() != 0 {
                out.append("(\n");
                let lines = positional_shown_text(values, fields.len());
                out.append(lines.as_str());
                out.append(")");
            }
            out
        },
        VariantFields::Named(fields) => {
            if fields.len() == 0 {
                String::from_str("{}")
            } else {
                let mut out = String::from_str("{\n");
                let lines = named_shown_text(fields, values);
                out.append(lines.as_str());
                out.append("}");
                out
            }
        },
    }
}

/// Renders what the synthesized formatter of an enum prints in pretty mode
/// for a value of variant number `index`, given the formatted value of
/// each field of that variant in declaration order.
pub fn render_variant(
    declaration: &TypeDeclaration,
    variants: &Vec<VariantDeclaration>,
    index: usize,
    values: &Vec<String>,
) -> (r: Result<String, GenerationError>)
    requires
        index < variants@.len(),
    ensures
        yields(r, variant_rendering(*declaration, variants@, index as int, values@)),
{
    let config = match resolve_enum_config(declaration, variants) {
        Err(error) => {
            return Err(error);
        },
        Ok(config) => config,
    };
    Ok(variant_shown_text(&variants[index], &config.members[index], values))
}

/// The configuration without member number `index`.
pub open spec fn without_member(config: ResolvedConfigView, index: int) -> ResolvedConfigView {
    ResolvedConfigView {
        style: config.style,
        default_format: config.default_format,
        members: config.members.remove(index),
    }
}

/// The statements, the shown lines and the count of visible members of a
/// struct up to member `n` are those of the struct without the ignored
/// member number `index`, up to the member that takes the place of `n`.
pub proof fn lemma_entries_without(
    fields: Seq<FieldDeclaration>,
    config: ResolvedConfigView,
    values: Seq<String>,
    index: int,
    n: nat,
)
    requires
        0 <= index < fields.len(),
        config.members.len() == fields.len(),
        values.len() == fields.len(),
        config.members[index].ignored,
        crate::declaration::all_named(fields),
        n <= fields.len(),
    ensures
        ({
            let m = if n <= index {
                n
            } else {
                (n - 1) as nat
            };
            &&& entries_code(fields.remove(index), without_member(config, index), m)
                == entries_code(fields, config, n)
            &&& entries_shown(
                fields.remove(index),
                without_member(config, index),
                values.remove(index),
                m,
            ) == entries_shown(fields, config, values, n)
            &&& visible(without_member(config, index).members, m) == visible(config.members, n)
        }),
    decreases n,
{
    if n > 0 {
        lemma_entries_without(fields, config, values, index, (n - 1) as nat);
    }
}

/// An ignored field leaves no gap: the synthesized formatter of a struct
/// with named fields, and what it prints, are those of the same struct
/// declared without the ignored field.
pub proof fn law_ignored_field_is_absent(
    declaration: TypeDeclaration,
    fields: Seq<FieldDeclaration>,
    config: ResolvedConfigView,
    values: Seq<String>,
    index: int,
)
    requires
        0 <= index < fields.len(),
        config.members.len() == fields.len(),
        values.len() == fields.len(),
        config.members[index].ignored,
        crate::declaration::all_named(fields),
    ensures
        entry_code(
            fields[index],
            index,
            config.members[index],
            config.style,
            config.default_format,
        ) == Seq::<char>::empty(),
        struct_code(declaration, fields, config) == struct_code(
            declaration,
            fields.remove(index),
            without_member(config, index),
        ),
        struct_shown(declaration, fields, config, values) == struct_shown(
            declaration,
            fields.remove(index),
            without_member(config, index),
            values.remove(index),
        ),
{
    lemma_entries_without(fields, config, values, index, fields.len());
}

/// The statements, the shown lines and the count of visible members up to
/// member `n` are the same for two structs that differ in one ignored
/// field only.
pub proof fn lemma_entries_apart_from(
    fields: Seq<FieldDeclaration>,
    other_fields: Seq<FieldDeclaration>,
    config: ResolvedConfigView,
    other_config: ResolvedConfigView,
    values: Seq<String>,
    other_values: Seq<String>,
    index: int,
    n: nat,
)
    requires
        n <= fields.len(),
        fields.len() == other_fields.len(),
        config.members.len() == fields.len(),
        other_config.members.len() == fields.len(),
        config.style == other_config.style,
        config.default_format == other_config.default_format,
        0 <= index < fields.len(),
        config.members[index].ignored,
        other_config.members[index].ignored,
        forall|i: int|
            0 <= i < fields.len() && i != index ==> #[trigger] fields[i] == other_fields[i]
                && config.members[i] == other_config.members[i] && value_at(values, i) == value_at(
                other_values,
                i,
            ),
    ensures
        entries_code(fields, config, n) == entries_code(other_fields, other_config, n),
        entries_shown(fields, config, values, n) == entries_shown(
            other_fields,
            other_config,
            other_values,
            n,
        ),
        visible(config.members, n) == visible(other_config.members, n),
    decreases n,
{
    if n > 0 {
        lemma_entries_apart_from(
            fields,
            other_fields,
            config,
            other_config,
            values,
            other_values,
            index,
            (n - 1) as nat,
        );
        if n - 1 != index {
            assert(fields[n - 1] == other_fields[n - 1]);
        }
    }
}

/// An ignored field has no influence: whatever its name, its type, its
/// other annotations and its value are, the synthesized formatter and what
/// it prints are the same.
pub proof fn law_ignored_field_has_no_influence(
    declaration: TypeDeclaration,
    fields: Seq<FieldDeclaration>,
    other_fields: Seq<FieldDeclaration>,
    config: ResolvedConfigView,
    other_config: ResolvedConfigView,
    values: Seq<String>,
    other_values: Seq<String>,
    index: int,
)
    requires
        fields.len() == other_fields.len(),
        config.members.len() == fields.len(),
        other_config.members.len() == fields.len(),
        config.style == other_config.style,
        config.default_format == other_config.default_format,
        0 <= index < fields.len(),
        config.members[index].ignored,
        other_config.members[index].ignored,
        forall|i: int|
            0 <= i < fields.len() && i != index ==> #[trigger] fields[i] == other_fields[i]
                && config.members[i] == other_config.members[i] && value_at(values, i) == value_at(
                other_values,
                i,
            ),
    ensures
        struct_code(declaration, fields, config) == struct_code(
            declaration,
            other_fields,
            other_config,
        ),
        struct_shown(declaration, fields, config, values) == struct_shown(
            declaration,
            other_fields,
            other_config,
            other_values,
        ),
{
    lemma_entries_apart_from(
        fields,
        other_fields,
        config,
        other_config,
        values,
        other_values,
        index,
        fields.len(),
    );
}

/// An ignored variant prints nothing, whatever it holds.
pub proof fn law_ignored_variant_is_silent(
    variant: VariantDeclaration,
    config: MemberConfigView,
    values: Seq<String>,
)
    requires
        config.ignored,
    ensures
        variant_shown(variant, config, values) == Seq::<char>::empty(),
{
}

/// Overrides take precedence: a field with an overriding name is shown
/// under that name and not under its declared one, and a field with an
/// overriding value is shown as that literal in quotes, whatever the field
/// holds.
pub proof fn law_overrides_take_precedence(
    field: FieldDeclaration,
    index: int,
    config: MemberConfigView,
    values: Seq<String>,
    other_values: Seq<String>,
)
    ensures
        config.override_name matches Some(name) ==> entry_label(field, index, config) == name,
        config.override_value matches Some(value) ==> entry_shown(index, config, values) == literal(
            value,
        ),
        config.override_value is Some ==> entry_shown(index, config, values) == entry_shown(
            index,
            config,
            other_values,
        ),
        config.override_name is Some && config.override_value is Some ==> entry_line(
            field,
            index,
            config,
            DebugStyle::Struct,
            values,
        ) == config.override_name->0 + ": "@ + literal(config.override_value->0) + ",\n"@,
{
}

/// The shown lines and the count of visible members in tuple style depend
/// on no name.
pub proof fn lemma_tuple_entries(
    fields: Seq<FieldDeclaration>,
    other_fields: Seq<FieldDeclaration>,
    config: ResolvedConfigView,
    other_config: ResolvedConfigView,
    values: Seq<String>,
    n: nat,
)
    requires
        config.style == DebugStyle::Tuple,
        other_config.style == DebugStyle::Tuple,
        n <= config.members.len() == other_config.members.len(),
        forall|i: int|
            0 <= i < config.members.len() ==> (#[trigger] config.members[i]).ignored
                == other_config.members[i].ignored && config.members[i].override_value
                == other_config.members[i].override_value,
    ensures
        entries_shown(fields, config, values, n) == entries_shown(
            other_fields,
            other_config,
            values,
            n,
        ),
        visible(config.members, n) == visible(other_config.members, n),
    decreases n,
{
    if n > 0 {
        lemma_tuple_entries(fields, other_fields, config, other_config, values, (n - 1) as nat);
    }
}

/// Tuple style never shows a field name: what the formatter of a struct
/// prints in tuple style is the same whatever the fields are called and
/// whatever names override them.
pub proof fn law_tuple_style_omits_names(
    declaration: TypeDeclaration,
    fields: Seq<FieldDeclaration>,
    other_fields: Seq<FieldDeclaration>,
    config: ResolvedConfigView,
    other_config: ResolvedConfigView,
    values: Seq<String>,
)
    requires
        config.style == DebugStyle::Tuple,
        other_config.style == DebugStyle::Tuple,
        fields.len() == other_fields.len(),
        fields.len() == config.members.len(),
        fields.len() == other_config.members.len(),
        forall|i: int|
            0 <= i < config.members.len() ==> (#[trigger] config.members[i]).ignored
                == other_config.members[i].ignored && config.members[i].override_value
                == other_config.members[i].override_value,
    ensures
        struct_shown(declaration, fields, config, values) == struct_shown(
            declaration,
            other_fields,
            other_config,
            values,
        ),
{
    lemma_tuple_entries(fields, other_fields, config, other_config, values, fields.len());
}

/// A nested value is shown one level deeper: the single field of a
/// positional variant is printed as its formatted value and a comma, that
/// of a named-field variant behind its name and a colon, each with every
/// line indented by one level between the brackets of the variant. A value
/// nested in `depth` such variants therefore has `depth` levels of
/// indentation in front of each of its lines.
pub proof fn law_nested_value_is_indented(
    variant: VariantDeclaration,
    config: MemberConfigView,
    values: Seq<String>,
    depth: nat,
)
    requires
        !config.ignored,
        values.len() == 1,
    ensures
        variant.fields matches VariantFields::Positional(fields) ==> fields@.len() == 1
            ==> variant_shown(variant, config, values) == variant.name@ + "(\n"@ + indented(
            values[0]@ + ",\n"@,
        ) + ")"@,
        variant.fields matches VariantFields::Named(fields) ==> fields@.len() == 1
            ==> variant_shown(variant, config, values) == "{\n"@ + indented(
            field_accessor(fields@[0], 0) + ": "@ + values[0]@ + ",\n"@,
        ) + "}"@,
        nested(values[0]@, depth) == margined(values[0]@, margin_of(depth)),
{
    reveal_with_fuel(positional_shown, 2);
    reveal_with_fuel(named_shown, 2);
    law_nesting_matches_depth(values[0]@, depth);
}

} // verus!
