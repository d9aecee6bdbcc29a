//! The source text of the synthesized formatters.

use vstd::prelude::*;
use vstd::string::StringExecFns;
use crate::auto_debug::{
    effective_format,
    effective_format_of,
    DebugFormat,
    DebugStyle,
    MemberConfig,
    MemberConfigView,
    ResolvedConfig,
    ResolvedConfigView,
};
use crate::declaration::{
    field_accessor,
    field_accessor_text,
    FieldDeclaration,
    TypeDeclaration,
    VariantDeclaration,
    VariantFields,
};
use crate::text::{
    decimal,
    decimal_text,
    impl_header,
    impl_header_text,
    literal,
    literal_text,
    push_literal,
};

verus! {

/// The placeholder that requests a format.
pub open spec fn placeholder(format: DebugFormat) -> Seq<char> {
    match format {
        DebugFormat::Debug => "{:#?}"@,
        DebugFormat::Display => "{}"@,
    }
}

/// The name under which field number `index` is shown: the override where
/// there is one, else the declared name, else the position.
pub open spec fn entry_label(field: FieldDeclaration, index: int, config: MemberConfigView) -> Seq<
    char,
> {
    match config.override_name {
        Some(name) => name,
        None => field_accessor(field, index),
    }
}

/// The arguments of the formatting request for field number `index`: the
/// override literal, quoted at generation time and shown as it is, or the
/// field itself under the placeholder of its format.
pub open spec fn entry_value_code(
    field: FieldDeclaration,
    index: int,
    config: MemberConfigView,
    default_format: DebugFormat,
) -> Seq<char> {
    match config.override_value {
        Some(value) => literal("{}"@) + ", "@ + literal(literal(value)),
        None => literal(placeholder(effective_format(config, default_format))) + ", self."@
            + field_accessor(field, index),
    }
}

/// The statement that shows field number `index`; nothing for an ignored
/// field. In tuple style the statement carries no name.
pub open spec fn entry_code(
    field: FieldDeclaration,
    index: int,
    config: MemberConfigView,
    style: DebugStyle,
    default_format: DebugFormat,
) -> Seq<char> {
    if config.ignored {
        Seq::empty()
    } else {
        "        ff.field("@ + (match style {
            DebugStyle::Struct => literal(entry_label(field, index, config)) + ", "@,
            DebugStyle::Tuple => Seq::empty(),
        }) + "&format_args!("@ + entry_value_code(field, index, config, default_format)
            + "));\n"@
    }
}

/// The statements for the first `n` fields, in declaration order.
pub open spec fn entries_code(
    fields: Seq<FieldDeclaration>,
    config: ResolvedConfigView,
    n: nat,
) -> Seq<char>
    decreases n,
{
    if n == 0 {
        Seq::empty()
    } else {
        entries_code(fields, config, (n - 1) as nat) + entry_code(
            fields[n - 1],
            n - 1,
            config.members[n - 1],
            config.style,
            config.default_format,
        )
    }
}

/// The opening of the formatter implementation of `declaration`.
pub open spec fn formatter_header(declaration: TypeDeclaration) -> Seq<char> {
    impl_header(
        declaration.generics.impl_generics@,
        "std::fmt::Debug"@,
        declaration.name@,
        declaration.generics.type_generics@,
        declaration.generics.where_clause@,
    ) + "    fn fmt(&self, f: &mut std::fmt::Formatter<'_>) -> std::fmt::Result {\n"@
}

/// The name of the builder that lays out a style.
pub open spec fn builder_name(style: DebugStyle) -> Seq<char> {
    match style {
        DebugStyle::Struct => "debug_struct"@,
        DebugStyle::Tuple => "debug_tuple"@,
    }
}

/// The formatter implementation of a struct under a resolved configuration:
/// a builder of the configured style, named after the type, with one
/// statement for each field that is not ignored, in declaration order.
pub open spec fn struct_code(
    declaration: TypeDeclaration,
    fields: Seq<FieldDeclaration>,
    config: ResolvedConfigView,
) -> Seq<char> {
    formatter_header(declaration) + "        let mut ff = f."@ + builder_name(config.style) + "("@
        + literal(declaration.name@) + ");\n"@ + entries_code(fields, config, fields.len())
        + "        ff.finish()\n    }\n}\n"@
}

/// The name that the formatter of an enum binds to field number `index`
/// of the variant at hand.
pub open spec fn binding(index: int) -> Seq<char> {
    "v"@ + decimal(index as nat)
}

/// The separator in front of element number `index` of a list.
pub open spec fn separator(index: int) -> Seq<char> {
    if index == 0 {
        Seq::empty()
    } else {
        ", "@
    }
}

/// The pattern that binds the first `n` fields of a positional variant.
pub open spec fn positional_pattern(n: nat) -> Seq<char>
    decreases n,
{
    if n == 0 {
        Seq::empty()
    } else {
        positional_pattern((n - 1) as nat) + separator(n - 1) + "ref "@ + binding(n - 1)
    }
}

/// The pattern that binds the first `n` fields of a named-field variant.
pub open spec fn named_pattern(fields: Seq<FieldDeclaration>, n: nat) -> Seq<char>
    decreases n,
{
    if n == 0 {
        Seq::empty()
    } else {
        named_pattern(fields, (n - 1) as nat) + separator(n - 1) + field_accessor(
            fields[n - 1],
            n - 1,
        ) + ": ref "@ + binding(n - 1)
    }
}

/// The formatting request for the bound field number `index`.
pub open spec fn bound_value_code(index: int, format: DebugFormat) -> Seq<char> {
    "&format_args!("@ + literal(placeholder(format)) + ", "@ + binding(index) + ")"@
}

/// The builder calls that show the first `n` fields of a positional
/// variant.
pub open spec fn positional_calls(n: nat, format: DebugFormat) -> Seq<char>
    decreases n,
{
    if n == 0 {
        Seq::empty()
    } else {
        positional_calls((n - 1) as nat, format) + ".field("@ + bound_value_code(n - 1, format)
            + ")"@
    }
}

/// The builder calls that show the first `n` fields of a named-field
/// variant, each under its name.
pub open spec fn named_calls(fields: Seq<FieldDeclaration>, n: nat, format: DebugFormat) -> Seq<
    char,
>
    decreases n,
{
    if n == 0 {
        Seq::empty()
    } else {
        named_calls(fields, (n - 1) as nat, format) + ".key(&format_args!("@ + literal("{}"@)
            + ", "@ + literal(field_accessor(fields[n - 1], n - 1)) + ")).value("@
            + bound_value_code(n - 1, format) + ")"@
    }
}

/// What follows the name in the arm of a unit variant.
pub open spec fn unit_arm(name: Seq<char>, ignored: bool) -> Seq<char> {
    if ignored {
        " => Ok(()),\n"@
    } else {
        " => f.write_str("@ + literal(literal(name)) + "),\n"@
    }
}

/// What follows the name in the arm of a positional variant with `count`
/// fields.
pub open spec fn positional_arm(
    name: Seq<char>,
    count: nat,
    ignored: bool,
    format: DebugFormat,
) -> Seq<char> {
    if ignored {
        "(..) => Ok(()),\n"@
    } else {
        "("@ + positional_pattern(count) + ") => f.debug_tuple("@ + literal(name) + ")"@
            + positional_calls(count, format) + ".finish(),\n"@
    }
}

/// What follows the name in the arm of a named-field variant.
pub open spec fn named_arm(
    fields: Seq<FieldDeclaration>,
    ignored: bool,
    format: DebugFormat,
) -> Seq<char> {
    if ignored {
        " { .. } => Ok(()),\n"@
    } else {
        " { "@ + named_pattern(fields, fields.len()) + " } => f.debug_map()"@ + named_calls(
            fields,
            fields.len(),
            format,
        ) + ".finish(),\n"@
    }
}

/// The match arm of one variant. An ignored variant writes nothing; a unit
/// variant writes its quoted name; a positional variant is laid out as a
/// tuple under its name, a named-field variant as a block of keys and
/// values.
pub open spec fn variant_arm(
    variant: VariantDeclaration,
    config: MemberConfigView,
    default_format: DebugFormat,
) -> Seq<char> {
    let format = effective_format(config, default_format);
    "            Self::"@ + variant.name@ + (match variant.fields {
        VariantFields::Unit => unit_arm(variant.name@, config.ignored),
        VariantFields::Positional(fields) => positional_arm(
            variant.name@,
            fields@.len(),
            config.ignored,
            format,
        ),
        VariantFields::Named(fields) => named_arm(fields@, config.ignored, format),
    })
}

/// The match arms of the first `n` variants, in declaration order.
pub open spec fn arms_code(
    variants: Seq<VariantDeclaration>,
    config: ResolvedConfigView,
    n: nat,
) -> Seq<char>
    decreases n,
{
    if n == 0 {
        Seq::empty()
    } else {
        arms_code(variants, config, (n - 1) as nat) + variant_arm(
            variants[n - 1],
            config.members[n - 1],
            config.default_format,
        )
    }
}

/// The formatter implementation of an enum under a resolved configuration:
/// one match arm for every variant, so that the match is exhaustive
/// whatever is ignored.
pub open spec fn enum_code(
    declaration: TypeDeclaration,
    variants: Seq<VariantDeclaration>,
    config: ResolvedConfigView,
) -> Seq<char> {
    formatter_header(declaration) + "        match *self {\n"@ + arms_code(
        variants,
        config,
        variants.len(),
    ) + "        }\n    }\n}\n"@
}

fn placeholder_of(format: DebugFormat) -> (text: &'static str)
    ensures
        text@ == placeholder(format),
{
    match format {
        DebugFormat::Debug => "{:#?}",
        DebugFormat::Display => "{}",
    }
}

/// Writes the name under which field number `index` is shown.
pub fn entry_label_text(
    field: &FieldDeclaration,
    index: usize,
    config: &MemberConfig,
) -> (out: String)
    ensures
        out@ == entry_label(*field, index as int, config@),
{
    match &config.override_name {
        Some(name) => name.clone(),
        None => field_accessor_text(field, index),
    }
}

fn entry_value_code_text(
    field: &FieldDeclaration,
    index: usize,
    config: &MemberConfig,
    default_format: DebugFormat,
) -> (out: String)
    ensures
        out@ == entry_value_code(*field, index as int, config@, default_format),
{
    match &config.override_value {
        Some(value) => {
            let mut out = literal_text("{}");
            out.append(", ");
            let quoted = literal_text(value.as_str());
            push_literal(&mut out, quoted.as_str());
            out
        },
        None => {
            let mut out = literal_text(placeholder_of(effective_format_of(config, default_format)));
            out.append(", self.");
            let accessor = field_accessor_text(field, index);
            out.append(accessor.as_str());
            out
        },
    }
}

fn entry_code_text(
    field: &FieldDeclaration,
    index: usize,
    config: &MemberConfig,
    style: DebugStyle,
    default_format: DebugFormat,
) -> (out: String)
    ensures
        out@ == entry_code(*field, index as int, config@, style, default_format),
{
    if config.ignored {
        String::new()
    } else {
        let mut out = String::from_str("        ff.field(");
        match style {
            DebugStyle::Struct => {
                let label = entry_label_text(field, index, config);
                push_literal(&mut out, label.as_str());
                out.append(", ");
            },
            DebugStyle::Tuple => {},
        }
        out.append("&format_args!(");
        let value = entry_value_code_text(field, index, config, default_format);
        out.append(value.as_str());
        out.append("));\n");
        out
    }
}

/// Writes the formatter of a struct under a resolved configuration.
pub fn emit_struct(
    declaration: &TypeDeclaration,
    fields: &Vec<FieldDeclaration>,
    config: &ResolvedConfig,
) -> (out: String)
    requires
        config.members@.len() == fields@.len(),
    ensures
        out@ == struct_code(*declaration, fields@, config@),
{
    let mut out = impl_header_text(
        declaration.generics.impl_generics.as_str(),
        "std::fmt::Debug",
        declaration.name.as_str(),
        declaration.generics.type_generics.as_str(),
        declaration.generics.where_clause.as_str(),
    );
    out.append("    fn fmt(&self, f: &mut std::fmt::Formatter<'_>) -> std::fmt::Result {\n");
    out.append("        let mut ff = f.");
    out.append(
        match config.style {
            DebugStyle::Struct => "debug_struct",
            DebugStyle::Tuple => "debug_tuple",
        },
    );
    out.append("(");
    push_literal(&mut out, declaration.name.as_str());
    out.append(");\n");
    let ghost opening = out@;
    let mut i: usize = 0;
    while i < fields.len()
        invariant
            i <= fields.len(),
            config.members@.len() == fields@.len(),
            out@ == opening + entries_code(fields@, config@, i as nat),
        decreases fields.len() - i,
    {
        let entry = entry_code_text(
            &fields[i],
            i,
            &config.members[i],
            config.style,
            config.default_format,
        );
        out.append(entry.as_str());
        i += 1;
    }
    out.append("        ff.finish()\n    }\n}\n");
    out
}

fn push_binding(out: &mut String, index: usize)
    ensures
        final(out)@ == old(out)@ + binding(index as int),
{
    out.append("v");
    let number = decimal_text(index);
    out.append(number.as_str());
}

fn push_separator(out: &mut String, index: usize)
    ensures
        final(out)@ == old(out)@ + separator(index as int),
{
    if index != 0 {
        out.append(", ");
    }
}

fn push_positional_pattern(out: &mut String, count: usize)
    ensures
        final(out)@ == old(out)@ + positional_pattern(count as nat),
{
    let ghost start = out@;
    let mut i: usize = 0;
    while i < count
        invariant
            i <= count,
            out@ == start + positional_pattern(i as nat),
        decreases count - i,
    {
        push_separator(out, i);
        out.append("ref ");
        push_binding(out, i);
        i += 1;
    }
}

fn push_named_pattern(out: &mut String, fields: &Vec<FieldDeclaration>)
    ensures
        final(out)@ == old(out)@ + named_pattern(fields@, fields@.len()),
{
    let ghost start = out@;
    let mut i: usize = 0;
    while i < fields.len()
        invariant
            i <= fields.len(),
            out@ == start + named_pattern(fields@, i as nat),
        decreases fields.len() - i,
    {
        push_separator(out, i);
        let accessor = field_accessor_text(&fields[i], i);
        out.append(accessor.as_str());
        out.append(": ref ");
        push_binding(out, i);
        i += 1;
    }
}

fn push_bound_value_code(out: &mut String, index: usize, format: DebugFormat)
    ensures
        final(out)@ == old(out)@ + bound_value_code(index as int, format),
{
    out.append("&format_args!(");
    push_literal(out, placeholder_of(format));
    out.append(", ");
    push_binding(out, index);
    out.append(")");
}

fn push_positional_calls(out: &mut String, count: usize, format: DebugFormat)
    ensures
        final(out)@ == old(out)@ + positional_calls(count as nat, format),
{
    let ghost start = out@;
    let mut i: usize = 0;
    while i < count
        invariant
            i <= count,
            out@ == start + positional_calls(i as nat, format),
        decreases count - i,
    {
        out.append(".field(");
        push_bound_value_code(out, i, format);
        out.append(")");
        i += 1;
    }
}

fn push_named_calls(out: &mut String, fields: &Vec<FieldDeclaration>, format: DebugFormat)
    ensures
        final(out)@ == old(out)@ + named_calls(fields@, fields@.len(), format),
{
    let ghost start = out@;
    let mut i: usize = 0;
    while i < fields.len()
        invariant
            i <= fields.len(),
            out@ == start + named_calls(fields@, i as nat, format),
        decreases fields.len() - i,
    {
        out.append(".key(&format_args!(");
        push_literal(out, "{}");
        out.append(", ");
        let accessor = field_accessor_text(&fields[i], i);
        push_literal(out, accessor.as_str());
        out.append(")).value(");
        push_bound_value_code(out, i, format);
        out.append(")");
        i += 1;
    }
}

fn unit_arm_text(name: &str, ignored: bool) -> (out: String)
    ensures
        out@ == unit_arm(name@, ignored),
{
    if ignored {
        String::from_str(" => Ok(()),\n")
    } else {
        let mut out = String::from_str(" => f.write_str(");
        let quoted = literal_text(name);
        push_literal(&mut out, quoted.as_str());
        out.append("),\n");
        out
    }
}

fn positional_arm_text(
    name: &str,
    count: usize,
    ignored: bool,
    format: DebugFormat,
) -> (out: String)
    ensures
        out@ == positional_arm(name@, count as nat, ignored, format),
{
    if ignored {
        String::from_str("(..) => Ok(()),\n")
    } else {
        let mut out = String::from_str("(");
        push_positional_pattern(&mut out, count);
        out.append(") => f.debug_tuple(");
        push_literal(&mut out, name);
        out.append(")");
        push_positional_calls(&mut out, count, format);
        out.append(".finish(),\n");
        out
    }
}

fn named_arm_text(fields: &Vec<FieldDeclaration>, ignored: bool, format: DebugFormat) -> (out:
    String)
    ensures
        out@ == named_arm(fields@, ignored, format),
{
    if ignored {
        String::from_str(" { .. } => Ok(()),\n")
    } else {
        let mut out = String::from_str(" { ");
        push_named_pattern(&mut out, fields);
        out.append(" } => f.debug_map()");
        push_named_calls(&mut out, fields, format);
        out.append(".finish(),\n");
        out
    }
}

fn variant_arm_text(
    variant: &VariantDeclaration,
    config: &MemberConfig,
    default_format: DebugFormat,
) -> (out: String)
    ensures
        out@ == variant_arm(*variant, config@, default_format),
{
    let format = effective_format_of(config, default_format);
    let mut out = String::from_str("            Self::");
    out.append(variant.name.as_str());
    let rest = match &variant.fields {
        VariantFields::Unit => unit_arm_text(variant.name.as_str(), config.ignored),
        VariantFields::Positional(fields) => positional_arm_text(
            variant.name.as_str(),
            fields.len(),
            config.ignored,
            format,
        ),
        VariantFields::Named(fields) => named_arm_text(fields, config.ignored, format),
    };
    out.append(rest.as_str());
    out
}

/// Writes the formatter of an enum under a resolved configuration.
pub fn emit_enum(
    declaration: &TypeDeclaration,
    variants: &Vec<VariantDeclaration>,
    config: &ResolvedConfig,
) -> (out: String)
    requires
        config.members@.len() == variants@.len(),
    ensures
        out@ == enum_code(*declaration, variants@, config@),
{
    let mut out = impl_header_text(
        declaration.generics.impl_generics.as_str(),
        "std::fmt::Debug",
        declaration.name.as_str(),
        declaration.generics.type_generics.as_str(),
        declaration.generics.where_clause.as_str(),
    );
    out.append("    fn fmt(&self, f: &mut std::fmt::Formatter<'_>) -> std::fmt::Result {\n");
    out.append("        match *self {\n");
    let ghost opening = out@;
    let mut i: usize = 0;
    while i < variants.len()
        invariant
            i <= variants.len(),
            config.members@.len() == variants@.len(),
            out@ == opening + arms_code(variants@, config@, i as nat),
        decreases variants.len() - i,
    {
        let arm = variant_arm_text(&variants[i], &config.members[i], config.default_format);
        out.append(arm.as_str());
        i += 1;
    }
    out.append("        }\n    }\n}\n");
    out
}

} // verus!
