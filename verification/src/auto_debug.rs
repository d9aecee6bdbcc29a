//! The debug-format generator: resolves the `style`, `format`, `name`,
//! `value`, `ignore`, `display` and `debug` annotations of a struct or an
//! enum and synthesizes its formatter.

use vstd::prelude::*;
use crate::auto_debug::emit::{emit_enum, emit_struct, enum_code, struct_code};
use crate::auto_debug::resolve::{
    field_clauses,
    resolve_enum_config,
    resolve_struct_config,
    resolved_config,
    variant_clauses,
};
use crate::declaration::{
    normalize,
    normalized,
    FieldDeclaration,
    RawDeclaration,
    Shape,
    TypeDeclaration,
    VariantDeclaration,
};
use crate::diagnostic::{deliver, delivers, Derivation, GenerationError, GenerationResult};
use crate::text::same_text;

pub mod emit;
pub mod render;
pub mod resolve;

verus! {

/// How a struct is laid out in the output.
#[derive(Debug, Clone, Copy, PartialEq, Eq, Structural)]
pub enum DebugStyle {
    /// A block of `name: value` entries.
    Struct,
    /// Positional entries without names.
    Tuple,
}

/// How a member's value is formatted.
#[derive(Debug, Clone, Copy, PartialEq, Eq, Structural)]
pub enum DebugFormat {
    /// With the member's pretty debug formatter.
    Debug,
    /// With the member's display formatter.
    Display,
}

/// The settings of the type itself.
#[derive(Debug, Clone, Copy, PartialEq, Eq, Structural)]
pub struct TypeConfig {
    pub style: DebugStyle,
    pub default_format: DebugFormat,
}

/// The settings of one field or variant.
#[derive(Debug, Clone, PartialEq, Eq)]
pub struct MemberConfig {
    /// The name shown in place of the declared one.
    pub override_name: Option<String>,
    /// The literal shown in place of the member's value.
    pub override_value: Option<String>,
    /// The member is left out of the output.
    pub ignored: bool,
    /// The format forced on this member, whatever the type's default.
    pub format: Option<DebugFormat>,
}

/// The settings of one field or variant, as plain text.
pub struct MemberConfigView {
    pub override_name: Option<Seq<char>>,
    pub override_value: Option<Seq<char>>,
    pub ignored: bool,
    pub format: Option<DebugFormat>,
}

impl View for MemberConfig {
    type V = MemberConfigView;

    open spec fn view(&self) -> MemberConfigView {
        MemberConfigView {
            override_name: match self.override_name {
                Some(name) => Some(name@),
                None => None,
            },
            override_value: match self.override_value {
                Some(value) => Some(value@),
                None => None,
            },
            ignored: self.ignored,
            format: self.format,
        }
    }
}

/// Everything the generator needs besides the declaration: fresh for each
/// invocation and never changed once resolved.
#[derive(Debug, Clone, PartialEq, Eq)]
pub struct ResolvedConfig {
    pub style: DebugStyle,
    pub default_format: DebugFormat,
    /// One entry for each field or variant, in declaration order.
    pub members: Vec<MemberConfig>,
}

/// The resolved configuration, as plain text.
pub struct ResolvedConfigView {
    pub style: DebugStyle,
    pub default_format: DebugFormat,
    pub members: Seq<MemberConfigView>,
}

/// The views of the member settings, in order.
pub open spec fn member_views(members: Seq<MemberConfig>) -> Seq<MemberConfigView> {
    Seq::new(members.len(), |i: int| members[i]@)
}

impl View for ResolvedConfig {
    type V = ResolvedConfigView;

    open spec fn view(&self) -> ResolvedConfigView {
        ResolvedConfigView {
            style: self.style,
            default_format: self.default_format,
            members: member_views(self.members@),
        }
    }
}

/// The style that `text` names.
pub open spec fn style_of(text: Seq<char>) -> Option<DebugStyle> {
    if text == "struct"@ {
        Some(DebugStyle::Struct)
    } else if text == "tuple"@ {
        Some(DebugStyle::Tuple)
    } else {
        None
    }
}

/// The format that `text` names.
pub open spec fn format_of(text: Seq<char>) -> Option<DebugFormat> {
    if text == "debug"@ {
        Some(DebugFormat::Debug)
    } else if text == "display"@ {
        Some(DebugFormat::Display)
    } else {
        None
    }
}

/// The names of the styles and of the formats are told apart by their
/// length or by their first character.
pub proof fn lemma_names_differ()
    ensures
        "struct"@ != "tuple"@,
        "debug"@ != "display"@,
{
    reveal_strlit("struct");
    reveal_strlit("tuple");
    reveal_strlit("debug");
    reveal_strlit("display");
    assert("struct"@.len() == 6 && "tuple"@.len() == 5);
    assert("debug"@.len() == 5 && "display"@.len() == 7);
}

/// Parses the value of `style`: `struct` or `tuple`.
pub fn check_debug_style(style: &str) -> (r: Option<DebugStyle>)
    ensures
        r == style_of(style@),
        style@ == "struct"@ ==> r == Some(DebugStyle::Struct),
        style@ == "tuple"@ ==> r == Some(DebugStyle::Tuple),
{
    proof {
        lemma_names_differ();
    }
    if same_text(style, "struct") {
        Some(DebugStyle::Struct)
    } else if same_text(style, "tuple") {
        Some(DebugStyle::Tuple)
    } else {
        None
    }
}

/// Parses the value of `format`: `debug` or `display`.
pub fn check_debug_format(style: &str) -> (r: Option<DebugFormat>)
    ensures
        r == format_of(style@),
        style@ == "debug"@ ==> r == Some(DebugFormat::Debug),
        style@ == "display"@ ==> r == Some(DebugFormat::Display),
{
    proof {
        lemma_names_differ();
    }
    if same_text(style, "debug") {
        Some(DebugFormat::Debug)
    } else if same_text(style, "display") {
        Some(DebugFormat::Display)
    } else {
        None
    }
}

/// The format of a member: the one forced on it, else the type's default.
pub open spec fn effective_format(
    config: MemberConfigView,
    default_format: DebugFormat,
) -> DebugFormat {
    match config.format {
        Some(format) => format,
        None => default_format,
    }
}

/// The format of a member under the type's default.
pub fn effective_format_of(config: &MemberConfig, default_format: DebugFormat) -> (format:
    DebugFormat)
    ensures
        format == effective_format(config@, default_format),
{
    match config.format {
        Some(format) => format,
        None => default_format,
    }
}

/// What the generator hands back for a struct: the failure of the
/// resolution, else the formatter under the resolved configuration.
pub open spec fn struct_outcome(
    declaration: TypeDeclaration,
    fields: Seq<FieldDeclaration>,
) -> Result<Seq<char>, GenerationError> {
    match resolved_config(declaration.annotations@, field_clauses(fields), true) {
        Err(error) => Err(error),
        Ok(config) => Ok(struct_code(declaration, fields, config)),
    }
}

/// Synthesizes the formatter of a struct, or reports the first malformed
/// annotation.
pub fn auto_debug_struct(declaration: &TypeDeclaration, fields: &Vec<FieldDeclaration>) -> (result:
    GenerationResult)
    ensures
        delivers(result, struct_outcome(*declaration, fields@)),
{
    match resolve_struct_config(declaration, fields) {
        Err(error) => deliver(Err(error)),
        Ok(config) => deliver(Ok(emit_struct(declaration, fields, &config))),
    }
}

/// What the generator hands back for an enum: the failure of the
/// resolution, else the formatter under the resolved configuration.
pub open spec fn enum_outcome(
    declaration: TypeDeclaration,
    variants: Seq<VariantDeclaration>,
) -> Result<Seq<char>, GenerationError> {
    match resolved_config(declaration.annotations@, variant_clauses(variants), false) {
        Err(error) => Err(error),
        Ok(config) => Ok(enum_code(declaration, variants, config)),
    }
}

/// Synthesizes the formatter of an enum, or reports the first malformed
/// annotation.
pub fn auto_debug_enum(
    declaration: &TypeDeclaration,
    variants: &Vec<VariantDeclaration>,
) -> (result: GenerationResult)
    ensures
        delivers(result, enum_outcome(*declaration, variants@)),
{
    match resolve_enum_config(declaration, variants) {
        Err(error) => deliver(Err(error)),
        Ok(config) => deliver(Ok(emit_enum(declaration, variants, &config))),
    }
}

/// What the debug derivation hands back for a declaration as the host
/// parser delivers it: the refusal of a shape that is neither struct nor
/// enum, else the outcome for the struct or the enum.
pub open spec fn debug_outcome(input: RawDeclaration) -> Result<Seq<char>, GenerationError> {
    match normalized(input, Derivation::AutoDebug) {
        Err(error) => Err(error),
        Ok(declaration) => match declaration.shape {
            Shape::Struct(fields) => struct_outcome(declaration, fields@),
            Shape::Enum(variants) => enum_outcome(declaration, variants@),
        },
    }
}

/// The debug derivation: synthesizes the formatter of the declared type, or
/// the diagnostic that takes its place.
pub fn auto_debug_internal(input: RawDeclaration) -> (result: GenerationResult)
    ensures
        delivers(result, debug_outcome(input)),
{
    match normalize(input, Derivation::AutoDebug) {
        Err(error) => deliver(Err(error)),
        Ok(declaration) => match &declaration.shape {
            Shape::Struct(fields) => auto_debug_struct(&declaration, fields),
            Shape::Enum(variants) => auto_debug_enum(&declaration, variants),
        },
    }
}

} // verus!
