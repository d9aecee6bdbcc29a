//! Derivation toolkit: the annotation resolution and the code synthesis
//! behind three derivations for user-declared types.
//!
//! * [`auto_debug`]: a debug formatter that can rename, replace or leave out
//!   members, and lay a struct out as a tuple.
//! * [`auto_str`]: conversions between the variants of an enum and strings.
//! * [`copy_with`]: a merge that copies from another value every field that
//!   is not at its default.
//! * [`bundle_text`]: accessors that return the contents of a file or the
//!   output of a command.
//!
//! Each derivation is a pure function from the declaration, handed over as
//! plain values, to the source text of the synthesized implementation or to
//! a positioned diagnostic. Nothing is kept between invocations.

use vstd::prelude::*;

pub mod annotation;
pub mod auto_debug;
pub mod auto_str;
pub mod bundle_text;
pub mod copy_with;
pub mod declaration;
pub mod diagnostic;
pub mod text;
pub mod util;

use crate::bundle_text::BundleClause;
use crate::declaration::RawDeclaration;
use crate::diagnostic::{delivers, GenerationResult};

verus! {

/// Derives the conversions of an enum from and to strings. Recognized
/// annotations: `autorule = "..."` on the enum, `str("...", ...)` on a
/// variant.
pub fn auto_str(input: RawDeclaration) -> (result: GenerationResult)
    ensures
        delivers(result, crate::auto_str::str_outcome(input)),
{
    crate::auto_str::auto_str_internal(input)
}

/// Derives the merge of a struct. Recognized annotation: `copy` on a field
/// whose type has a merge of its own.
pub fn copy_with(input: RawDeclaration) -> (result: GenerationResult)
    ensures
        delivers(result, crate::copy_with::copy_outcome(input)),
{
    crate::copy_with::copy_with_internal(input)
}

/// Derives the debug formatter of a struct or an enum. Recognized
/// annotations: `style = "..."` and `format = "..."` on the type; `name =
/// "..."`, `value = "..."`, `ignore`, `display` and `debug` on a member.
pub fn auto_debug(input: RawDeclaration) -> (result: GenerationResult)
    ensures
        delivers(result, crate::auto_debug::debug_outcome(input)),
{
    crate::auto_debug::auto_debug_internal(input)
}

/// Derives the text accessors of an enum from its `bundle(...)` mappings
/// and the text obtained for each of them.
pub fn bundle_text(
    input: RawDeclaration,
    mappings: &Vec<BundleClause>,
    contents: &Vec<String>,
) -> (result: GenerationResult)
    ensures
        delivers(result, crate::bundle_text::bundle_outcome(input, mappings@, contents@)),
{
    crate::bundle_text::bundle_text_internal(input, mappings, contents)
}

} // verus!
