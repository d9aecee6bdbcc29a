//! The part of annotation resolution that the generators share: which key a
//! clause spells, and what a clause of the expected form carries.
//!
//! A clause whose key no generator knows, or whose key the generator at hand
//! does not use at this level, is skipped. A clause with a key that is used
//! must have the form that the key asks for.

use vstd::prelude::*;
use crate::declaration::{AnnotationClause, ClauseForm};
use crate::diagnostic::{key_name, GenerationError, RecognizedKey, ValueProblem};
use crate::text::same_text;

verus! {

/// The key that `text` spells, if any.
pub open spec fn recognized(text: Seq<char>) -> Option<RecognizedKey> {
    if text == "style"@ {
        Some(RecognizedKey::Style)
    } else if text == "format"@ {
        Some(RecognizedKey::Format)
    } else if text == "name"@ {
        Some(RecognizedKey::Name)
    } else if text == "value"@ {
        Some(RecognizedKey::Value)
    } else if text == "ignore"@ {
        Some(RecognizedKey::Ignore)
    } else if text == "display"@ {
        Some(RecognizedKey::Display)
    } else if text == "debug"@ {
        Some(RecognizedKey::Debug)
    } else if text == "autorule"@ {
        Some(RecognizedKey::Autorule)
    } else if text == "str"@ {
        Some(RecognizedKey::Str)
    } else if text == "copy"@ {
        Some(RecognizedKey::Copy)
    } else if text == "bundle"@ {
        Some(RecognizedKey::Bundle)
    } else {
        None
    }
}

/// The key that `text` spells, if any.
pub fn recognize(text: &str) -> (key: Option<RecognizedKey>)
    ensures
        key == recognized(text@),
        text@ == "style"@ ==> key == Some(RecognizedKey::Style),
        text@ == "format"@ ==> key == Some(RecognizedKey::Format),
        text@ == "name"@ ==> key == Some(RecognizedKey::Name),
        text@ == "value"@ ==> key == Some(RecognizedKey::Value),
        text@ == "ignore"@ ==> key == Some(RecognizedKey::Ignore),
        text@ == "display"@ ==> key == Some(RecognizedKey::Display),
        text@ == "debug"@ ==> key == Some(RecognizedKey::Debug),
        text@ == "autorule"@ ==> key == Some(RecognizedKey::Autorule),
        text@ == "str"@ ==> key == Some(RecognizedKey::Str),
        text@ == "copy"@ ==> key == Some(RecognizedKey::Copy),
        text@ == "bundle"@ ==> key == Some(RecognizedKey::Bundle),
{
    proof {
        law_keys_are_distinct(RecognizedKey::Style);
        law_keys_are_distinct(RecognizedKey::Format);
        law_keys_are_distinct(RecognizedKey::Name);
        law_keys_are_distinct(RecognizedKey::Value);
        law_keys_are_distinct(RecognizedKey::Ignore);
        law_keys_are_distinct(RecognizedKey::Display);
        law_keys_are_distinct(RecognizedKey::Debug);
        law_keys_are_distinct(RecognizedKey::Autorule);
        law_keys_are_distinct(RecognizedKey::Str);
        law_keys_are_distinct(RecognizedKey::Copy);
        law_keys_are_distinct(RecognizedKey::Bundle);
    }
    if same_text(text, "style") {
        Some(RecognizedKey::Style)
    } else if same_text(text, "format") {
        Some(RecognizedKey::Format)
    } else if same_text(text, "name") {
        Some(RecognizedKey::Name)
    } else if same_text(text, "value") {
        Some(RecognizedKey::Value)
    } else if same_text(text, "ignore") {
        Some(RecognizedKey::Ignore)
    } else if same_text(text, "display") {
        Some(RecognizedKey::Display)
    } else if same_text(text, "debug") {
        Some(RecognizedKey::Debug)
    } else if same_text(text, "autorule") {
        Some(RecognizedKey::Autorule)
    } else if same_text(text, "str") {
        Some(RecognizedKey::Str)
    } else if same_text(text, "copy") {
        Some(RecognizedKey::Copy)
    } else if same_text(text, "bundle") {
        Some(RecognizedKey::Bundle)
    } else {
        None
    }
}

/// The failure of clause number `clause` of member `member` (of the type
/// itself where `member` is none) on the key `key`.
pub open spec fn invalid(
    key: RecognizedKey,
    member: Option<usize>,
    clause: int,
    reason: ValueProblem,
) -> GenerationError {
    GenerationError::InvalidAnnotationValue { key, member, clause: clause as usize, reason }
}

/// What a clause carries for a key that is a flag: nothing, so only its form
/// is checked.
pub open spec fn flag_problem(clause: AnnotationClause) -> Option<ValueProblem> {
    match clause.form {
        ClauseForm::Flag => None,
        _ => Some(ValueProblem::WrongForm),
    }
}

/// What a clause carries for a key that takes one literal.
pub open spec fn single_value(clause: AnnotationClause) -> Result<Seq<char>, ValueProblem> {
    match clause.form {
        ClauseForm::KeyValue(value) => Ok(value@),
        _ => Err(ValueProblem::WrongForm),
    }
}

/// What a clause carries for a key that takes a list of literals, of which
/// there must be at least one.
pub open spec fn listed_values(clause: AnnotationClause) -> Result<Seq<String>, ValueProblem> {
    match clause.form {
        ClauseForm::List(values) => if values@.len() == 0 {
            Err(ValueProblem::NoLiteral)
        } else {
            Ok(values@)
        },
        _ => Err(ValueProblem::WrongForm),
    }
}

/// Checks the form of a clause whose key is a flag.
pub fn check_flag(clause: &AnnotationClause) -> (problem: Option<ValueProblem>)
    ensures
        problem == flag_problem(*clause),
{
    match &clause.form {
        ClauseForm::Flag => None,
        _ => Some(ValueProblem::WrongForm),
    }
}

/// The literal of a clause whose key takes one.
pub fn read_single(clause: &AnnotationClause) -> (value: Result<&String, ValueProblem>)
    ensures
        match single_value(*clause) {
            Ok(text) => value matches Ok(found) && found@ == text,
            Err(problem) => value == Err::<&String, ValueProblem>(problem),
        },
{
    match &clause.form {
        ClauseForm::KeyValue(value) => Ok(value),
        _ => Err(ValueProblem::WrongForm),
    }
}

/// The literals of a clause whose key takes a list.
pub fn read_list(clause: &AnnotationClause) -> (values: Result<&Vec<String>, ValueProblem>)
    ensures
        match listed_values(*clause) {
            Ok(list) => values matches Ok(found) && found@ == list,
            Err(problem) => values == Err::<&Vec<String>, ValueProblem>(problem),
        },
{
    match &clause.form {
        ClauseForm::List(values) => if values.len() == 0 {
            Err(ValueProblem::NoLiteral)
        } else {
            Ok(values)
        },
        _ => Err(ValueProblem::WrongForm),
    }
}

/// The table of keys is consistent: the spelling of every recognized key
/// is recognized as that key and as no other.
pub proof fn law_keys_are_distinct(key: RecognizedKey)
    ensures
        recognized(key_name(key)) == Some(key),
{
    reveal_strlit("style");
    reveal_strlit("format");
    reveal_strlit("name");
    reveal_strlit("value");
    reveal_strlit("ignore");
    reveal_strlit("display");
    reveal_strlit("debug");
    reveal_strlit("autorule");
    reveal_strlit("str");
    reveal_strlit("copy");
    reveal_strlit("bundle");
    assert("display"@.len() == 7 && "autorule"@.len() == 8 && "str"@.len() == 3);
    assert("style"@[0] == 's' && "value"@[0] == 'v' && "debug"@[0] == 'd');
    assert("name"@[0] == 'n' && "copy"@[0] == 'c');
    assert("format"@[0] == 'f' && "ignore"@[0] == 'i' && "bundle"@[0] == 'b');
}

} // verus!
