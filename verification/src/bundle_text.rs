//! The text-bundling derivation: each mapping declared on an enum becomes an
//! accessor without arguments that returns a fixed text, the contents of a
//! file or the output of a command.
//!
//! Reading the file and running the command are the host's work. This
//! module says what is to be read or run, and synthesizes the accessors
//! from what came back.

use vstd::prelude::*;
use vstd::string::StringExecFns;
use crate::declaration::{
    normalize,
    normalized,
    refusal,
    RawBody,
    RawDeclaration,
    Shape,
    TypeDeclaration,
};
use crate::diagnostic::{
    deliver,
    delivers,
    Derivation,
    GenerationError,
    GenerationResult,
    RecognizedKey,
    ShapeProblem,
    ValueProblem,
};
use crate::text::{impl_header, impl_header_text, literal, push_literal, same_text, texts, value_at};
use crate::util::chars_of;

verus! {

/// Whether `c` has the Unicode property `XID_Start`.
pub uninterp spec fn xid_start(c: char) -> bool;

/// Whether `c` has the Unicode property `XID_Continue`.
pub uninterp spec fn xid_continue(c: char) -> bool;

/// `unicode_ident::is_xid_start`: the answer is the `XID_Start` property of
/// the character.
pub assume_specification[ unicode_ident::is_xid_start ](ch: char) -> (r: bool)
    ensures
        r == xid_start(ch),
;

/// `unicode_ident::is_xid_continue`: the answer is the `XID_Continue`
/// property of the character.
pub assume_specification[ unicode_ident::is_xid_continue ](ch: char) -> (r: bool)
    ensures
        r == xid_continue(ch),
;

/// One `bundle(...)` mapping as it was parsed: the identifiers and the
/// literals between its brackets, each in order.
#[derive(Debug, Clone, PartialEq, Eq)]
pub struct BundleClause {
    pub keys: Vec<String>,
    pub values: Vec<String>,
}

/// Where the text of an accessor comes from.
#[derive(Debug, Clone, PartialEq, Eq)]
pub enum BundleSource {
    /// The contents of a file, by its path relative to the working
    /// directory of the host.
    File { path: String },
    /// The standard output of a command.
    Command { program: String, arguments: Vec<String> },
}

/// One accessor to synthesize.
#[derive(Debug, Clone, PartialEq, Eq)]
pub struct BundleRequest {
    pub accessor: String,
    pub source: BundleSource,
}

/// A source, as plain text.
pub enum BundleSourceView {
    File { path: Seq<char> },
    Command { program: Seq<char>, arguments: Seq<Seq<char>> },
}

/// A request, as plain text.
pub struct BundleRequestView {
    pub accessor: Seq<char>,
    pub source: BundleSourceView,
}

impl View for BundleSource {
    type V = BundleSourceView;

    open spec fn view(&self) -> BundleSourceView {
        match *self {
            BundleSource::File { path } => BundleSourceView::File { path: path@ },
            BundleSource::Command { program, arguments } => BundleSourceView::Command {
                program: program@,
                arguments: texts(arguments@),
            },
        }
    }
}

impl View for BundleRequest {
    type V = BundleRequestView;

    open spec fn view(&self) -> BundleRequestView {
        BundleRequestView { accessor: self.accessor@, source: self.source@ }
    }
}

/// The views of a list of requests, in order.
pub open spec fn request_views(requests: Seq<BundleRequest>) -> Seq<BundleRequestView> {
    Seq::new(requests.len(), |i: int| requests[i]@)
}

/// One character of a name together with what `unicode_ident` says of it.
#[derive(Debug, Clone, Copy, PartialEq, Eq)]
pub struct NameChar {
    /// The character itself.
    pub content: char,
    /// The character can start an identifier.
    pub starts: bool,
    /// The character can continue an identifier.
    pub continues: bool,
}

/// What `unicode_ident` says of a single character.
pub open spec fn name_char(c: char) -> NameChar {
    NameChar { content: c, starts: xid_start(c), continues: xid_continue(c) }
}

/// The characters of a name with what is known of each, in order.
pub open spec fn name_chars(text: Seq<char>) -> Seq<NameChar> {
    Seq::new(text.len(), |i: int| name_char(text[i]))
}

/// Whether the characters spell an identifier: a first character that is
/// an underscore or starts an identifier, followed by characters that
/// continue one.
pub open spec fn spells_identifier(chars: Seq<NameChar>) -> bool {
    &&& chars.len() > 0
    &&& chars[0].content == '_' || chars[0].starts
    &&& forall|i: int| 1 <= i < chars.len() ==> (#[trigger] chars[i]).continues
}

/// Whether `text` can name an accessor.
pub open spec fn identifier(text: Seq<char>) -> bool {
    spells_identifier(name_chars(text))
}

/// The words of the first `n` characters of `text`, split at every single
/// space: those that a space has ended, and the one still open.
pub open spec fn split_prefix(text: Seq<char>, n: nat) -> (Seq<Seq<char>>, Seq<char>)
    decreases n,
{
    if n == 0 {
        (Seq::empty(), Seq::empty())
    } else {
        let before = split_prefix(text, (n - 1) as nat);
        if text[n - 1] == ' ' {
            (before.0.push(before.1), Seq::empty())
        } else {
            (before.0, before.1.push(text[n - 1]))
        }
    }
}

/// The words of `text`, split at every single space. There is always at
/// least one, and two spaces in a row give an empty word.
pub open spec fn words(text: Seq<char>) -> Seq<Seq<char>> {
    let split = split_prefix(text, text.len());
    split.0.push(split.1)
}

/// What a mapping asks for. It must hold exactly two identifiers and two
/// literals, `name` first and then `file` or `command`; the name must be
/// able to name an accessor. The first word of a command is the program,
/// the others are its arguments.
pub open spec fn bundle_request(clause: BundleClause) -> Result<BundleRequestView, ValueProblem> {
    if clause.keys@.len() != 2 || clause.values@.len() != 2 || clause.keys@[0]@ != "name"@ || (
    clause.keys@[1]@ != "file"@ && clause.keys@[1]@ != "command"@) {
        Err(ValueProblem::WrongForm)
    } else if !identifier(clause.values@[0]@) {
        Err(ValueProblem::NotInLegalSet)
    } else if clause.keys@[1]@ == "file"@ {
        Ok(
            BundleRequestView {
                accessor: clause.values@[0]@,
                source: BundleSourceView::File { path: clause.values@[1]@ },
            },
        )
    } else {
        Ok(
            BundleRequestView {
                accessor: clause.values@[0]@,
                source: BundleSourceView::Command {
                    program: words(clause.values@[1]@)[0],
                    arguments: words(clause.values@[1]@).skip(1),
                },
            },
        )
    }
}

/// The failure of mapping number `clause`.
pub open spec fn bundle_failure(clause: int, reason: ValueProblem) -> GenerationError {
    GenerationError::InvalidAnnotationValue {
        key: RecognizedKey::Bundle,
        member: None,
        clause: clause as usize,
        reason,
    }
}

/// The requests of the first `n` mappings: the failure of the first
/// mapping that has one, else all the requests in order.
pub open spec fn bundle_requests(mappings: Seq<BundleClause>, n: nat) -> Result<
    Seq<BundleRequestView>,
    GenerationError,
>
    decreases n,
{
    if n == 0 {
        Ok(Seq::empty())
    } else {
        match bundle_requests(mappings, (n - 1) as nat) {
            Err(error) => Err(error),
            Ok(before) => match bundle_request(mappings[n - 1]) {
                Err(reason) => Err(bundle_failure(n - 1, reason)),
                Ok(request) => Ok(before.push(request)),
            },
        }
    }
}

/// A failure among the first `n` mappings stays the result however many
/// mappings follow.
pub proof fn lemma_bundle_failure_stays(mappings: Seq<BundleClause>, n: nat, m: nat)
    requires
        n <= m,
        bundle_requests(mappings, n) is Err,
    ensures
        bundle_requests(mappings, m) == bundle_requests(mappings, n),
    decreases m,
{
    if n < m {
        lemma_bundle_failure_stays(mappings, n, (m - 1) as nat);
    }
}

/// Asks `unicode_ident` about each character of `text`.
pub fn prepare_name(text: &str) -> (chars: Vec<NameChar>)
    ensures
        chars@ == name_chars(text@),
{
    let source = chars_of(text);
    let mut chars: Vec<NameChar> = Vec::new();
    let mut i: usize = 0;
    while i < source.len()
        invariant
            i <= source.len(),
            source@ == text@,
            chars@.len() == i,
            forall|j: int| 0 <= j < i ==> chars@[j] == name_char(#[trigger] text@[j]),
        decreases source.len() - i,
    {
        let c = source[i];
        let known = NameChar {
            content: c,
            starts: unicode_ident::is_xid_start(c),
            continues: unicode_ident::is_xid_continue(c),
        };
        assert(known == name_char(text@[i as int]));
        chars.push(known);
        i += 1;
    }
    chars
}

/// Whether characters of which enough is known spell an identifier.
pub fn is_identifier_from(chars: &Vec<NameChar>) -> (r: bool)
    ensures
        r == spells_identifier(chars@),
{
    if chars.len() == 0 {
        return false;
    }
    if chars[0].content != '_' && !chars[0].starts {
        return false;
    }
    let mut i: usize = 1;
    while i < chars.len()
        invariant
            1 <= i <= chars.len(),
            forall|j: int| 1 <= j < i ==> (#[trigger] chars@[j]).continues,
        decreases chars.len() - i,
    {
        if !chars[i].continues {
            return false;
        }
        i += 1;
    }
    true
}

/// Whether `text` can name an accessor.
pub fn is_identifier(text: &str) -> (r: bool)
    ensures
        r == identifier(text@),
{
    let chars = prepare_name(text);
    is_identifier_from(&chars)
}

/// Splits `text` at every single space.
pub fn split_words(text: &str) -> (list: Vec<String>)
    ensures
        texts(list@) == words(text@),
        list@.len() >= 1,
{
    let chars = chars_of(text);
    let mut done: Vec<String> = Vec::new();
    let mut open = String::new();
    let mut i: usize = 0;
    while i < chars.len()
        invariant
            i <= chars.len(),
            chars@ == text@,
            split_prefix(text@, i as nat) == (texts(done@), open@),
        decreases chars.len() - i,
    {
        if chars[i] == ' ' {
            done.push(open);
            open = String::new();
        } else {
            open.push(chars[i]);
        }
        i += 1;
    }
    done.push(open);
    done
}

fn resolve_request(clause: &BundleClause) -> (r: Result<BundleRequest, ValueProblem>)
    ensures
        match bundle_request(*clause) {
            Ok(request) => r matches Ok(found) && found@ == request,
            Err(reason) => r matches Err(found) && found == reason,
        },
{
    if clause.keys.len() != 2 || clause.values.len() != 2 {
        return Err(ValueProblem::WrongForm);
    }
    let is_file = same_text(clause.keys[1].as_str(), "file");
    let is_command = same_text(clause.keys[1].as_str(), "command");
    if !same_text(clause.keys[0].as_str(), "name") || (!is_file && !is_command) {
        return Err(ValueProblem::WrongForm);
    }
    if !is_identifier(clause.values[0].as_str()) {
        return Err(ValueProblem::NotInLegalSet);
    }
    let accessor = clause.values[0].clone();
    if is_file {
        let path = clause.values[1].clone();
        Ok(BundleRequest { accessor, source: BundleSource::File { path } })
    } else {
        let mut arguments = split_words(clause.values[1].as_str());
        let ghost all = texts(arguments@);
        let program = arguments.remove(0);
        assert(texts(arguments@) =~= all.skip(1));
        Ok(BundleRequest { accessor, source: BundleSource::Command { program, arguments } })
    }
}

/// Resolves the mappings into requests, in declaration order, or reports
/// the first malformed mapping.
pub fn resolve_requests(mappings: &Vec<BundleClause>) -> (r: Result<
    Vec<BundleRequest>,
    GenerationError,
>)
    ensures
        match bundle_requests(mappings@, mappings@.len()) {
            Ok(requests) => r matches Ok(found) && request_views(found@) == requests,
            Err(error) => r matches Err(found) && found == error,
        },
{
    let mut requests: Vec<BundleRequest> = Vec::new();
    let mut i: usize = 0;
    assert(request_views(requests@) =~= Seq::empty());
    while i < mappings.len()
        invariant
            i <= mappings.len(),
            bundle_requests(mappings@, i as nat) == Ok::<Seq<BundleRequestView>, GenerationError>(
                request_views(requests@),
            ),
        decreases mappings.len() - i,
    {
        match resolve_request(&mappings[i]) {
            Err(reason) => {
                let error = GenerationError::InvalidAnnotationValue {
                    key: RecognizedKey::Bundle,
                    member: None,
                    clause: i,
                    reason,
                };
                proof {
                    lemma_bundle_failure_stays(mappings@, (i + 1) as nat, mappings@.len());
                }
                return Err(error);
            },
            Ok(request) => {
                let ghost before = request_views(requests@);
                requests.push(request);
                assert(request_views(requests@) =~= before.push(request@));
            },
        }
        i += 1;
    }
    Ok(requests)
}

/// The accessor that returns `content` under the name `accessor`.
pub open spec fn accessor_code(accessor: Seq<char>, content: Seq<char>) -> Seq<char> {
    "    fn "@ + accessor + "() -> &'static str {\n        "@ + literal(content) + "\n    }\n"@
}

/// The accessors of the first `n` requests; the text of request number `i`
/// is entry number `i` of `contents`, and empty where there is none.
pub open spec fn accessors_code(
    requests: Seq<BundleRequestView>,
    contents: Seq<String>,
    n: nat,
) -> Seq<char>
    decreases n,
{
    if n == 0 {
        Seq::empty()
    } else {
        accessors_code(requests, contents, (n - 1) as nat) + accessor_code(
            requests[n - 1].accessor,
            value_at(contents, n - 1),
        )
    }
}

/// The implementation that holds one accessor for each request, in order.
pub open spec fn bundle_code(
    declaration: TypeDeclaration,
    requests: Seq<BundleRequestView>,
    contents: Seq<String>,
) -> Seq<char> {
    impl_header(
        declaration.generics.impl_generics@,
        Seq::empty(),
        declaration.name@,
        declaration.generics.type_generics@,
        declaration.generics.where_clause@,
    ) + accessors_code(requests, contents, requests.len()) + "}\n"@
}

/// What the bundling derivation asks the host to read or run: nothing but
/// the refusal for anything but an enum, or the failure of the first
/// malformed mapping, else one request for each mapping, in order.
pub open spec fn bundle_plan(input: RawDeclaration, mappings: Seq<BundleClause>) -> Result<
    Seq<BundleRequestView>,
    GenerationError,
> {
    match normalized(input, Derivation::BundleText) {
        Err(error) => Err(error),
        Ok(declaration) => match declaration.shape {
            Shape::Struct(_) => Err(
                GenerationError::UnsupportedShape {
                    derivation: Derivation::BundleText,
                    problem: ShapeProblem::NotAnEnum,
                    member: None,
                },
            ),
            Shape::Enum(_) => bundle_requests(mappings, mappings.len()),
        },
    }
}

/// What the bundling derivation hands back: the failure of the plan, else
/// the accessors of its requests.
pub open spec fn bundle_outcome(
    input: RawDeclaration,
    mappings: Seq<BundleClause>,
    contents: Seq<String>,
) -> Result<Seq<char>, GenerationError> {
    match bundle_plan(input, mappings) {
        Err(error) => Err(error),
        Ok(requests) => Ok(
            bundle_code(normalized(input, Derivation::BundleText)->Ok_0, requests, contents),
        ),
    }
}

/// Says what the host is to read or run for the declared mappings, before
/// anything is read or run.
pub fn plan_bundles(input: &RawDeclaration, mappings: &Vec<BundleClause>) -> (r: Result<
    Vec<BundleRequest>,
    GenerationError,
>)
    ensures
        match bundle_plan(*input, mappings@) {
            Ok(requests) => r matches Ok(found) && request_views(found@) == requests,
            Err(error) => r matches Err(found) && found == error,
        },
{
    if let Some(error) = refusal(input, Derivation::BundleText) {
        return Err(error);
    }
    match &input.body {
        RawBody::Enum(_) => resolve_requests(mappings),
        _ => Err(
            GenerationError::UnsupportedShape {
                derivation: Derivation::BundleText,
                problem: ShapeProblem::NotAnEnum,
                member: None,
            },
        ),
    }
}

/// Writes the accessors of an enum, given the text that the host read or
/// captured for each request.
pub fn bundle_text_enum(
    declaration: &TypeDeclaration,
    requests: &Vec<BundleRequest>,
    contents: &Vec<String>,
) -> (out: String)
    ensures
        out@ == bundle_code(*declaration, request_views(requests@), contents@),
{
    proof {
        reveal_strlit("");
    }
    let mut out = impl_header_text(
        declaration.generics.impl_generics.as_str(),
        "",
        declaration.name.as_str(),
        declaration.generics.type_generics.as_str(),
        declaration.generics.where_clause.as_str(),
    );
    let mut accessors = String::new();
    let mut i: usize = 0;
    while i < requests.len()
        invariant
            i <= requests.len(),
            ""@ == Seq::<char>::empty(),
            accessors@ == accessors_code(request_views(requests@), contents@, i as nat),
        decreases requests.len() - i,
    {
        let mut accessor = String::from_str("    fn ");
        accessor.append(requests[i].accessor.as_str());
        accessor.append("() -> &'static str {\n        ");
        let content = if i < contents.len() {
            contents[i].as_str()
        } else {
            ""
        };
        push_literal(&mut accessor, content);
        accessor.append("\n    }\n");
        accessors.append(accessor.as_str());
        i += 1;
    }
    out.append(accessors.as_str());
    out.append("}\n");
    out
}

/// The bundling derivation: synthesizes the accessors of the declared
/// enum from the declared mappings and the text obtained for each, or the
/// diagnostic that takes their place.
pub fn bundle_text_internal(
    input: RawDeclaration,
    mappings: &Vec<BundleClause>,
    contents: &Vec<String>,
) -> (result: GenerationResult)
    ensures
        delivers(result, bundle_outcome(input, mappings@, contents@)),
{
    let declaration = match normalize(input, Derivation::BundleText) {
        Err(error) => {
            return deliver(Err(error));
        },
        Ok(declaration) => declaration,
    };
    match &declaration.shape {
        Shape::Struct(_) => deliver(
            Err(
                GenerationError::UnsupportedShape {
                    derivation: Derivation::BundleText,
                    problem: ShapeProblem::NotAnEnum,
                    member: None,
                },
            ),
        ),
        Shape::Enum(_) => match resolve_requests(mappings) {
            Err(error) => deliver(Err(error)),
            Ok(requests) => deliver(Ok(bundle_text_enum(&declaration, &requests, contents))),
        },
    }
}

} // verus!
