//! Case conversion of identifiers: camelCase, PascalCase, snake_case and
//! SCREAMING_CASE. The first two are one pass of a two-flag state machine
//! over the characters of the input; the other two rewrite the camelCase
//! form character by character.
//!
//! What a character is (alphabetic, uppercase) and what its case mappings
//! are is asked of the standard library once, in `prepare_char_state`. The
//! conversions themselves work on the answers.

use vstd::prelude::*;

verus! {

/// Whether `c` has the Unicode `Alphabetic` property.
pub uninterp spec fn alphabetic(c: char) -> bool;

/// Whether `c` has the Unicode `Uppercase` property.
pub uninterp spec fn uppercase(c: char) -> bool;

/// The uppercase mapping of `c`, one or more characters.
pub uninterp spec fn uppercase_mapping(c: char) -> Seq<char>;

/// The lowercase mapping of `c`, one or more characters.
pub uninterp spec fn lowercase_mapping(c: char) -> Seq<char>;

/// The lowercase form of a whole text.
pub uninterp spec fn lowercase_text(s: Seq<char>) -> Seq<char>;

/// The uppercase form of a whole text.
pub uninterp spec fn uppercase_text(s: Seq<char>) -> Seq<char>;

/// `str::to_lowercase`: the result is the lowercase form of the text.
pub assume_specification[ str::to_lowercase ](s: &str) -> (r: String)
    ensures
        r@ == lowercase_text(s@),
;

/// `str::to_uppercase`: the result is the uppercase form of the text.
pub assume_specification[ str::to_uppercase ](s: &str) -> (r: String)
    ensures
        r@ == uppercase_text(s@),
;

/// `char::is_alphabetic`: the answer is the `Alphabetic` property of `c`.
pub assume_specification[ char::is_alphabetic ](c: char) -> (r: bool)
    ensures
        r == alphabetic(c),
;

/// `char::is_uppercase`: the answer is the `Uppercase` property of `c`.
pub assume_specification[ char::is_uppercase ](c: char) -> (r: bool)
    ensures
        r == uppercase(c),
;

/// `String::push`: the character is appended at the end.
pub assume_specification[ String::push ](s: &mut String, c: char)
    ensures
        final(s)@ == old(s)@.push(c),
;

/// `char::to_uppercase`, collected: the characters that the iterator yields
/// are the uppercase mapping of `c`, and there is at least one of them.
#[verifier::external_body]
fn uppercase_chars(c: char) -> (r: Vec<char>)
    ensures
        r@ == uppercase_mapping(c),
        r@.len() >= 1,
{
    c.to_uppercase().collect()
}

/// `char::to_lowercase`, collected: the characters that the iterator yields
/// are the lowercase mapping of `c`, and there is at least one of them.
#[verifier::external_body]
fn lowercase_chars(c: char) -> (r: Vec<char>)
    ensures
        r@ == lowercase_mapping(c),
        r@.len() >= 1,
{
    c.to_lowercase().collect()
}

/// One character of the input together with what the standard library
/// says of it.
#[derive(Debug, Clone, Copy, PartialEq, Eq)]
pub struct CharState {
    /// The character is alphabetic.
    pub alphabetic: bool,
    /// The character is uppercase.
    pub uppercase: bool,
    /// The character itself.
    pub content: char,
    /// The first character of its uppercase mapping.
    pub raised: char,
    /// The first character of its lowercase mapping.
    pub lowered: char,
}

/// The first character of the uppercase mapping of `c`.
pub open spec fn upper_first(c: char) -> char {
    uppercase_mapping(c)[0]
}

/// The first character of the lowercase mapping of `c`.
pub open spec fn lower_first(c: char) -> char {
    lowercase_mapping(c)[0]
}

/// What the standard library says of a single character.
pub open spec fn char_state(c: char) -> CharState {
    CharState {
        alphabetic: alphabetic(c),
        uppercase: uppercase(c),
        content: c,
        raised: upper_first(c),
        lowered: lower_first(c),
    }
}

/// The states of the characters of a text, in order.
pub open spec fn states_of(chars: Seq<char>) -> Seq<CharState> {
    Seq::new(chars.len(), |i: int| char_state(chars[i]))
}

/// Whether a character is an uppercase letter.
pub open spec fn capital(state: CharState) -> bool {
    state.alphabetic && state.uppercase
}

/// The two flags that the conversion carries from one character to the next.
pub struct CaseFlags {
    /// The previous character belonged to a run of uppercase letters.
    pub in_uppercase_run: bool,
    /// A separator was dropped, so the next character starts a new word.
    pub capitalize_next: bool,
}

/// What character number `i` contributes: the flags after it and the
/// characters written for it (none or one).
///
/// The first character is forced to the requested case. Inside a run of
/// uppercase letters a character is kept where a lowercase letter follows
/// it, dropped where it is no letter, and lowered otherwise. After a
/// dropped separator the character is raised. Outside a run an uppercase
/// letter begins one, a character that is no letter is dropped as a
/// separator, and a lowercase letter is kept.
pub open spec fn case_step(states: Seq<CharState>, i: int, first_upper: bool, flags: CaseFlags) -> (
    CaseFlags,
    Seq<char>,
)
    recommends
        0 <= i < states.len(),
{
    let cur = states[i];
    if i == 0 {
        (
            CaseFlags {
                in_uppercase_run: capital(cur) || flags.in_uppercase_run,
                capitalize_next: flags.capitalize_next,
            },
            seq![
                if first_upper {
                    cur.raised
                } else {
                    cur.lowered
                },
            ],
        )
    } else if flags.in_uppercase_run {
        let next_is_lower_letter = i + 1 < states.len() && states[i + 1].alphabetic && !capital(
            states[i + 1],
        );
        if next_is_lower_letter {
            (
                CaseFlags {
                    in_uppercase_run: capital(cur),
                    capitalize_next: flags.capitalize_next,
                },
                seq![cur.content],
            )
        } else if !cur.alphabetic {
            (
                CaseFlags { in_uppercase_run: false, capitalize_next: flags.capitalize_next },
                Seq::empty(),
            )
        } else {
            (
                CaseFlags {
                    in_uppercase_run: capital(cur),
                    capitalize_next: flags.capitalize_next,
                },
                seq![cur.lowered],
            )
        }
    } else if flags.capitalize_next {
        (CaseFlags { in_uppercase_run: false, capitalize_next: false }, seq![cur.raised])
    } else if capital(cur) {
        (CaseFlags { in_uppercase_run: true, capitalize_next: false }, seq![cur.content])
    } else if !cur.alphabetic {
        (CaseFlags { in_uppercase_run: false, capitalize_next: true }, Seq::empty())
    } else {
        (CaseFlags { in_uppercase_run: false, capitalize_next: false }, seq![cur.content])
    }
}

/// The flags and the output after the first `n` characters.
pub open spec fn case_run(states: Seq<CharState>, first_upper: bool, n: nat) -> (
    CaseFlags,
    Seq<char>,
)
    decreases n,
{
    if n == 0 {
        (CaseFlags { in_uppercase_run: false, capitalize_next: false }, Seq::empty())
    } else {
        let before = case_run(states, first_upper, (n - 1) as nat);
        let step = case_step(states, n - 1, first_upper, before.0);
        (step.0, before.1 + step.1)
    }
}

/// The camelCase (`first_upper` false) or PascalCase (`first_upper` true)
/// form of the characters with the given states.
pub open spec fn case_of(states: Seq<CharState>, first_upper: bool) -> Seq<char> {
    case_run(states, first_upper, states.len()).1
}

/// The camelCase or PascalCase form of `chars`.
pub open spec fn case_convert(chars: Seq<char>, first_upper: bool) -> Seq<char> {
    case_of(states_of(chars), first_upper)
}

/// What one character of a camelCase text becomes in snake_case: an
/// uppercase character is lowered behind an underscore.
pub open spec fn snake_piece(state: CharState) -> Seq<char> {
    if state.uppercase {
        seq!['_', state.lowered]
    } else {
        seq![state.content]
    }
}

/// What one character of a camelCase text becomes in SCREAMING_CASE: an
/// uppercase character gives way to an underscore, every other character
/// is raised.
pub open spec fn screaming_piece(state: CharState) -> Seq<char> {
    if state.uppercase {
        seq!['_']
    } else {
        seq![state.raised]
    }
}

/// The snake_case form of the first `n` characters of a camelCase text.
pub open spec fn snake_prefix(camel: Seq<CharState>, n: nat) -> Seq<char>
    decreases n,
{
    if n == 0 {
        Seq::empty()
    } else {
        snake_prefix(camel, (n - 1) as nat) + snake_piece(camel[n - 1])
    }
}

/// The SCREAMING_CASE form of the first `n` characters of a camelCase text.
pub open spec fn screaming_prefix(camel: Seq<CharState>, n: nat) -> Seq<char>
    decreases n,
{
    if n == 0 {
        Seq::empty()
    } else {
        screaming_prefix(camel, (n - 1) as nat) + screaming_piece(camel[n - 1])
    }
}

/// The snake_case form of `chars`.
pub open spec fn snake_convert(chars: Seq<char>) -> Seq<char> {
    let camel = states_of(case_convert(chars, false));
    snake_prefix(camel, camel.len())
}

/// The SCREAMING_CASE form of `chars`.
pub open spec fn screaming_convert(chars: Seq<char>) -> Seq<char> {
    let camel = states_of(case_convert(chars, false));
    screaming_prefix(camel, camel.len())
}

/// Every step writes at most one character.
pub proof fn lemma_case_run_len(states: Seq<CharState>, first_upper: bool, n: nat)
    ensures
        case_run(states, first_upper, n).1.len() <= n,
    decreases n,
{
    if n > 0 {
        lemma_case_run_len(states, first_upper, (n - 1) as nat);
    }
}

/// The camelCase or PascalCase form is never longer than the input, and
/// the empty input gives the empty output.
pub proof fn law_case_never_grows(chars: Seq<char>, first_upper: bool)
    ensures
        case_convert(chars, first_upper).len() <= chars.len(),
        chars.len() == 0 ==> case_convert(chars, first_upper) == Seq::<char>::empty(),
{
    lemma_case_run_len(states_of(chars), first_upper, chars.len());
}

/// The characters of `s`, in order.
pub fn chars_of(s: &str) -> (v: Vec<char>)
    ensures
        v@ == s@,
{
    let mut v: Vec<char> = Vec::new();
    for c in it: s.chars()
        invariant
            it.seq() == s@,
            v@ == s@.take(it.index() as int),
    {
        v.push(c);
    }
    v
}

/// The first character of the uppercase mapping of `ch`.
pub fn char_convert_uppercase(ch: &char) -> (r: char)
    ensures
        r == upper_first(*ch),
{
    let mapped = uppercase_chars(*ch);
    mapped[0]
}

/// The first character of the lowercase mapping of `ch`.
pub fn char_convert_lowercase(ch: &char) -> (r: char)
    ensures
        r == lower_first(*ch),
{
    let mapped = lowercase_chars(*ch);
    mapped[0]
}

/// Asks the standard library about each character of `str`.
pub fn prepare_char_state(str: &str) -> (states: Vec<CharState>)
    ensures
        states@ == states_of(str@),
{
    let chars = chars_of(str);
    let mut state_list: Vec<CharState> = Vec::new();
    let mut i: usize = 0;
    while i < chars.len()
        invariant
            i <= chars.len(),
            chars@ == str@,
            state_list@.len() == i,
            forall|j: int| 0 <= j < i ==> state_list@[j] == char_state(#[trigger] str@[j]),
        decreases chars.len() - i,
    {
        let ch = chars[i];
        let state = CharState {
            alphabetic: ch.is_alphabetic(),
            uppercase: ch.is_uppercase(),
            content: ch,
            raised: char_convert_uppercase(&ch),
            lowered: char_convert_lowercase(&ch),
        };
        assert(state == char_state(str@[i as int]));
        state_list.push(state);
        i += 1;
    }
    state_list
}

/// Runs the conversion to camelCase or, with `first_index_upper`, to
/// PascalCase over characters whose states are known.
pub fn case_from_states(state_list: &Vec<CharState>, first_index_upper: bool) -> (ret: String)
    ensures
        ret@ == case_of(state_list@, first_index_upper),
{
    let mut ret = String::new();
    let n = state_list.len();
    let mut still_in_uppercase = false;
    let mut need_uppercase = false;
    let mut index: usize = 0;
    while index < n
        invariant
            index <= n,
            n == state_list@.len(),
            case_run(state_list@, first_index_upper, index as nat) == (
                CaseFlags { in_uppercase_run: still_in_uppercase, capitalize_next: need_uppercase },
                ret@,
            ),
        decreases n - index,
    {
        let state = state_list[index];
        let uppercase = state.alphabetic && state.uppercase;
        if index == 0 {
            if uppercase {
                still_in_uppercase = true;
            }
            if first_index_upper {
                ret.push(state.raised);
            } else {
                ret.push(state.lowered);
            }
        } else if still_in_uppercase {
            if !uppercase {
                still_in_uppercase = false;
            }
            let next_is_lower_letter = index < n - 1 && state_list[index + 1].alphabetic
                && !state_list[index + 1].uppercase;
            if next_is_lower_letter {
                ret.push(state.content);
            } else if !state.alphabetic {
                still_in_uppercase = false;
            } else {
                ret.push(state.lowered);
            }
        } else if need_uppercase {
            ret.push(state.raised);
            need_uppercase = false;
        } else if uppercase {
            ret.push(state.content);
            still_in_uppercase = true;
        } else if !state.alphabetic {
            need_uppercase = true;
        } else {
            ret.push(state.content);
            still_in_uppercase = false;
        }
        index += 1;
    }
    ret
}

/// Converts `str` to camelCase or, with `first_index_upper`, to PascalCase.
pub fn case_internal(str: &str, first_index_upper: bool) -> (ret: String)
    ensures
        ret@ == case_convert(str@, first_index_upper),
{
    let state_list = prepare_char_state(str);
    case_from_states(&state_list, first_index_upper)
}

/// Converts to camelCase: `HttpClient`, `HTTPClient` and `HTTP_CLIENT` all
/// become `httpClient`.
pub fn to_camel_case(str: &str) -> (ret: String)
    ensures
        ret@ == case_convert(str@, false),
{
    case_internal(str, false)
}

/// Converts to PascalCase: `httpClient`, `HTTPClient` and `HTTP_CLIENT` all
/// become `HttpClient`.
pub fn to_pascal_case(str: &str) -> (ret: String)
    ensures
        ret@ == case_convert(str@, true),
{
    case_internal(str, true)
}

/// Rewrites a camelCase text, whose states are known, to snake_case.
pub fn snake_from_states(camel: &Vec<CharState>) -> (ret: String)
    ensures
        ret@ == snake_prefix(camel@, camel@.len()),
{
    let mut ret = String::new();
    let mut i: usize = 0;
    while i < camel.len()
        invariant
            i <= camel.len(),
            ret@ == snake_prefix(camel@, i as nat),
        decreases camel.len() - i,
    {
        let ss = camel[i];
        if ss.uppercase {
            ret.push('_');
            ret.push(ss.lowered);
        } else {
            ret.push(ss.content);
        }
        i += 1;
    }
    ret
}

/// Rewrites a camelCase text, whose states are known, to SCREAMING_CASE.
pub fn screaming_from_states(camel: &Vec<CharState>) -> (ret: String)
    ensures
        ret@ == screaming_prefix(camel@, camel@.len()),
{
    let mut ret = String::new();
    let mut i: usize = 0;
    while i < camel.len()
        invariant
            i <= camel.len(),
            ret@ == screaming_prefix(camel@, i as nat),
        decreases camel.len() - i,
    {
        let ss = camel[i];
        if ss.uppercase {
            ret.push('_');
        } else {
            ret.push(ss.raised);
        }
        i += 1;
    }
    ret
}

/// Converts to snake_case: the camelCase form with every uppercase letter
/// replaced by an underscore and its lowercase form, so `HttpClient` becomes
/// `http_client`.
pub fn to_snake_case(str: &str) -> (ret: String)
    ensures
        ret@ == snake_convert(str@),
{
    let s = case_internal(str, false);
    let camel = prepare_char_state(s.as_str());
    snake_from_states(&camel)
}

/// Converts to SCREAMING_CASE: the camelCase form with an underscore in
/// place of every uppercase letter and every other character raised. The
/// letter that begins a word is therefore not kept: `HttpClient` becomes
/// `HTTP_LIENT`.
pub fn to_screaming_case(str: &str) -> (ret: String)
    ensures
        ret@ == screaming_convert(str@),
{
    let s = case_internal(str, false);
    let camel = prepare_char_state(s.as_str());
    screaming_from_states(&camel)
}

} // verus!
