//! Text building blocks of the generators: comparison, decimal numbers,
//! string literals of the host language, and the indentation of nested
//! pretty-printed output.

use vstd::prelude::*;
use vstd::string::StringExecFns;
use crate::util::chars_of;

pub mod denotation;

verus! {

/// `str`'s `PartialEq::eq`: two string slices are equal when they hold the
/// same characters.
pub assume_specification[ <str as PartialEq>::eq ](a: &str, b: &str) -> (r: bool)
    ensures
        r == (a@ == b@),
;

/// Whether `a` and `b` hold the same characters.
pub fn same_text(a: &str, b: &str) -> (r: bool)
    ensures
        r == (a@ == b@),
{
    a.eq(b)
}

/// The digit or lowercase letter that stands for `d` in bases up to 16.
pub open spec fn digit_char(d: nat) -> char {
    if d == 0 {
        '0'
    } else if d == 1 {
        '1'
    } else if d == 2 {
        '2'
    } else if d == 3 {
        '3'
    } else if d == 4 {
        '4'
    } else if d == 5 {
        '5'
    } else if d == 6 {
        '6'
    } else if d == 7 {
        '7'
    } else if d == 8 {
        '8'
    } else if d == 9 {
        '9'
    } else if d == 10 {
        'a'
    } else if d == 11 {
        'b'
    } else if d == 12 {
        'c'
    } else if d == 13 {
        'd'
    } else if d == 14 {
        'e'
    } else {
        'f'
    }
}

/// `n` written in base `base`, most significant digit first, without
/// leading zeros.
pub open spec fn numeral(n: nat, base: nat) -> Seq<char>
    recommends
        2 <= base <= 16,
    decreases n,
{
    if n < base || base < 2 {
        seq![digit_char(n)]
    } else {
        proof {
            assert(n / base < n) by (nonlinear_arith)
                requires
                    2 <= base <= n,
            ;
        }
        numeral(n / base, base).push(digit_char(n % base))
    }
}

/// `n` in decimal.
pub open spec fn decimal(n: nat) -> Seq<char> {
    numeral(n, 10)
}

/// `n` in lowercase hexadecimal.
pub open spec fn hexadecimal(n: nat) -> Seq<char> {
    numeral(n, 16)
}

fn digit_of(d: u32) -> (c: char)
    requires
        d < 16,
    ensures
        c == digit_char(d as nat),
{
    if d == 0 {
        '0'
    } else if d == 1 {
        '1'
    } else if d == 2 {
        '2'
    } else if d == 3 {
        '3'
    } else if d == 4 {
        '4'
    } else if d == 5 {
        '5'
    } else if d == 6 {
        '6'
    } else if d == 7 {
        '7'
    } else if d == 8 {
        '8'
    } else if d == 9 {
        '9'
    } else if d == 10 {
        'a'
    } else if d == 11 {
        'b'
    } else if d == 12 {
        'c'
    } else if d == 13 {
        'd'
    } else if d == 14 {
        'e'
    } else {
        'f'
    }
}

fn push_numeral(out: &mut String, n: u64, base: u32)
    requires
        2 <= base <= 16,
    ensures
        final(out)@ == old(out)@ + numeral(n as nat, base as nat),
    decreases n,
{
    if n < base as u64 {
        out.push(digit_of(n as u32));
    } else {
        assert(n / (base as u64) < n) by (nonlinear_arith)
            requires
                2 <= base <= n,
        ;
        push_numeral(out, n / (base as u64), base);
        out.push(digit_of((n % (base as u64)) as u32));
    }
}

/// Writes `n` in decimal.
pub fn decimal_text(n: usize) -> (out: String)
    ensures
        out@ == decimal(n as nat),
{
    let mut out = String::new();
    push_numeral(&mut out, n as u64, 10);
    out
}

/// Whether `c` stands for itself inside a string literal: printable ASCII
/// other than the double quote and the backslash.
pub open spec fn is_plain(c: char) -> bool {
    0x20 <= c as u32 <= 0x7e && c != '"' && c != '\\'
}

/// The spelling of `c` inside a string literal: itself where it is plain,
/// else the escape `\u{..}` with its code point in hexadecimal.
pub open spec fn escaped(c: char) -> Seq<char> {
    if is_plain(c) {
        seq![c]
    } else {
        seq!['\\', 'u', '{'] + hexadecimal(c as u32 as nat) + seq!['}']
    }
}

/// The spellings of the first `n` characters of `s`, one after the other.
pub open spec fn escaped_prefix(s: Seq<char>, n: nat) -> Seq<char>
    decreases n,
{
    if n == 0 {
        Seq::empty()
    } else {
        escaped_prefix(s, (n - 1) as nat) + escaped(s[n - 1])
    }
}

/// The string literal that denotes `s`: the escaped characters between
/// double quotes.
pub open spec fn literal(s: Seq<char>) -> Seq<char> {
    seq!['"'] + escaped_prefix(s, s.len()) + seq!['"']
}

/// Appends to `out` the string literal that denotes `s`.
pub fn push_literal(out: &mut String, s: &str)
    ensures
        final(out)@ == old(out)@ + literal(s@),
{
    let ghost start = out@;
    let chars = chars_of(s);
    out.push('"');
    let mut i: usize = 0;
    while i < chars.len()
        invariant
            i <= chars.len(),
            chars@ == s@,
            out@ == start + seq!['"'] + escaped_prefix(s@, i as nat),
        decreases chars.len() - i,
    {
        let c = chars[i];
        let code = c as u32;
        if 0x20 <= code && code <= 0x7e && c != '"' && c != '\\' {
            out.push(c);
        } else {
            out.push('\\');
            out.push('u');
            out.push('{');
            push_numeral(out, code as u64, 16);
            out.push('}');
        }
        i += 1;
    }
    out.push('"');
}

/// The string literal that denotes `s`.
pub fn literal_text(s: &str) -> (out: String)
    ensures
        out@ == literal(s@),
{
    let mut out = String::new();
    push_literal(&mut out, s);
    out
}

/// The texts of a list of strings, in order.
pub open spec fn texts(list: Seq<String>) -> Seq<Seq<char>> {
    Seq::new(list.len(), |i: int| list[i]@)
}

/// A copy of a list of strings.
pub fn copy_texts(list: &Vec<String>) -> (copy: Vec<String>)
    ensures
        texts(copy@) == texts(list@),
{
    let mut copy: Vec<String> = Vec::new();
    let mut i: usize = 0;
    while i < list.len()
        invariant
            i <= list.len(),
            copy@.len() == i,
            forall|j: int| 0 <= j < i ==> copy@[j]@ == list@[j]@,
        decreases list.len() - i,
    {
        copy.push(list[i].clone());
        i += 1;
    }
    copy
}

/// The formatted value number `index`, or nothing where the list is too
/// short.
pub open spec fn value_at(values: Seq<String>, index: int) -> Seq<char> {
    if 0 <= index < values.len() {
        values[index]@
    } else {
        Seq::empty()
    }
}

/// The formatted value number `index`, or the empty text where the list is
/// too short.
pub fn value_text(values: &Vec<String>, index: usize) -> (out: &str)
    ensures
        out@ == value_at(values@, index as int),
{
    if index < values.len() {
        values[index].as_str()
    } else {
        proof {
            reveal_strlit("");
        }
        ""
    }
}

/// The opening line of an implementation block for the type `name`: of the
/// trait `trait_path`, or of the type itself where the path is empty. The
/// parts of the generics are passed through as they are.
pub open spec fn impl_header(
    impl_generics: Seq<char>,
    trait_path: Seq<char>,
    name: Seq<char>,
    type_generics: Seq<char>,
    where_clause: Seq<char>,
) -> Seq<char> {
    "impl"@ + impl_generics + " "@ + (if trait_path.len() == 0 {
        trait_path
    } else {
        trait_path + " for "@
    }) + name + type_generics + " "@ + where_clause + " {\n"@
}

/// Writes the opening line of an implementation block.
pub fn impl_header_text(
    impl_generics: &str,
    trait_path: &str,
    name: &str,
    type_generics: &str,
    where_clause: &str,
) -> (out: String)
    ensures
        out@ == impl_header(impl_generics@, trait_path@, name@, type_generics@, where_clause@),
{
    let mut out = String::from_str("impl");
    out.append(impl_generics);
    out.append(" ");
    if trait_path.unicode_len() != 0 {
        out.append(trait_path);
        out.append(" for ");
    }
    out.append(name);
    out.append(type_generics);
    out.append(" ");
    out.append(where_clause);
    out.append(" {\n");
    out
}

/// One level of indentation.
pub open spec fn indent_unit() -> Seq<char> {
    seq![' ', ' ', ' ', ' ']
}

/// Whether character number `k` of `s` begins a line: it follows a line
/// feed, or it is the first and `first` says that the text begins one.
pub open spec fn begins_line(s: Seq<char>, k: int, first: bool) -> bool {
    if k == 0 {
        first
    } else {
        s[k - 1] == '\n'
    }
}

/// The first `n` characters of `s` with `margin` put in front of every
/// character that begins a line.
pub open spec fn margined_prefix(s: Seq<char>, n: nat, margin: Seq<char>, first: bool) -> Seq<char>
    decreases n,
{
    if n == 0 {
        Seq::empty()
    } else {
        margined_prefix(s, (n - 1) as nat, margin, first) + (if begins_line(s, n - 1, first) {
            margin
        } else {
            Seq::empty()
        }) + seq![s[n - 1]]
    }
}

/// `s` with `margin` in front of every line.
pub open spec fn margined(s: Seq<char>, margin: Seq<char>) -> Seq<char> {
    margined_prefix(s, s.len(), margin, true)
}

/// `s` with every line indented by one level.
pub open spec fn indented(s: Seq<char>) -> Seq<char> {
    margined(s, indent_unit())
}

/// `s` indented `depth` times over, as the value at the bottom of `depth`
/// composite values is.
pub open spec fn nested(s: Seq<char>, depth: nat) -> Seq<char>
    decreases depth,
{
    if depth == 0 {
        s
    } else {
        indented(nested(s, (depth - 1) as nat))
    }
}

/// The margin of nesting depth `depth`: that many levels of indentation.
pub open spec fn margin_of(depth: nat) -> Seq<char>
    decreases depth,
{
    if depth == 0 {
        Seq::empty()
    } else {
        indent_unit() + margin_of((depth - 1) as nat)
    }
}

/// Whether `s` holds no line feed.
pub open spec fn single_line(s: Seq<char>) -> bool {
    forall|i: int| 0 <= i < s.len() ==> s[i] != '\n'
}

/// Appends `s` to `out`, every line indented by one level.
pub fn push_indented(out: &mut String, s: &str)
    ensures
        final(out)@ == old(out)@ + indented(s@),
{
    let ghost start = out@;
    let chars = chars_of(s);
    let mut at_line_start = true;
    let mut i: usize = 0;
    while i < chars.len()
        invariant
            i <= chars.len(),
            chars@ == s@,
            at_line_start == begins_line(s@, i as int, true),
            out@ == start + margined_prefix(s@, i as nat, indent_unit(), true),
        decreases chars.len() - i,
    {
        let c = chars[i];
        if at_line_start {
            out.append("    ");
            proof {
                reveal_strlit("    ");
            }
        }
        out.push(c);
        at_line_start = c == '\n';
        i += 1;
    }
}

/// The margined form of the first `k` characters of a text does not depend
/// on what follows them.
pub proof fn lemma_margined_front(
    a: Seq<char>,
    b: Seq<char>,
    k: nat,
    margin: Seq<char>,
    first: bool,
)
    requires
        k <= a.len(),
    ensures
        margined_prefix(a + b, k, margin, first) == margined_prefix(a, k, margin, first),
    decreases k,
{
    if k > 0 {
        lemma_margined_front(a, b, (k - 1) as nat, margin, first);
        assert((a + b)[k - 1] == a[k - 1]);
    }
}

/// The margined form of two texts in a row is the margined form of the
/// first followed by that of the second, which begins a line where the
/// first ends one.
pub proof fn lemma_margined_concat(
    a: Seq<char>,
    b: Seq<char>,
    m: nat,
    margin: Seq<char>,
    first: bool,
)
    requires
        m <= b.len(),
    ensures
        margined_prefix(a + b, a.len() + m, margin, first) == margined_prefix(
            a,
            a.len(),
            margin,
            first,
        ) + margined_prefix(b, m, margin, begins_line(a, a.len() as int, first)),
    decreases m,
{
    if m == 0 {
        lemma_margined_front(a, b, a.len(), margin, first);
    } else {
        lemma_margined_concat(a, b, (m - 1) as nat, margin, first);
    }
}

/// A text whose line feeds, if any, stand at its very end has at most one
/// line: its margined form is the text itself, behind the margin where it
/// begins a line.
pub proof fn lemma_margined_line(x: Seq<char>, k: nat, margin: Seq<char>, first: bool)
    requires
        k <= x.len(),
        forall|i: int| 0 <= i < x.len() - 1 ==> x[i] != '\n',
    ensures
        margined_prefix(x, k, margin, first) == (if first && k > 0 {
            margin
        } else {
            Seq::empty()
        }) + x.take(k as int),
    decreases k,
{
    if k > 0 {
        lemma_margined_line(x, (k - 1) as nat, margin, first);
    }
}

/// Margins add up: a margin put in front of every line of a text that
/// already carries a margin without line feeds is the two margins in a row
/// in front of every line of the text.
pub proof fn lemma_margins_add(s: Seq<char>, n: nat, inner: Seq<char>, outer: Seq<char>)
    requires
        n <= s.len(),
        single_line(inner),
    ensures
        margined(margined_prefix(s, n, inner, true), outer) == margined_prefix(
            s,
            n,
            outer + inner,
            true,
        ),
        n > 0 ==> margined_prefix(s, n, inner, true).len() > 0 && margined_prefix(
            s,
            n,
            inner,
            true,
        ).last() == s[n - 1],
    decreases n,
{
    if n > 0 {
        lemma_margins_add(s, (n - 1) as nat, inner, outer);
        let before = margined_prefix(s, (n - 1) as nat, inner, true);
        let starts = begins_line(s, n - 1, true);
        let piece = (if starts {
            inner
        } else {
            Seq::empty()
        }) + seq![s[n - 1]];
        assert(margined_prefix(s, n, inner, true) =~= before + piece);
        lemma_margined_concat(before, piece, piece.len(), outer, true);
        lemma_margined_line(piece, piece.len(), outer, starts);
    }
}

/// A margin of whole levels holds no line feed.
pub proof fn lemma_margin_single_line(depth: nat)
    ensures
        single_line(margin_of(depth)),
    decreases depth,
{
    if depth > 0 {
        lemma_margin_single_line((depth - 1) as nat);
    }
}

/// An empty margin changes nothing.
pub proof fn lemma_no_margin(s: Seq<char>, n: nat)
    requires
        n <= s.len(),
    ensures
        margined_prefix(s, n, Seq::empty(), true) == s.take(n as int),
    decreases n,
{
    if n > 0 {
        lemma_no_margin(s, (n - 1) as nat);
    }
}

/// Nesting matches depth: a text that is indented once for each of the
/// `depth` composite values around it has exactly `depth` levels of
/// indentation in front of every one of its lines.
pub proof fn law_nesting_matches_depth(s: Seq<char>, depth: nat)
    ensures
        nested(s, depth) == margined(s, margin_of(depth)),
    decreases depth,
{
    if depth == 0 {
        lemma_no_margin(s, s.len());
    } else {
        law_nesting_matches_depth(s, (depth - 1) as nat);
        lemma_margin_single_line((depth - 1) as nat);
        lemma_margins_add(s, s.len(), margin_of((depth - 1) as nat), indent_unit());
    }
}

} // verus!
