//! What a string literal of the synthesized code denotes, and the proof
//! that every literal the generators write denotes the text it was made of.

use vstd::prelude::*;
use crate::text::{digit_char, escaped, escaped_prefix, hexadecimal, is_plain, literal};

verus! {

/// The value of a hexadecimal digit; none for another character.
pub open spec fn digit_value(c: char) -> Option<nat> {
    if c == '0' {
        Some(0)
    } else if c == '1' {
        Some(1)
    } else if c == '2' {
        Some(2)
    } else if c == '3' {
        Some(3)
    } else if c == '4' {
        Some(4)
    } else if c == '5' {
        Some(5)
    } else if c == '6' {
        Some(6)
    } else if c == '7' {
        Some(7)
    } else if c == '8' {
        Some(8)
    } else if c == '9' {
        Some(9)
    } else if c == 'a' {
        Some(10)
    } else if c == 'b' {
        Some(11)
    } else if c == 'c' {
        Some(12)
    } else if c == 'd' {
        Some(13)
    } else if c == 'e' {
        Some(14)
    } else if c == 'f' {
        Some(15)
    } else {
        None
    }
}

/// The number that the first `n` characters of `digits` spell in
/// hexadecimal; none where one of them is no digit.
pub open spec fn hexadecimal_value(digits: Seq<char>, n: nat) -> Option<nat>
    decreases n,
{
    if n == 0 {
        Some(0)
    } else {
        match (hexadecimal_value(digits, (n - 1) as nat), digit_value(digits[n - 1])) {
            (Some(value), Some(digit)) => Some(value * 16 + digit),
            _ => None,
        }
    }
}

/// Whether `value` is the code point of a character.
pub open spec fn is_scalar(value: nat) -> bool {
    value <= 0xD7FF || 0xE000 <= value <= 0x10FFFF
}

/// Where the first closing brace of `code` from `from` on stands; the
/// length of `code` where there is none.
pub open spec fn closing_brace(code: Seq<char>, from: int) -> int
    decreases code.len() - from,
{
    if from < 0 || from >= code.len() {
        code.len() as int
    } else if code[from] == '}' {
        from
    } else {
        closing_brace(code, from + 1)
    }
}

/// The text that the inside of a string literal denotes, as far as the
/// generators make use of the syntax: a character other than the double
/// quote and the backslash stands for itself, and `\u{..}` stands for the
/// character with the code point between the braces. None for anything
/// else.
pub open spec fn decoded(code: Seq<char>) -> Option<Seq<char>>
    decreases code.len(),
{
    if code.len() == 0 {
        Some(Seq::empty())
    } else if code[0] == '\\' {
        let close = closing_brace(code, 3);
        if code.len() >= 4 && code[1] == 'u' && code[2] == '{' && 3 < close < code.len() {
            match hexadecimal_value(code.subrange(3, close), (close - 3) as nat) {
                Some(value) => if is_scalar(value) {
                    match decoded(code.subrange(close + 1, code.len() as int)) {
                        Some(rest) => Some(seq![value as char] + rest),
                        None => None,
                    }
                } else {
                    None
                },
                None => None,
            }
        } else {
            None
        }
    } else if code[0] == '"' {
        None
    } else {
        match decoded(code.drop_first()) {
            Some(rest) => Some(seq![code[0]] + rest),
            None => None,
        }
    }
}

/// The text that a string literal denotes: that of its inside, between
/// the two double quotes.
pub open spec fn denoted(code: Seq<char>) -> Option<Seq<char>> {
    if code.len() >= 2 && code[0] == '"' && code.last() == '"' {
        decoded(code.subrange(1, code.len() - 1))
    } else {
        None
    }
}

/// A digit has the value that it stands for.
pub proof fn lemma_digit_value(d: nat)
    requires
        d < 16,
    ensures
        digit_value(digit_char(d)) == Some(d),
        digit_char(d) != '}',
{
}

/// The value of the first `k` digits does not depend on what follows them.
pub proof fn lemma_value_front(digits: Seq<char>, more: Seq<char>, k: nat)
    requires
        k <= digits.len(),
    ensures
        hexadecimal_value(digits + more, k) == hexadecimal_value(digits, k),
    decreases k,
{
    if k > 0 {
        lemma_value_front(digits, more, (k - 1) as nat);
    }
}

/// A number written in hexadecimal has at least one digit, no closing
/// brace among its digits, and the value that was written.
pub proof fn lemma_hexadecimal_reads_back(n: nat)
    ensures
        hexadecimal(n).len() >= 1,
        forall|i: int| 0 <= i < hexadecimal(n).len() ==> hexadecimal(n)[i] != '}',
        hexadecimal_value(hexadecimal(n), hexadecimal(n).len()) == Some(n),
    decreases n,
{
    if n < 16 {
        lemma_digit_value(n);
        reveal_with_fuel(hexadecimal_value, 2);
    } else {
        let front = hexadecimal(n / 16);
        let last = digit_char(n % 16);
        lemma_hexadecimal_reads_back(n / 16);
        lemma_digit_value(n % 16);
        assert(front.push(last) =~= front + seq![last]);
        lemma_value_front(front, seq![last], front.len());
    }
}

/// The first closing brace behind a run of other characters.
pub proof fn lemma_closing_brace(code: Seq<char>, from: int, at: int)
    requires
        0 <= from <= at < code.len(),
        code[at] == '}',
        forall|i: int| from <= i < at ==> code[i] != '}',
    ensures
        closing_brace(code, from) == at,
    decreases at - from,
{
    if from < at {
        lemma_closing_brace(code, from + 1, at);
    }
}

/// What is written for one character reads back as that character, in
/// front of whatever the rest reads back as.
pub proof fn lemma_decoded_piece(c: char, rest: Seq<char>)
    ensures
        decoded(escaped(c) + rest) == match decoded(rest) {
            Some(text) => Some(seq![c] + text),
            None => None,
        },
{
    let code = escaped(c) + rest;
    if is_plain(c) {
        assert(code.drop_first() =~= rest);
    } else {
        let digits = hexadecimal(c as u32 as nat);
        lemma_hexadecimal_reads_back(c as u32 as nat);
        let close = 3 + digits.len() as int;
        lemma_closing_brace(code, 3, close);
        assert(code.subrange(3, close) =~= digits);
        assert(code.subrange(close + 1, code.len() as int) =~= rest);
    }
}

/// What is written for the first `n` characters begins with what is
/// written for the first of them.
pub proof fn lemma_escaped_front(s: Seq<char>, n: nat)
    requires
        1 <= n <= s.len(),
    ensures
        escaped_prefix(s, n) == escaped(s[0]) + escaped_prefix(s.drop_first(), (n - 1) as nat),
    decreases n,
{
    if n == 1 {
        reveal_with_fuel(escaped_prefix, 2);
    } else {
        lemma_escaped_front(s, (n - 1) as nat);
    }
}

/// What is written for a text reads back as that text.
pub proof fn lemma_decoded_text(s: Seq<char>)
    ensures
        decoded(escaped_prefix(s, s.len())) == Some(s),
    decreases s.len(),
{
    if s.len() > 0 {
        lemma_escaped_front(s, s.len());
        lemma_decoded_text(s.drop_first());
        lemma_decoded_piece(s[0], escaped_prefix(s.drop_first(), (s.len() - 1) as nat));
    }
}

/// Every literal denotes the text it was made of: whatever name, value or
/// bundled text a generator writes into the synthesized code as a string
/// literal, the literal stands for exactly that text.
pub proof fn law_literal_denotes(s: Seq<char>)
    ensures
        denoted(literal(s)) == Some(s),
{
    let code = literal(s);
    let inside = escaped_prefix(s, s.len());
    lemma_decoded_text(s);
    assert(code.subrange(1, code.len() - 1) =~= inside);
}

} // verus!
