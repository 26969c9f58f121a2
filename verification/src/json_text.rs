//! JSON text framing: string-literal escaping and quoted string rendering,
//! stated character by character. The request bodies the commands send are
//! built from these pieces, so their exact text is part of each command's
//! contract.

use vstd::prelude::*;
use crate::text::{chars_vec, digit_char, push_char};

verus! {

/// The hexadecimal digit character for a value below sixteen.
pub open spec fn hex_digit_char(d: nat) -> char {
    if d < 10 {
        digit_char(d)
    } else if d == 10 {
        'a'
    } else if d == 11 {
        'b'
    } else if d == 12 {
        'c'
    } else if d == 13 {
        'd'
    } else if d == 14 {
        'e'
    } else {
        'f'
    }
}

/// The escape of one character inside a JSON string literal: quote and
/// backslash get a leading backslash, the named control characters their
/// short escapes, the remaining control characters the four-digit form, and
/// every other character stands as itself.
pub open spec fn json_escaped_char(c: char) -> Seq<char> {
    if c == '"' {
        seq!['\\', '"']
    } else if c == '\\' {
        seq!['\\', '\\']
    } else if c == '\u{8}' {
        seq!['\\', 'b']
    } else if c == '\u{c}' {
        seq!['\\', 'f']
    } else if c == '\n' {
        seq!['\\', 'n']
    } else if c == '\r' {
        seq!['\\', 'r']
    } else if c == '\t' {
        seq!['\\', 't']
    } else if (c as u32) < 32 {
        seq![
            '\\',
            'u',
            '0',
            '0',
            hex_digit_char(((c as u32) / 16) as nat),
            hex_digit_char(((c as u32) % 16) as nat),
        ]
    } else {
        seq![c]
    }
}

/// The body of a JSON string literal for `s`: each character escaped.
pub open spec fn json_escaped(s: Seq<char>) -> Seq<char>
    decreases s.len(),
{
    if s.len() == 0 {
        Seq::empty()
    } else {
        json_escaped_char(s[0]) + json_escaped(s.skip(1))
    }
}

/// The full JSON string literal for `s`: the escaped body in quotes.
pub open spec fn json_string_of(s: Seq<char>) -> Seq<char> {
    seq!['"'] + json_escaped(s) + seq!['"']
}

/// Escaping distributes over concatenation.
pub proof fn lemma_json_escaped_concat(a: Seq<char>, b: Seq<char>)
    ensures
        json_escaped(a + b) == json_escaped(a) + json_escaped(b),
    decreases a.len(),
{
    if a.len() == 0 {
        assert(a + b =~= b);
        assert(json_escaped(a) + json_escaped(b) =~= json_escaped(b));
    } else {
        assert((a + b).skip(1) =~= a.skip(1) + b);
        lemma_json_escaped_concat(a.skip(1), b);
        assert(json_escaped_char((a + b)[0]) + (json_escaped(a.skip(1)) + json_escaped(b))
            =~= json_escaped(a) + json_escaped(b));
    }
}

/// The hexadecimal digit character for a value below sixteen.
fn hex_digit(d: u32) -> (c: char)
    requires
        d < 16,
    ensures
        c == hex_digit_char(d as nat),
{
    match d {
        0 => '0',
        1 => '1',
        2 => '2',
        3 => '3',
        4 => '4',
        5 => '5',
        6 => '6',
        7 => '7',
        8 => '8',
        9 => '9',
        10 => 'a',
        11 => 'b',
        12 => 'c',
        13 => 'd',
        14 => 'e',
        _ => 'f',
    }
}

/// Appends the escape of one character to `out`.
fn push_json_escaped_char(out: &mut String, c: char)
    ensures
        final(out)@ == old(out)@ + json_escaped_char(c),
{
    if c == '"' {
        push_char(out, '\\');
        push_char(out, '"');
    } else if c == '\\' {
        push_char(out, '\\');
        push_char(out, '\\');
    } else if c == '\u{8}' {
        push_char(out, '\\');
        push_char(out, 'b');
    } else if c == '\u{c}' {
        push_char(out, '\\');
        push_char(out, 'f');
    } else if c == '\n' {
        push_char(out, '\\');
        push_char(out, 'n');
    } else if c == '\r' {
        push_char(out, '\\');
        push_char(out, 'r');
    } else if c == '\t' {
        push_char(out, '\\');
        push_char(out, 't');
    } else {
        let code: u32 = c as u32;
        if code < 32 {
            push_char(out, '\\');
            push_char(out, 'u');
            push_char(out, '0');
            push_char(out, '0');
            push_char(out, hex_digit(code / 16));
            push_char(out, hex_digit(code % 16));
        } else {
            push_char(out, c);
        }
    }
    proof {
        assert(out@ =~= old(out)@ + json_escaped_char(c));
    }
}

/// Appends the escaped body of a JSON string literal for `s` to `out`.
fn push_json_escaped(out: &mut String, s: &str)
    ensures
        final(out)@ == old(out)@ + json_escaped(s@),
{
    let cs = chars_vec(s);
    let n = cs.len();
    let mut i: usize = 0;
    while i < n
        invariant
            n == cs.len(),
            cs@ == s@,
            i <= n,
            out@ == old(out)@ + json_escaped(s@.take(i as int)),
        decreases n - i,
    {
        push_json_escaped_char(out, cs[i]);
        proof {
            assert(s@.take(i as int) + seq![s@[i as int]] =~= s@.take(i + 1));
            lemma_json_escaped_concat(s@.take(i as int), seq![s@[i as int]]);
            assert(seq![s@[i as int]].skip(1) =~= Seq::<char>::empty());
            assert(json_escaped(Seq::<char>::empty()) =~= Seq::<char>::empty());
            assert(json_escaped(seq![s@[i as int]]) =~= json_escaped_char(s@[i as int]));
            assert(old(out)@ + json_escaped(s@.take(i as int)) + json_escaped_char(s@[i as int])
                =~= old(out)@ + json_escaped(s@.take(i + 1)));
        }
        i = i + 1;
    }
    proof {
        assert(s@.take(n as int) =~= s@);
    }
}

/// Renders `s` as a JSON string literal, quotes included.
pub fn json_string(s: &str) -> (r: String)
    ensures
        r@ == json_string_of(s@),
{
    let mut out = String::new();
    push_char(&mut out, '"');
    push_json_escaped(&mut out, s);
    push_char(&mut out, '"');
    proof {
        assert(out@ =~= json_string_of(s@));
    }
    out
}

} // verus!
