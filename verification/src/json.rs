//! Building the JSON response bodies: string escaping, string lists and
//! the error-map object, each exec builder pinned to a spec-level value.

use vstd::prelude::*;
use vstd::string::StrSliceExecFns;

verus! {

/// Relies on std's `String::push`: appends the given character to the string.
pub assume_specification[ String::push ](s: &mut String, ch: char)
    ensures
        final(s)@ == old(s)@.push(ch),
;

/// The character standing for a hexadecimal digit value, lower case.
pub open spec fn hex_digit_char(d: int) -> char {
    if d == 0 { '0' }
    else if d == 1 { '1' }
    else if d == 2 { '2' }
    else if d == 3 { '3' }
    else if d == 4 { '4' }
    else if d == 5 { '5' }
    else if d == 6 { '6' }
    else if d == 7 { '7' }
    else if d == 8 { '8' }
    else if d == 9 { '9' }
    else if d == 10 { 'a' }
    else if d == 11 { 'b' }
    else if d == 12 { 'c' }
    else if d == 13 { 'd' }
    else if d == 14 { 'e' }
    else if d == 15 { 'f' }
    else { '0' }
}

/// How one character appears inside a JSON string: quote and backslash get a
/// backslash escape, the named control characters their short forms, any
/// other control character the `\u00XX` form, and everything else itself.
pub open spec fn escaped_char(c: char) -> Seq<char> {
    if c == '"' { seq!['\\', '"'] }
    else if c == '\\' { seq!['\\', '\\'] }
    else if c == '\u{8}' { seq!['\\', 'b'] }
    else if c == '\t' { seq!['\\', 't'] }
    else if c == '\n' { seq!['\\', 'n'] }
    else if c == '\u{c}' { seq!['\\', 'f'] }
    else if c == '\r' { seq!['\\', 'r'] }
    else if (c as u32) < 0x20 {
        seq!['\\', 'u', '0', '0', hex_digit_char((c as u32 / 16) as int), hex_digit_char((c as u32 % 16) as int)]
    }
    else { seq![c] }
}

/// A whole character sequence escaped for JSON.
pub open spec fn escape_seq(s: Seq<char>) -> Seq<char>
    decreases s.len(),
{
    if s.len() == 0 {
        Seq::<char>::empty()
    } else {
        escape_seq(s.drop_last()) + escaped_char(s.last())
    }
}

/// A JSON string literal: the escaped content between double quotes.
pub open spec fn json_string(s: Seq<char>) -> Seq<char> {
    seq!['"'] + escape_seq(s) + seq!['"']
}

/// The `{"error":<message>}` body shape, with the message escaped.
pub open spec fn error_body_spec(msg: Seq<char>) -> Seq<char> {
    "{\"error\":"@ + json_string(msg) + seq!['}']
}

/// A comma-separated list of JSON strings, without brackets.
pub open spec fn json_string_list(msgs: Seq<Seq<char>>) -> Seq<char>
    decreases msgs.len(),
{
    if msgs.len() == 0 {
        Seq::<char>::empty()
    } else if msgs.len() == 1 {
        json_string(msgs[0])
    } else {
        json_string_list(msgs.drop_last()) + seq![','] + json_string(msgs.last())
    }
}

fn hex_char_of(d: u32) -> (c: char)
    ensures
        c == hex_digit_char(d as int),
{
    match d {
        0 => '0',
        1 => '1',
        2 => '2',
        3 => '3',
        4 => '4',
        5 => '5',
        6 => '6',
        7 => '7',
        8 => '8',
        9 => '9',
        10 => 'a',
        11 => 'b',
        12 => 'c',
        13 => 'd',
        14 => 'e',
        15 => 'f',
        _ => '0',
    }
}

/// Appends the JSON-escaped content of `s` (no surrounding quotes).
pub fn append_escaped(dst: &mut String, s: &str)
    ensures
        final(dst)@ == old(dst)@ + escape_seq(s@),
{
    let n = s.unicode_len();
    let mut i: usize = 0;
    while i < n
        invariant
            n == s@.len(),
            i <= n,
            dst@ == old(dst)@ + escape_seq(s@.take(i as int)),
        decreases n - i,
    {
        let c = s.get_char(i);
        proof {
            assert(s@.take(i as int + 1).drop_last() =~= s@.take(i as int));
            assert(s@.take(i as int + 1).last() == s@[i as int]);
        }
        if c == '"' {
            dst.push('\\');
            dst.push('"');
        } else if c == '\\' {
            dst.push('\\');
            dst.push('\\');
        } else if c == '\u{8}' {
            dst.push('\\');
            dst.push('b');
        } else if c == '\t' {
            dst.push('\\');
            dst.push('t');
        } else if c == '\n' {
            dst.push('\\');
            dst.push('n');
        } else if c == '\u{c}' {
            dst.push('\\');
            dst.push('f');
        } else if c == '\r' {
            dst.push('\\');
            dst.push('r');
        } else if (c as u32) < 0x20 {
            dst.push('\\');
            dst.push('u');
            dst.push('0');
            dst.push('0');
            let code = c as u32;
            dst.push(hex_char_of(code / 16));
            dst.push(hex_char_of(code % 16));
        } else {
            dst.push(c);
        }
        proof {
            assert(dst@ =~= old(dst)@ + escape_seq(s@.take(i as int + 1)));
        }
        i = i + 1;
    }
    proof {
        assert(s@.take(n as int) =~= s@);
    }
}

/// Appends `s` as a JSON string: quoted and escaped.
pub fn append_json_string(dst: &mut String, s: &str)
    ensures
        final(dst)@ == old(dst)@ + json_string(s@),
{
    dst.push('"');
    append_escaped(dst, s);
    dst.push('"');
    proof {
        assert(dst@ =~= old(dst)@ + json_string(s@));
    }
}

/// Appends the comma-separated JSON strings of `msgs`, without brackets.
pub fn append_string_list(dst: &mut String, msgs: &Vec<String>)
    ensures
        final(dst)@ == old(dst)@ + json_string_list(msgs@.map_values(|m: String| m@)),
{
    let ghost model = msgs@.map_values(|m: String| m@);
    let n = msgs.len();
    let mut i: usize = 0;
    while i < n
        invariant
            n == msgs@.len(),
            i <= n,
            model == msgs@.map_values(|m: String| m@),
            dst@ == old(dst)@ + json_string_list(model.take(i as int)),
        decreases n - i,
    {
        if i > 0 {
            dst.push(',');
        }
        append_json_string(dst, msgs[i].as_str());
        proof {
            assert(model.take(i as int + 1).drop_last() =~= model.take(i as int));
            assert(model.take(i as int + 1).last() == model[i as int]);
            assert(dst@ =~= old(dst)@ + json_string_list(model.take(i as int + 1)));
        }
        i = i + 1;
    }
    proof {
        assert(model.take(n as int) =~= model);
    }
}

/// The decimal digit sequence of a number, most significant digit first.
pub open spec fn dec_str(n: nat) -> Seq<char>
    decreases n,
{
    if n < 10 {
        seq![hex_digit_char(n as int)]
    } else {
        dec_str(n / 10) + seq![hex_digit_char((n % 10) as int)]
    }
}

/// Appends the decimal rendering of `n`.
pub fn append_u64(dst: &mut String, n: u64)
    ensures
        final(dst)@ == old(dst)@ + dec_str(n as nat),
    decreases n,
{
    if n < 10 {
        dst.push(hex_char_of(n as u32));
    } else {
        append_u64(dst, n / 10);
        dst.push(hex_char_of((n % 10) as u32));
        proof {
            assert(dst@ =~= old(dst)@ + dec_str(n as nat));
        }
    }
}

} // verus!
