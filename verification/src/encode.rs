//! The storage payload encoding of a cipher entry.
//!
//! The stored `data` column is one JSON object built strictly from the
//! opaque fields the client provided: the encrypted `name` and `notes` as
//! JSON strings, the substructure fragments spliced in verbatim (`null`
//! where absent), and `reprompt` as a decimal number. The server adds no
//! field and drops none, and never looks inside the fragments.

use vstd::prelude::*;
use vstd::string::StrSliceExecFns;
use vstd::string::StringExecFns;
use crate::bundle::CipherEntryView;

verus! {

/// The hexadecimal digit for `n`, lower case.
pub open spec fn hex_digit(n: int) -> char {
    if n == 0 { '0' }
    else if n == 1 { '1' }
    else if n == 2 { '2' }
    else if n == 3 { '3' }
    else if n == 4 { '4' }
    else if n == 5 { '5' }
    else if n == 6 { '6' }
    else if n == 7 { '7' }
    else if n == 8 { '8' }
    else if n == 9 { '9' }
    else if n == 10 { 'a' }
    else if n == 11 { 'b' }
    else if n == 12 { 'c' }
    else if n == 13 { 'd' }
    else if n == 14 { 'e' }
    else { 'f' }
}

/// How one character appears inside a JSON string literal: quotes and
/// backslashes escaped, control characters as `\u00XX`, everything else
/// verbatim.
pub open spec fn escaped_char(c: char) -> Seq<char> {
    if c == '"' { "\\\""@ }
    else if c == '\\' { "\\\\"@ }
    else if (c as u32) < 32 {
        "\\u00"@ + seq![hex_digit(c as u32 as int / 16)] + seq![hex_digit(c as u32 as int % 16)]
    } else {
        seq![c]
    }
}

/// The body of the JSON string literal encoding `s`.
pub open spec fn json_escaped(s: Seq<char>) -> Seq<char>
    decreases s.len(),
{
    if s.len() == 0 {
        Seq::empty()
    } else {
        json_escaped(s.drop_last()) + escaped_char(s.last())
    }
}

/// The JSON string literal encoding `s`, quotes included.
pub open spec fn json_string_text(s: Seq<char>) -> Seq<char> {
    seq!['"'] + json_escaped(s) + seq!['"']
}

/// An optional encrypted string field: a JSON string literal, or `null`.
pub open spec fn opt_string_text(o: Option<Seq<char>>) -> Seq<char> {
    match o {
        Option::None => "null"@,
        Option::Some(s) => json_string_text(s),
    }
}

/// An optional opaque substructure fragment: spliced verbatim, or `null`.
pub open spec fn opt_fragment_text(o: Option<Seq<char>>) -> Seq<char> {
    match o {
        Option::None => "null"@,
        Option::Some(f) => f,
    }
}

/// The decimal representation of `n`, most significant digit first, no
/// leading zeroes (a single `0` for zero).
pub open spec fn decimal_text(n: nat) -> Seq<char>
    decreases n,
{
    if n < 10 {
        seq![hex_digit(n as int)]
    } else {
        decimal_text(n / 10) + seq![hex_digit((n % 10) as int)]
    }
}

/// The serialized payload of one cipher entry: exactly the client-provided
/// opaque fields, in a fixed order, and nothing else.
pub open spec fn payload_text(e: CipherEntryView) -> Seq<char> {
    "{\"name\":"@ + json_string_text(e.name)
        + ",\"notes\":"@ + opt_string_text(e.notes)
        + ",\"login\":"@ + opt_fragment_text(e.login)
        + ",\"card\":"@ + opt_fragment_text(e.card)
        + ",\"identity\":"@ + opt_fragment_text(e.identity)
        + ",\"secure_note\":"@ + opt_fragment_text(e.secure_note)
        + ",\"fields\":"@ + opt_fragment_text(e.fields)
        + ",\"password_history\":"@ + opt_fragment_text(e.password_history)
        + ",\"reprompt\":"@ + decimal_text(e.reprompt as nat)
        + "}"@
}

/// Relies on std's `String::push`: appends exactly the given character.
#[verifier::external_body]
fn push_char(out: &mut String, c: char)
    ensures
        final(out)@ == old(out)@ + seq![c],
{
    out.push(c);
}

/// The hexadecimal digit character for `n < 16`.
fn hex_digit_char(n: u32) -> (c: char)
    requires
        n < 16,
    ensures
        c == hex_digit(n as int),
{
    if n == 0 { '0' }
    else if n == 1 { '1' }
    else if n == 2 { '2' }
    else if n == 3 { '3' }
    else if n == 4 { '4' }
    else if n == 5 { '5' }
    else if n == 6 { '6' }
    else if n == 7 { '7' }
    else if n == 8 { '8' }
    else if n == 9 { '9' }
    else if n == 10 { 'a' }
    else if n == 11 { 'b' }
    else if n == 12 { 'c' }
    else if n == 13 { 'd' }
    else if n == 14 { 'e' }
    else { 'f' }
}

/// Appends the escaped body of the JSON string literal encoding `s`.
fn append_escaped(out: &mut String, s: &str)
    ensures
        final(out)@ == old(out)@ + json_escaped(s@),
{
    let len = s.unicode_len();
    let mut i: usize = 0;
    while i < len
        invariant
            i <= len,
            len == s@.len(),
            out@ == old(out)@ + json_escaped(s@.take(i as int)),
        decreases len - i,
    {
        let ghost pre = out@;
        let c = s.get_char(i);
        if c == '"' {
            out.append("\\\"");
        } else if c == '\\' {
            out.append("\\\\");
        } else if (c as u32) < 32 {
            let n = c as u32;
            out.append("\\u00");
            push_char(out, hex_digit_char(n / 16));
            push_char(out, hex_digit_char(n % 16));
        } else {
            push_char(out, c);
        }
        proof {
            assert(out@ =~= pre + escaped_char(s@[i as int]));
            assert(s@.take(i + 1 as int).drop_last() =~= s@.take(i as int));
            assert(s@.take(i + 1 as int).last() == s@[i as int]);
            assert(out@ =~= old(out)@ + json_escaped(s@.take(i + 1 as int)));
        }
        i = i + 1;
    }
    proof {
        assert(s@.take(len as int) =~= s@);
    }
}

/// Appends the JSON string literal encoding `s`, quotes included.
fn append_json_string(out: &mut String, s: &str)
    ensures
        final(out)@ == old(out)@ + json_string_text(s@),
{
    push_char(out, '"');
    append_escaped(out, s);
    push_char(out, '"');
    proof {
        assert(out@ =~= old(out)@ + json_string_text(s@));
    }
}

/// Appends an optional encrypted string field: a literal or `null`.
fn append_opt_string(out: &mut String, o: &Option<String>)
    ensures
        final(out)@ == old(out)@ + opt_string_text(o.deep_view()),
{
    match o {
        Option::None => {
            out.append("null");
        },
        Option::Some(s) => {
            append_json_string(out, s.as_str());
        },
    }
}

/// Appends an optional opaque fragment verbatim, or `null`.
fn append_opt_fragment(out: &mut String, o: &Option<String>)
    ensures
        final(out)@ == old(out)@ + opt_fragment_text(o.deep_view()),
{
    match o {
        Option::None => {
            out.append("null");
        },
        Option::Some(f) => {
            out.append(f.as_str());
        },
    }
}

/// Appends the decimal representation of `n`.
fn append_decimal(out: &mut String, n: u32)
    ensures
        final(out)@ == old(out)@ + decimal_text(n as nat),
    decreases n,
{
    if n < 10 {
        push_char(out, hex_digit_char(n));
    } else {
        proof {
            assert(n / 10 < n) by (nonlinear_arith)
                requires n >= 10;
        }
        append_decimal(out, n / 10);
        push_char(out, hex_digit_char(n % 10));
        proof {
            assert(out@ =~= old(out)@ + decimal_text(n as nat));
        }
    }
}

/// Serializes the payload of one cipher entry to the storage encoding.
///
/// The result is exactly `payload_text` of the entry: the opaque client
/// fields in a fixed order, nothing added, nothing dropped.
pub fn encode_payload(e: &crate::bundle::CipherEntry) -> (r: String)
    ensures
        r@ == payload_text(e@),
{
    let mut out = String::new();
    out.append("{\"name\":");
    append_json_string(&mut out, e.name.as_str());
    out.append(",\"notes\":");
    append_opt_string(&mut out, &e.notes);
    out.append(",\"login\":");
    append_opt_fragment(&mut out, &e.login);
    out.append(",\"card\":");
    append_opt_fragment(&mut out, &e.card);
    out.append(",\"identity\":");
    append_opt_fragment(&mut out, &e.identity);
    out.append(",\"secure_note\":");
    append_opt_fragment(&mut out, &e.secure_note);
    out.append(",\"fields\":");
    append_opt_fragment(&mut out, &e.fields);
    out.append(",\"password_history\":");
    append_opt_fragment(&mut out, &e.password_history);
    out.append(",\"reprompt\":");
    append_decimal(&mut out, e.reprompt);
    out.append("}");
    proof {
        assert(out@ =~= payload_text(e@));
    }
    out
}

} // verus!
