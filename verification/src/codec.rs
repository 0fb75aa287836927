//! Verified text encoders: query-string percent-encoding, decimal rendering
//! of integers, and JSON rendering of request payloads.

use vstd::prelude::*;
use vstd::string::StrSliceExecFns;
use vstd::string::StringSliceAdditionalSpecFns;

verus! {

/// Bytes that the `application/x-www-form-urlencoded` serialization leaves
/// unchanged: ASCII alphanumerics and `*`, `-`, `.`, `_`.
pub open spec fn form_byte_unchanged(b: u8) -> bool {
    (0x30 <= b <= 0x39) || (0x41 <= b <= 0x5A) || (0x61 <= b <= 0x7A) || b == 0x2A || b == 0x2D
        || b == 0x2E || b == 0x5F
}

/// The character for one hexadecimal digit, upper case.
pub open spec fn spec_hex_upper(d: u8) -> char
    recommends
        d < 16,
{
    if d < 10 {
        ((0x30 + d) as u8) as char
    } else {
        ((0x41 + (d - 10)) as u8) as char
    }
}

/// How one byte is rendered by the form-urlencoded serialization: kept,
/// turned into `+` for a space, or percent-encoded as `%XX`.
pub open spec fn form_encoded_byte(b: u8) -> Seq<char> {
    if form_byte_unchanged(b) {
        seq![b as char]
    } else if b == 0x20 {
        seq!['+']
    } else {
        seq!['%', spec_hex_upper(b / 16), spec_hex_upper(b % 16)]
    }
}

/// The form-urlencoded rendering of a byte sequence.
pub open spec fn form_encoded(bs: Seq<u8>) -> Seq<char>
    decreases bs.len(),
{
    if bs.len() == 0 {
        Seq::<char>::empty()
    } else {
        form_encoded(bs.drop_last()) + form_encoded_byte(bs.last())
    }
}

/// Relies on std `String::push`: appends exactly one character.
#[verifier::external_body]
pub(crate) fn push_char(s: &mut String, c: char)
    ensures
        final(s)@ == old(s)@.push(c),
{
    s.push(c);
}

/// One hexadecimal digit, upper case.
fn hex_upper(d: u8) -> (c: char)
    requires
        d < 16,
    ensures
        c == spec_hex_upper(d),
{
    if d < 10 {
        (0x30 + d) as char
    } else {
        (0x41 + (d - 10)) as char
    }
}

/// Percent-encodes the UTF-8 bytes of `s` as a query-string component, the
/// way the `application/x-www-form-urlencoded` serialization does.
pub fn form_urlencode(s: &str) -> (r: String)
    ensures
        r@ == form_encoded(s.spec_bytes()),
{
    let bytes = s.as_bytes_vec();
    let mut out = String::new();
    let mut i: usize = 0;
    while i < bytes.len()
        invariant
            i <= bytes.len(),
            bytes@ == s.spec_bytes(),
            out@ == form_encoded(bytes@.take(i as int)),
        decreases bytes.len() - i,
    {
        let b = bytes[i];
        if (0x30 <= b && b <= 0x39) || (0x41 <= b && b <= 0x5A) || (0x61 <= b && b <= 0x7A) || b
            == 0x2A || b == 0x2D || b == 0x2E || b == 0x5F {
            push_char(&mut out, b as char);
        } else if b == 0x20 {
            push_char(&mut out, '+');
        } else {
            push_char(&mut out, '%');
            push_char(&mut out, hex_upper(b / 16));
            push_char(&mut out, hex_upper(b % 16));
        }
        proof {
            assert(bytes@.take(i + 1).drop_last() =~= bytes@.take(i as int));
            assert(bytes@.take(i + 1).last() == bytes@[i as int]);
            assert(out@ =~= form_encoded(bytes@.take(i + 1)));
        }
        i = i + 1;
    }
    proof {
        assert(bytes@.take(bytes@.len() as int) =~= bytes@);
    }
    out
}

/// The form-urlencoded rendering of a character sequence: its UTF-8 bytes,
/// each kept, turned into `+`, or percent-encoded.
pub open spec fn encoded_component(s: Seq<char>) -> Seq<char> {
    form_encoded(vstd::utf8::encode_utf8(s))
}

/// One `key=value` query pair, both sides form-urlencoded.
pub open spec fn spec_query_pair(k: Seq<char>, v: Seq<char>) -> Seq<char> {
    encoded_component(k) + seq!['='] + encoded_component(v)
}

/// A query string with one more `key=value` pair, `&`-separated from what
/// is already there.
pub open spec fn spec_add_pair(q: Seq<char>, k: Seq<char>, v: Seq<char>) -> Seq<char> {
    if q.len() == 0 {
        spec_query_pair(k, v)
    } else {
        q + seq!['&'] + spec_query_pair(k, v)
    }
}

/// A route with a query string attached, or the bare route for an empty
/// query.
pub open spec fn spec_with_query(path: Seq<char>, q: Seq<char>) -> Seq<char> {
    if q.len() == 0 {
        path
    } else {
        path + seq!['?'] + q
    }
}

/// Appends `key=value` to a query string under construction, separating it
/// from an earlier pair with `&`; both sides are form-urlencoded.
pub fn append_query_pair(q: &mut String, key: &str, value: &str)
    ensures
        final(q)@ == spec_add_pair(old(q)@, key@, value@),
{
    if !q.as_str().is_empty() {
        push_char(q, '&');
    }
    let ek = form_urlencode(key);
    q.append(ek.as_str());
    push_char(q, '=');
    let ev = form_urlencode(value);
    q.append(ev.as_str());
}

/// Attaches a finished query string to a route, with `?`, or leaves the
/// route alone when the query is empty.
pub fn attach_query(route: &mut String, q: &str)
    ensures
        final(route)@ == spec_with_query(old(route)@, q@),
{
    if !q.is_empty() {
        push_char(route, '?');
        route.append(q);
    }
}

/// The character for one decimal digit.
pub open spec fn spec_dec_digit(d: int) -> char
    recommends
        0 <= d < 10,
{
    ((0x30 + d) as u8) as char
}

/// The decimal rendering of a nonnegative integer, without sign or padding.
pub open spec fn spec_nat_dec(n: int) -> Seq<char>
    recommends
        n >= 0,
    decreases n,
{
    if n < 10 {
        seq![spec_dec_digit(n)]
    } else {
        spec_nat_dec(n / 10) + seq![spec_dec_digit(n % 10)]
    }
}

/// The decimal rendering of an integer, with a leading `-` when negative.
pub open spec fn spec_int_dec(n: int) -> Seq<char> {
    if n < 0 {
        seq!['-'] + spec_nat_dec(-n)
    } else {
        spec_nat_dec(n)
    }
}

/// Appends the decimal digits of `n`.
pub fn append_dec_u64(out: &mut String, n: u64)
    ensures
        final(out)@ == old(out)@ + spec_nat_dec(n as int),
    decreases n,
{
    if n >= 10 {
        append_dec_u64(out, n / 10);
    }
    push_char(out, (0x30 + (n % 10) as u8) as char);
}

/// The decimal rendering of an `i32`, as `to_string` produces it.
pub fn i32_to_dec(n: i32) -> (r: String)
    ensures
        r@ == spec_int_dec(n as int),
{
    let mut out = String::new();
    if n < 0 {
        push_char(&mut out, '-');
        let m: u64 = (-(n as i64)) as u64;
        append_dec_u64(&mut out, m);
    } else {
        append_dec_u64(&mut out, n as u64);
    }
    out
}

/// The text of a boolean, as `to_string` produces it.
pub open spec fn spec_bool_text(b: bool) -> Seq<char> {
    if b {
        "true"@
    } else {
        "false"@
    }
}

/// The text of a boolean.
pub fn bool_text(b: bool) -> (r: &'static str)
    ensures
        r@ == spec_bool_text(b),
{
    if b {
        "true"
    } else {
        "false"
    }
}

/// The character for one hexadecimal digit, lower case.
pub open spec fn spec_hex_lower(d: int) -> char
    recommends
        0 <= d < 16,
{
    if d < 10 {
        ((0x30 + d) as u8) as char
    } else {
        ((0x61 + (d - 10)) as u8) as char
    }
}

/// How one character is escaped inside a JSON string literal: `"` and `\`
/// get a backslash, control characters become `\b`, `\t`, `\n`, `\f`, `\r`
/// or `\u00xx`, and everything else stands unchanged.
pub open spec fn json_escaped_char(c: char) -> Seq<char> {
    if c == '"' {
        seq!['\\', '"']
    } else if c == '\\' {
        seq!['\\', '\\']
    } else if c as u32 == 0x08 {
        seq!['\\', 'b']
    } else if c as u32 == 0x09 {
        seq!['\\', 't']
    } else if c as u32 == 0x0A {
        seq!['\\', 'n']
    } else if c as u32 == 0x0C {
        seq!['\\', 'f']
    } else if c as u32 == 0x0D {
        seq!['\\', 'r']
    } else if (c as u32) < 0x20 {
        let x = c as u32 as int;
        seq!['\\', 'u', '0', '0', spec_hex_lower(x / 16), spec_hex_lower(x % 16)]
    } else {
        seq![c]
    }
}

/// A character sequence with every character JSON-escaped.
pub open spec fn json_escaped(s: Seq<char>) -> Seq<char>
    decreases s.len(),
{
    if s.len() == 0 {
        Seq::<char>::empty()
    } else {
        json_escaped(s.drop_last()) + json_escaped_char(s.last())
    }
}

/// A JSON string literal: the escaped text between double quotes.
pub open spec fn json_string(s: Seq<char>) -> Seq<char> {
    seq!['"'] + json_escaped(s) + seq!['"']
}

/// One hexadecimal digit, lower case.
fn hex_lower(d: u8) -> (c: char)
    requires
        d < 16,
    ensures
        c == spec_hex_lower(d as int),
{
    if d < 10 {
        (0x30 + d) as char
    } else {
        (0x61 + (d - 10)) as char
    }
}

/// Appends `s` as a JSON string literal, quoted and escaped.
pub fn append_json_string(out: &mut String, s: &str)
    ensures
        final(out)@ == old(out)@ + json_string(s@),
{
    push_char(out, '"');
    let n = s.unicode_len();
    let mut i: usize = 0;
    while i < n
        invariant
            i <= n,
            n == s@.len(),
            out@ == old(out)@ + seq!['"'] + json_escaped(s@.take(i as int)),
        decreases n - i,
    {
        let c = s.get_char(i);
        if c == '"' {
            push_char(out, '\\');
            push_char(out, '"');
        } else if c == '\\' {
            push_char(out, '\\');
            push_char(out, '\\');
        } else if c as u32 == 0x08 {
            push_char(out, '\\');
            push_char(out, 'b');
        } else if c as u32 == 0x09 {
            push_char(out, '\\');
            push_char(out, 't');
        } else if c as u32 == 0x0A {
            push_char(out, '\\');
            push_char(out, 'n');
        } else if c as u32 == 0x0C {
            push_char(out, '\\');
            push_char(out, 'f');
        } else if c as u32 == 0x0D {
            push_char(out, '\\');
            push_char(out, 'r');
        } else if (c as u32) < 0x20 {
            push_char(out, '\\');
            push_char(out, 'u');
            push_char(out, '0');
            push_char(out, '0');
            let b = c as u8;
            push_char(out, hex_lower(b / 16));
            push_char(out, hex_lower(b % 16));
        } else {
            push_char(out, c);
        }
        proof {
            assert(s@.take(i + 1).drop_last() =~= s@.take(i as int));
            assert(s@.take(i + 1).last() == s@[i as int]);
            assert(out@ =~= old(out)@ + seq!['"'] + json_escaped(s@.take(i + 1)));
        }
        i = i + 1;
    }
    proof {
        assert(s@.take(s@.len() as int) =~= s@);
    }
    push_char(out, '"');
    proof {
        assert(out@ =~= old(out)@ + json_string(s@));
    }
}

/// A JSON value that is either a string literal or `null`.
pub open spec fn json_opt_string(o: Option<Seq<char>>) -> Seq<char> {
    match o {
        Option::Some(s) => json_string(s),
        Option::None => "null"@,
    }
}

/// Appends `s` as a JSON string literal, or `null` when absent.
pub fn append_json_opt_string(out: &mut String, o: &Option<String>)
    ensures
        final(out)@ == old(out)@ + json_opt_string(o.deep_view()),
{
    match o {
        Option::Some(s) => append_json_string(out, s.as_str()),
        Option::None => out.append("null"),
    }
}

/// A JSON value that is a decimal integer, or `null` when absent.
pub open spec fn json_opt_i32(o: Option<i32>) -> Seq<char> {
    match o {
        Option::Some(n) => spec_int_dec(n as int),
        Option::None => "null"@,
    }
}

/// Appends a decimal integer, or `null` when absent.
pub fn append_json_opt_i32(out: &mut String, o: &Option<i32>)
    ensures
        final(out)@ == old(out)@ + json_opt_i32(*o),
{
    match o {
        Option::Some(n) => {
            let d = i32_to_dec(*n);
            out.append(d.as_str());
        },
        Option::None => out.append("null"),
    }
}

/// A JSON value that is a nonnegative decimal integer, or `null` when
/// absent.
pub open spec fn json_opt_u32(o: Option<u32>) -> Seq<char> {
    match o {
        Option::Some(n) => spec_nat_dec(n as int),
        Option::None => "null"@,
    }
}

/// Appends a nonnegative decimal integer, or `null` when absent.
pub fn append_json_opt_u32(out: &mut String, o: &Option<u32>)
    ensures
        final(out)@ == old(out)@ + json_opt_u32(*o),
{
    match o {
        Option::Some(n) => append_dec_u64(out, *n as u64),
        Option::None => out.append("null"),
    }
}

/// A JSON value that is `true` or `false`, or `null` when absent.
pub open spec fn json_opt_bool(o: Option<bool>) -> Seq<char> {
    match o {
        Option::Some(b) => spec_bool_text(b),
        Option::None => "null"@,
    }
}

/// Appends `true` or `false`, or `null` when absent.
pub fn append_json_opt_bool(out: &mut String, o: &Option<bool>)
    ensures
        final(out)@ == old(out)@ + json_opt_bool(*o),
{
    match o {
        Option::Some(b) => out.append(bool_text(*b)),
        Option::None => out.append("null"),
    }
}

/// One `"key":"value"` member of a JSON properties object.
pub open spec fn json_prop_entry(p: (Seq<char>, Seq<char>)) -> Seq<char> {
    json_string(p.0) + seq![':'] + json_string(p.1)
}

/// The members of a JSON properties object, joined with commas.
pub open spec fn json_props_inner(ps: Seq<(Seq<char>, Seq<char>)>) -> Seq<char>
    decreases ps.len(),
{
    if ps.len() == 0 {
        Seq::<char>::empty()
    } else if ps.len() == 1 {
        json_prop_entry(ps[0])
    } else {
        json_props_inner(ps.drop_last()) + seq![','] + json_prop_entry(ps.last())
    }
}

/// A JSON object of string-valued properties, in the order given.
pub open spec fn json_props(ps: Seq<(Seq<char>, Seq<char>)>) -> Seq<char> {
    seq!['{'] + json_props_inner(ps) + seq!['}']
}

/// A JSON properties object, or `null` when absent.
pub open spec fn json_opt_props(o: Option<Seq<(Seq<char>, Seq<char>)>>) -> Seq<char> {
    match o {
        Option::Some(ps) => json_props(ps),
        Option::None => "null"@,
    }
}

/// Appends a properties list as a JSON object, keys in the order given.
pub fn append_json_props(out: &mut String, ps: &Vec<(String, String)>)
    ensures
        final(out)@ == old(out)@ + json_props(ps.deep_view()),
{
    push_char(out, '{');
    let mut i: usize = 0;
    while i < ps.len()
        invariant
            i <= ps@.len(),
            out@ == old(out)@ + seq!['{'] + json_props_inner(ps.deep_view().take(i as int)),
        decreases ps@.len() - i,
    {
        if i > 0 {
            push_char(out, ',');
        }
        append_json_string(out, ps[i].0.as_str());
        push_char(out, ':');
        append_json_string(out, ps[i].1.as_str());
        proof {
            assert(ps.deep_view().take(i + 1).drop_last() =~= ps.deep_view().take(i as int));
            assert(ps.deep_view().take(i + 1).last() == ps.deep_view()[i as int]);
            assert(out@ =~= old(out)@ + seq!['{'] + json_props_inner(ps.deep_view().take(i + 1)));
        }
        i = i + 1;
    }
    proof {
        assert(ps.deep_view().take(ps.deep_view().len() as int) =~= ps.deep_view());
    }
    push_char(out, '}');
    proof {
        assert(out@ =~= old(out)@ + json_props(ps.deep_view()));
    }
}

/// Appends a properties list as a JSON object, or `null` when absent.
pub fn append_json_opt_props(out: &mut String, o: &Option<Vec<(String, String)>>)
    ensures
        final(out)@ == old(out)@ + json_opt_props(o.deep_view()),
{
    match o {
        Option::Some(ps) => append_json_props(out, ps),
        Option::None => out.append("null"),
    }
}

} // verus!
