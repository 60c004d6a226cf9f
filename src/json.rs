use vstd::prelude::*;
use vstd::utf8::encode_utf8;

verus! {

#[verifier::external_type_specification]
#[verifier::external_body]
pub struct ExJsonError(serde_json::Error);

/// The lower-case hexadecimal digit for a value below 16.
pub open spec fn hex_digit(n: u32) -> char {
    seq!['0', '1', '2', '3', '4', '5', '6', '7', '8', '9', 'a', 'b', 'c', 'd', 'e', 'f'][n as int]
}

/// How one character stands inside a JSON string literal: quote and
/// backslash escaped, the control characters below U+0020 by their short
/// escape or as `\u00XX`, every other character as itself.
pub open spec fn escape_char(c: char) -> Seq<char> {
    if c == '"' {
        seq!['\\', '"']
    } else if c == '\\' {
        seq!['\\', '\\']
    } else if c == '\u{8}' {
        seq!['\\', 'b']
    } else if c == '\t' {
        seq!['\\', 't']
    } else if c == '\n' {
        seq!['\\', 'n']
    } else if c == '\u{c}' {
        seq!['\\', 'f']
    } else if c == '\r' {
        seq!['\\', 'r']
    } else if (c as u32) < 0x20 {
        seq!['\\', 'u', '0', '0', hex_digit((c as u32) / 16), hex_digit((c as u32) % 16)]
    } else {
        seq![c]
    }
}

/// The escaped form of a text, character by character.
pub open spec fn escape_text(s: Seq<char>) -> Seq<char>
    decreases s.len(),
{
    if s.len() == 0 {
        Seq::empty()
    } else {
        escape_char(s[0]) + escape_text(s.drop_first())
    }
}

/// A text as a JSON string literal: its escaped form between quotes.
pub open spec fn quote_text(s: Seq<char>) -> Seq<char> {
    seq!['"'] + escape_text(s) + seq!['"']
}

/// Relies on serde_json::to_vec on a string slice: the UTF-8 bytes of the
/// text quoted and escaped as above (compact formatter, fixed escape table).
/// Serializing a `str` into a `Vec` does not fail.
#[verifier::external_body]
fn encode_str(s: &str) -> (r: Result<Vec<u8>, serde_json::Error>)
    ensures
        r is Ok,
        r->Ok_0@ == encode_utf8(quote_text(s@)),
{
    serde_json::to_vec(s)
}

/// A text as a JSON string literal, in UTF-8.
pub fn json_string(s: &str) -> (r: Vec<u8>)
    ensures
        r@ == encode_utf8(quote_text(s@)),
{
    encode_str(s).unwrap()
}

/// The not-found error object for a path:
/// `{"error":"not_found","path":<path as a JSON string>}`.
pub open spec fn spec_not_found_text(path: Seq<char>) -> Seq<char> {
    "{"@ + quote_text("error"@) + ":"@ + quote_text("not_found"@) + ","@ + quote_text("path"@)
        + ":"@ + quote_text(path) + "}"@
}

/// The bytes of the not-found error object for a path.
pub open spec fn spec_not_found_body(path: Seq<char>) -> Seq<u8> {
    encode_utf8(spec_not_found_text(path))
}

/// Encoding a concatenation encodes each part in turn.
pub proof fn lemma_encode_utf8_concat(a: Seq<char>, b: Seq<char>)
    ensures
        encode_utf8(a + b) == encode_utf8(a) + encode_utf8(b),
    decreases a.len(),
{
    if a.len() == 0 {
        assert(a + b =~= b);
        assert(encode_utf8(a) + encode_utf8(b) =~= encode_utf8(b));
    } else {
        lemma_encode_utf8_concat(a.drop_first(), b);
        assert((a + b).drop_first() =~= a.drop_first() + b);
        assert((a + b)[0] == a[0]);
    }
}

/// Appends the UTF-8 bytes of `t` to `out`, whose bytes encode `text`.
fn push_text(out: &mut Vec<u8>, Ghost(text): Ghost<Seq<char>>, t: &str)
    requires
        old(out)@ == encode_utf8(text),
    ensures
        final(out)@ == encode_utf8(text + t@),
{
    let mut bytes = t.as_bytes_vec();
    out.append(&mut bytes);
    proof {
        lemma_encode_utf8_concat(text, t@);
    }
}

/// Appends a JSON string literal for `t` to `out`, whose bytes encode `text`.
fn push_quoted(out: &mut Vec<u8>, Ghost(text): Ghost<Seq<char>>, t: &str)
    requires
        old(out)@ == encode_utf8(text),
    ensures
        final(out)@ == encode_utf8(text + quote_text(t@)),
{
    let mut bytes = json_string(t);
    out.append(&mut bytes);
    proof {
        lemma_encode_utf8_concat(text, quote_text(t@));
    }
}

/// Builds the not-found error object that names the given path.
pub fn not_found_body(path: &str) -> (r: Vec<u8>)
    ensures
        r@ == spec_not_found_body(path@),
{
    let mut out = "{".as_bytes_vec();
    push_quoted(&mut out, Ghost("{"@), "error");
    push_text(&mut out, Ghost("{"@ + quote_text("error"@)), ":");
    push_quoted(&mut out, Ghost("{"@ + quote_text("error"@) + ":"@), "not_found");
    push_text(&mut out, Ghost("{"@ + quote_text("error"@) + ":"@ + quote_text("not_found"@)), ",");
    push_quoted(
        &mut out,
        Ghost("{"@ + quote_text("error"@) + ":"@ + quote_text("not_found"@) + ","@),
        "path",
    );
    push_text(
        &mut out,
        Ghost(
            "{"@ + quote_text("error"@) + ":"@ + quote_text("not_found"@) + ","@ + quote_text(
                "path"@,
            ),
        ),
        ":",
    );
    push_quoted(
        &mut out,
        Ghost(
            "{"@ + quote_text("error"@) + ":"@ + quote_text("not_found"@) + ","@ + quote_text(
                "path"@,
            ) + ":"@,
        ),
        path,
    );
    push_text(
        &mut out,
        Ghost(
            "{"@ + quote_text("error"@) + ":"@ + quote_text("not_found"@) + ","@ + quote_text(
                "path"@,
            ) + ":"@ + quote_text(path@),
        ),
        "}",
    );
    out
}

/// A hexadecimal digit of either case.
pub open spec fn is_hex_char(c: char) -> bool {
    ('0' <= c && c <= '9') || ('a' <= c && c <= 'f') || ('A' <= c && c <= 'F')
}

/// The characters between the quotes of a JSON string literal: unescaped
/// characters other than the quote, the backslash and controls, and the
/// escapes `\"`, `\\`, `\/`, `\b`, `\f`, `\n`, `\r`, `\t` and `\uXXXX`.
pub open spec fn is_string_content(t: Seq<char>) -> bool
    decreases t.len(),
{
    if t.len() == 0 {
        true
    } else if t[0] == '\\' {
        if t.len() >= 2 && (t[1] == '"' || t[1] == '\\' || t[1] == '/' || t[1] == 'b' || t[1]
            == 'f' || t[1] == 'n' || t[1] == 'r' || t[1] == 't') {
            is_string_content(t.subrange(2, t.len() as int))
        } else if t.len() >= 6 && t[1] == 'u' && is_hex_char(t[2]) && is_hex_char(t[3])
            && is_hex_char(t[4]) && is_hex_char(t[5]) {
            is_string_content(t.subrange(6, t.len() as int))
        } else {
            false
        }
    } else {
        t[0] != '"' && (t[0] as u32) >= 0x20 && is_string_content(t.drop_first())
    }
}

/// A JSON string literal, as characters.
pub open spec fn is_json_string(t: Seq<char>) -> bool {
    &&& t.len() >= 2
    &&& t[0] == '"'
    &&& t[t.len() - 1] == '"'
    &&& is_string_content(t.subrange(1, t.len() - 1))
}

proof fn lemma_hex_digit(n: u32)
    requires
        n < 16,
    ensures
        is_hex_char(hex_digit(n)),
{
}

proof fn lemma_escape_char_then_content(c: char, rest: Seq<char>)
    requires
        is_string_content(rest),
    ensures
        is_string_content(escape_char(c) + rest),
{
    let e = escape_char(c);
    let t = e + rest;
    assert(t.subrange(e.len() as int, t.len() as int) =~= rest);
    if e.len() == 6 {
        lemma_hex_digit((c as u32) / 16);
        lemma_hex_digit((c as u32) % 16);
        assert(t[2] == '0' && t[3] == '0' && t[4] == e[4] && t[5] == e[5]);
    } else if e.len() == 1 {
        assert(t.drop_first() =~= rest);
    }
}

/// The escaped form of any text is valid string content.
pub proof fn lemma_escape_text_is_content(s: Seq<char>)
    ensures
        is_string_content(escape_text(s)),
    decreases s.len(),
{
    if s.len() == 0 {
    } else {
        lemma_escape_text_is_content(s.drop_first());
        lemma_escape_char_then_content(s[0], escape_text(s.drop_first()));
    }
}

/// Quoting any text gives a JSON string literal.
pub proof fn lemma_quote_text_is_json_string(s: Seq<char>)
    ensures
        is_json_string(quote_text(s)),
{
    let q = quote_text(s);
    lemma_escape_text_is_content(s);
    assert(q.subrange(1, q.len() - 1) =~= escape_text(s));
}

} // verus!
