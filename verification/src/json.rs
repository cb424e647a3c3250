use vstd::prelude::*;

verus! {

#[verifier::external_type_specification]
#[verifier::external_body]
pub struct ExJsonError(serde_json::Error);

/// The lower-case hexadecimal digit `d` (`0 <= d < 16`).
pub open spec fn hex_digit(d: int) -> char {
    seq!['0', '1', '2', '3', '4', '5', '6', '7', '8', '9', 'a', 'b', 'c', 'd', 'e', 'f'][d]
}

/// How one character is written inside a JSON string literal: `"` and `\`
/// behind a backslash, the control characters that have a short escape by it,
/// the other ones below U+0020 as `\u00XX`, and every other character as it is.
pub open spec fn json_escaped_char(c: char) -> Seq<char> {
    let u = c as u32;
    if u == 0x22 {
        seq!['\\', '"']
    } else if u == 0x5C {
        seq!['\\', '\\']
    } else if u == 0x08 {
        seq!['\\', 'b']
    } else if u == 0x09 {
        seq!['\\', 't']
    } else if u == 0x0A {
        seq!['\\', 'n']
    } else if u == 0x0C {
        seq!['\\', 'f']
    } else if u == 0x0D {
        seq!['\\', 'r']
    } else if u < 0x20 {
        seq!['\\', 'u', '0', '0', hex_digit((u / 16) as int), hex_digit((u % 16) as int)]
    } else {
        seq![c]
    }
}

/// The characters of `s`, each written as inside a JSON string literal.
pub open spec fn json_escaped(s: Seq<char>) -> Seq<char>
    decreases s.len(),
{
    if s.len() == 0 {
        Seq::empty()
    } else {
        json_escaped_char(s[0]) + json_escaped(s.drop_first())
    }
}

/// `s` as a JSON string literal, quotes included.
pub open spec fn json_string_literal(s: Seq<char>) -> Seq<char> {
    seq!['"'] + json_escaped(s) + seq!['"']
}

/// The value of a hexadecimal digit, either case (16 for anything else).
pub open spec fn hex_value(c: char) -> nat {
    let u = c as u32;
    if 0x30 <= u <= 0x39 {
        (u - 0x30) as nat
    } else if 0x61 <= u <= 0x66 {
        (u - 0x57) as nat
    } else if 0x41 <= u <= 0x46 {
        (u - 0x37) as nat
    } else {
        16
    }
}

/// The character that a two-character JSON escape `\e` stands for.
pub open spec fn json_short_escape(e: char) -> char {
    let u = e as u32;
    if u == 0x62 {
        '\x08'
    } else if u == 0x74 {
        '\t'
    } else if u == 0x6E {
        '\n'
    } else if u == 0x66 {
        '\x0C'
    } else if u == 0x72 {
        '\r'
    } else {
        e
    }
}

/// What a JSON reader makes of the inside of a string literal: each escape
/// (`\"`, `\\`, `\b`, `\t`, `\n`, `\f`, `\r`, `\uXXXX` below U+D800) gives
/// back the character it stands for, every other character stands for itself.
pub open spec fn json_unescaped(s: Seq<char>) -> Seq<char>
    decreases s.len(),
{
    if s.len() == 0 {
        Seq::empty()
    } else if s[0] == '\\' && s.len() >= 6 && s[1] == 'u' {
        let v = hex_value(s[2]) * 4096 + hex_value(s[3]) * 256 + hex_value(s[4]) * 16 + hex_value(
            s[5],
        );
        seq![(v as u32) as char] + json_unescaped(s.skip(6))
    } else if s[0] == '\\' && s.len() >= 2 {
        seq![json_short_escape(s[1])] + json_unescaped(s.skip(2))
    } else {
        seq![s[0]] + json_unescaped(s.drop_first())
    }
}

proof fn lemma_hex_digit(d: int)
    requires
        0 <= d < 16,
    ensures
        hex_value(hex_digit(d)) == d,
{
    if d == 0 {
    } else if d == 1 {
    } else if d == 2 {
    } else if d == 3 {
    } else if d == 4 {
    } else if d == 5 {
    } else if d == 6 {
    } else if d == 7 {
    } else if d == 8 {
    } else if d == 9 {
    } else if d == 10 {
    } else if d == 11 {
    } else if d == 12 {
    } else if d == 13 {
    } else if d == 14 {
    } else {
    }
}

proof fn lemma_unescape_one(c: char, rest: Seq<char>)
    ensures
        json_unescaped(json_escaped_char(c) + rest) == seq![c] + json_unescaped(rest),
{
    let e = json_escaped_char(c);
    let whole = e + rest;
    let u = c as u32;
    vstd::utf8::char_u32_cast(c, u);
    if u == 0x22 || u == 0x5C || u == 0x08 || u == 0x09 || u == 0x0A || u == 0x0C || u == 0x0D {
        assert(whole.skip(2) =~= rest);
    } else if u < 0x20 {
        lemma_hex_digit((u / 16) as int);
        lemma_hex_digit((u % 16) as int);
        assert(whole.skip(6) =~= rest);
        assert(hex_value(whole[2]) == 0);
        assert(hex_value(whole[3]) == 0);
        assert((u / 16) * 16 + u % 16 == u);
    } else {
        assert(whole.drop_first() =~= rest);
    }
}

/// Reading back the JSON string literal of `s` gives `s`, all of it: the
/// literal is `s` between quotes, with nothing left out or cut off.
pub proof fn law_json_literal_reads_back(s: Seq<char>)
    ensures
        json_string_literal(s).len() >= s.len() + 2,
        json_string_literal(s)[0] == '"',
        json_string_literal(s).last() == '"',
        json_unescaped(json_string_literal(s).subrange(1, json_string_literal(s).len() - 1)) == s,
    decreases s.len(),
{
    lemma_escaped_reads_back(s);
    let lit = json_string_literal(s);
    assert(lit.subrange(1, lit.len() - 1) =~= json_escaped(s));
}

proof fn lemma_escaped_reads_back(s: Seq<char>)
    ensures
        json_unescaped(json_escaped(s)) == s,
        json_escaped(s).len() >= s.len(),
    decreases s.len(),
{
    if s.len() == 0 {
    } else {
        lemma_escaped_reads_back(s.drop_first());
        lemma_unescape_one(s[0], json_escaped(s.drop_first()));
        assert(seq![s[0]] + s.drop_first() =~= s);
    }
}

/// `serde_json::to_string` on a `&str`.
///
/// The contract claims what serde_json's serializer does with a string: it
/// writes it between double quotes, escaping each byte by its `ESCAPE` table
/// (`"`, `\`, `\b`, `\t`, `\n`, `\f`, `\r`, other bytes below 0x20 as
/// `\u00XX` with lower-case hex digits) and copying every other byte as it is.
/// It also claims that the call succeeds: the serializer writes into a
/// `Vec<u8>`, whose writes do not fail, and a `str` asks for nothing else.
#[verifier::external_body]
pub(crate) fn json_string(value: &str) -> (r: Result<String, serde_json::Error>)
    ensures
        match r {
            Ok(text) => text@ == json_string_literal(value@),
            Err(_) => false,
        },
{
    serde_json::to_string(value)
}

} // verus!
