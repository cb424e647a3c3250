use vstd::prelude::*;
use vstd::utf8::encode_utf8;

use crate::text::{
    is_white_space, lemma_first_occurrence_at, occurs_at,
    chars_of, find_chars, first_occurrence, is_ascii_alphanumeric, leading_word,
    skip_white_space, skip_white_space_from, word_end, utf8_len_at_least, ascii_alphanumeric,
};

verus! {

/// The label after which the server's first-start log prints the new admin
/// password: `密码:`.
pub open spec fn password_label() -> Seq<char> {
    seq!['密', '码', ':']
}

/// A token that may be taken for a password: at least six bytes of UTF-8 and
/// at least one ASCII letter or digit.
pub open spec fn plausible_password(token: Seq<char>) -> bool {
    &&& encode_utf8(token).len() >= 6
    &&& exists|i: int| 0 <= i < token.len() && is_ascii_alphanumeric(token[i])
}

/// The password that a server log line announces, if any: the first
/// white-space-free token after the first `密码:` in the line, kept only when it
/// is a plausible password.
pub open spec fn announced_password(line: Seq<char>) -> Option<Seq<char>> {
    match first_occurrence(line, password_label()) {
        None => None,
        Some(at) => {
            let token = leading_word(skip_white_space(line.skip(at + password_label().len())));
            if token.len() > 0 && plausible_password(token) {
                Some(token)
            } else {
                None
            }
        },
    }
}

/// Whether some character of `s[from..to]` is an ASCII letter or digit.
fn has_ascii_alphanumeric(s: &Vec<char>, from: usize, to: usize) -> (b: bool)
    requires
        from <= to <= s.len(),
    ensures
        b == exists|i: int| from <= i < to && is_ascii_alphanumeric(s@[i]),
{
    let mut i = from;
    while i < to
        invariant
            from <= i <= to <= s.len(),
            forall|j: int| from <= j < i ==> !is_ascii_alphanumeric(s@[j]),
        decreases to - i,
    {
        if ascii_alphanumeric(s[i]) {
            return true;
        }
        i += 1;
    }
    false
}

/// Reads the admin password out of one line of the server's standard output.
///
/// The first start of the server logs a line shaped like `  密码:     IT3Z...`;
/// only the token right after `密码:` is taken, and only when it is at least six
/// bytes long and holds an ASCII letter or digit.
pub fn extract_password(line: &str) -> (r: Option<String>)
    ensures
        match r {
            Some(p) => announced_password(line@) == Some(p@),
            None => announced_password(line@) is None,
        },
{
    let chars = chars_of(line);
    let label = vec!['密', '码', ':'];
    assert(label@ =~= password_label());
    let at = match find_chars(&chars, &label) {
        Some(at) => at,
        None => return None,
    };
    assert(at + 3 <= chars.len());
    let after = at + 3;
    let start = skip_white_space_from(&chars, after);
    let end = word_end(&chars, start);
    assert(line@.skip(after as int) =~= chars@.subrange(after as int, chars@.len() as int));
    let ghost token = chars@.subrange(start as int, end as int);
    assert(announced_password(line@) == (if token.len() > 0 && plausible_password(token) {
        Some(token)
    } else {
        None
    }));
    if start == end {
        return None;
    }
    let alnum = has_ascii_alphanumeric(&chars, start, end);
    assert(alnum == exists|i: int| 0 <= i < token.len() && is_ascii_alphanumeric(token[i])) by {
        if alnum {
            let i = choose|i: int| start <= i < end && is_ascii_alphanumeric(chars@[i]);
            assert(is_ascii_alphanumeric(token[i - start]));
        }
        if exists|i: int| 0 <= i < token.len() && is_ascii_alphanumeric(token[i]) {
            let i = choose|i: int| 0 <= i < token.len() && is_ascii_alphanumeric(token[i]);
            assert(is_ascii_alphanumeric(chars@[start + i]));
        }
    }
    if utf8_len_at_least(&chars, start, end, 6) && alnum {
        let word = line.substring_char(start, end);
        let p = word.to_string();
        proof {
            broadcast use vstd::string::to_string_from_display_ensures_for_str;

            assert(p@ =~= token);
        }
        Some(p)
    } else {
        None
    }
}

proof fn lemma_skip_gap(gap: Seq<char>, x: Seq<char>)
    requires
        forall|i: int| 0 <= i < gap.len() ==> is_white_space(gap[i]),
        x.len() == 0 || !is_white_space(x[0]),
    ensures
        skip_white_space(gap + x) == x,
    decreases gap.len(),
{
    if gap.len() == 0 {
        assert(gap + x =~= x);
    } else {
        assert((gap + x).drop_first() =~= gap.drop_first() + x);
        lemma_skip_gap(gap.drop_first(), x);
    }
}

proof fn lemma_word_then_rest(token: Seq<char>, rest: Seq<char>)
    requires
        forall|i: int| 0 <= i < token.len() ==> !is_white_space(token[i]),
        rest.len() == 0 || is_white_space(rest[0]),
    ensures
        leading_word(token + rest) == token,
    decreases token.len(),
{
    if token.len() == 0 {
        assert(token + rest =~= rest);
    } else {
        assert((token + rest).drop_first() =~= token.drop_first() + rest);
        lemma_word_then_rest(token.drop_first(), rest);
        assert(seq![token[0]] + token.drop_first() =~= token);
    }
}

/// A line that holds, after text without `密`, the label `密码:`, then any run
/// of white space, then a token without white space, then nothing or white
/// space and anything, announces that whole token, whatever its length,
/// exactly when the token is at least six bytes of UTF-8 and holds an ASCII
/// letter or digit.
pub proof fn law_password_after_label(
    before: Seq<char>,
    gap: Seq<char>,
    token: Seq<char>,
    rest: Seq<char>,
)
    requires
        forall|i: int| 0 <= i < before.len() ==> before[i] != '密',
        forall|i: int| 0 <= i < gap.len() ==> is_white_space(gap[i]),
        token.len() > 0,
        forall|i: int| 0 <= i < token.len() ==> !is_white_space(token[i]),
        rest.len() == 0 || is_white_space(rest[0]),
    ensures
        announced_password(before + seq!['密', '码', ':'] + gap + token + rest) == (if encode_utf8(
            token,
        ).len() >= 6 && exists|i: int| 0 <= i < token.len() && is_ascii_alphanumeric(token[i]) {
            Some(token)
        } else {
            None
        }),
{
    let label = seq!['密', '码', ':'];
    let line = before + label + gap + token + rest;
    let at = before.len() as int;
    assert(line.subrange(at, at + 3) =~= password_label());
    assert(occurs_at(line, password_label(), at));
    assert forall|j: int| 0 <= j < at implies !occurs_at(line, password_label(), j) by {
        if occurs_at(line, password_label(), j) {
            assert(line.subrange(j, j + 3)[0] == line[j]);
            assert(line[j] == before[j]);
        }
    }
    lemma_first_occurrence_at(line, password_label(), at);
    assert(line.skip(at + password_label().len()) =~= gap + (token + rest));
    lemma_skip_gap(gap, token + rest);
    lemma_word_then_rest(token, rest);
}

} // verus!
