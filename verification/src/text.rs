use vstd::prelude::*;
use vstd::utf8::encode_utf8;

verus! {

broadcast use vstd::string::group_string_axioms;

/// Unicode's `White_Space` property: the characters that `char::is_whitespace`
/// accepts, and so the ones that `str::trim` and `str::split_whitespace` cut at.
pub open spec fn is_white_space(c: char) -> bool {
    let u = c as u32;
    ||| 0x09 <= u <= 0x0D
    ||| u == 0x20
    ||| u == 0x85
    ||| u == 0xA0
    ||| u == 0x1680
    ||| 0x2000 <= u <= 0x200A
    ||| u == 0x2028
    ||| u == 0x2029
    ||| u == 0x202F
    ||| u == 0x205F
    ||| u == 0x3000
}

/// `0-9`, `A-Z` or `a-z`.
pub open spec fn is_ascii_alphanumeric(c: char) -> bool {
    let u = c as u32;
    ||| 0x30 <= u <= 0x39
    ||| 0x41 <= u <= 0x5A
    ||| 0x61 <= u <= 0x7A
}

/// An ASCII decimal digit.
pub open spec fn is_digit(c: char) -> bool {
    0x30 <= c as u32 <= 0x39
}

/// Whether `c` has the `White_Space` property.
pub fn white_space(c: char) -> (b: bool)
    ensures
        b == is_white_space(c),
{
    let u = c as u32;
    (0x09 <= u && u <= 0x0D) || u == 0x20 || u == 0x85 || u == 0xA0 || u == 0x1680 || (0x2000
        <= u && u <= 0x200A) || u == 0x2028 || u == 0x2029 || u == 0x202F || u == 0x205F || u
        == 0x3000
}

/// Whether `c` is an ASCII letter or digit.
pub fn ascii_alphanumeric(c: char) -> (b: bool)
    ensures
        b == is_ascii_alphanumeric(c),
{
    let u = c as u32;
    (0x30 <= u && u <= 0x39) || (0x41 <= u && u <= 0x5A) || (0x61 <= u && u <= 0x7A)
}

/// The characters of `s`, in order.
pub fn chars_of(s: &str) -> (v: Vec<char>)
    ensures
        v@ == s@,
{
    let mut v: Vec<char> = Vec::new();
    for c in it: s.chars()
        invariant
            v@ == it.seq().take(it.index() as int),
    {
        v.push(c);
    }
    v
}

/// `s` without its leading white space, as `str::trim_start` leaves it.
pub open spec fn skip_white_space(s: Seq<char>) -> Seq<char>
    decreases s.len(),
{
    if s.len() > 0 && is_white_space(s[0]) {
        skip_white_space(s.drop_first())
    } else {
        s
    }
}

/// The longest prefix of `s` that holds no white space.
pub open spec fn leading_word(s: Seq<char>) -> Seq<char>
    decreases s.len(),
{
    if s.len() == 0 || is_white_space(s[0]) {
        Seq::empty()
    } else {
        seq![s[0]] + leading_word(s.drop_first())
    }
}

/// The first position at or after `from` whose character is not white space
/// (or the end of `s`).
pub fn skip_white_space_from(s: &Vec<char>, from: usize) -> (k: usize)
    requires
        from <= s.len(),
    ensures
        from <= k <= s.len(),
        skip_white_space(s@.subrange(from as int, s@.len() as int)) == s@.subrange(
            k as int,
            s@.len() as int,
        ),
{
    let mut k = from;
    while k < s.len() && white_space(s[k])
        invariant
            from <= k <= s.len(),
            skip_white_space(s@.subrange(from as int, s@.len() as int)) == skip_white_space(
                s@.subrange(k as int, s@.len() as int),
            ),
        decreases s.len() - k,
    {
        assert(s@.subrange(k as int, s@.len() as int).drop_first() =~= s@.subrange(
            k + 1,
            s@.len() as int,
        ));
        k += 1;
    }
    k
}

/// The end of the run of non-white-space characters that starts at `from`.
pub fn word_end(s: &Vec<char>, from: usize) -> (k: usize)
    requires
        from <= s.len(),
    ensures
        from <= k <= s.len(),
        leading_word(s@.subrange(from as int, s@.len() as int)) == s@.subrange(
            from as int,
            k as int,
        ),
{
    let mut k = from;
    while k < s.len() && !white_space(s[k])
        invariant
            from <= k <= s.len(),
            leading_word(s@.subrange(from as int, s@.len() as int)) == s@.subrange(
                from as int,
                k as int,
            ) + leading_word(s@.subrange(k as int, s@.len() as int)),
        decreases s.len() - k,
    {
        let ghost rest = s@.subrange(k as int, s@.len() as int);
        assert(rest.drop_first() =~= s@.subrange(k + 1, s@.len() as int));
        assert(s@.subrange(from as int, k + 1) =~= s@.subrange(from as int, k as int) + seq![
            rest[0],
        ]);
        k += 1;
    }
    assert(s@.subrange(from as int, k as int) + Seq::<char>::empty() =~= s@.subrange(
        from as int,
        k as int,
    ));
    k
}

/// How many bytes UTF-8 spends on `c`.
pub open spec fn utf8_width(c: char) -> nat {
    let u = c as u32;
    if u <= 0x7F {
        1
    } else if u <= 0x7FF {
        2
    } else if u <= 0xFFFF {
        3
    } else {
        4
    }
}

/// How many bytes UTF-8 spends on `s`.
pub open spec fn utf8_len(s: Seq<char>) -> nat
    decreases s.len(),
{
    if s.len() == 0 {
        0
    } else {
        utf8_width(s[0]) + utf8_len(s.drop_first())
    }
}

/// The UTF-8 encoding of `s` is `utf8_len(s)` bytes long.
pub proof fn lemma_encode_utf8_len(s: Seq<char>)
    ensures
        encode_utf8(s).len() == utf8_len(s),
    decreases s.len(),
{
    if s.len() > 0 {
        vstd::utf8::char_is_scalar(s[0]);
        lemma_encode_utf8_len(s.drop_first());
    }
}

/// Whether the UTF-8 encoding of `s[from..to]` is at least `n` bytes long.
pub fn utf8_len_at_least(s: &Vec<char>, from: usize, to: usize, n: u8) -> (b: bool)
    requires
        from <= to <= s.len(),
    ensures
        b == (encode_utf8(s@.subrange(from as int, to as int)).len() >= n),
{
    proof {
        lemma_encode_utf8_len(s@.subrange(from as int, to as int));
    }
    if n == 0 {
        return true;
    }
    let mut acc: u64 = 0;
    let mut i = from;
    while i < to
        invariant
            from <= i <= to <= s.len(),
            acc < n,
            encode_utf8(s@.subrange(from as int, to as int)).len() == utf8_len(
                s@.subrange(from as int, to as int),
            ),
            utf8_len(s@.subrange(from as int, to as int)) == acc + utf8_len(
                s@.subrange(i as int, to as int),
            ),
        decreases to - i,
    {
        let ghost rest = s@.subrange(i as int, to as int);
        assert(rest.drop_first() =~= s@.subrange(i + 1, to as int));
        let u = s[i] as u32;
        let w: u64 = if u <= 0x7F {
            1
        } else if u <= 0x7FF {
            2
        } else if u <= 0xFFFF {
            3
        } else {
            4
        };
        assert(w == utf8_width(rest[0]));
        assert(utf8_len(rest) == w + utf8_len(rest.drop_first()));
        acc = acc + w;
        i += 1;
        if acc >= n as u64 {
            assert(utf8_len(s@.subrange(from as int, to as int)) >= acc);
            return true;
        }
    }
    false
}

/// How many bytes the UTF-8 encoding of `s` takes.
pub fn utf8_byte_count(s: &Vec<char>) -> (n: u128)
    ensures
        n == encode_utf8(s@).len(),
{
    proof {
        lemma_encode_utf8_len(s@);
    }
    let mut acc: u128 = 0;
    let mut i: usize = 0;
    assert(s@.subrange(0, s@.len() as int) =~= s@);
    while i < s.len()
        invariant
            i <= s.len(),
            acc <= 4 * i,
            utf8_len(s@) == acc + utf8_len(s@.subrange(i as int, s@.len() as int)),
        decreases s.len() - i,
    {
        let ghost rest = s@.subrange(i as int, s@.len() as int);
        assert(rest.drop_first() =~= s@.subrange(i + 1, s@.len() as int));
        let u = s[i] as u32;
        let w: u128 = if u <= 0x7F {
            1
        } else if u <= 0x7FF {
            2
        } else if u <= 0xFFFF {
            3
        } else {
            4
        };
        assert(w == utf8_width(rest[0]));
        acc = acc + w;
        i += 1;
    }
    assert(s@.subrange(i as int, s@.len() as int) =~= Seq::<char>::empty());
    acc
}

/// Whether `a` and `b` hold the same characters.
pub fn same_text(a: &str, b: &str) -> (r: bool)
    ensures
        r == (a@ == b@),
{
    let x = chars_of(a);
    let y = chars_of(b);
    if x.len() != y.len() {
        assert(x@.len() != y@.len());
        return false;
    }
    let mut i: usize = 0;
    while i < x.len()
        invariant
            x@ == a@,
            y@ == b@,
            x.len() == y.len(),
            i <= x.len(),
            forall|j: int| 0 <= j < i ==> x@[j] == y@[j],
        decreases x.len() - i,
    {
        if x[i] != y[i] {
            assert(x@[i as int] != y@[i as int]);
            return false;
        }
        i += 1;
    }
    assert(x@ =~= y@);
    true
}

/// `pat` stands in `s` from position `i` on.
pub open spec fn occurs_at(s: Seq<char>, pat: Seq<char>, i: int) -> bool {
    0 <= i && i + pat.len() <= s.len() && s.subrange(i, i + pat.len()) == pat
}

/// `pat` stands somewhere in `s`.
pub open spec fn contains_seq(s: Seq<char>, pat: Seq<char>) -> bool {
    exists|i: int| occurs_at(s, pat, i)
}

/// The first position at which `pat` stands in `s`, as `str::find` reports it.
pub closed spec fn first_occurrence(s: Seq<char>, pat: Seq<char>) -> Option<int> {
    if contains_seq(s, pat) {
        Some(
            choose|i: int|
                occurs_at(s, pat, i) && forall|j: int| 0 <= j < i ==> !occurs_at(s, pat, j),
        )
    } else {
        None
    }
}

/// `first_occurrence` is the first position at which `pat` stands.
pub proof fn lemma_first_occurrence_at(s: Seq<char>, pat: Seq<char>, i: int)
    requires
        occurs_at(s, pat, i),
        forall|j: int| 0 <= j < i ==> !occurs_at(s, pat, j),
    ensures
        first_occurrence(s, pat) == Some(i),
{
    let c = choose|k: int|
        occurs_at(s, pat, k) && forall|j: int| 0 <= j < k ==> !occurs_at(s, pat, j);
    assert(c == i) by {
        if c < i {
            assert(!occurs_at(s, pat, c));
        } else if c > i {
            assert(!occurs_at(s, pat, i));
        }
    }
}

proof fn lemma_least_occurrence(s: Seq<char>, pat: Seq<char>, k: int)
    requires
        occurs_at(s, pat, k),
    ensures
        exists|i: int| occurs_at(s, pat, i) && forall|j: int| 0 <= j < i ==> !occurs_at(s, pat, j),
    decreases k,
{
    if exists|j: int| 0 <= j < k && occurs_at(s, pat, j) {
        let j = choose|j: int| 0 <= j < k && occurs_at(s, pat, j);
        lemma_least_occurrence(s, pat, j);
    } else {
        assert(forall|j: int| 0 <= j < k ==> !occurs_at(s, pat, j));
    }
}

/// What `first_occurrence` is: the least position at which `pat` stands in
/// `s`, or nothing when it stands nowhere.
pub proof fn lemma_first_occurrence(s: Seq<char>, pat: Seq<char>)
    ensures
        match first_occurrence(s, pat) {
            Some(i) => occurs_at(s, pat, i) && forall|j: int| 0 <= j < i ==> !occurs_at(s, pat, j),
            None => !contains_seq(s, pat),
        },
{
    if contains_seq(s, pat) {
        let k = choose|k: int| occurs_at(s, pat, k);
        lemma_least_occurrence(s, pat, k);
    }
}

/// Text put before and after `s` keeps every occurrence of `pat` in `s`,
/// shifted by the length of what was put before.
pub proof fn lemma_occurs_in_context(
    before: Seq<char>,
    s: Seq<char>,
    after: Seq<char>,
    pat: Seq<char>,
    i: int,
)
    requires
        occurs_at(s, pat, i),
    ensures
        occurs_at(before + s + after, pat, before.len() + i),
{
    let whole = before + s + after;
    let k = before.len() + i;
    assert(whole.subrange(k, k + pat.len()) =~= s.subrange(i, i + pat.len()));
}

/// Whether `pat` stands in `s` from position `i` on.
pub fn matches_at(s: &Vec<char>, pat: &Vec<char>, i: usize) -> (b: bool)
    ensures
        b == occurs_at(s@, pat@, i as int),
{
    if i > s.len() || pat.len() > s.len() - i {
        return false;
    }
    let mut k: usize = 0;
    while k < pat.len()
        invariant
            i + pat.len() <= s.len(),
            k <= pat.len(),
            forall|j: int| 0 <= j < k ==> s@[i + j] == pat@[j],
        decreases pat.len() - k,
    {
        if s[i + k] != pat[k] {
            assert(s@.subrange(i as int, i + pat.len())[k as int] != pat@[k as int]);
            return false;
        }
        k += 1;
    }
    assert(s@.subrange(i as int, i + pat.len()) =~= pat@);
    true
}

/// The first position at which `pat` stands in `s`.
pub fn find_chars(s: &Vec<char>, pat: &Vec<char>) -> (r: Option<usize>)
    ensures
        match r {
            Some(i) => first_occurrence(s@, pat@) == Some(i as int) && occurs_at(
                s@,
                pat@,
                i as int,
            ),
            None => first_occurrence(s@, pat@) is None && !contains_seq(s@, pat@),
        },
{
    if pat.len() > s.len() {
        assert(!contains_seq(s@, pat@));
        return None;
    }
    let last = s.len() - pat.len();
    let mut i: usize = 0;
    loop
        invariant
            last + pat.len() == s.len(),
            i <= last,
            forall|j: int| 0 <= j < i ==> !occurs_at(s@, pat@, j),
        ensures
            forall|j: int| 0 <= j <= last ==> !occurs_at(s@, pat@, j),
        decreases last - i,
    {
        if matches_at(s, pat, i) {
            proof {
                lemma_first_occurrence_at(s@, pat@, i as int);
            }
            return Some(i);
        }
        if i == last {
            break;
        }
        i += 1;
    }
    assert(!contains_seq(s@, pat@));
    None
}

/// Whether `pat` stands somewhere in `s`.
pub fn contains_chars(s: &Vec<char>, pat: &Vec<char>) -> (b: bool)
    ensures
        b == contains_seq(s@, pat@),
{
    let r = find_chars(s, pat);
    match r {
        Some(i) => {
            assert(occurs_at(s@, pat@, i as int));
            true
        },
        None => false,
    }
}

/// The digit `d` (`0 <= d < 10`) as a character.
pub open spec fn digit_char(d: int) -> char {
    seq!['0', '1', '2', '3', '4', '5', '6', '7', '8', '9'][d]
}

/// The decimal form of `n`, without sign or leading zeros: what `{}` prints
/// for an unsigned integer.
pub open spec fn decimal(n: nat) -> Seq<char>
    decreases n,
{
    if n < 10 {
        seq![digit_char(n as int)]
    } else {
        decimal(n / 10).push(digit_char((n % 10) as int))
    }
}

fn digit_str(d: u128) -> (s: &'static str)
    requires
        d < 10,
    ensures
        s@ == seq![digit_char(d as int)],
{
    let digits = "0123456789";
    proof {
        reveal_strlit("0123456789");
        assert(digits@ =~= seq!['0', '1', '2', '3', '4', '5', '6', '7', '8', '9']);
    }
    let s = digits.substring_char(d as usize, (d + 1) as usize);
    assert(s@ =~= seq![digit_char(d as int)]);
    s
}

/// Appends the decimal form of `n` to `out`.
pub fn push_decimal(out: &mut String, n: u128)
    ensures
        final(out)@ == old(out)@ + decimal(n as nat),
    decreases n,
{
    if n >= 10 {
        push_decimal(out, n / 10);
    }
    out.append(digit_str(n % 10));
    assert(final(out)@ =~= old(out)@ + decimal(n as nat));
}

} // verus!
