//! Character-level string helpers shared by the parsers and formatters.
//!
//! Strings are handled through their view, a `Seq<char>`; the helpers here
//! convert between `String`/`&str` and vectors of characters and provide
//! the small searching and trimming operations the rest of the crate uses.
use vstd::prelude::*;
use vstd::string::*;

verus! {

broadcast use vstd::string::group_string_axioms;

// ---------------------------------------------------------------------------
// Conversions
// ---------------------------------------------------------------------------

/// The characters of `s`, collected into a vector.
pub fn to_chars(s: &str) -> (r: Vec<char>)
    ensures
        r@ == s@,
{
    let mut v: Vec<char> = Vec::new();
    for c in it: s.chars()
        invariant
            it.seq() == s@,
            v@ == it.seq().take(it.index() as int),
    {
        v.push(c);
    }
    v
}

/// Appends one character to a string (`String::push`).
#[verifier::external_body]
pub(crate) fn string_push(s: &mut String, c: char)
    ensures
        final(s)@ == old(s)@.push(c),
{
    s.push(c);
}

/// Builds a string holding exactly the characters of `v`.
pub fn from_chars(v: &[char]) -> (r: String)
    ensures
        r@ == v@,
{
    let mut s = String::new();
    let mut i: usize = 0;
    while i < v.len()
        invariant
            i <= v@.len(),
            s@ == v@.take(i as int),
        decreases v@.len() - i,
    {
        string_push(&mut s, v[i]);
        assert(v@.take(i as int).push(v@[i as int]) =~= v@.take(i + 1));
        i = i + 1;
    }
    assert(v@.take(v@.len() as int) =~= v@);
    s
}

/// Builds a string from the characters `v[start..end]`.
pub fn from_char_range(v: &[char], start: usize, end: usize) -> (r: String)
    requires
        start <= end <= v@.len(),
    ensures
        r@ == v@.subrange(start as int, end as int),
{
    let mut s = String::new();
    let mut i: usize = start;
    while i < end
        invariant
            start <= i <= end <= v@.len(),
            s@ == v@.subrange(start as int, i as int),
        decreases end - i,
    {
        string_push(&mut s, v[i]);
        assert(v@.subrange(start as int, i as int).push(v@[i as int]) =~= v@.subrange(
            start as int,
            i + 1,
        ));
        i = i + 1;
    }
    s
}

/// A copy of `s` as an owned string.
pub fn owned(s: &str) -> (r: String)
    ensures
        r@ == s@,
{
    s.to_string()
}

/// Appends the characters of `t` to `s`.
pub fn push_str(s: &mut String, t: &str)
    ensures
        final(s)@ == old(s)@ + t@,
{
    s.append(t);
}

// ---------------------------------------------------------------------------
// Character classes
// ---------------------------------------------------------------------------

/// The Unicode `White_Space` property, which `char::is_whitespace` tests.
pub open spec fn is_ws(c: char) -> bool {
    let u = c as u32;
    ||| (0x09 <= u <= 0x0d)
    ||| u == 0x20
    ||| u == 0x85
    ||| u == 0xa0
    ||| u == 0x1680
    ||| (0x2000 <= u <= 0x200a)
    ||| u == 0x2028
    ||| u == 0x2029
    ||| u == 0x202f
    ||| u == 0x205f
    ||| u == 0x3000
}

/// Whether `c` is a whitespace character.
pub fn is_whitespace(c: char) -> (r: bool)
    ensures
        r == is_ws(c),
{
    let u = c as u32;
    (0x09 <= u && u <= 0x0d) || u == 0x20 || u == 0x85 || u == 0xa0 || u == 0x1680 || (0x2000
        <= u && u <= 0x200a) || u == 0x2028 || u == 0x2029 || u == 0x202f || u == 0x205f || u
        == 0x3000
}

pub open spec fn is_ascii_upper(c: char) -> bool {
    'A' <= c <= 'Z'
}

pub open spec fn is_ascii_lower(c: char) -> bool {
    'a' <= c <= 'z'
}

pub open spec fn is_ascii_digit(c: char) -> bool {
    '0' <= c <= '9'
}

pub open spec fn is_ascii_alnum(c: char) -> bool {
    is_ascii_upper(c) || is_ascii_lower(c) || is_ascii_digit(c)
}

/// `char::to_ascii_lowercase`: upper-case ASCII letters map to lower case,
/// every other character is unchanged.
pub open spec fn ascii_lower(c: char) -> char {
    if is_ascii_upper(c) {
        ((c as u32) + 32) as char
    } else {
        c
    }
}

pub fn is_ascii_alphanumeric(c: char) -> (r: bool)
    ensures
        r == is_ascii_alnum(c),
{
    ('A' <= c && c <= 'Z') || ('a' <= c && c <= 'z') || ('0' <= c && c <= '9')
}

pub fn to_ascii_lowercase(c: char) -> (r: char)
    ensures
        r == ascii_lower(c),
{
    if 'A' <= c && c <= 'Z' {
        let u = (c as u32) + 32;
        char_from_u32_ascii(u)
    } else {
        c
    }
}

/// Converts an ASCII code point to its character.
fn char_from_u32_ascii(u: u32) -> (r: char)
    requires
        u < 128,
    ensures
        r == u as char,
{
    (u as u8) as char
}

/// ASCII-lowercase every character of a sequence.
pub open spec fn ascii_lower_seq(s: Seq<char>) -> Seq<char> {
    s.map_values(|c: char| ascii_lower(c))
}

/// Case-insensitive ASCII equality (`str::eq_ignore_ascii_case`).
pub open spec fn eq_ignore_ascii_case(a: Seq<char>, b: Seq<char>) -> bool {
    ascii_lower_seq(a) == ascii_lower_seq(b)
}

pub fn chars_eq_ignore_ascii_case(a: &[char], b: &[char]) -> (r: bool)
    ensures
        r == eq_ignore_ascii_case(a@, b@),
{
    if a.len() != b.len() {
        proof {
            assert(ascii_lower_seq(a@).len() != ascii_lower_seq(b@).len());
        }
        return false;
    }
    let mut i: usize = 0;
    while i < a.len()
        invariant
            a@.len() == b@.len(),
            i <= a@.len(),
            forall|j: int| 0 <= j < i ==> ascii_lower(a@[j]) == ascii_lower(b@[j]),
        decreases a@.len() - i,
    {
        if to_ascii_lowercase(a[i]) != to_ascii_lowercase(b[i]) {
            proof {
                assert(ascii_lower_seq(a@)[i as int] != ascii_lower_seq(b@)[i as int]);
            }
            return false;
        }
        i = i + 1;
    }
    assert(ascii_lower_seq(a@) =~= ascii_lower_seq(b@));
    true
}

/// Compares a character sequence with a literal, ignoring ASCII case.
pub fn eq_ignore_case_str(a: &[char], lit: &str) -> (r: bool)
    ensures
        r == eq_ignore_ascii_case(a@, lit@),
{
    let b = to_chars(lit);
    chars_eq_ignore_ascii_case(a, b.as_slice())
}

// ---------------------------------------------------------------------------
// Unicode case mapping (std)
// ---------------------------------------------------------------------------

/// What `str::to_lowercase` returns for a string with the given characters.
pub uninterp spec fn lowercase(s: Seq<char>) -> Seq<char>;

/// `str::to_lowercase`: full Unicode lower-casing.
#[verifier::external_body]
pub(crate) fn to_lowercase(s: &str) -> (r: String)
    ensures
        r@ == lowercase(s@),
{
    s.to_lowercase()
}

/// What `str::to_uppercase` returns for a string with the given characters.
pub uninterp spec fn uppercase(s: Seq<char>) -> Seq<char>;

/// `str::to_uppercase`: full Unicode upper-casing.
#[verifier::external_body]
pub(crate) fn to_uppercase(s: &str) -> (r: String)
    ensures
        r@ == uppercase(s@),
{
    s.to_uppercase()
}

// ---------------------------------------------------------------------------
// Searching
// ---------------------------------------------------------------------------

/// `p` occurs in `s` starting at index `i`.
pub open spec fn occurs_at(s: Seq<char>, p: Seq<char>, i: int) -> bool {
    0 <= i && i + p.len() <= s.len() && s.subrange(i, i + p.len()) == p
}

/// `p` occurs somewhere in `s` (`str::contains` with a string pattern).
pub open spec fn contains_seq(s: Seq<char>, p: Seq<char>) -> bool {
    exists|i: int| occurs_at(s, p, i)
}

/// `s` begins with `p`.
pub open spec fn starts_with_seq(s: Seq<char>, p: Seq<char>) -> bool {
    occurs_at(s, p, 0)
}

/// Whether `p` occurs in `s` at position `i`.
pub fn matches_at(s: &[char], p: &[char], i: usize) -> (r: bool)
    ensures
        r == occurs_at(s@, p@, i as int),
{
    if i > s.len() || p.len() > s.len() - i {
        return false;
    }
    let mut j: usize = 0;
    while j < p.len()
        invariant
            i + p@.len() <= s@.len(),
            s@.len() <= usize::MAX,
            j <= p@.len(),
            forall|k: int| 0 <= k < j ==> s@[i + k] == p@[k],
        decreases p@.len() - j,
    {
        if s[i + j] != p[j] {
            proof {
                assert(s@.subrange(i as int, i + p@.len())[j as int] != p@[j as int]);
            }
            return false;
        }
        j = j + 1;
    }
    assert(s@.subrange(i as int, i + p@.len()) =~= p@);
    true
}

/// `i` is the first position at or after `from` where `p` occurs in `s`.
pub open spec fn is_first_occ(s: Seq<char>, p: Seq<char>, from: int, i: int) -> bool {
    from <= i && occurs_at(s, p, i) && forall|j: int| from <= j < i ==> !occurs_at(s, p, j)
}

/// The first position at or after `from` where `p` occurs in `s`
/// (`str::find` on the tail of `s` starting at `from`).
pub open spec fn find_spec(s: Seq<char>, p: Seq<char>, from: int) -> Option<int> {
    if exists|i: int| is_first_occ(s, p, from, i) {
        Some(choose|i: int| is_first_occ(s, p, from, i))
    } else {
        None
    }
}

pub proof fn lemma_first_occ_unique(s: Seq<char>, p: Seq<char>, from: int, i: int, j: int)
    requires
        is_first_occ(s, p, from, i),
        is_first_occ(s, p, from, j),
    ensures
        i == j,
{
}

/// Lemma: `find_spec` is determined by any first occurrence.
pub proof fn lemma_find_spec_some(s: Seq<char>, p: Seq<char>, from: int, i: int)
    requires
        is_first_occ(s, p, from, i),
    ensures
        find_spec(s, p, from) == Some(i),
{
    let c = choose|k: int| is_first_occ(s, p, from, k);
    lemma_first_occ_unique(s, p, from, i, c);
}

/// The first position at or after `from` where `p` occurs in `s`.
pub fn find_from(s: &[char], p: &[char], from: usize) -> (r: Option<usize>)
    ensures
        match r {
            Some(i) => is_first_occ(s@, p@, from as int, i as int),
            None => forall|j: int| from <= j ==> !occurs_at(s@, p@, j),
        },
        match r {
            Some(i) => find_spec(s@, p@, from as int) == Some(i as int),
            None => find_spec(s@, p@, from as int) is None,
        },
{
    let r = find_from_inner(s, p, from);
    proof {
        match r {
            Some(i) => lemma_find_spec_some(s@, p@, from as int, i as int),
            None => {},
        }
    }
    r
}

fn find_from_inner(s: &[char], p: &[char], from: usize) -> (r: Option<usize>)
    ensures
        match r {
            Some(i) => is_first_occ(s@, p@, from as int, i as int),
            None => forall|j: int| from <= j ==> !occurs_at(s@, p@, j),
        },
{
    if p.len() > s.len() {
        return None;
    }
    let last = s.len() - p.len();
    let mut i: usize = from;
    while i <= last
        invariant
            last == s@.len() - p@.len(),
            from <= i || i > last,
            forall|j: int| from <= j < i ==> !occurs_at(s@, p@, j),
        decreases last + 1 - i,
    {
        if matches_at(s, p, i) {
            return Some(i);
        }
        if i == last {
            return None;
        }
        i = i + 1;
    }
    None
}

/// Whether `p` occurs anywhere in `s`.
pub fn contains_chars(s: &[char], p: &[char]) -> (r: bool)
    ensures
        r == contains_seq(s@, p@),
{
    match find_from(s, p, 0) {
        Some(i) => true,
        None => false,
    }
}

/// Whether the string `s` contains the string `p`.
pub fn str_contains(s: &str, p: &str) -> (r: bool)
    ensures
        r == contains_seq(s@, p@),
{
    let sv = to_chars(s);
    let pv = to_chars(p);
    contains_chars(sv.as_slice(), pv.as_slice())
}

// ---------------------------------------------------------------------------
// Trimming
// ---------------------------------------------------------------------------

/// `s` without its leading whitespace.
pub open spec fn trim_start(s: Seq<char>) -> Seq<char>
    decreases s.len(),
{
    if s.len() > 0 && is_ws(s[0]) {
        trim_start(s.drop_first())
    } else {
        s
    }
}

/// `s` without its trailing whitespace.
pub open spec fn trim_end(s: Seq<char>) -> Seq<char>
    decreases s.len(),
{
    if s.len() > 0 && is_ws(s.last()) {
        trim_end(s.drop_last())
    } else {
        s
    }
}

/// `s` without leading and trailing whitespace (`str::trim`).
pub open spec fn trim(s: Seq<char>) -> Seq<char> {
    trim_end(trim_start(s))
}

/// Number of leading whitespace characters of `v[start..end]`.
pub fn skip_ws_forward(v: &[char], start: usize, end: usize) -> (r: usize)
    requires
        start <= end <= v@.len(),
    ensures
        start <= r <= end,
        trim_start(v@.subrange(start as int, end as int)) == v@.subrange(r as int, end as int),
        r < end ==> !is_ws(v@[r as int]),
        forall|k: int| start <= k < r ==> is_ws(v@[k]),
{
    let mut i = start;
    while i < end && is_whitespace(v[i])
        invariant
            start <= i <= end <= v@.len(),
            trim_start(v@.subrange(start as int, end as int)) == trim_start(
                v@.subrange(i as int, end as int),
            ),
            forall|k: int| start <= k < i ==> is_ws(v@[k]),
        decreases end - i,
    {
        assert(v@.subrange(i as int, end as int).drop_first() =~= v@.subrange(i + 1, end as int));
        i = i + 1;
    }
    i
}

/// End of `v[start..end]` once its trailing whitespace is removed.
pub fn skip_ws_backward(v: &[char], start: usize, end: usize) -> (r: usize)
    requires
        start <= end <= v@.len(),
    ensures
        start <= r <= end,
        trim_end(v@.subrange(start as int, end as int)) == v@.subrange(start as int, r as int),
        r > start ==> !is_ws(v@[r - 1]),
        forall|k: int| r <= k < end ==> is_ws(v@[k]),
{
    let mut i = end;
    while i > start && is_whitespace(v[i - 1])
        invariant
            start <= i <= end <= v@.len(),
            trim_end(v@.subrange(start as int, end as int)) == trim_end(
                v@.subrange(start as int, i as int),
            ),
            forall|k: int| i <= k < end ==> is_ws(v@[k]),
        decreases i - start,
    {
        assert(v@.subrange(start as int, i as int).drop_last() =~= v@.subrange(
            start as int,
            i - 1,
        ));
        i = i - 1;
    }
    i
}

/// `str::trim`.
pub fn trim_str(s: &str) -> (r: String)
    ensures
        r@ == trim(s@),
{
    let v = to_chars(s);
    let n = v.len();
    let a = skip_ws_forward(v.as_slice(), 0, n);
    let b = skip_ws_backward(v.as_slice(), a, n);
    assert(v@.subrange(0, n as int) =~= v@);
    from_char_range(v.as_slice(), a, b)
}

/// Whether `s` is empty once trimmed.
pub fn is_blank(s: &str) -> (r: bool)
    ensures
        r == (trim(s@).len() == 0),
{
    let t = trim_str(s);
    t.as_str().unicode_len() == 0
}

} // verus!

verus! {

// ---------------------------------------------------------------------------
// Decimal numbers
// ---------------------------------------------------------------------------

/// The ASCII digit for `d < 10`.
pub open spec fn digit_char(d: nat) -> char {
    (('0' as u32) + d) as char
}

/// The decimal representation of `n` (what `format!("{}", n)` prints).
pub open spec fn decimal(n: nat) -> Seq<char>
    decreases n,
{
    if n < 10 {
        seq![digit_char(n)]
    } else {
        decimal(n / 10).push(digit_char(n % 10))
    }
}

fn digit_of(d: usize) -> (r: char)
    requires
        d < 10,
    ensures
        r == digit_char(d as nat),
{
    let u: u32 = 48 + (d as u32);
    char_from_u32_ascii(u)
}

/// Formats `n` in decimal.
pub fn usize_to_string(n: usize) -> (r: String)
    ensures
        r@ == decimal(n as nat),
    decreases n,
{
    if n < 10 {
        let mut s = String::new();
        string_push(&mut s, digit_of(n));
        assert(s@ =~= seq![digit_char(n as nat)]);
        s
    } else {
        let mut s = usize_to_string(n / 10);
        string_push(&mut s, digit_of(n % 10));
        s
    }
}

/// The value of a non-empty run of ASCII digits.
pub open spec fn digits_value(s: Seq<char>) -> nat
    decreases s.len(),
{
    if s.len() == 0 {
        0
    } else {
        digits_value(s.drop_last()) * 10 + ((s.last() as u32) - ('0' as u32)) as nat
    }
}

pub open spec fn all_digits(s: Seq<char>) -> bool {
    forall|i: int| 0 <= i < s.len() ==> is_ascii_digit(#[trigger] s[i])
}

/// `usize::from_str`: an optional `+`, then one or more ASCII digits whose
/// value fits in a `usize`.
pub open spec fn parse_usize_spec(s: Seq<char>) -> Option<nat> {
    let body = if s.len() > 0 && s[0] == '+' {
        s.drop_first()
    } else {
        s
    };
    if body.len() > 0 && all_digits(body) && digits_value(body) <= usize::MAX {
        Some(digits_value(body))
    } else {
        None
    }
}

proof fn lemma_digits_value_prefix(s: Seq<char>, i: int)
    requires
        0 <= i <= s.len(),
        all_digits(s),
    ensures
        digits_value(s.take(i)) <= digits_value(s),
    decreases s.len() - i,
{
    if i < s.len() {
        lemma_digits_value_prefix(s, i + 1);
        assert(s.take(i + 1).drop_last() =~= s.take(i));
        assert(is_ascii_digit(s[i]));
    }
    assert(s.take(s.len() as int) =~= s);
}

/// Parses a decimal `usize` the way `str::parse::<usize>` does.
pub fn parse_usize(v: &[char]) -> (r: Option<usize>)
    ensures
        match r {
            Some(n) => parse_usize_spec(v@) == Some(n as nat),
            None => parse_usize_spec(v@) is None,
        },
{
    let start: usize = if v.len() > 0 && v[0] == '+' {
        1
    } else {
        0
    };
    let ghost body = if v@.len() > 0 && v@[0] == '+' {
        v@.drop_first()
    } else {
        v@
    };
    assert(body =~= v@.subrange(start as int, v@.len() as int));
    if start >= v.len() {
        return None;
    }
    let mut value: usize = 0;
    let mut i: usize = start;
    while i < v.len()
        invariant
            start <= i <= v@.len(),
            body =~= v@.subrange(start as int, v@.len() as int),
            body == (if v@.len() > 0 && v@[0] == '+' {
                v@.drop_first()
            } else {
                v@
            }),
            all_digits(body.take(i - start)),
            value as nat == digits_value(body.take(i - start)),
        decreases v@.len() - i,
    {
        let c = v[i];
        assert(body[i - start] == c);
        if !('0' <= c && c <= '9') {
            proof {
                assert(!is_ascii_digit(body[i - start]));
            }
            return None;
        }
        let d = (c as u32 - 48) as usize;
        assert(body.take(i + 1 - start).drop_last() =~= body.take(i - start));
        assert(body.take(i + 1 - start).last() == c);
        assert(all_digits(body.take(i + 1 - start)));
        if value > (usize::MAX - d) / 10 {
            proof {
                assert(value * 10 + d > usize::MAX) by (nonlinear_arith)
                    requires
                        value > (usize::MAX - d) / 10,
                        d < 10,
                ;
                assert(digits_value(body.take(i + 1 - start)) == value * 10 + d);
                if all_digits(body) {
                    lemma_digits_value_prefix(body, i + 1 - start);
                }
            }
            return None;
        }
        assert(value * 10 + d <= usize::MAX) by (nonlinear_arith)
            requires
                value <= (usize::MAX - d) / 10,
                d < 10,
        ;
        value = value * 10 + d;
        i = i + 1;
    }
    assert(body.take(v@.len() - start) =~= body);
    Some(value)
}

} // verus!

verus! {

// ---------------------------------------------------------------------------
// Lines
// ---------------------------------------------------------------------------

/// Index of the first `'\n'` in `s`, or -1 when there is none.
pub open spec fn first_nl(s: Seq<char>) -> int
    decreases s.len(),
{
    if s.len() == 0 {
        -1
    } else if s[0] == '\n' {
        0
    } else {
        let r = first_nl(s.drop_first());
        if r < 0 {
            -1
        } else {
            r + 1
        }
    }
}

pub proof fn lemma_first_nl_bound(s: Seq<char>)
    ensures
        -1 <= first_nl(s) < s.len(),
        first_nl(s) >= 0 ==> s[first_nl(s)] == '\n',
        forall|k: int| 0 <= k < s.len() && (first_nl(s) < 0 || k < first_nl(s)) ==> s[k] != '\n',
    decreases s.len(),
{
    if s.len() > 0 && s[0] != '\n' {
        lemma_first_nl_bound(s.drop_first());
        assert forall|k: int|
            0 <= k < s.len() && (first_nl(s) < 0 || k < first_nl(s)) implies s[k] != '\n' by {
            if k > 0 {
                assert(s.drop_first()[k - 1] == s[k]);
            }
        }
    }
}

/// Lemma: a newline at `j` with none before it is the first newline.
pub proof fn lemma_first_nl_at(t: Seq<char>, j: int)
    requires
        0 <= j <= t.len(),
        forall|k: int| 0 <= k < j ==> t[k] != '\n',
    ensures
        j < t.len() && t[j] == '\n' ==> first_nl(t) == j,
        j == t.len() ==> first_nl(t) == -1,
    decreases j,
{
    if j > 0 {
        let u = t.drop_first();
        assert forall|k: int| 0 <= k < j - 1 implies u[k] != '\n' by {
            assert(u[k] == t[k + 1]);
        }
        lemma_first_nl_at(u, j - 1);
        if j < t.len() {
            assert(u[j - 1] == t[j]);
        }
    }
}

/// A line without its trailing `'\r'`, if any.
pub open spec fn strip_cr(l: Seq<char>) -> Seq<char> {
    if l.len() > 0 && l.last() == '\r' {
        l.drop_last()
    } else {
        l
    }
}

/// The lines of `s` as `str::lines` yields them: split at `'\n'`, a
/// `'\r'` before a `'\n'` dropped, and no empty line after a final `'\n'`.
pub open spec fn lines_spec(s: Seq<char>) -> Seq<Seq<char>>
    decreases s.len(),
{
    if s.len() == 0 {
        seq![]
    } else {
        let k = first_nl(s);
        if k < 0 {
            seq![s]
        } else {
            proof {
                lemma_first_nl_bound(s);
            }
            seq![strip_cr(s.take(k))] + lines_spec(s.skip(k + 1))
        }
    }
}

/// The characters `v[start..end]` without a trailing `'\r'`.
fn line_chars(v: &[char], start: usize, end: usize) -> (r: Vec<char>)
    requires
        start <= end <= v@.len(),
    ensures
        r@ == strip_cr(v@.subrange(start as int, end as int)),
{
    let stop = if end > start && v[end - 1] == '\r' {
        end - 1
    } else {
        end
    };
    let mut out: Vec<char> = Vec::new();
    let mut i = start;
    while i < stop
        invariant
            start <= i <= stop <= end <= v@.len(),
            out@ == v@.subrange(start as int, i as int),
        decreases stop - i,
    {
        out.push(v[i]);
        assert(v@.subrange(start as int, i as int).push(v@[i as int]) =~= v@.subrange(
            start as int,
            i + 1,
        ));
        i = i + 1;
    }
    assert(strip_cr(v@.subrange(start as int, end as int)) =~= v@.subrange(
        start as int,
        stop as int,
    ));
    out
}

/// Splits text into lines (`str::lines`).
pub fn split_lines(v: &[char]) -> (r: Vec<Vec<char>>)
    ensures
        r@.len() == lines_spec(v@).len(),
        forall|i: int| 0 <= i < r@.len() ==> #[trigger] r@[i]@ == lines_spec(v@)[i],
{
    let mut out: Vec<Vec<char>> = Vec::new();
    let ghost mut done: Seq<Seq<char>> = seq![];
    let mut start: usize = 0;
    let mut i: usize = 0;
    assert(v@.skip(0) =~= v@);
    while i < v.len()
        invariant
            start <= i <= v@.len(),
            out@.len() == done.len(),
            forall|k: int| 0 <= k < out@.len() ==> #[trigger] out@[k]@ == done[k],
            lines_spec(v@) == done + lines_spec(v@.skip(start as int)),
            forall|k: int| start <= k < i ==> v@[k] != '\n',
        decreases v@.len() - i,
    {
        if v[i] == '\n' {
            let ghost t = v@.skip(start as int);
            proof {
                assert forall|k: int| 0 <= k < i - start implies t[k] != '\n' by {
                    assert(t[k] == v@[start + k]);
                }
                assert(t[i - start] == v@[i as int]);
                lemma_first_nl_at(t, i - start);
                assert(t.take(i - start) =~= v@.subrange(start as int, i as int));
                assert(t.skip(i - start + 1) =~= v@.skip(i + 1));
            }
            let line = line_chars(v, start, i);
            out.push(line);
            proof {
                done = done.push(strip_cr(v@.subrange(start as int, i as int)));
                assert(lines_spec(v@) =~= done + lines_spec(v@.skip(i + 1)));
            }
            start = i + 1;
        }
        i = i + 1;
    }
    if start < v.len() {
        let ghost t = v@.skip(start as int);
        proof {
            assert forall|k: int| 0 <= k < t.len() implies t[k] != '\n' by {
                assert(t[k] == v@[start + k]);
            }
            lemma_first_nl_at(t, t.len() as int);
            assert(t =~= v@.subrange(start as int, v@.len() as int));
        }
        let mut line: Vec<char> = Vec::new();
        let mut j = start;
        while j < v.len()
            invariant
                start <= j <= v@.len(),
                line@ == v@.subrange(start as int, j as int),
            decreases v@.len() - j,
        {
            line.push(v[j]);
            assert(v@.subrange(start as int, j as int).push(v@[j as int]) =~= v@.subrange(
                start as int,
                j + 1,
            ));
            j = j + 1;
        }
        out.push(line);
        proof {
            done = done.push(t);
            assert(lines_spec(v@) =~= done);
        }
    } else {
        proof {
            assert(v@.skip(start as int).len() == 0);
            assert(lines_spec(v@) =~= done);
        }
    }
    out
}

} // verus!

verus! {

// ---------------------------------------------------------------------------
// Whitespace-separated words
// ---------------------------------------------------------------------------

/// Index of the first whitespace character of `s`, or `s.len()`.
pub open spec fn first_ws(s: Seq<char>) -> nat
    decreases s.len(),
{
    if s.len() == 0 {
        0
    } else if is_ws(s[0]) {
        0
    } else {
        first_ws(s.drop_first()) + 1
    }
}

pub proof fn lemma_first_ws(s: Seq<char>)
    ensures
        first_ws(s) <= s.len(),
        first_ws(s) < s.len() ==> is_ws(s[first_ws(s) as int]),
        forall|k: int| 0 <= k < first_ws(s) ==> !is_ws(s[k]),
    decreases s.len(),
{
    if s.len() > 0 && !is_ws(s[0]) {
        lemma_first_ws(s.drop_first());
        assert forall|k: int| 0 <= k < first_ws(s) implies !is_ws(s[k]) by {
            if k > 0 {
                assert(s.drop_first()[k - 1] == s[k]);
            }
        }
    }
}

pub proof fn lemma_first_ws_at(t: Seq<char>, j: int)
    requires
        0 <= j <= t.len(),
        forall|k: int| 0 <= k < j ==> !is_ws(t[k]),
        j < t.len() ==> is_ws(t[j]),
    ensures
        first_ws(t) == j,
    decreases j,
{
    if j > 0 {
        let u = t.drop_first();
        assert forall|k: int| 0 <= k < j - 1 implies !is_ws(u[k]) by {
            assert(u[k] == t[k + 1]);
        }
        if j < t.len() {
            assert(u[j - 1] == t[j]);
        }
        lemma_first_ws_at(u, j - 1);
    }
}

pub proof fn lemma_trim_start_suffix(s: Seq<char>)
    ensures
        exists|k: int| 0 <= k <= s.len() && trim_start(s) == s.skip(k),
        trim_start(s).len() > 0 ==> !is_ws(trim_start(s)[0]),
    decreases s.len(),
{
    if s.len() > 0 && is_ws(s[0]) {
        lemma_trim_start_suffix(s.drop_first());
        let k = choose|k: int| 0 <= k <= s.drop_first().len() && trim_start(s.drop_first()) == s.drop_first().skip(k);
        assert(s.drop_first().skip(k) =~= s.skip(k + 1));
    } else {
        assert(s.skip(0) =~= s);
    }
}

/// The whitespace-separated words of `s` (`str::split_whitespace`).
pub open spec fn words(s: Seq<char>) -> Seq<Seq<char>>
    decreases s.len(),
{
    let t = trim_start(s);
    if t.len() == 0 {
        seq![]
    } else {
        proof {
            lemma_trim_start_suffix(s);
            lemma_first_ws(t);
        }
        let k = first_ws(t) as int;
        seq![t.take(k)] + words(t.skip(k))
    }
}

/// Splits `v` into whitespace-separated words.
pub fn split_words(v: &[char]) -> (r: Vec<Vec<char>>)
    ensures
        r@.len() == words(v@).len(),
        forall|i: int| 0 <= i < r@.len() ==> #[trigger] r@[i]@ == words(v@)[i],
{
    let n = v.len();
    let mut out: Vec<Vec<char>> = Vec::new();
    let ghost mut done: Seq<Seq<char>> = seq![];
    let mut pos: usize = 0;
    assert(v@.subrange(0, n as int) =~= v@);
    while pos < n
        invariant
            n == v@.len(),
            pos <= n,
            out@.len() == done.len(),
            forall|k: int| 0 <= k < out@.len() ==> #[trigger] out@[k]@ == done[k],
            words(v@) == done + words(v@.subrange(pos as int, n as int)),
        decreases n - pos,
    {
        let a = skip_ws_forward(v, pos, n);
        if a == n {
            proof {
                assert(words(v@.subrange(pos as int, n as int)) =~= seq![]);
                assert(v@.subrange(n as int, n as int).len() == 0);
            }
            pos = n;
            assert(words(v@.subrange(pos as int, n as int)) =~= seq![]);
        } else {
            let mut b = a;
            while b < n && !is_whitespace(v[b])
                invariant
                    a <= b <= n,
                    n == v@.len(),
                    forall|k: int| a <= k < b ==> !is_ws(v@[k]),
                decreases n - b,
            {
                b = b + 1;
            }
            let ghost t = v@.subrange(a as int, n as int);
            proof {
                assert forall|k: int| 0 <= k < b - a implies !is_ws(t[k]) by {
                    assert(t[k] == v@[a + k]);
                }
                if b < n {
                    assert(t[b - a] == v@[b as int]);
                }
                lemma_first_ws_at(t, b - a);
                assert(t.take(b - a) =~= v@.subrange(a as int, b as int));
                assert(t.skip(b - a) =~= v@.subrange(b as int, n as int));
                assert(words(v@.subrange(pos as int, n as int)) =~= seq![
                    v@.subrange(a as int, b as int),
                ] + words(v@.subrange(b as int, n as int)));
            }
            let mut w: Vec<char> = Vec::new();
            let mut j = a;
            while j < b
                invariant
                    a <= j <= b <= n,
                    n == v@.len(),
                    w@ == v@.subrange(a as int, j as int),
                decreases b - j,
            {
                w.push(v[j]);
                assert(v@.subrange(a as int, j as int).push(v@[j as int]) =~= v@.subrange(
                    a as int,
                    j + 1,
                ));
                j = j + 1;
            }
            out.push(w);
            proof {
                done = done.push(v@.subrange(a as int, b as int));
                assert(words(v@) =~= done + words(v@.subrange(b as int, n as int)));
            }
            pos = b;
        }
    }
    proof {
        assert(words(v@.subrange(n as int, n as int)) =~= seq![]);
        assert(words(v@) =~= done);
    }
    out
}

} // verus!

verus! {

// ---------------------------------------------------------------------------
// Splitting at a character, trimming and comparing character vectors
// ---------------------------------------------------------------------------

/// Index of the first `c` in `s`, or -1 when there is none.
pub open spec fn first_of(s: Seq<char>, c: char) -> int
    decreases s.len(),
{
    if s.len() == 0 {
        -1
    } else if s[0] == c {
        0
    } else {
        let r = first_of(s.drop_first(), c);
        if r < 0 {
            -1
        } else {
            r + 1
        }
    }
}

pub proof fn lemma_first_of_bound(s: Seq<char>, c: char)
    ensures
        -1 <= first_of(s, c) < s.len(),
    decreases s.len(),
{
    if s.len() > 0 && s[0] != c {
        lemma_first_of_bound(s.drop_first(), c);
    }
}

pub proof fn lemma_first_of_at(t: Seq<char>, c: char, j: int)
    requires
        0 <= j <= t.len(),
        forall|k: int| 0 <= k < j ==> t[k] != c,
    ensures
        j < t.len() && t[j] == c ==> first_of(t, c) == j,
        j == t.len() ==> first_of(t, c) == -1,
    decreases j,
{
    if j > 0 {
        let u = t.drop_first();
        assert forall|k: int| 0 <= k < j - 1 implies u[k] != c by {
            assert(u[k] == t[k + 1]);
        }
        lemma_first_of_at(u, c, j - 1);
        if j < t.len() {
            assert(u[j - 1] == t[j]);
        }
    }
}

/// The pieces of `s` between occurrences of `c` (`str::split` with a
/// character pattern); there is always at least one piece.
pub open spec fn split_char(s: Seq<char>, c: char) -> Seq<Seq<char>>
    decreases s.len(),
{
    let k = first_of(s, c);
    if k < 0 {
        seq![s]
    } else {
        proof {
            lemma_first_of_bound(s, c);
        }
        seq![s.take(k)] + split_char(s.skip(k + 1), c)
    }
}

pub proof fn lemma_split_char_nonempty(s: Seq<char>, c: char)
    ensures
        split_char(s, c).len() >= 1,
    decreases s.len(),
{
    let k = first_of(s, c);
    if k >= 0 {
        lemma_first_of_bound(s, c);
        lemma_split_char_nonempty(s.skip(k + 1), c);
    }
}

fn copy_range(v: &[char], start: usize, end: usize) -> (r: Vec<char>)
    requires
        start <= end <= v@.len(),
    ensures
        r@ == v@.subrange(start as int, end as int),
{
    let mut out: Vec<char> = Vec::new();
    let mut i = start;
    while i < end
        invariant
            start <= i <= end <= v@.len(),
            out@ == v@.subrange(start as int, i as int),
        decreases end - i,
    {
        out.push(v[i]);
        assert(v@.subrange(start as int, i as int).push(v@[i as int]) =~= v@.subrange(
            start as int,
            i + 1,
        ));
        i = i + 1;
    }
    out
}

/// Splits `v` at every `c`.
pub fn split_on_char(v: &[char], c: char) -> (r: Vec<Vec<char>>)
    ensures
        r@.len() == split_char(v@, c).len(),
        forall|i: int| 0 <= i < r@.len() ==> #[trigger] r@[i]@ == split_char(v@, c)[i],
{
    let n = v.len();
    let mut out: Vec<Vec<char>> = Vec::new();
    let ghost mut done: Seq<Seq<char>> = seq![];
    let mut start: usize = 0;
    let mut i: usize = 0;
    assert(v@.skip(0) =~= v@);
    while i < n
        invariant
            n == v@.len(),
            start <= i <= n,
            out@.len() == done.len(),
            forall|k: int| 0 <= k < out@.len() ==> #[trigger] out@[k]@ == done[k],
            split_char(v@, c) == done + split_char(v@.skip(start as int), c),
            forall|k: int| start <= k < i ==> v@[k] != c,
        decreases n - i,
    {
        if v[i] == c {
            let ghost t = v@.skip(start as int);
            proof {
                assert forall|k: int| 0 <= k < i - start implies t[k] != c by {
                    assert(t[k] == v@[start + k]);
                }
                assert(t[i - start] == v@[i as int]);
                lemma_first_of_at(t, c, i - start);
                assert(t.take(i - start) =~= v@.subrange(start as int, i as int));
                assert(t.skip(i - start + 1) =~= v@.skip(i + 1));
            }
            let piece = copy_range(v, start, i);
            out.push(piece);
            proof {
                done = done.push(v@.subrange(start as int, i as int));
                assert(split_char(v@, c) =~= done + split_char(v@.skip(i + 1), c));
            }
            start = i + 1;
        }
        i = i + 1;
    }
    let ghost t = v@.skip(start as int);
    proof {
        assert forall|k: int| 0 <= k < t.len() implies t[k] != c by {
            assert(t[k] == v@[start + k]);
        }
        lemma_first_of_at(t, c, t.len() as int);
        assert(t =~= v@.subrange(start as int, n as int));
    }
    let piece = copy_range(v, start, n);
    out.push(piece);
    proof {
        done = done.push(t);
        assert(split_char(v@, c) =~= done);
    }
    out
}

/// `v` without leading and trailing whitespace.
pub fn trim_chars(v: &[char]) -> (r: Vec<char>)
    ensures
        r@ == trim(v@),
{
    let n = v.len();
    let a = skip_ws_forward(v, 0, n);
    let b = skip_ws_backward(v, a, n);
    assert(v@.subrange(0, n as int) =~= v@);
    copy_range(v, a, b)
}

/// Whether two character sequences are equal.
pub fn chars_eq(a: &[char], b: &[char]) -> (r: bool)
    ensures
        r == (a@ == b@),
{
    if a.len() != b.len() {
        return false;
    }
    let mut i: usize = 0;
    while i < a.len()
        invariant
            a@.len() == b@.len(),
            i <= a@.len(),
            forall|j: int| 0 <= j < i ==> a@[j] == b@[j],
        decreases a@.len() - i,
    {
        if a[i] != b[i] {
            return false;
        }
        i = i + 1;
    }
    assert(a@ =~= b@);
    true
}

/// Whether two strings are equal.
pub fn str_eq(a: &str, b: &str) -> (r: bool)
    ensures
        r == (a@ == b@),
{
    let x = to_chars(a);
    let y = to_chars(b);
    chars_eq(x.as_slice(), y.as_slice())
}

} // verus!

verus! {

// ---------------------------------------------------------------------------
// Joining
// ---------------------------------------------------------------------------

/// The views of a sequence of strings.
pub open spec fn strs_view(v: Seq<String>) -> Seq<Seq<char>> {
    v.map_values(|s: String| s@)
}

/// The pieces of `list` with `sep` between neighbours (`[..].join(sep)`).
pub open spec fn join(list: Seq<Seq<char>>, sep: Seq<char>) -> Seq<char>
    decreases list.len(),
{
    if list.len() == 0 {
        seq![]
    } else if list.len() == 1 {
        list[0]
    } else {
        join(list.drop_last(), sep) + sep + list.last()
    }
}

/// Joins strings with a separator.
pub fn join_strings(list: &[String], sep: &str) -> (r: String)
    ensures
        r@ == join(strs_view(list@), sep@),
{
    let mut out = String::new();
    let ghost lv = strs_view(list@);
    let mut i: usize = 0;
    while i < list.len()
        invariant
            i <= list@.len(),
            lv == strs_view(list@),
            out@ == join(lv.take(i as int), sep@),
        decreases list@.len() - i,
    {
        assert(lv.take(i + 1).drop_last() =~= lv.take(i as int));
        if i > 0 {
            out.append(sep);
        } else {
            assert(lv.take(0) =~= seq![]);
        }
        out.append(list[i].as_str());
        i = i + 1;
    }
    assert(lv.take(list@.len() as int) =~= lv);
    out
}

} // verus!

verus! {

// ---------------------------------------------------------------------------
// UTF-8 lengths
// ---------------------------------------------------------------------------

pub proof fn lemma_encode_utf8_concat(s: Seq<char>, t: Seq<char>)
    ensures
        vstd::utf8::encode_utf8(s + t) == vstd::utf8::encode_utf8(s) + vstd::utf8::encode_utf8(t),
    decreases s.len(),
{
    if s.len() == 0 {
        assert(s + t =~= t);
    } else {
        lemma_encode_utf8_concat(s.drop_first(), t);
        assert((s + t).drop_first() =~= s.drop_first() + t);
    }
}

pub proof fn lemma_encode_utf8_single(c: char)
    ensures
        vstd::utf8::encode_utf8(seq![c]) == vstd::utf8::encode_scalar(c as u32),
{
    let s = seq![c];
    let e: Seq<char> = Seq::empty();
    assert(s.drop_first() =~= e);
    assert(vstd::utf8::encode_utf8(e) =~= Seq::<u8>::empty());
    assert(s[0] == c);
    assert(vstd::utf8::encode_utf8(s) =~= vstd::utf8::encode_scalar(c as u32) + vstd::utf8::encode_utf8(e));
}

/// The characters encoded by the first `n` bytes of `s`'s encoding.
pub open spec fn chars_before(s: Seq<char>, n: int) -> Seq<char> {
    vstd::utf8::decode_utf8(vstd::utf8::encode_utf8(s).subrange(0, n))
}

/// The characters encoded after the first `n` bytes of `s`'s encoding.
pub open spec fn chars_after(s: Seq<char>, n: int) -> Seq<char> {
    vstd::utf8::decode_utf8(vstd::utf8::encode_utf8(s).subrange(n, vstd::utf8::encode_utf8(s).len() as int))
}

/// Whether byte `n` of `s`'s encoding starts a character (or ends the
/// text).
pub open spec fn at_boundary(s: Seq<char>, n: int) -> bool {
    vstd::utf8::is_char_boundary(vstd::utf8::encode_utf8(s), n)
}

/// Where the encoding of `x` ends in that of `x + y`, a character starts
/// (or the text ends).
pub proof fn lemma_boundary_after(x: Seq<char>, y: Seq<char>)
    ensures
        vstd::utf8::is_char_boundary(vstd::utf8::encode_utf8(x + y), vstd::utf8::encode_utf8(x).len() as int),
    decreases x.len(),
{
    broadcast use vstd::utf8::encode_utf8_valid_utf8;

    if x.len() == 0 {
        assert(x + y =~= y);
        assert(vstd::utf8::encode_utf8(x) =~= Seq::<u8>::empty());
    } else {
        let xy = x + y;
        assert(xy.drop_first() =~= x.drop_first() + y);
        assert(xy[0] == x[0]);
        vstd::utf8::encode_utf8_first_scalar(xy);
        lemma_boundary_after(x.drop_first(), y);
        let bytes = vstd::utf8::encode_utf8(xy);
        let head = vstd::utf8::encode_scalar(x[0] as u32);
        assert(bytes == head + vstd::utf8::encode_utf8(x.drop_first() + y));
        assert(vstd::utf8::pop_first_scalar(bytes) =~= vstd::utf8::encode_utf8(x.drop_first() + y));
        assert(vstd::utf8::encode_utf8(x).len() == head.len() + vstd::utf8::encode_utf8(x.drop_first()).len());
        assert(head.len() > 0);
    }
}

/// Number of bytes `c` takes in UTF-8.
pub fn char_utf8_len(c: char) -> (r: usize)
    ensures
        r == vstd::utf8::encode_scalar(c as u32).len(),
        1 <= r <= 4,
{
    proof {
        vstd::utf8::char_is_scalar(c);
    }
    let u = c as u32;
    if u <= 0x7f {
        1
    } else if u <= 0x7ff {
        2
    } else if u <= 0xffff {
        3
    } else {
        4
    }
}

/// Whether the UTF-8 encoding of `v` has at most `limit` bytes
/// (`str::len() <= limit`).
pub fn utf8_len_at_most(v: &[char], limit: usize) -> (r: bool)
    ensures
        r == (vstd::utf8::encode_utf8(v@).len() <= limit),
{
    let mut acc: usize = 0;
    let mut i: usize = 0;
    assert(v@.take(0) =~= seq![]);
    while i < v.len()
        invariant
            i <= v@.len(),
            acc == vstd::utf8::encode_utf8(v@.take(i as int)).len(),
            acc <= limit,
        decreases v@.len() - i,
    {
        let w = char_utf8_len(v[i]);
        proof {
            assert(v@.take(i + 1) =~= v@.take(i as int) + seq![v@[i as int]]);
            lemma_encode_utf8_concat(v@.take(i as int), seq![v@[i as int]]);
            lemma_encode_utf8_single(v@[i as int]);
        }
        if w > limit - acc {
            proof {
                assert(v@ =~= v@.take(i + 1) + v@.skip(i + 1));
                lemma_encode_utf8_concat(v@.take(i + 1), v@.skip(i + 1));
            }
            return false;
        }
        acc = acc + w;
        i = i + 1;
    }
    assert(v@.take(v@.len() as int) =~= v@);
    true
}

} // verus!

verus! {

// ---------------------------------------------------------------------------
// Lexicographic order (the order of `str`'s `Ord`)
// ---------------------------------------------------------------------------

/// `a` sorts before `b`: at the first difference `a` has the smaller
/// character, or `a` is a proper prefix of `b`.
pub open spec fn lex_lt(a: Seq<char>, b: Seq<char>) -> bool
    decreases a.len(),
{
    if a.len() == 0 {
        b.len() > 0
    } else if b.len() == 0 {
        false
    } else if a[0] != b[0] {
        (a[0] as u32) < (b[0] as u32)
    } else {
        lex_lt(a.drop_first(), b.drop_first())
    }
}

pub proof fn lemma_lex_irrefl(a: Seq<char>)
    ensures
        !lex_lt(a, a),
    decreases a.len(),
{
    if a.len() > 0 {
        lemma_lex_irrefl(a.drop_first());
    }
}

pub proof fn lemma_lex_asym(a: Seq<char>, b: Seq<char>)
    requires
        lex_lt(a, b),
    ensures
        !lex_lt(b, a),
    decreases a.len(),
{
    if a.len() > 0 && b.len() > 0 && a[0] == b[0] {
        lemma_lex_asym(a.drop_first(), b.drop_first());
    }
}

pub proof fn lemma_lex_total(a: Seq<char>, b: Seq<char>)
    requires
        a != b,
    ensures
        lex_lt(a, b) || lex_lt(b, a),
    decreases a.len(),
{
    if a.len() > 0 && b.len() > 0 && a[0] == b[0] {
        if a.drop_first() == b.drop_first() {
            assert(a =~= seq![a[0]] + a.drop_first());
            assert(b =~= seq![b[0]] + b.drop_first());
        }
        lemma_lex_total(a.drop_first(), b.drop_first());
    } else if a.len() > 0 && b.len() > 0 {
        vstd::utf8::char_u32_cast(a[0], a[0] as u32);
        vstd::utf8::char_u32_cast(b[0], b[0] as u32);
    } else if a.len() == 0 && b.len() == 0 {
        assert(a =~= b);
    }
}

pub proof fn lemma_lex_trans(a: Seq<char>, b: Seq<char>, c: Seq<char>)
    requires
        lex_lt(a, b),
        lex_lt(b, c),
    ensures
        lex_lt(a, c),
    decreases a.len(),
{
    if a.len() > 0 && b.len() > 0 && c.len() > 0 && a[0] == b[0] && b[0] == c[0] {
        lemma_lex_trans(a.drop_first(), b.drop_first(), c.drop_first());
    }
}

/// Whether `a` sorts before `b`.
pub fn chars_lt(a: &[char], b: &[char]) -> (r: bool)
    ensures
        r == lex_lt(a@, b@),
{
    let mut i: usize = 0;
    assert(a@.skip(0) =~= a@);
    assert(b@.skip(0) =~= b@);
    while i < a.len() && i < b.len() && a[i] == b[i]
        invariant
            i <= a@.len(),
            i <= b@.len(),
            lex_lt(a@, b@) == lex_lt(a@.skip(i as int), b@.skip(i as int)),
        decreases a@.len() - i,
    {
        assert(a@.skip(i as int).drop_first() =~= a@.skip(i + 1));
        assert(b@.skip(i as int).drop_first() =~= b@.skip(i + 1));
        i = i + 1;
    }
    if i == a.len() {
        i < b.len()
    } else if i == b.len() {
        false
    } else {
        assert(a@.skip(i as int)[0] == a@[i as int]);
        assert(b@.skip(i as int)[0] == b@[i as int]);
        (a[i] as u32) < (b[i] as u32)
    }
}

} // verus!

verus! {

// ---------------------------------------------------------------------------
// Facts about trimming
// ---------------------------------------------------------------------------

/// Where `trim_start` cuts: every character before is whitespace, the one
/// there is not.
pub proof fn lemma_trim_start_at(s: Seq<char>)
    ensures
        exists|a: int|
            0 <= a <= s.len() && trim_start(s) == s.skip(a) && (forall|j: int| 0 <= j < a ==> is_ws(#[trigger] s[j]))
                && (a == s.len() || !is_ws(s[a])),
    decreases s.len(),
{
    if s.len() > 0 && is_ws(s[0]) {
        lemma_trim_start_at(s.drop_first());
        let a = choose|a: int|
            0 <= a <= s.drop_first().len() && trim_start(s.drop_first()) == s.drop_first().skip(a) && (forall|j: int|
                0 <= j < a ==> is_ws(#[trigger] s.drop_first()[j])) && (a == s.drop_first().len() || !is_ws(
                s.drop_first()[a],
            ));
        assert(s.drop_first().skip(a) =~= s.skip(a + 1));
        assert forall|j: int| 0 <= j < a + 1 implies is_ws(#[trigger] s[j]) by {
            if j > 0 {
                assert(s[j] == s.drop_first()[j - 1]);
            }
        }
        if a < s.drop_first().len() {
            assert(s[a + 1] == s.drop_first()[a]);
        }
    } else {
        assert(s.skip(0) =~= s);
    }
}

/// Where `trim_end` cuts: every character after is whitespace, the one
/// before is not.
pub proof fn lemma_trim_end_at(s: Seq<char>)
    ensures
        exists|b: int|
            0 <= b <= s.len() && trim_end(s) == s.take(b) && (forall|j: int| b <= j < s.len() ==> is_ws(#[trigger] s[j]))
                && (b == 0 || !is_ws(s[b - 1])),
    decreases s.len(),
{
    if s.len() > 0 && is_ws(s.last()) {
        lemma_trim_end_at(s.drop_last());
        let b = choose|b: int|
            0 <= b <= s.drop_last().len() && trim_end(s.drop_last()) == s.drop_last().take(b) && (forall|j: int|
                b <= j < s.drop_last().len() ==> is_ws(#[trigger] s.drop_last()[j])) && (b == 0 || !is_ws(
                s.drop_last()[b - 1],
            ));
        assert(s.drop_last().take(b) =~= s.take(b));
        assert forall|j: int| b <= j < s.len() implies is_ws(#[trigger] s[j]) by {
            if j < s.len() - 1 {
                assert(s[j] == s.drop_last()[j]);
            }
        }
        if b > 0 {
            assert(s[b - 1] == s.drop_last()[b - 1]);
        }
    } else {
        assert(s.take(s.len() as int) =~= s);
    }
}

/// Any cut point with whitespace before and none at it is where
/// `trim_start` cuts.
pub proof fn lemma_trim_start_is(s: Seq<char>, a: int)
    requires
        0 <= a <= s.len(),
        forall|j: int| 0 <= j < a ==> is_ws(#[trigger] s[j]),
        a == s.len() || !is_ws(s[a]),
    ensures
        trim_start(s) == s.skip(a),
    decreases a,
{
    if a > 0 {
        assert forall|j: int| 0 <= j < a - 1 implies is_ws(#[trigger] s.drop_first()[j]) by {
            assert(s.drop_first()[j] == s[j + 1]);
        }
        if a < s.len() {
            assert(s.drop_first()[a - 1] == s[a]);
        }
        lemma_trim_start_is(s.drop_first(), a - 1);
        assert(s.drop_first().skip(a - 1) =~= s.skip(a));
    } else {
        assert(s.skip(0) =~= s);
    }
}

/// Any cut point with whitespace after and none just before it is where
/// `trim_end` cuts.
pub proof fn lemma_trim_end_is(s: Seq<char>, b: int)
    requires
        0 <= b <= s.len(),
        forall|j: int| b <= j < s.len() ==> is_ws(#[trigger] s[j]),
        b == 0 || !is_ws(s[b - 1]),
    ensures
        trim_end(s) == s.take(b),
    decreases s.len() - b,
{
    if b < s.len() {
        assert forall|j: int| b <= j < s.drop_last().len() implies is_ws(#[trigger] s.drop_last()[j]) by {
            assert(s.drop_last()[j] == s[j]);
        }
        if b > 0 {
            assert(s.drop_last()[b - 1] == s[b - 1]);
        }
        lemma_trim_end_is(s.drop_last(), b);
        assert(s.drop_last().take(b) =~= s.take(b));
    } else {
        assert(s.take(b) =~= s);
    }
}

/// Trimming the end first and then the start trims the same.
pub proof fn lemma_trim_commute(y: Seq<char>)
    ensures
        trim_start(trim_end(y)) == trim_end(trim_start(y)),
{
    lemma_trim_start_at(y);
    lemma_trim_end_at(y);
    let a = choose|a: int|
        0 <= a <= y.len() && trim_start(y) == y.skip(a) && (forall|j: int| 0 <= j < a ==> is_ws(#[trigger] y[j])) && (a
            == y.len() || !is_ws(y[a]));
    let b = choose|b: int|
        0 <= b <= y.len() && trim_end(y) == y.take(b) && (forall|j: int| b <= j < y.len() ==> is_ws(#[trigger] y[j])) && (b
            == 0 || !is_ws(y[b - 1]));
    if a >= b {
        let t = y.take(b);
        assert forall|j: int| 0 <= j < b implies is_ws(#[trigger] t[j]) by {
            assert(t[j] == y[j]);
        }
        lemma_trim_start_is(t, b);
        let u = y.skip(a);
        assert forall|j: int| 0 <= j < u.len() implies is_ws(#[trigger] u[j]) by {
            assert(u[j] == y[j + a]);
        }
        lemma_trim_end_is(u, 0);
        assert(t.skip(b) =~= u.take(0));
    } else {
        let t = y.take(b);
        assert forall|j: int| 0 <= j < a implies is_ws(#[trigger] t[j]) by {
            assert(t[j] == y[j]);
        }
        assert(t[a] == y[a]);
        lemma_trim_start_is(t, a);
        let u = y.skip(a);
        assert forall|j: int| b - a <= j < u.len() implies is_ws(#[trigger] u[j]) by {
            assert(u[j] == y[j + a]);
        }
        assert(u[b - a - 1] == y[b - 1]);
        lemma_trim_end_is(u, b - a);
        assert(t.skip(a) =~= u.take(b - a));
    }
}

/// Trimming the end twice trims it once.
pub proof fn lemma_trim_end_idem(y: Seq<char>)
    ensures
        trim_end(trim_end(y)) == trim_end(y),
{
    lemma_trim_end_at(y);
    let b = choose|b: int|
        0 <= b <= y.len() && trim_end(y) == y.take(b) && (forall|j: int| b <= j < y.len() ==> is_ws(#[trigger] y[j])) && (b
            == 0 || !is_ws(y[b - 1]));
    let t = y.take(b);
    if b > 0 {
        assert(t[b - 1] == y[b - 1]);
    }
    lemma_trim_end_is(t, b);
    assert(t.take(b) =~= t);
}

/// Trimming after trimming the end is trimming.
pub proof fn lemma_trim_of_trim_end(y: Seq<char>)
    ensures
        trim(trim_end(y)) == trim(y),
{
    lemma_trim_commute(y);
    lemma_trim_end_idem(trim_start(y));
}

/// A prefix ending in a non-space character survives `trim_end` whole.
pub proof fn lemma_trim_end_concat(p: Seq<char>, x: Seq<char>)
    requires
        p.len() > 0,
        !is_ws(p.last()),
    ensures
        trim_end(p + x) == p + trim_end(x),
    decreases x.len(),
{
    if x.len() == 0 {
        assert(p + x =~= p);
        assert(p + trim_end(x) =~= p);
    } else if is_ws(x.last()) {
        assert((p + x).drop_last() =~= p + x.drop_last());
        lemma_trim_end_concat(p, x.drop_last());
    } else {
        assert((p + x).last() == x.last());
    }
}

} // verus!

verus! {

// ---------------------------------------------------------------------------
// ASCII lower-casing keeps the shape of a string
// ---------------------------------------------------------------------------

/// Lower-casing keeps whitespace, digits and `+`, and is idempotent.
pub proof fn lemma_ascii_lower_char(c: char)
    ensures
        is_ws(ascii_lower(c)) == is_ws(c),
        is_ascii_digit(ascii_lower(c)) == is_ascii_digit(c),
        is_ascii_digit(c) ==> ascii_lower(c) == c,
        (ascii_lower(c) == '+') == (c == '+'),
        (ascii_lower(c) == 'f') == (c == 'F' || c == 'f'),
        ascii_lower(ascii_lower(c)) == ascii_lower(c),
{
    if is_ascii_upper(c) {
        let d = ((c as u32) + 32) as char;
        assert(97 <= (d as u32) <= 122);
    }
}

/// Lower-casing a whole string is idempotent.
pub proof fn lemma_ascii_lower_seq_idem(s: Seq<char>)
    ensures
        ascii_lower_seq(ascii_lower_seq(s)) == ascii_lower_seq(s),
{
    assert forall|i: int| 0 <= i < s.len() implies #[trigger] ascii_lower_seq(ascii_lower_seq(s))[i]
        == ascii_lower_seq(s)[i] by {
        lemma_ascii_lower_char(s[i]);
    }
    assert(ascii_lower_seq(ascii_lower_seq(s)) =~= ascii_lower_seq(s));
}

/// Comparing without case is the same for a string and its lower-cased
/// form.
pub proof fn lemma_eq_ignore_case_lower(s: Seq<char>, lit: Seq<char>)
    ensures
        eq_ignore_ascii_case(ascii_lower_seq(s), lit) == eq_ignore_ascii_case(s, lit),
{
    lemma_ascii_lower_seq_idem(s);
}

/// Trimming commutes with lower-casing.
pub proof fn lemma_trim_ascii_lower(s: Seq<char>)
    ensures
        trim_start(ascii_lower_seq(s)) == ascii_lower_seq(trim_start(s)),
        trim_end(ascii_lower_seq(s)) == ascii_lower_seq(trim_end(s)),
        trim(ascii_lower_seq(s)) == ascii_lower_seq(trim(s)),
    decreases s.len(),
{
    if s.len() > 0 {
        lemma_ascii_lower_char(s[0]);
        lemma_ascii_lower_char(s.last());
        assert(ascii_lower_seq(s).drop_first() =~= ascii_lower_seq(s.drop_first()));
        assert(ascii_lower_seq(s).drop_last() =~= ascii_lower_seq(s.drop_last()));
        lemma_trim_ascii_lower(s.drop_first());
        lemma_trim_ascii_lower(s.drop_last());
    } else {
        assert(ascii_lower_seq(s) =~= s);
    }
    lemma_trim_ascii_lower_start_end(s);
}

proof fn lemma_trim_ascii_lower_start_end(s: Seq<char>)
    requires
        trim_start(ascii_lower_seq(s)) == ascii_lower_seq(trim_start(s)),
    ensures
        trim(ascii_lower_seq(s)) == ascii_lower_seq(trim(s)),
    decreases trim_start(s).len(),
{
    lemma_trim_end_ascii_lower(trim_start(s));
}

proof fn lemma_trim_end_ascii_lower(s: Seq<char>)
    ensures
        trim_end(ascii_lower_seq(s)) == ascii_lower_seq(trim_end(s)),
    decreases s.len(),
{
    if s.len() > 0 {
        lemma_ascii_lower_char(s.last());
        assert(ascii_lower_seq(s).drop_last() =~= ascii_lower_seq(s.drop_last()));
        lemma_trim_end_ascii_lower(s.drop_last());
    } else {
        assert(ascii_lower_seq(s) =~= s);
    }
}

/// Splitting at `+` commutes with lower-casing.
pub proof fn lemma_split_plus_ascii_lower(s: Seq<char>)
    ensures
        split_char(ascii_lower_seq(s), '+') == split_char(s, '+').map_values(|p: Seq<char>| ascii_lower_seq(p)),
    decreases s.len(),
{
    lemma_first_of_ascii_lower(s);
    let k = first_of(s, '+');
    if k < 0 {
        assert(split_char(s, '+').map_values(|p: Seq<char>| ascii_lower_seq(p)) =~= seq![ascii_lower_seq(s)]);
    } else {
        lemma_first_of_bound(s, '+');
        assert(ascii_lower_seq(s).take(k) =~= ascii_lower_seq(s.take(k)));
        assert(ascii_lower_seq(s).skip(k + 1) =~= ascii_lower_seq(s.skip(k + 1)));
        lemma_split_plus_ascii_lower(s.skip(k + 1));
        let rest = split_char(s.skip(k + 1), '+');
        assert(split_char(s, '+') == seq![s.take(k)] + rest);
        assert((seq![s.take(k)] + rest).map_values(|p: Seq<char>| ascii_lower_seq(p)) =~= seq![
            ascii_lower_seq(s.take(k)),
        ] + rest.map_values(|p: Seq<char>| ascii_lower_seq(p)));
    }
}

proof fn lemma_first_of_ascii_lower(s: Seq<char>)
    ensures
        first_of(ascii_lower_seq(s), '+') == first_of(s, '+'),
    decreases s.len(),
{
    if s.len() > 0 {
        lemma_ascii_lower_char(s[0]);
        assert(ascii_lower_seq(s).drop_first() =~= ascii_lower_seq(s.drop_first()));
        lemma_first_of_ascii_lower(s.drop_first());
    }
}

/// Reading a number does not see case.
pub proof fn lemma_parse_usize_ascii_lower(s: Seq<char>)
    ensures
        parse_usize_spec(ascii_lower_seq(s)) == parse_usize_spec(s),
{
    let l = ascii_lower_seq(s);
    if s.len() > 0 {
        lemma_ascii_lower_char(s[0]);
    }
    let body = if s.len() > 0 && s[0] == '+' {
        s.drop_first()
    } else {
        s
    };
    let lbody = if l.len() > 0 && l[0] == '+' {
        l.drop_first()
    } else {
        l
    };
    assert(lbody =~= ascii_lower_seq(body));
    assert forall|i: int| 0 <= i < body.len() implies #[trigger] is_ascii_digit(lbody[i]) == is_ascii_digit(body[i]) by {
        lemma_ascii_lower_char(body[i]);
    }
    if all_digits(body) {
        assert forall|i: int| 0 <= i < body.len() implies #[trigger] lbody[i] == body[i] by {
            lemma_ascii_lower_char(body[i]);
        }
        assert(lbody =~= body);
    } else {
        let i = choose|i: int| 0 <= i < body.len() && !is_ascii_digit(#[trigger] body[i]);
        assert(!is_ascii_digit(lbody[i]));
    }
}

} // verus!
