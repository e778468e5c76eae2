//! Character-sequence utilities shared by the parsers and renderers.
//!
//! Strings are handled as `Vec<char>` internally; every operation is
//! specified over `Seq<char>`, the view of `str` and `String`.
use vstd::prelude::*;

verus! {

// ---------------------------------------------------------------------
// Character classes
// ---------------------------------------------------------------------
/// ASCII decimal digit.
pub open spec fn is_digit(c: char) -> bool {
    '0' <= c && c <= '9'
}

/// The value of an ASCII decimal digit.
pub open spec fn digit_value(c: char) -> int {
    (c as int) - ('0' as int)
}

/// Unicode `White_Space`, the class that `char::is_whitespace` tests.
pub open spec fn is_ws(c: char) -> bool {
    ||| ('\u{9}' <= c && c <= '\u{d}')
    ||| c == ' '
    ||| c == '\u{85}'
    ||| c == '\u{a0}'
    ||| c == '\u{1680}'
    ||| ('\u{2000}' <= c && c <= '\u{200a}')
    ||| c == '\u{2028}'
    ||| c == '\u{2029}'
    ||| c == '\u{202f}'
    ||| c == '\u{205f}'
    ||| c == '\u{3000}'
}

pub fn is_digit_char(c: char) -> (r: bool)
    ensures
        r == is_digit(c),
{
    '0' <= c && c <= '9'
}

pub fn is_ws_char(c: char) -> (r: bool)
    ensures
        r == is_ws(c),
{
    ('\u{9}' <= c && c <= '\u{d}') || c == ' ' || c == '\u{85}' || c == '\u{a0}' || c
        == '\u{1680}' || ('\u{2000}' <= c && c <= '\u{200a}') || c == '\u{2028}' || c
        == '\u{2029}' || c == '\u{202f}' || c == '\u{205f}' || c == '\u{3000}'
}

/// ASCII lowercase of one character, as `char::to_ascii_lowercase`.
pub open spec fn lower_char(c: char) -> char {
    if 'A' <= c && c <= 'Z' {
        ((c as int) + 32) as char
    } else {
        c
    }
}

pub fn lower_char_exec(c: char) -> (r: char)
    ensures
        r == lower_char(c),
{
    if 'A' <= c && c <= 'Z' {
        let code: u32 = c as u32 + 32;
        assert(code <= 0x7f);
        char_from_ascii(code)
    } else {
        c
    }
}

/// The character of an ASCII code point.
pub fn char_from_ascii(code: u32) -> (c: char)
    requires
        code <= 0x7f,
    ensures
        c as int == code as int,
{
    let b: u8 = code as u8;
    b as char
}

/// The ASCII digit for a value below ten.
pub open spec fn digit_char(d: int) -> char {
    (d + ('0' as int)) as char
}

pub fn digit_char_exec(d: u64) -> (c: char)
    requires
        d < 10,
    ensures
        c == digit_char(d as int),
{
    let code: u32 = d as u32 + 48;
    char_from_ascii(code)
}

// ---------------------------------------------------------------------
// Conversions between `str`/`String` and `Vec<char>`
// ---------------------------------------------------------------------
/// The characters of a string slice, in order.
pub fn chars_of(s: &str) -> (res: Vec<char>)
    ensures
        res@ == s@,
{
    let mut v: Vec<char> = Vec::new();
    for c in it: s.chars()
        invariant
            v@ == it.seq().take(it.index() as int),
    {
        v.push(c);
    }
    v
}

/// Appends one character to a `String`.
#[verifier::external_body]
pub(crate) fn push_char(s: &mut String, c: char)
    ensures
        final(s)@ == old(s)@.push(c),
{
    s.push(c);
}

/// The string made of the given characters.
pub fn string_of(v: &[char]) -> (res: String)
    ensures
        res@ == v@,
{
    let mut s = String::new();
    let mut i: usize = 0;
    while i < v.len()
        invariant
            i <= v.len(),
            s@ == v@.take(i as int),
        decreases v.len() - i,
    {
        push_char(&mut s, v[i]);
        i = i + 1;
        assert(s@ =~= v@.take(i as int));
    }
    assert(v@.take(v.len() as int) =~= v@);
    s
}

/// A copy of a string slice as an owned `String`.
pub fn owned(s: &str) -> (res: String)
    ensures
        res@ == s@,
{
    s.to_string()
}

/// Appends characters to a vector.
pub fn push_all(out: &mut Vec<char>, extra: &[char])
    ensures
        final(out)@ == old(out)@ + extra@,
{
    let mut i: usize = 0;
    while i < extra.len()
        invariant
            i <= extra.len(),
            out@ == old(out)@ + extra@.take(i as int),
        decreases extra.len() - i,
    {
        out.push(extra[i]);
        i = i + 1;
        assert(out@ =~= old(out)@ + extra@.take(i as int));
    }
    assert(extra@.take(extra.len() as int) =~= extra@);
}

/// Appends the characters of a string slice to a vector.
pub fn push_str(out: &mut Vec<char>, extra: &str)
    ensures
        final(out)@ == old(out)@ + extra@,
{
    let e = chars_of(extra);
    push_all(out, e.as_slice());
}

/// The characters `v[from..to]`.
pub fn slice_chars(v: &[char], from: usize, to: usize) -> (res: Vec<char>)
    requires
        from <= to <= v.len(),
    ensures
        res@ == v@.subrange(from as int, to as int),
{
    let mut out: Vec<char> = Vec::new();
    let mut i = from;
    while i < to
        invariant
            from <= i <= to <= v.len(),
            out@ == v@.subrange(from as int, i as int),
        decreases to - i,
    {
        out.push(v[i]);
        i = i + 1;
        assert(out@ =~= v@.subrange(from as int, i as int));
    }
    out
}

/// Whether two character sequences are equal.
pub fn chars_eq(a: &[char], b: &[char]) -> (r: bool)
    ensures
        r == (a@ == b@),
{
    if a.len() != b.len() {
        return false;
    }
    let mut i: usize = 0;
    while i < a.len()
        invariant
            a.len() == b.len(),
            i <= a.len(),
            forall|j: int| 0 <= j < i ==> a@[j] == b@[j],
        decreases a.len() - i,
    {
        if a[i] != b[i] {
            return false;
        }
        i = i + 1;
    }
    assert(a@ =~= b@);
    true
}

/// Whether a string slice equals a character sequence.
pub fn str_eq(a: &str, b: &str) -> (r: bool)
    ensures
        r == (a@ == b@),
{
    let av = chars_of(a);
    let bv = chars_of(b);
    chars_eq(av.as_slice(), bv.as_slice())
}

// ---------------------------------------------------------------------
// Matching and searching
// ---------------------------------------------------------------------
/// `pat` occurs in `s` at position `i`.
pub open spec fn matches_at(s: Seq<char>, i: int, pat: Seq<char>) -> bool {
    0 <= i && i + pat.len() <= s.len() && s.subrange(i, i + pat.len()) == pat
}

/// `pat` occurs somewhere in `s` (as `str::contains`).
pub open spec fn contains(s: Seq<char>, pat: Seq<char>) -> bool {
    exists|i: int| matches_at(s, i, pat)
}

/// `s` begins with `pat`.
pub open spec fn starts_with(s: Seq<char>, pat: Seq<char>) -> bool {
    matches_at(s, 0, pat)
}

/// `s` ends with `pat`.
pub open spec fn ends_with(s: Seq<char>, pat: Seq<char>) -> bool {
    pat.len() <= s.len() && matches_at(s, s.len() - pat.len(), pat)
}

/// `k` is the first position at or after `from` where `pat` occurs.
pub open spec fn is_first_match_from(s: Seq<char>, pat: Seq<char>, from: int, k: int) -> bool {
    &&& from <= k
    &&& matches_at(s, k, pat)
    &&& forall|j: int| from <= j < k ==> !#[trigger] matches_at(s, j, pat)
}

/// The first position at or after `from` where `pat` occurs (as `str::find`
/// on `s[from..]`, counted in characters from the start of `s`).
pub open spec fn find_from(s: Seq<char>, pat: Seq<char>, from: int) -> Option<int> {
    if exists|k: int| is_first_match_from(s, pat, from, k) {
        Some(choose|k: int| is_first_match_from(s, pat, from, k))
    } else {
        None
    }
}

/// The first position where `pat` occurs in `s`.
pub open spec fn find(s: Seq<char>, pat: Seq<char>) -> Option<int> {
    find_from(s, pat, 0)
}

pub proof fn lemma_first_match_unique(s: Seq<char>, pat: Seq<char>, from: int, k: int)
    requires
        is_first_match_from(s, pat, from, k),
    ensures
        find_from(s, pat, from) == Some(k),
{
    let c = choose|x: int| is_first_match_from(s, pat, from, x);
    assert(is_first_match_from(s, pat, from, c));
    if c < k {
        assert(!matches_at(s, c, pat));
    }
    if k < c {
        assert(!matches_at(s, k, pat));
    }
}

pub proof fn lemma_no_match_from(s: Seq<char>, pat: Seq<char>, from: int)
    requires
        forall|j: int| from <= j ==> !#[trigger] matches_at(s, j, pat),
    ensures
        find_from(s, pat, from) is None,
{
    if exists|k: int| is_first_match_from(s, pat, from, k) {
        let k = choose|k: int| is_first_match_from(s, pat, from, k);
        assert(matches_at(s, k, pat));
    }
}

/// Whether `pat` occurs in `s` at position `i`.
pub fn matches_at_exec(s: &[char], i: usize, pat: &[char]) -> (r: bool)
    ensures
        r == matches_at(s@, i as int, pat@),
{
    if i > s.len() || s.len() - i < pat.len() {
        return false;
    }
    let mut j: usize = 0;
    while j < pat.len()
        invariant
            i + pat.len() <= s.len(),
            j <= pat.len(),
            forall|t: int| 0 <= t < j ==> s@[i + t] == pat@[t],
        decreases pat.len() - j,
    {
        if s[i + j] != pat[j] {
            assert(s@.subrange(i as int, i + pat.len())[j as int] != pat@[j as int]);
            return false;
        }
        j = j + 1;
    }
    assert(s@.subrange(i as int, i + pat.len()) =~= pat@);
    true
}

/// The first position at or after `from` where `pat` occurs.
pub fn find_from_exec(s: &[char], pat: &[char], from: usize) -> (r: Option<usize>)
    ensures
        match r {
            Some(k) => find_from(s@, pat@, from as int) == Some(k as int),
            None => find_from(s@, pat@, from as int) is None,
        },
{
    if pat.len() == 0 {
        if from <= s.len() {
            proof {
                assert(s@.subrange(from as int, from as int) =~= pat@);
                lemma_first_match_unique(s@, pat@, from as int, from as int);
            }
            return Some(from);
        } else {
            proof {
                lemma_no_match_from(s@, pat@, from as int);
            }
            return None;
        }
    }
    let mut i = from;
    while i < s.len()
        invariant
            from <= i,
            pat.len() > 0,
            forall|j: int| from <= j < i ==> !#[trigger] matches_at(s@, j, pat@),
        decreases s.len() - i,
    {
        if matches_at_exec(s, i, pat) {
            proof {
                lemma_first_match_unique(s@, pat@, from as int, i as int);
            }
            return Some(i);
        }
        i = i + 1;
    }
    proof {
        assert forall|j: int| from <= j implies !#[trigger] matches_at(s@, j, pat@) by {
            if j >= i {
                assert(j + pat@.len() > s@.len());
            }
        }
        lemma_no_match_from(s@, pat@, from as int);
    }
    None
}

/// The first position where `pat` occurs in `s`.
pub fn find_exec(s: &[char], pat: &[char]) -> (r: Option<usize>)
    ensures
        match r {
            Some(k) => find(s@, pat@) == Some(k as int),
            None => find(s@, pat@) is None,
        },
{
    find_from_exec(s, pat, 0)
}

pub proof fn lemma_find_contains(s: Seq<char>, pat: Seq<char>)
    ensures
        find(s, pat) is Some <==> contains(s, pat),
        find(s, pat) matches Some(k) ==> matches_at(s, k, pat),
{
    if contains(s, pat) {
        let i = choose|i: int| matches_at(s, i, pat);
        if find(s, pat) is None {
            // no first match exists, but a match does; take the least one
            lemma_least_match(s, pat, i);
        }
    }
    if let Some(k) = find(s, pat) {
        assert(is_first_match_from(s, pat, 0, k));
    }
}

proof fn lemma_least_match(s: Seq<char>, pat: Seq<char>, i: int)
    requires
        matches_at(s, i, pat),
    ensures
        exists|k: int| is_first_match_from(s, pat, 0, k),
    decreases i,
{
    if forall|j: int| 0 <= j < i ==> !#[trigger] matches_at(s, j, pat) {
        assert(is_first_match_from(s, pat, 0, i));
    } else {
        let j = choose|j: int| 0 <= j < i && #[trigger] matches_at(s, j, pat);
        lemma_least_match(s, pat, j);
    }
}

/// Whether `pat` occurs in `s`.
pub fn contains_exec(s: &[char], pat: &[char]) -> (r: bool)
    ensures
        r == contains(s@, pat@),
{
    let f = find_exec(s, pat);
    proof {
        lemma_find_contains(s@, pat@);
    }
    f.is_some()
}

/// Whether the string slice `s` contains `pat`.
pub fn str_contains(s: &str, pat: &str) -> (r: bool)
    ensures
        r == contains(s@, pat@),
{
    let sv = chars_of(s);
    let pv = chars_of(pat);
    contains_exec(sv.as_slice(), pv.as_slice())
}

/// Whether the string slice `s` begins with `pat`.
pub fn str_starts_with(s: &str, pat: &str) -> (r: bool)
    ensures
        r == starts_with(s@, pat@),
{
    let sv = chars_of(s);
    let pv = chars_of(pat);
    matches_at_exec(sv.as_slice(), 0, pv.as_slice())
}

/// Whether `s` ends with `pat`.
pub fn ends_with_exec(s: &[char], pat: &[char]) -> (r: bool)
    ensures
        r == ends_with(s@, pat@),
{
    if pat.len() > s.len() {
        false
    } else {
        matches_at_exec(s, s.len() - pat.len(), pat)
    }
}

/// The first position of character `c` at or after `from`.
pub fn find_char_from(s: &[char], c: char, from: usize) -> (r: Option<usize>)
    ensures
        match r {
            Some(k) => find_from(s@, seq![c], from as int) == Some(k as int),
            None => find_from(s@, seq![c], from as int) is None,
        },
{
    let pat = vec![c];
    proof {
        assert(pat@ =~= seq![c]);
    }
    find_from_exec(s, pat.as_slice(), from)
}

pub proof fn lemma_single_char_match(s: Seq<char>, i: int, c: char)
    ensures
        matches_at(s, i, seq![c]) <==> (0 <= i < s.len() && s[i] == c),
{
    if 0 <= i < s.len() && s[i] == c {
        assert(s.subrange(i, i + 1) =~= seq![c]);
    }
    if matches_at(s, i, seq![c]) {
        assert(s.subrange(i, i + 1)[0] == c);
    }
}

// ---------------------------------------------------------------------
// Trimming
// ---------------------------------------------------------------------
/// `s` without leading whitespace.
pub open spec fn trim_start(s: Seq<char>) -> Seq<char>
    decreases s.len(),
{
    if s.len() > 0 && is_ws(s[0]) {
        trim_start(s.drop_first())
    } else {
        s
    }
}

/// `s` without trailing whitespace.
pub open spec fn trim_end(s: Seq<char>) -> Seq<char>
    decreases s.len(),
{
    if s.len() > 0 && is_ws(s.last()) {
        trim_end(s.drop_last())
    } else {
        s
    }
}

/// `s` without leading and trailing whitespace (as `str::trim`).
pub open spec fn trim(s: Seq<char>) -> Seq<char> {
    trim_end(trim_start(s))
}

proof fn lemma_trim_start_skip(s: Seq<char>, i: int)
    requires
        0 <= i <= s.len(),
        forall|j: int| 0 <= j < i ==> is_ws(#[trigger] s[j]),
    ensures
        trim_start(s) == trim_start(s.skip(i)),
    decreases i,
{
    if i > 0 {
        assert(s.drop_first().skip(i - 1) =~= s.skip(i));
        assert forall|j: int| 0 <= j < i - 1 implies is_ws(#[trigger] s.drop_first()[j]) by {
            assert(s.drop_first()[j] == s[j + 1]);
        }
        lemma_trim_start_skip(s.drop_first(), i - 1);
    } else {
        assert(s.skip(0) =~= s);
    }
}

proof fn lemma_trim_end_take(s: Seq<char>, i: int)
    requires
        0 <= i <= s.len(),
        forall|j: int| i <= j < s.len() ==> is_ws(#[trigger] s[j]),
    ensures
        trim_end(s) == trim_end(s.take(i)),
    decreases s.len() - i,
{
    if i < s.len() {
        assert(s.drop_last().take(i) =~= s.take(i));
        assert forall|j: int| i <= j < s.drop_last().len() implies is_ws(
            #[trigger] s.drop_last()[j],
        ) by {
            assert(s.drop_last()[j] == s[j]);
        }
        lemma_trim_end_take(s.drop_last(), i);
    } else {
        assert(s.take(i) =~= s);
    }
}

/// `s` without leading and trailing whitespace.
pub fn trim_chars(s: &[char]) -> (r: Vec<char>)
    ensures
        r@ == trim(s@),
{
    let mut a: usize = 0;
    while a < s.len() && is_ws_char(s[a])
        invariant
            a <= s.len(),
            forall|j: int| 0 <= j < a ==> is_ws(#[trigger] s@[j]),
        decreases s.len() - a,
    {
        a = a + 1;
    }
    proof {
        lemma_trim_start_skip(s@, a as int);
    }
    let ghost t = s@.skip(a as int);
    assert(trim_start(t) == t);
    let mut b: usize = s.len();
    while b > a && is_ws_char(s[b - 1])
        invariant
            a <= b <= s.len(),
            forall|j: int| b <= j < s.len() ==> is_ws(#[trigger] s@[j]),
        decreases b,
    {
        b = b - 1;
    }
    proof {
        assert forall|j: int| (b - a) <= j < t.len() implies is_ws(#[trigger] t[j]) by {
            assert(t[j] == s@[j + a]);
        }
        lemma_trim_end_take(t, (b - a) as int);
        let u = t.take((b - a) as int);
        if u.len() > 0 {
            assert(u.last() == s@[b - 1]);
        }
        assert(trim_end(u) == u);
        assert(u =~= s@.subrange(a as int, b as int));
    }
    slice_chars(s, a, b)
}

/// The trimmed characters of a string slice.
pub fn trim_str(s: &str) -> (r: Vec<char>)
    ensures
        r@ == trim(s@),
{
    let v = chars_of(s);
    trim_chars(v.as_slice())
}

// ---------------------------------------------------------------------
// Case mapping
// ---------------------------------------------------------------------
/// ASCII lowercase of a sequence (as `str::to_ascii_lowercase`).
pub open spec fn lower(s: Seq<char>) -> Seq<char> {
    s.map_values(|c: char| lower_char(c))
}

pub fn lower_chars(s: &[char]) -> (r: Vec<char>)
    ensures
        r@ == lower(s@),
{
    let mut out: Vec<char> = Vec::new();
    let mut i: usize = 0;
    while i < s.len()
        invariant
            i <= s.len(),
            out@ == lower(s@.take(i as int)),
        decreases s.len() - i,
    {
        let c = lower_char_exec(s[i]);
        out.push(c);
        i = i + 1;
        assert(out@ =~= lower(s@.take(i as int)));
    }
    assert(s@.take(s.len() as int) =~= s@);
    out
}

// ---------------------------------------------------------------------
// Replacement
// ---------------------------------------------------------------------
/// Every non-overlapping occurrence of `pat`, scanning from the left,
/// replaced by `rep` (as `str::replace` with a non-empty pattern).
pub open spec fn replace_all(s: Seq<char>, pat: Seq<char>, rep: Seq<char>) -> Seq<char>
    decreases s.len(),
{
    if pat.len() == 0 || s.len() == 0 {
        s
    } else if starts_with(s, pat) {
        rep + replace_all(s.skip(pat.len() as int), pat, rep)
    } else {
        seq![s[0]] + replace_all(s.drop_first(), pat, rep)
    }
}

pub fn replace_chars(s: &[char], pat: &[char], rep: &[char]) -> (r: Vec<char>)
    requires
        pat.len() > 0,
    ensures
        r@ == replace_all(s@, pat@, rep@),
{
    let mut out: Vec<char> = Vec::new();
    let mut i: usize = 0;
    proof {
        assert(s@.skip(0) =~= s@);
    }
    while i < s.len()
        invariant
            pat.len() > 0,
            i <= s.len(),
            out@ + replace_all(s@.skip(i as int), pat@, rep@) == replace_all(s@, pat@, rep@),
        decreases s.len() - i,
    {
        let ghost rest = s@.skip(i as int);
        if matches_at_exec(s, i, pat) {
            proof {
                assert(rest.subrange(0, pat@.len() as int) =~= s@.subrange(
                    i as int,
                    i + pat@.len(),
                ));
                assert(starts_with(rest, pat@));
                assert(rest.skip(pat@.len() as int) =~= s@.skip(i + pat@.len()));
            }
            push_all(&mut out, rep);
            i = i + pat.len();
            assert(out@ + replace_all(s@.skip(i as int), pat@, rep@) =~= replace_all(
                s@,
                pat@,
                rep@,
            ));
        } else {
            proof {
                if starts_with(rest, pat@) {
                    assert(rest.subrange(0, pat@.len() as int) =~= s@.subrange(
                        i as int,
                        i + pat@.len(),
                    ));
                }
                assert(rest.drop_first() =~= s@.skip(i + 1));
                assert(rest[0] == s@[i as int]);
            }
            out.push(s[i]);
            i = i + 1;
            assert(out@ + replace_all(s@.skip(i as int), pat@, rep@) =~= replace_all(
                s@,
                pat@,
                rep@,
            ));
        }
    }
    proof {
        assert(s@.skip(i as int).len() == 0);
        assert(out@ + s@.skip(i as int) =~= out@);
    }
    out
}

/// `replace_chars` with string-slice pattern and replacement.
pub fn replace_str(s: &[char], pat: &str, rep: &str) -> (r: Vec<char>)
    requires
        pat@.len() > 0,
    ensures
        r@ == replace_all(s@, pat@, rep@),
{
    let p = chars_of(pat);
    let q = chars_of(rep);
    replace_chars(s, p.as_slice(), q.as_slice())
}

// ---------------------------------------------------------------------
// Decimal numbers
// ---------------------------------------------------------------------
/// Every character of `s` is an ASCII digit.
pub open spec fn all_digits(s: Seq<char>) -> bool {
    forall|i: int| 0 <= i < s.len() ==> is_digit(#[trigger] s[i])
}

/// The value of a run of decimal digits.
pub open spec fn digits_value(s: Seq<char>) -> int
    decreases s.len(),
{
    if s.len() == 0 {
        0
    } else {
        digits_value(s.drop_last()) * 10 + digit_value(s.last())
    }
}

/// The unsigned decimal number that `s` spells as `u32::from_str`/
/// `u64::from_str` read it: an optional `+`, then one or more digits.
pub open spec fn unsigned_digits(s: Seq<char>) -> Option<Seq<char>> {
    let d = if s.len() > 0 && s[0] == '+' {
        s.drop_first()
    } else {
        s
    };
    if d.len() > 0 && all_digits(d) {
        Some(d)
    } else {
        None
    }
}

/// `s` parsed as a `u32` (as `str::parse::<u32>`).
pub open spec fn parse_u32_spec(s: Seq<char>) -> Option<u32> {
    match unsigned_digits(s) {
        Some(d) => if digits_value(d) <= u32::MAX {
            Some(digits_value(d) as u32)
        } else {
            None
        },
        None => None,
    }
}

/// `s` parsed as a `u64` (as `str::parse::<u64>`).
pub open spec fn parse_u64_spec(s: Seq<char>) -> Option<u64> {
    match unsigned_digits(s) {
        Some(d) => if digits_value(d) <= u64::MAX {
            Some(digits_value(d) as u64)
        } else {
            None
        },
        None => None,
    }
}

/// `s` parsed as an `i32` (as `str::parse::<i32>`): an optional sign, then
/// one or more digits.
pub open spec fn parse_i32_spec(s: Seq<char>) -> Option<i32> {
    if s.len() > 0 && s[0] == '-' {
        let d = s.drop_first();
        if d.len() > 0 && all_digits(d) && -digits_value(d) >= i32::MIN {
            Some((-digits_value(d)) as i32)
        } else {
            None
        }
    } else {
        match unsigned_digits(s) {
            Some(d) => if digits_value(d) <= i32::MAX {
                Some(digits_value(d) as i32)
            } else {
                None
            },
            None => None,
        }
    }
}

pub proof fn lemma_digits_value_nonneg(s: Seq<char>)
    requires
        all_digits(s),
    ensures
        digits_value(s) >= 0,
    decreases s.len(),
{
    if s.len() > 0 {
        assert(is_digit(s[s.len() - 1]));
        lemma_digits_value_nonneg(s.drop_last());
    }
}

pub proof fn lemma_digits_value_mono(s: Seq<char>, k: int)
    requires
        all_digits(s),
        0 <= k <= s.len(),
    ensures
        digits_value(s.take(k)) <= digits_value(s),
    decreases s.len() - k,
{
    if k < s.len() {
        assert(s.take(k) =~= s.drop_last().take(k));
        lemma_digits_value_mono(s.drop_last(), k);
        lemma_digits_value_nonneg(s.drop_last());
        assert(is_digit(s[s.len() - 1]));
    } else {
        assert(s.take(k) =~= s);
    }
}

/// The value of a run of digits, or `None` when it exceeds `limit`.
pub fn digits_value_bounded(d: &[char], limit: u64) -> (r: Option<u64>)
    requires
        all_digits(d@),
        limit >= 9,
    ensures
        match r {
            Some(v) => v as int == digits_value(d@) && v <= limit,
            None => digits_value(d@) > limit,
        },
{
    let mut acc: u64 = 0;
    let mut i: usize = 0;
    while i < d.len()
        invariant
            all_digits(d@),
            i <= d.len(),
            acc as int == digits_value(d@.take(i as int)),
            acc <= limit,
            limit >= 9,
        decreases d.len() - i,
    {
        proof {
            assert(d@.take(i + 1).drop_last() =~= d@.take(i as int));
            assert(is_digit(d@[i as int]));
        }
        let cu: u32 = d[i] as u32;
        assert(48 <= cu <= 57);
        let dv: u64 = (cu - 48) as u64;
        if acc > (limit - dv) / 10 {
            proof {
                assert(digits_value(d@.take(i + 1)) == acc * 10 + dv);
                lemma_digits_value_mono(d@, i + 1);
            }
            return None;
        }
        acc = acc * 10 + dv;
        i = i + 1;
    }
    assert(d@.take(d.len() as int) =~= d@);
    Some(acc)
}

/// Whether every character is an ASCII digit.
pub fn all_digits_exec(s: &[char]) -> (r: bool)
    ensures
        r == all_digits(s@),
{
    let mut i: usize = 0;
    while i < s.len()
        invariant
            i <= s.len(),
            forall|j: int| 0 <= j < i ==> is_digit(#[trigger] s@[j]),
        decreases s.len() - i,
    {
        if !is_digit_char(s[i]) {
            return false;
        }
        i = i + 1;
    }
    true
}

fn unsigned_digits_exec(s: &[char]) -> (r: Option<Vec<char>>)
    ensures
        match r {
            Some(d) => unsigned_digits(s@) == Some(d@),
            None => unsigned_digits(s@) is None,
        },
{
    let d = if s.len() > 0 && s[0] == '+' {
        slice_chars(s, 1, s.len())
    } else {
        slice_chars(s, 0, s.len())
    };
    proof {
        assert(s@.subrange(0, s@.len() as int) =~= s@);
        assert(s@.subrange(1, s@.len() as int) =~= s@.drop_first());
    }
    if d.len() > 0 && all_digits_exec(d.as_slice()) {
        Some(d)
    } else {
        None
    }
}

/// `str::parse::<u32>`.
pub fn parse_u32(s: &[char]) -> (r: Option<u32>)
    ensures
        r == parse_u32_spec(s@),
{
    match unsigned_digits_exec(s) {
        Some(d) => match digits_value_bounded(d.as_slice(), 0xffff_ffff) {
            Some(v) => Some(v as u32),
            None => None,
        },
        None => None,
    }
}

/// `str::parse::<u64>`.
pub fn parse_u64(s: &[char]) -> (r: Option<u64>)
    ensures
        r == parse_u64_spec(s@),
{
    match unsigned_digits_exec(s) {
        Some(d) => digits_value_bounded(d.as_slice(), 0xffff_ffff_ffff_ffff),
        None => None,
    }
}

/// `str::parse::<i32>`.
pub fn parse_i32(s: &[char]) -> (r: Option<i32>)
    ensures
        r == parse_i32_spec(s@),
{
    if s.len() > 0 && s[0] == '-' {
        let d = slice_chars(s, 1, s.len());
        assert(d@ =~= s@.drop_first());
        if d.len() > 0 && all_digits_exec(d.as_slice()) {
            match digits_value_bounded(d.as_slice(), 0x8000_0000) {
                Some(v) => {
                    let n: i64 = 0 - (v as i64);
                    Some(n as i32)
                },
                None => None,
            }
        } else {
            None
        }
    } else {
        match unsigned_digits_exec(s) {
            Some(d) => match digits_value_bounded(d.as_slice(), 0x7fff_ffff) {
                Some(v) => Some(v as i32),
                None => None,
            },
            None => None,
        }
    }
}

/// The decimal digits of `n`, without leading zeros.
pub open spec fn dec(n: nat) -> Seq<char>
    decreases n,
{
    if n < 10 {
        seq![digit_char(n as int)]
    } else {
        dec(n / 10) + seq![digit_char((n % 10) as int)]
    }
}

/// `s` preceded by zeros up to `width` characters.
pub open spec fn zero_pad(s: Seq<char>, width: nat) -> Seq<char> {
    if s.len() >= width {
        s
    } else {
        Seq::new((width - s.len()) as nat, |i: int| '0') + s
    }
}

/// `format!("{:0w$}", n)` for a non-negative integer.
pub open spec fn padded(n: nat, width: nat) -> Seq<char> {
    zero_pad(dec(n), width)
}

/// `format!("{:0w$}", n)` for a signed integer: the sign counts toward
/// the width.
pub open spec fn padded_signed(n: int, width: nat) -> Seq<char> {
    if n >= 0 {
        padded(n as nat, width)
    } else {
        seq!['-'] + zero_pad(dec((-n) as nat), if width > 0 {
            (width - 1) as nat
        } else {
            0
        })
    }
}

pub proof fn lemma_dec_len(n: nat)
    ensures
        dec(n).len() >= 1,
        n < 10 ==> dec(n).len() == 1,
        10 <= n < 100 ==> dec(n).len() == 2,
        100 <= n < 1000 ==> dec(n).len() == 3,
        1000 <= n < 10000 ==> dec(n).len() == 4,
    decreases n,
{
    if n >= 10 {
        lemma_dec_len(n / 10);
    }
}

/// The decimal digits of `n`.
pub fn dec_chars(n: u64) -> (r: Vec<char>)
    ensures
        r@ == dec(n as nat),
    decreases n,
{
    if n < 10 {
        let c = digit_char_exec(n);
        let v = vec![c];
        assert(v@ =~= seq![c]);
        v
    } else {
        let mut v = dec_chars(n / 10);
        let c = digit_char_exec(n % 10);
        v.push(c);
        v
    }
}

/// Prepends zeros to `s` up to `width` characters.
pub fn zero_pad_chars(s: &[char], width: usize) -> (r: Vec<char>)
    ensures
        r@ == zero_pad(s@, width as nat),
{
    let mut out: Vec<char> = Vec::new();
    if s.len() < width {
        let n = width - s.len();
        let mut i: usize = 0;
        while i < n
            invariant
                i <= n,
                out@ == Seq::new(i as nat, |j: int| '0'),
            decreases n - i,
        {
            out.push('0');
            i = i + 1;
            assert(out@ =~= Seq::new(i as nat, |j: int| '0'));
        }
    }
    push_all(&mut out, s);
    assert(s@.len() >= width ==> out@ =~= s@);
    out
}

/// `format!("{:0w$}", n)`.
pub fn padded_chars(n: u64, width: usize) -> (r: Vec<char>)
    ensures
        r@ == padded(n as nat, width as nat),
{
    let d = dec_chars(n);
    zero_pad_chars(d.as_slice(), width)
}

/// `format!("{:0w$}", n)` for a signed number.
pub fn padded_signed_chars(n: i64, width: usize) -> (r: Vec<char>)
    ensures
        r@ == padded_signed(n as int, width as nat),
{
    if n >= 0 {
        padded_chars(n as u64, width)
    } else {
        let m: u64 = if n == i64::MIN {
            0x8000_0000_0000_0000
        } else {
            (0 - n) as u64
        };
        let d = dec_chars(m);
        let w = if width > 0 {
            width - 1
        } else {
            0
        };
        let p = zero_pad_chars(d.as_slice(), w);
        let mut out = vec!['-'];
        push_all(&mut out, p.as_slice());
        assert(out@ =~= seq!['-'] + p@);
        out
    }
}

} // verus!

verus! {

// ---------------------------------------------------------------------
// Splitting
// ---------------------------------------------------------------------
/// The pieces of `s` between occurrences of `c` (as `str::split` with a
/// character pattern); there is always at least one piece.
pub open spec fn split_on(s: Seq<char>, c: char) -> Seq<Seq<char>>
    decreases s.len(),
{
    if s.len() == 0 {
        seq![Seq::<char>::empty()]
    } else {
        let rest = split_on(s.drop_first(), c);
        if s[0] == c {
            seq![Seq::<char>::empty()] + rest
        } else {
            rest.update(0, seq![s[0]] + rest[0])
        }
    }
}

pub proof fn lemma_split_on_nonempty(s: Seq<char>, c: char)
    ensures
        split_on(s, c).len() >= 1,
    decreases s.len(),
{
    if s.len() > 0 {
        lemma_split_on_nonempty(s.drop_first(), c);
    }
}

/// The views of a list of character vectors.
pub open spec fn views(v: Seq<Vec<char>>) -> Seq<Seq<char>> {
    v.map_values(|x: Vec<char>| x@)
}

pub proof fn lemma_views_push(v: Seq<Vec<char>>, x: Vec<char>)
    ensures
        views(v.push(x)) == views(v).push(x@),
{
    assert(views(v.push(x)) =~= views(v).push(x@));
}

pub proof fn lemma_views_replace_first(v: Seq<Vec<char>>, x: Vec<char>)
    requires
        v.len() >= 1,
    ensures
        views(seq![x] + v.drop_first()) == views(v).update(0, x@),
{
    assert(views(seq![x] + v.drop_first()) =~= views(v).update(0, x@));
}

/// `str::split` by a character, collected.
pub fn split_chars(s: &[char], c: char) -> (r: Vec<Vec<char>>)
    ensures
        views(r@) == split_on(s@, c),
        r@.len() >= 1,
{
    let mut parts: Vec<Vec<char>> = Vec::new();
    parts.push(Vec::new());
    let mut i: usize = s.len();
    proof {
        assert(s@.skip(s.len() as int) =~= Seq::<char>::empty());
        assert(views(parts@) =~= seq![Seq::<char>::empty()]);
    }
    while i > 0
        invariant
            i <= s.len(),
            views(parts@) == split_on(s@.skip(i as int), c),
            parts@.len() >= 1,
        decreases i,
    {
        i = i - 1;
        let ghost suffix = s@.skip(i as int);
        proof {
            assert(suffix.drop_first() =~= s@.skip(i + 1));
            assert(suffix[0] == s@[i as int]);
        }
        if s[i] == c {
            parts.insert(0, Vec::new());
            assert(views(parts@) =~= seq![Seq::<char>::empty()] + split_on(s@.skip(i + 1), c));
        } else {
            let ghost before = parts@;
            let mut first = vec![s[i]];
            let old_first = parts.remove(0);
            push_all(&mut first, old_first.as_slice());
            parts.insert(0, first);
            proof {
                let rest = split_on(s@.skip(i + 1), c);
                assert(parts@ =~= seq![first] + before.drop_first());
                assert(views(before)[0] == old_first@);
                lemma_views_replace_first(before, first);
                assert(first@ =~= seq![s@[i as int]] + rest[0]);
            }
        }
    }
    assert(s@.skip(0) =~= s@);
    parts
}

/// The text before and after the first occurrence of `c`
/// (as `str::split_once` with a character pattern).
pub open spec fn split_once(s: Seq<char>, c: char) -> Option<(Seq<char>, Seq<char>)> {
    match find(s, seq![c]) {
        Some(k) => Some((s.take(k), s.skip(k + 1))),
        None => None,
    }
}

/// `str::split_once` with a character pattern.
pub fn split_once_chars(s: &[char], c: char) -> (r: Option<(Vec<char>, Vec<char>)>)
    ensures
        match r {
            Some(p) => split_once(s@, c) == Some((p.0@, p.1@)),
            None => split_once(s@, c) is None,
        },
{
    match find_char_from(s, c, 0) {
        Some(k) => {
            proof {
                assert(find(s@, seq![c]) == Some(k as int));
                lemma_find_contains(s@, seq![c]);
                assert(matches_at(s@, k as int, seq![c]));
                lemma_single_char_match(s@, k as int, c);
                assert(k < s@.len());
            }
            assert(k < s.len());
            let a = slice_chars(s, 0, k);
            let k1: usize = k + 1;
            let b = slice_chars(s, k1, s.len());
            proof {
                assert(a@ =~= s@.take(k as int));
                assert(b@ =~= s@.skip(k + 1));
            }
            Some((a, b))
        },
        None => None,
    }
}

/// The whitespace-separated words of `s` (as `str::split_whitespace`).
pub open spec fn words(s: Seq<char>) -> Seq<Seq<char>>
    decreases s.len(), 0int,
{
    if s.len() == 0 {
        Seq::empty()
    } else if is_ws(s[0]) {
        words(s.drop_first())
    } else {
        let rest = words_in_word(s.drop_first());
        rest.update(0, seq![s[0]] + rest[0])
    }
}

/// The words of `s` where `s` continues a word begun just before it.
pub open spec fn words_in_word(s: Seq<char>) -> Seq<Seq<char>>
    decreases s.len(), 1int,
{
    if s.len() == 0 || is_ws(s[0]) {
        seq![Seq::<char>::empty()] + words(s)
    } else {
        let rest = words_in_word(s.drop_first());
        rest.update(0, seq![s[0]] + rest[0])
    }
}

proof fn lemma_words_in_word_nonempty(s: Seq<char>)
    ensures
        words_in_word(s).len() >= 1,
    decreases s.len(),
{
    if !(s.len() == 0 || is_ws(s[0])) {
        lemma_words_in_word_nonempty(s.drop_first());
    }
}

/// `str::split_whitespace`, collected.
pub fn words_chars(s: &[char]) -> (r: Vec<Vec<char>>)
    ensures
        views(r@) == words(s@),
{
    // Scan from the end, keeping the words of the suffix read so far
    // both as a standalone text and as the continuation of a word.
    let mut plain: Vec<Vec<char>> = Vec::new();
    let mut cont: Vec<Vec<char>> = Vec::new();
    cont.push(Vec::new());
    let mut i: usize = s.len();
    proof {
        assert(s@.skip(s.len() as int) =~= Seq::<char>::empty());
        assert(views(cont@) =~= seq![Seq::<char>::empty()] + Seq::<Seq<char>>::empty());
        assert(views(plain@) =~= Seq::<Seq<char>>::empty());
    }
    while i > 0
        invariant
            i <= s.len(),
            views(plain@) == words(s@.skip(i as int)),
            views(cont@) == words_in_word(s@.skip(i as int)),
            cont@.len() >= 1,
        decreases i,
    {
        i = i - 1;
        let ghost suffix = s@.skip(i as int);
        proof {
            assert(suffix.drop_first() =~= s@.skip(i + 1));
            assert(suffix[0] == s@[i as int]);
        }
        if is_ws_char(s[i]) {
            // both views of the suffix start a fresh word afterwards
            let mut fresh: Vec<Vec<char>> = Vec::new();
            fresh.push(Vec::new());
            let mut k: usize = 0;
            while k < plain.len()
                invariant
                    k <= plain.len(),
                    views(fresh@) == seq![Seq::<char>::empty()] + views(plain@).take(k as int),
                decreases plain.len() - k,
            {
                let item = copy_chars(&plain[k]);
                let ghost old_fresh = fresh@;
                fresh.push(item);
                proof {
                    lemma_views_push(old_fresh, item);
                    assert(views(plain@).take(k + 1) =~= views(plain@).take(k as int).push(
                        plain@[k as int]@,
                    ));
                }
                k = k + 1;
                assert(views(fresh@) =~= seq![Seq::<char>::empty()] + views(plain@).take(
                    k as int,
                ));
            }
            proof {
                assert(views(plain@).take(plain@.len() as int) =~= views(plain@));
                assert(words(suffix) == words(s@.skip(i + 1)));
                assert(words_in_word(suffix) == seq![Seq::<char>::empty()] + words(suffix));
            }
            cont = fresh;
        } else {
            let ghost before = cont@;
            let old_first = cont.remove(0);
            let mut first = vec![s[i]];
            push_all(&mut first, old_first.as_slice());
            cont.insert(0, first);
            proof {
                assert(cont@ =~= seq![first] + before.drop_first());
                assert(views(before)[0] == old_first@);
                let rest = words_in_word(s@.skip(i + 1));
                lemma_views_replace_first(before, first);
                assert(first@ =~= seq![s@[i as int]] + rest[0]);
                assert(words(suffix) == words_in_word(suffix));
            }
            plain = clone_parts(&cont);
        }
    }
    assert(s@.skip(0) =~= s@);
    plain
}

/// A copy of a character vector.
pub fn copy_chars(v: &Vec<char>) -> (r: Vec<char>)
    ensures
        r@ == v@,
{
    slice_chars(v.as_slice(), 0, v.len())
}

/// A copy of a list of character vectors.
pub fn clone_parts(v: &Vec<Vec<char>>) -> (r: Vec<Vec<char>>)
    ensures
        views(r@) == views(v@),
        r@.len() == v@.len(),
{
    let mut out: Vec<Vec<char>> = Vec::new();
    let mut k: usize = 0;
    while k < v.len()
        invariant
            k <= v.len(),
            views(out@) == views(v@).take(k as int),
            out@.len() == k,
        decreases v.len() - k,
    {
        let item = copy_chars(&v[k]);
        let ghost old_out = out@;
        out.push(item);
        proof {
            lemma_views_push(old_out, item);
            assert(views(v@).take(k + 1) =~= views(v@).take(k as int).push(v@[k as int]@));
        }
        k = k + 1;
        assert(views(out@) =~= views(v@).take(k as int));
    }
    assert(views(v@).take(v@.len() as int) =~= views(v@));
    out
}

/// The pieces joined with `sep` between them (as `[T]::join`).
pub open spec fn join(parts: Seq<Seq<char>>, sep: Seq<char>) -> Seq<char>
    decreases parts.len(),
{
    if parts.len() == 0 {
        Seq::empty()
    } else if parts.len() == 1 {
        parts[0]
    } else {
        join(parts.drop_last(), sep) + sep + parts.last()
    }
}

/// `parts.join(sep)`.
pub fn join_chars(parts: &[Vec<char>], sep: &[char]) -> (r: Vec<char>)
    ensures
        r@ == join(views(parts@), sep@),
{
    let mut out: Vec<char> = Vec::new();
    let mut i: usize = 0;
    while i < parts.len()
        invariant
            i <= parts.len(),
            out@ == join(views(parts@.take(i as int)), sep@),
        decreases parts.len() - i,
    {
        proof {
            assert(views(parts@.take(i + 1)).drop_last() =~= views(parts@.take(i as int)));
            assert(views(parts@.take(i + 1)).last() == parts@[i as int]@);
        }
        if i > 0 {
            push_all(&mut out, sep);
        }
        push_all(&mut out, parts[i].as_slice());
        i = i + 1;
        proof {
            if i == 1 {
                assert(views(parts@.take(1)) =~= seq![parts@[0]@]);
                assert(out@ =~= parts@[0]@);
            }
        }
    }
    assert(parts@.take(parts@.len() as int) =~= parts@);
    out
}

} // verus!
