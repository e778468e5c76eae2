//! Event identifiers: the Cybozu query form
//! `sEID=…&UID=…&GID=…&Date=da.Y.M.D&BDate=…` and its short form `sEID@YYYY-MM-DD`.
use vstd::prelude::*;
use crate::formats::{naive_date_day, parse_naive_date, ymd_digits};
use crate::text::{
    chars_of,
    padded,
    padded_chars,
    padded_signed,
    padded_signed_chars,
    parse_i32,
    parse_i32_spec,
    parse_u32,
    parse_u32_spec,
    push_all,
    push_str,
    slice_chars,
    split_chars,
    split_on,
    split_once,
    split_once_chars,
    starts_with,
    str_eq,
    string_of,
    views,
};
use crate::time::{civil_to_days, valid_civil, Date};

verus! {

/// The decoded `(key, value)` pairs of a URL's query, as
/// `reqwest::Url::parse(..).query_pairs()` yields them, or `None` when the
/// text is no URL.
pub uninterp spec fn query_pairs_of(url: Seq<char>) -> Option<Seq<(Seq<char>, Seq<char>)>>;

/// `reqwest::Url::parse` followed by `query_pairs`, the pairs decoded and
/// owned. What the pairs are for a given text is the URL standard's
/// parsing and form-urlencoded decoding, named `query_pairs_of`.
#[verifier::external_body]
pub(crate) fn url_query_pairs(url: &str) -> (r: Option<Vec<(String, String)>>)
    ensures
        match r {
            Some(v) => query_pairs_of(url@) == Some(
                pair_views(v@),
            ),
            None => query_pairs_of(url@) is None,
        },
{
    match reqwest::Url::parse(url) {
        Ok(parsed) => Some(
            parsed.query_pairs().map(|(k, v)| (k.into_owned(), v.into_owned())).collect(),
        ),
        Err(_) => None,
    }
}

/// The views of owned key/value pairs.
pub open spec fn pair_views(v: Seq<(String, String)>) -> Seq<(Seq<char>, Seq<char>)> {
    v.map_values(|p: (String, String)| (p.0@, p.1@))
}

/// The URL an identifier is read as: its text as the query of a fixed address.
pub open spec fn id_url(id: Seq<char>) -> Seq<char> {
    "https://example.invalid/?"@ + id
}

/// The value of the last pair with the key.
pub open spec fn last_value(pairs: Seq<(Seq<char>, Seq<char>)>, key: Seq<char>) -> Option<
    Seq<char>,
>
    decreases pairs.len(),
{
    if pairs.len() == 0 {
        None
    } else if pairs.last().0 == key {
        Some(pairs.last().1)
    } else {
        last_value(pairs.drop_last(), key)
    }
}

/// The value of the first pair with the key.
pub open spec fn first_value(pairs: Seq<(Seq<char>, Seq<char>)>, key: Seq<char>) -> Option<
    Seq<char>,
>
    decreases pairs.len(),
{
    if pairs.len() == 0 {
        None
    } else if pairs[0].0 == key {
        Some(pairs[0].1)
    } else {
        first_value(pairs.drop_first(), key)
    }
}

/// The year, month and day of a `da.Y.M.D` value: the prefix `da.`, then
/// the first three `.`-separated pieces read as an `i32` and two `u32`s.
pub open spec fn da_fields(value: Seq<char>) -> Option<(i32, u32, u32)> {
    if !starts_with(value, "da."@) {
        None
    } else {
        let parts = split_on(value.skip(3), '.');
        if parts.len() < 3 {
            None
        } else {
            match (parse_i32_spec(parts[0]), parse_u32_spec(parts[1]), parse_u32_spec(parts[2])) {
                (Some(y), Some(m), Some(d)) => Some((y, m, d)),
                _ => None,
            }
        }
    }
}

/// `YYYY-MM-DD` of a `da.Y.M.D` value, zero-padded as `{:04}-{:02}-{:02}`.
pub open spec fn normalize_da_date_spec(value: Seq<char>) -> Option<Seq<char>> {
    match da_fields(value) {
        Some(f) => Some(
            padded_signed(f.0 as int, 4) + seq!['-'] + padded(f.1 as nat, 2) + seq!['-'] + padded(
                f.2 as nat,
                2,
            ),
        ),
        None => None,
    }
}

/// The day number of a `da.Y.M.D` value naming an existing date.
pub open spec fn parse_da_date_spec(value: Seq<char>) -> Option<int> {
    match da_fields(value) {
        Some(f) => if valid_civil(f.0 as int, f.1 as int, f.2 as int) {
            Some(civil_to_days(f.0 as int, f.1 as int, f.2 as int))
        } else {
            None
        },
        None => None,
    }
}

/// The short identifier: `sEID@YYYY-MM-DD` from the last `sEID` and the
/// last `Date` of the identifier's query, or the identifier itself.
pub open spec fn short_id_spec(id: Seq<char>) -> Seq<char> {
    match query_pairs_of(id_url(id)) {
        Some(pairs) => match (last_value(pairs, "sEID"@), last_value(pairs, "Date"@)) {
            (Some(seid), Some(date)) => match normalize_da_date_spec(date) {
                Some(d) => seid + seq!['@'] + d,
                None => id,
            },
            _ => id,
        },
        None => id,
    }
}

/// The date an identifier names: the `YYYY-MM-DD` after `@` in a short
/// identifier, else the first `Date` value of the query form.
pub open spec fn extract_date_spec(id: Seq<char>) -> Option<int> {
    match split_once(id, '@') {
        Some(p) => naive_date_day(p.1, "%Y-%m-%d"@),
        None => match query_pairs_of(id_url(id)) {
            Some(pairs) => match first_value(pairs, "Date"@) {
                Some(v) => parse_da_date_spec(v),
                None => None,
            },
            None => None,
        },
    }
}

/// The pairs of an identifier's query.
fn id_query_pairs(id: &str) -> (r: Option<Vec<(String, String)>>)
    ensures
        match r {
            Some(v) => query_pairs_of(id_url(id@)) == Some(
                pair_views(v@),
            ),
            None => query_pairs_of(id_url(id@)) is None,
        },
{
    let mut url = chars_of("https://example.invalid/?");
    push_str(&mut url, id);
    let text = string_of(url.as_slice());
    url_query_pairs(text.as_str())
}

/// The year, month and day of a `da.Y.M.D` value.
fn da_fields_exec(value: &str) -> (r: Option<(i32, u32, u32)>)
    ensures
        r == da_fields(value@),
{
    let v = chars_of(value);
    let prefix = chars_of("da.");
    proof {
        reveal_strlit("da.");
    }
    if !crate::text::matches_at_exec(v.as_slice(), 0, prefix.as_slice()) {
        return None;
    }
    let rest = slice_chars(v.as_slice(), 3, v.len());
    assert(rest@ =~= value@.skip(3));
    let parts = split_chars(rest.as_slice(), '.');
    if parts.len() < 3 {
        return None;
    }
    proof {
        assert(views(parts@)[0] == parts@[0]@);
        assert(views(parts@)[1] == parts@[1]@);
        assert(views(parts@)[2] == parts@[2]@);
    }
    let y = parse_i32(parts[0].as_slice());
    let m = parse_u32(parts[1].as_slice());
    let d = parse_u32(parts[2].as_slice());
    match (y, m, d) {
        (Some(y), Some(m), Some(d)) => Some((y, m, d)),
        _ => None,
    }
}

/// `YYYY-MM-DD` of a `da.Y.M.D` value.
pub fn normalize_da_date(value: &str) -> (r: Option<String>)
    ensures
        match r {
            Some(s) => normalize_da_date_spec(value@) == Some(s@),
            None => normalize_da_date_spec(value@) is None,
        },
{
    match da_fields_exec(value) {
        Some((y, m, d)) => {
            let mut out = padded_signed_chars(y as i64, 4);
            out.push('-');
            let mm = padded_chars(m as u64, 2);
            push_all(&mut out, mm.as_slice());
            out.push('-');
            let dd = padded_chars(d as u64, 2);
            push_all(&mut out, dd.as_slice());
            let s = string_of(out.as_slice());
            proof {
                assert(s@ =~= padded_signed(y as int, 4) + seq!['-'] + padded(m as nat, 2) + seq![
                    '-',
                ] + padded(d as nat, 2));
            }
            Some(s)
        },
        None => None,
    }
}

/// The date of a `da.Y.M.D` value.
pub fn parse_da_date(value: &str) -> (r: Option<Date>)
    ensures
        match r {
            Some(d) => parse_da_date_spec(value@) == Some(d.day_number()),
            None => parse_da_date_spec(value@) is None,
        },
{
    match da_fields_exec(value) {
        Some((y, m, d)) => Date::from_ymd(y, m, d),
        None => None,
    }
}

/// The short form of an event identifier: `sEID@YYYY-MM-DD` for a Cybozu
/// identifier, else the identifier unchanged.
pub fn short_id_from_event_id(id: &str) -> (r: String)
    ensures
        r@ == short_id_spec(id@),
{
    let pairs = match id_query_pairs(id) {
        Some(p) => p,
        None => return id.to_string(),
    };
    let ghost ps = pair_views(pairs@);
    let mut seid: Option<usize> = None;
    let mut date: Option<usize> = None;
    let mut i: usize = 0;
    while i < pairs.len()
        invariant
            i <= pairs.len(),
            ps == pair_views(pairs@),
            match seid {
                Some(k) => k < i && last_value(ps.take(i as int), "sEID"@) == Some(ps[k as int].1),
                None => last_value(ps.take(i as int), "sEID"@) is None,
            },
            match date {
                Some(k) => k < i && last_value(ps.take(i as int), "Date"@) == Some(ps[k as int].1),
                None => last_value(ps.take(i as int), "Date"@) is None,
            },
        decreases pairs.len() - i,
    {
        proof {
            assert(ps.take(i + 1).drop_last() =~= ps.take(i as int));
            assert(ps.take(i + 1).last() == ps[i as int]);
        }
        if str_eq(pairs[i].0.as_str(), "sEID") {
            seid = Some(i);
        }
        if str_eq(pairs[i].0.as_str(), "Date") {
            date = Some(i);
        }
        i = i + 1;
    }
    assert(ps.take(pairs.len() as int) =~= ps);
    match (seid, date) {
        (Some(s), Some(d)) => match normalize_da_date(pairs[d].1.as_str()) {
            Some(norm) => {
                let mut out = chars_of(pairs[s].1.as_str());
                out.push('@');
                push_str(&mut out, norm.as_str());
                string_of(out.as_slice())
            },
            None => id.to_string(),
        },
        _ => id.to_string(),
    }
}

/// The date an event identifier names.
pub fn extract_date_from_event_identifier(id: &str) -> (r: Option<Date>)
    ensures
        match r {
            Some(d) => extract_date_spec(id@) == Some(d.day_number()),
            None => extract_date_spec(id@) is None,
        },
        forall|y: int, m: int, d: int|
            #![trigger ymd_digits(y, m, d)]
            split_once(id@, '@') matches Some(p) && p.1 == ymd_digits(y, m, d) && valid_civil(y, m, d)
                && 0 <= y <= 9999 ==> (r matches Some(x) && x.day_number() == civil_to_days(y, m, d)),
{
    let v = chars_of(id);
    match split_once_chars(v.as_slice(), '@') {
        Some((_, date)) => {
            let text = string_of(date.as_slice());
            return parse_naive_date(text.as_str(), "%Y-%m-%d");
        },
        None => {
            assert(split_once(id@, '@') is None);
        },
    }
    let pairs = match id_query_pairs(id) {
        Some(p) => p,
        None => return None,
    };
    let ghost ps = pair_views(pairs@);
    let mut i: usize = 0;
    assert(ps.skip(0) =~= ps);
    while i < pairs.len()
        invariant
            i <= pairs.len(),
            ps == pair_views(pairs@),
            first_value(ps, "Date"@) == first_value(ps.skip(i as int), "Date"@),
            query_pairs_of(id_url(id@)) == Some(ps),
            split_once(id@, '@') is None,
        decreases pairs.len() - i,
    {
        proof {
            assert(ps.skip(i as int).drop_first() =~= ps.skip(i + 1));
            assert(ps.skip(i as int)[0] == ps[i as int]);
        }
        if str_eq(pairs[i].0.as_str(), "Date") {
            assert(first_value(ps.skip(i as int), "Date"@) == Some(pairs[i as int].1@));
            assert(first_value(ps, "Date"@) == Some(pairs[i as int].1@));
            let r = parse_da_date(pairs[i].1.as_str());
            assert(query_pairs_of(id_url(id@)) == Some(ps));
            assert(split_once(id@, '@') is None);
            assert(extract_date_spec(id@) == parse_da_date_spec(pairs[i as int].1@));
            return r;
        }
        i = i + 1;
    }
    None
}

/// A short identifier keeps what it is made of: the short form of a Cybozu
/// identifier whose `sEID` holds no `@` splits, at its first `@`, into that
/// `sEID` and `YYYY-MM-DD` of its last `Date` value (for a year that is not
/// negative); `extract_date_from_event_identifier` reads that date back.
pub proof fn law_short_id_keeps_seid_and_date(
    id: Seq<char>,
    pairs: Seq<(Seq<char>, Seq<char>)>,
    seid: Seq<char>,
    date: Seq<char>,
)
    requires
        query_pairs_of(id_url(id)) == Some(pairs),
        last_value(pairs, "sEID"@) == Some(seid),
        last_value(pairs, "Date"@) == Some(date),
        !seid.contains('@'),
        da_fields(date) is Some,
        (da_fields(date)->0).0 >= 0,
    ensures
        ({
            let f = da_fields(date)->0;
            split_once(short_id_spec(id), '@') == Some(
                (seid, ymd_digits(f.0 as int, f.1 as int, f.2 as int)),
            )
        }),
{
    let f = da_fields(date)->0;
    let d = ymd_digits(f.0 as int, f.1 as int, f.2 as int);
    assert(normalize_da_date_spec(date) == Some(d));
    let s = seid + seq!['@'] + d;
    assert(short_id_spec(id) == s);
    let at = seq!['@'];
    let k = seid.len() as int;
    assert(s.subrange(k, k + 1) =~= at);
    assert forall|j: int| 0 <= j < k implies !#[trigger] crate::text::matches_at(s, j, at) by {
        if crate::text::matches_at(s, j, at) {
            assert(s.subrange(j, j + 1)[0] == s[j]);
            assert(s[j] == seid[j]);
            assert(seid.contains('@'));
        }
    }
    assert(crate::text::is_first_match_from(s, at, 0, k));
    crate::text::lemma_first_match_unique(s, at, 0, k);
    assert(s.take(k) =~= seid);
    assert(s.skip(k + 1) =~= d);
}

} // verus!
