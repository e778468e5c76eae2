//! The URL operations that the library takes from `reqwest::Url`: parsing,
//! replacing a path, and resolving a reference against a base.
use vstd::prelude::*;
use crate::config::opt_view;

verus! {

/// What `reqwest::Url::parse` gives for a text: the scheme, the host (where
/// there is one) and the path of the parsed URL, or the text of the parse
/// error.
pub uninterp spec fn url_parts_of(text: Seq<char>) -> Result<
    (Seq<char>, Option<Seq<char>>, Seq<char>),
    Seq<char>,
>;

/// The URL that `reqwest::Url::parse(base)` gives with its path set to
/// `path` and its query removed, serialized; `None` where `base` is no URL.
pub uninterp spec fn url_with_path_of(base: Seq<char>, path: Seq<char>) -> Option<Seq<char>>;

/// The URL that `reqwest::Url::parse(base)` then `join(reference)` gives,
/// serialized; `None` where either step fails.
pub uninterp spec fn url_join_of(base: Seq<char>, reference: Seq<char>) -> Option<Seq<char>>;

/// The parts of a parsed URL.
#[derive(Debug)]
pub struct UrlParts {
    pub scheme: String,
    pub host: Option<String>,
    pub path: String,
}


/// `reqwest::Url::parse`, read out as its scheme, host and path, or the
/// parse error's text. The contract says that the outcome is
/// `url_parts_of` of the text: a function of the text alone.
#[verifier::external_body]
pub(crate) fn parse_url(text: &str) -> (r: Result<UrlParts, String>)
    ensures
        match r {
            Ok(p) => url_parts_of(text@) == Ok::<
                (Seq<char>, Option<Seq<char>>, Seq<char>),
                Seq<char>,
            >((p.scheme@, opt_view(p.host), p.path@)),
            Err(e) => url_parts_of(text@) == Err::<
                (Seq<char>, Option<Seq<char>>, Seq<char>),
                Seq<char>,
            >(e@),
        },
{
    match reqwest::Url::parse(text) {
        Ok(u) => Ok(
            UrlParts {
                scheme: u.scheme().to_string(),
                host: u.host_str().map(|h| h.to_string()),
                path: u.path().to_string(),
            },
        ),
        Err(e) => Err(e.to_string()),
    }
}

/// `reqwest::Url::parse(base)`, then `set_path(path)` and `set_query(None)`,
/// serialized. The contract names the outcome `url_with_path_of`.
#[verifier::external_body]
pub(crate) fn url_with_path(base: &str, path: &str) -> (r: Option<String>)
    ensures
        opt_view(r) == url_with_path_of(base@, path@),
{
    match reqwest::Url::parse(base) {
        Ok(mut u) => {
            u.set_path(path);
            u.set_query(None);
            Some(u.to_string())
        },
        Err(_) => None,
    }
}

/// `reqwest::Url::parse(base)`, then `join(reference)`, serialized. The
/// contract names the outcome `url_join_of`.
#[verifier::external_body]
pub(crate) fn url_join(base: &str, reference: &str) -> (r: Option<String>)
    ensures
        opt_view(r) == url_join_of(base@, reference@),
{
    match reqwest::Url::parse(base) {
        Ok(u) => match u.join(reference) {
            Ok(j) => Some(j.to_string()),
            Err(_) => None,
        },
        Err(_) => None,
    }
}

} // verus!
