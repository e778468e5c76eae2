//! Which addresses may be handed to the system's web browser.
use vstd::prelude::*;
use crate::text::{chars_of, push_str, starts_with, str_starts_with, string_of};

verus! {

/// An address the browser may open: it starts with `http://` or `https://`.
pub open spec fn browser_url_allowed(url: Seq<char>) -> bool {
    starts_with(url, "http://"@) || starts_with(url, "https://"@)
}

/// The refusal of an address of another scheme.
pub open spec fn browser_url_message(url: Seq<char>) -> Seq<char> {
    "ブラウザで開けるのは http:// または https:// の URL のみです: "@ + url
}

/// Accepts only `http://` and `https://` addresses; any other scheme
/// (`file:`, `javascript:`, `data:`, none at all) is refused.
pub fn validate_browser_url(url: &str) -> (r: Result<(), String>)
    ensures
        r is Ok <==> browser_url_allowed(url@),
        r matches Err(m) ==> m@ == browser_url_message(url@),
{
    if str_starts_with(url, "http://") || str_starts_with(url, "https://") {
        Ok(())
    } else {
        let mut m = chars_of("ブラウザで開けるのは http:// または https:// の URL のみです: ");
        push_str(&mut m, url);
        Err(string_of(m.as_slice()))
    }
}

} // verus!
