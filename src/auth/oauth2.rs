use vstd::prelude::*;
use crate::text::str_equals;

verus! {

/// The token endpoint of an issuer: `oauth/token` under the issuer's address.
pub open spec fn token_url_of(issuer: Seq<char>) -> Seq<char> {
    if issuer.len() > 0 && issuer.last() == '/' {
        issuer + "oauth/token"@
    } else {
        issuer + "/oauth/token"@
    }
}

/// Builds [`token_url_of`].
pub fn token_url(issuer_url: &str) -> (r: String)
    ensures
        r@ == token_url_of(issuer_url@),
{
    let n = issuer_url.unicode_len();
    let mut s = String::from_str(issuer_url);
    if n > 0 && issuer_url.get_char(n - 1) == '/' {
        s.append("oauth/token");
    } else {
        s.append("/oauth/token");
    }
    s
}

/// The path of a credentials file named by a `file://` address, if it is one.
pub fn credentials_path(credentials_url: &str) -> (r: Option<String>)
    ensures
        credentials_url@.len() >= 7 && credentials_url@.take(7) == "file://"@ ==> (r matches Some(p) && p@
            == credentials_url@.skip(7)),
        !(credentials_url@.len() >= 7 && credentials_url@.take(7) == "file://"@) ==> r is None,
{
    let n = credentials_url.unicode_len();
    if n < 7 {
        return None;
    }
    let head = credentials_url.substring_char(0, 7);
    if str_equals(head, "file://") {
        Some(String::from_str(credentials_url.substring_char(7, n)))
    } else {
        None
    }
}

} // verus!
