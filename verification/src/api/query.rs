//! Query parameters of HTTP requests.

use dbs_uhttp::Request;
use url::Url;
use vstd::prelude::*;
use vstd::string::*;

verus! {

/// An HTTP request as the server of `dbs_uhttp` hands it to its endpoints.
#[verifier::external_type_specification]
#[verifier::external_body]
pub struct ExRequest(Request);

/// The pairs of key and value that the query of the URL `url` holds, in their
/// order, as the `url` crate reads them; `None` where it cannot parse `url`.
pub uninterp spec fn url_query_pairs(url: Seq<char>) -> Option<Seq<(Seq<char>, Seq<char>)>>;

/// The pairs of `pairs` as texts.
pub open spec fn pairs_view(pairs: Seq<(String, String)>) -> Seq<(Seq<char>, Seq<char>)> {
    Seq::new(pairs.len(), |i: int| (pairs[i].0@, pairs[i].1@))
}

/// `Url::parse`, then `Url::query_pairs`: the pairs of key and value in the
/// query of `url`, decoded, or `None` where `url` is no absolute URL.
#[verifier::external_body]
fn query_pairs(url: &str) -> (r: Option<Vec<(String, String)>>)
    ensures
        r matches Some(pairs) ==> url_query_pairs(url@) == Some(pairs_view(pairs@)),
        r is None ==> url_query_pairs(url@) is None,
{
    match Url::parse(url) {
        Ok(parsed) => Some(
            parsed.query_pairs().map(|(k, v)| (k.into_owned(), v.into_owned())).collect(),
        ),
        Err(_) => None,
    }
}

/// `Request::uri`, then `Uri::get_abs_path`: the path of the request with its
/// query, without scheme and host.
#[verifier::external_body]
fn request_abs_path(req: &Request) -> String {
    req.uri().get_abs_path().to_string()
}

/// The value of the first pair of `pairs` whose key is `key`.
pub open spec fn first_value(pairs: Seq<(Seq<char>, Seq<char>)>, key: Seq<char>) -> Option<
    Seq<char>,
>
    decreases pairs.len(),
{
    if pairs.len() == 0 {
        None
    } else if pairs[0].0 == key {
        Some(pairs[0].1)
    } else {
        first_value(pairs.drop_first(), key)
    }
}

/// The value of the query parameter `key` in a request for `abs_path`: the
/// path is read as a URL of the scheme `http`.
pub open spec fn spec_query_part(abs_path: Seq<char>, key: Seq<char>) -> Option<Seq<char>> {
    match url_query_pairs("http:"@ + abs_path) {
        Some(pairs) => first_value(pairs, key),
        None => None,
    }
}

/// The text of an optional string.
pub open spec fn text_of(s: Option<String>) -> Option<Seq<char>> {
    match s {
        Some(s) => Some(s@),
        None => None,
    }
}

/// The value of the first pair of `pairs` whose key is `key`.
pub fn find_query_value(pairs: &Vec<(String, String)>, key: &str) -> (r: Option<String>)
    ensures
        text_of(r) == first_value(pairs_view(pairs@), key@),
{
    let wanted = key.to_owned();
    let ghost all = pairs_view(pairs@);
    let mut n: usize = 0;
    assert(all.skip(0) == all);
    while n < pairs.len()
        invariant
            n <= pairs@.len(),
            wanted@ == key@,
            all == pairs_view(pairs@),
            first_value(all, key@) == first_value(all.skip(n as int), key@),
        decreases pairs@.len() - n,
    {
        proof {
            let rest = all.skip(n as int);
            assert(rest[0] == all[n as int]);
            assert(rest.drop_first() == all.skip(n + 1));
        }
        if pairs[n].0 == wanted {
            return Some(pairs[n].1.clone());
        }
        n += 1;
    }
    None
}

/// The value of the query parameter `key` in a request for `abs_path`.
pub fn query_part(abs_path: &str, key: &str) -> (r: Option<String>)
    ensures
        text_of(r) == spec_query_part(abs_path@, key@),
{
    let url = String::from_str("http:").concat(abs_path);
    match query_pairs(url.as_str()) {
        Some(pairs) => find_query_value(&pairs, key),
        None => None,
    }
}

/// The value of the query parameter `key` of the HTTP request `req`. What
/// comes back is what [`query_part`] gives for the path of the request.
pub fn extract_query_part(req: &Request, key: &str) -> (r: Option<String>)
    ensures
        exists|path: Seq<char>| text_of(r) == #[trigger] spec_query_part(path, key@),
{
    let path = request_abs_path(req);
    let r = query_part(path.as_str(), key);
    assert(text_of(r) == spec_query_part(path@, key@));
    r
}

} // verus!
