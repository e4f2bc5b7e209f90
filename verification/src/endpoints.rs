//! Addresses of the library server's endpoints.

use url::Url;
use vstd::prelude::*;
use vstd::string::*;
use crate::cache::pairs;

verus! {

/// Longest text, in characters, that goes into a URL with parameters: the
/// address or any one key or value.
pub const URL_TEXT_LIMIT: usize = 1048576;

/// Most parameters that go into one URL.
pub const URL_PARAM_LIMIT: usize = 16;

/// Address of the most recent listening session.
pub open spec fn sessions_url_of(server: Seq<char>) -> Seq<char> {
    server + "/api/me/listening-sessions?itemsPerPage=1"@
}

/// Address of an item's detail, chapters included.
pub open spec fn item_url_of(server: Seq<char>, item_id: Seq<char>) -> Seq<char> {
    server + "/api/items/"@ + item_id + "?include=chapters"@
}

/// Address of an item's cover image.
pub open spec fn cover_url_of(server: Seq<char>, item_id: Seq<char>) -> Seq<char> {
    server + "/api/items/"@ + item_id + "/cover?width=400&format=jpeg"@
}

/// Address of the cover search, before its parameters.
pub open spec fn search_endpoint_of(server: Seq<char>) -> Seq<char> {
    server + "/api/search/covers"@
}

/// The parameters of one cover search, in the order in which they are sent.
pub open spec fn search_params_of(title: Seq<char>, author: Seq<char>, provider: Seq<char>) -> Seq<
    (Seq<char>, Seq<char>),
> {
    seq![("title"@, title), ("author"@, author), ("provider"@, provider)]
}

/// The absolute URL that `input` parses to, with `params` added to its query
/// string, as `url::Url::parse_with_params` serialises it; `None` when
/// `input` does not parse as an absolute URL.
pub uninterp spec fn url_with_params(input: Seq<char>, params: Seq<(Seq<char>, Seq<char>)>) -> Option<
    Seq<char>,
>;

/// Every text that goes into the URL is within the limits.
pub open spec fn within_url_limits(input: Seq<char>, params: Seq<(Seq<char>, Seq<char>)>) -> bool {
    &&& input.len() <= URL_TEXT_LIMIT
    &&& params.len() <= URL_PARAM_LIMIT
    &&& forall|i: int|
        0 <= i < params.len() ==> (#[trigger] params[i]).0.len() <= URL_TEXT_LIMIT && params[i].1.len()
            <= URL_TEXT_LIMIT
}

/// `url::ParseError`, carried through as it is; nothing is known of what it
/// holds.
#[verifier::external_type_specification]
#[verifier::external_body]
pub struct ExUrlParseError(url::ParseError);

/// Trusted: calls `url::Url::parse_with_params` and hands out the URL's
/// serialisation, which is the text that `url_with_params` names. That call
/// can only panic on a URL of more than 4 GB, which the limits rule out.
#[verifier::external_body]
fn parse_with_params(input: &str, params: &Vec<(String, String)>) -> (r: Result<
    String,
    url::ParseError,
>)
    requires
        within_url_limits(input@, pairs(params@)),
    ensures
        match r {
            Ok(u) => url_with_params(input@, pairs(params@)) == Some(u@),
            Err(_) => url_with_params(input@, pairs(params@)) is None,
        },
{
    let url = Url::parse_with_params(input, params.iter().map(|p| (p.0.as_str(), p.1.as_str())))?;
    Ok(url.into())
}

/// Why a request address could not be made.
#[derive(Clone, Debug, PartialEq, Eq)]
pub enum EndpointError {
    /// A text is longer than `URL_TEXT_LIMIT` characters.
    TooLong,
    /// The server address does not parse as an absolute URL.
    NotAbsolute,
}

/// Address of the most recent listening session.
pub fn sessions_url(server: &str) -> (r: String)
    ensures
        r@ == sessions_url_of(server@),
{
    let mut r = String::from_str(server);
    r.append("/api/me/listening-sessions?itemsPerPage=1");
    r
}

/// Address of an item's detail, chapters included.
pub fn item_url(server: &str, item_id: &str) -> (r: String)
    ensures
        r@ == item_url_of(server@, item_id@),
{
    let mut r = String::from_str(server);
    r.append("/api/items/");
    r.append(item_id);
    r.append("?include=chapters");
    r
}

/// Address of an item's cover image.
pub fn cover_url(server: &str, item_id: &str) -> (r: String)
    ensures
        r@ == cover_url_of(server@, item_id@),
{
    let mut r = String::from_str(server);
    r.append("/api/items/");
    r.append(item_id);
    r.append("/cover?width=400&format=jpeg");
    r
}

/// What `search_url` returns, given what the URL parser makes of the search
/// endpoint and its parameters.
pub open spec fn search_url_of(
    server: Seq<char>,
    title: Seq<char>,
    author: Seq<char>,
    provider: Seq<char>,
) -> Result<Seq<char>, EndpointError> {
    let input = search_endpoint_of(server);
    let params = search_params_of(title, author, provider);
    if !within_url_limits(input, params) {
        Err(EndpointError::TooLong)
    } else {
        match url_with_params(input, params) {
            Some(u) => Ok(u),
            None => Err(EndpointError::NotAbsolute),
        }
    }
}

/// View of the result of `search_url`.
pub open spec fn url_result(r: Result<String, EndpointError>) -> Result<Seq<char>, EndpointError> {
    match r {
        Ok(u) => Ok(u@),
        Err(e) => Err(e),
    }
}

/// Address of one cover search: the search endpoint with the title, the
/// author and the provider as its query.
pub fn search_url(server: &str, title: &str, author: &str, provider: &str) -> (r: Result<
    String,
    EndpointError,
>)
    ensures
        url_result(r) == search_url_of(server@, title@, author@, provider@),
{
    let mut input = String::from_str(server);
    input.append("/api/search/covers");
    let mut params: Vec<(String, String)> = Vec::new();
    params.push((String::from_str("title"), String::from_str(title)));
    params.push((String::from_str("author"), String::from_str(author)));
    params.push((String::from_str("provider"), String::from_str(provider)));
    assert(pairs(params@) =~= search_params_of(title@, author@, provider@));
    if !within_limits(input.as_str(), &params) {
        return Err(EndpointError::TooLong);
    }
    match parse_with_params(input.as_str(), &params) {
        Ok(u) => Ok(u),
        Err(_) => Err(EndpointError::NotAbsolute),
    }
}

/// Whether every text that goes into the URL is within the limits.
pub fn within_limits(input: &str, params: &Vec<(String, String)>) -> (b: bool)
    ensures
        b == within_url_limits(input@, pairs(params@)),
{
    if input.unicode_len() > URL_TEXT_LIMIT || params.len() > URL_PARAM_LIMIT {
        return false;
    }
    let mut i: usize = 0;
    while i < params.len()
        invariant
            i <= params@.len(),
            forall|j: int|
                0 <= j < i ==> (#[trigger] pairs(params@)[j]).0.len() <= URL_TEXT_LIMIT && pairs(
                    params@,
                )[j].1.len() <= URL_TEXT_LIMIT,
        decreases params@.len() - i,
    {
        if params[i].0.as_str().unicode_len() > URL_TEXT_LIMIT || params[i].1.as_str().unicode_len()
            > URL_TEXT_LIMIT {
            assert(pairs(params@)[i as int].0 == params@[i as int].0@);
            return false;
        }
        i += 1;
    }
    true
}

} // verus!
