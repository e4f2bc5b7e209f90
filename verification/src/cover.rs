//! Cover resolver: finds a displayable artwork URL for a session.
//!
//! Resolution alternates decisions with requests that only the caller can
//! make. Each function here takes what the last request gave and returns the
//! next step; the cache is consulted first and written before a URL is
//! handed out.

use vstd::prelude::*;
use vstd::string::*;
use crate::cache::ArtworkCache;
use crate::endpoints::{cover_url, cover_url_of, search_url, search_url_of, url_result, EndpointError};
use crate::session::{opt_text, Config};
use crate::title::{search_title, search_title_of};

verus! {

/// The metadata providers, in order of preference.
pub open spec fn provider_names() -> Seq<Seq<char>> {
    seq![
        "audible"@,
        "google"@,
        "audible.jp"@,
        "openlibrary"@,
        "itunes"@,
        "audible.ca"@,
        "audible.uk"@,
        "audible.au"@,
        "audible.fr"@,
        "audible.de"@,
        "audible.it"@,
        "audible.in"@,
        "audible.es"@,
        "fantlab"@,
    ]
}

/// What one provider's search came to.
#[derive(Clone, Debug, PartialEq, Eq)]
pub enum ProviderOutcome {
    /// The provider offered this cover.
    Found(String),
    /// The provider answered with no cover.
    NotFound,
    /// The request failed.
    Failed,
}

pub enum ProviderOutcomeView {
    Found(Seq<char>),
    NotFound,
    Failed,
}

impl View for ProviderOutcome {
    type V = ProviderOutcomeView;

    open spec fn view(&self) -> ProviderOutcomeView {
        match self {
            ProviderOutcome::Found(u) => ProviderOutcomeView::Found(u@),
            ProviderOutcome::NotFound => ProviderOutcomeView::NotFound,
            ProviderOutcome::Failed => ProviderOutcomeView::Failed,
        }
    }
}

/// View of a list of outcomes.
pub open spec fn outcome_views(v: Seq<ProviderOutcome>) -> Seq<ProviderOutcomeView> {
    Seq::new(v.len(), |i: int| v[i]@)
}

/// The next thing to do in a resolution.
#[derive(Clone, Debug, PartialEq, Eq)]
pub enum CoverStep {
    /// Resolution is over. `persist` says whether the cache was written and
    /// is to be stored.
    Done { artwork: Option<String>, persist: bool },
    /// Ask the library server for its cover of the item.
    AskServer { cover_url: String },
    /// Re-host the image that the server returned for `cover_url`.
    Upload { client_id: String, cover_url: String },
    /// Search every provider for this title and author.
    Search { title: String, author: String },
}

pub enum CoverStepView {
    Done { artwork: Option<Seq<char>>, persist: bool },
    AskServer { cover_url: Seq<char> },
    Upload { client_id: Seq<char>, cover_url: Seq<char> },
    Search { title: Seq<char>, author: Seq<char> },
}

impl View for CoverStep {
    type V = CoverStepView;

    open spec fn view(&self) -> CoverStepView {
        match self {
            CoverStep::Done { artwork, persist } => CoverStepView::Done {
                artwork: opt_text(*artwork),
                persist: *persist,
            },
            CoverStep::AskServer { cover_url } => CoverStepView::AskServer { cover_url: cover_url@ },
            CoverStep::Upload { client_id, cover_url } => CoverStepView::Upload {
                client_id: client_id@,
                cover_url: cover_url@,
            },
            CoverStep::Search { title, author } => CoverStepView::Search {
                title: title@,
                author: author@,
            },
        }
    }
}

/// First step: a cached URL ends the resolution at once, with no request
/// made; otherwise the library server is asked for its cover.
pub open spec fn begin_of(
    cache: Map<Seq<char>, Seq<char>>,
    server: Seq<char>,
    item_id: Seq<char>,
) -> CoverStepView {
    if cache.contains_key(item_id) {
        CoverStepView::Done { artwork: Some(cache[item_id]), persist: false }
    } else {
        CoverStepView::AskServer { cover_url: cover_url_of(server, item_id) }
    }
}

/// Step after the library server answered. `found` says whether it has a
/// cover.
///
/// * Found, re-hosting wanted and an image-host credential configured: the
///   image is to be uploaded.
/// * Found otherwise: the server's URL is cached and returned.
/// * Not found, podcast: no artwork.
/// * Not found, book: the providers are searched under the search title.
pub open spec fn after_server_of(
    cache: Map<Seq<char>, Seq<char>>,
    rehost: bool,
    client_id: Option<Seq<char>>,
    item_id: Seq<char>,
    cover_url: Seq<char>,
    found: bool,
    is_podcast: bool,
    title: Seq<char>,
    author: Seq<char>,
) -> (Map<Seq<char>, Seq<char>>, CoverStepView) {
    if found {
        if rehost && client_id is Some {
            (cache, CoverStepView::Upload { client_id: client_id->0, cover_url })
        } else {
            (
                cache.insert(item_id, cover_url),
                CoverStepView::Done { artwork: Some(cover_url), persist: true },
            )
        }
    } else if is_podcast {
        (cache, CoverStepView::Done { artwork: None, persist: false })
    } else {
        (cache, CoverStepView::Search { title: search_title_of(title), author })
    }
}

/// Step after the upload: the hosted URL is cached and returned, or the
/// server's URL when the upload failed.
pub open spec fn after_upload_of(
    cache: Map<Seq<char>, Seq<char>>,
    item_id: Seq<char>,
    cover_url: Seq<char>,
    hosted: Option<Seq<char>>,
) -> (Map<Seq<char>, Seq<char>>, CoverStepView) {
    let url = match hosted {
        Some(u) => u,
        None => cover_url,
    };
    (cache.insert(item_id, url), CoverStepView::Done { artwork: Some(url), persist: true })
}

/// Index of the first outcome at or after `from` that found a cover.
pub open spec fn first_found(outcomes: Seq<ProviderOutcomeView>, from: int) -> Option<int>
    decreases outcomes.len() - from,
{
    if from < 0 || from >= outcomes.len() {
        None
    } else if outcomes[from] is Found {
        Some(from)
    } else {
        first_found(outcomes, from + 1)
    }
}

/// The cover that the search settles on: that of the first provider, in
/// list order, that found one.
pub open spec fn preferred_cover(outcomes: Seq<ProviderOutcomeView>) -> Option<Seq<char>> {
    match first_found(outcomes, 0) {
        Some(i) => Some(outcomes[i]->Found_0),
        None => None,
    }
}

/// Step after the search: the preferred cover is cached and returned, if
/// any provider found one.
pub open spec fn after_search_of(
    cache: Map<Seq<char>, Seq<char>>,
    item_id: Seq<char>,
    outcomes: Seq<ProviderOutcomeView>,
) -> (Map<Seq<char>, Seq<char>>, CoverStepView) {
    match preferred_cover(outcomes) {
        Some(url) => (
            cache.insert(item_id, url),
            CoverStepView::Done { artwork: Some(url), persist: true },
        ),
        None => (cache, CoverStepView::Done { artwork: None, persist: false }),
    }
}

/// A cached URL is returned at once: the first step of a resolution on a
/// cache that holds the item is its last, and asks for no request.
pub proof fn lemma_cache_hit_makes_no_request(
    cache: Map<Seq<char>, Seq<char>>,
    server: Seq<char>,
    item_id: Seq<char>,
)
    requires
        cache.contains_key(item_id),
    ensures
        begin_of(cache, server, item_id) == (CoverStepView::Done {
            artwork: Some(cache[item_id]),
            persist: false,
        }),
{
}

/// What `first_found` finds is a cover and no provider before it found one;
/// when it finds nothing, no provider found a cover.
pub proof fn lemma_first_found(outcomes: Seq<ProviderOutcomeView>, from: int)
    requires
        0 <= from,
    ensures
        match first_found(outcomes, from) {
            Some(i) => from <= i < outcomes.len() && outcomes[i] is Found && forall|j: int|
                from <= j < i ==> !(#[trigger] outcomes[j] is Found),
            None => forall|j: int| from <= j < outcomes.len() ==> !(#[trigger] outcomes[j] is Found),
        },
    decreases outcomes.len() - from,
{
    if from < outcomes.len() && !(outcomes[from] is Found) {
        lemma_first_found(outcomes, from + 1);
    }
}

/// The search prefers providers by their place in the list and by nothing
/// else: when provider `i` found a cover and none before it did, that cover
/// is the result, whatever the providers after it came to.
pub proof fn lemma_earliest_provider_wins(outcomes: Seq<ProviderOutcomeView>, i: int)
    requires
        0 <= i < outcomes.len(),
        outcomes[i] is Found,
        forall|j: int| 0 <= j < i ==> !(#[trigger] outcomes[j] is Found),
    ensures
        preferred_cover(outcomes) == Some(outcomes[i]->Found_0),
{
    lemma_first_found(outcomes, 0);
}

/// The metadata providers, in order of preference.
pub fn providers() -> (v: Vec<&'static str>)
    ensures
        v@.len() == provider_names().len(),
        forall|i: int| 0 <= i < v@.len() ==> (#[trigger] v@[i])@ == provider_names()[i],
{
    vec![
        "audible",
        "google",
        "audible.jp",
        "openlibrary",
        "itunes",
        "audible.ca",
        "audible.uk",
        "audible.au",
        "audible.fr",
        "audible.de",
        "audible.it",
        "audible.in",
        "audible.es",
        "fantlab",
    ]
}

/// The search addresses, one per provider, in the providers' order.
pub fn search_urls(server: &str, title: &str, author: &str) -> (v: Vec<Result<String, EndpointError>>)
    ensures
        v@.len() == provider_names().len(),
        forall|i: int|
            0 <= i < v@.len() ==> url_result(#[trigger] v@[i]) == search_url_of(
                server@,
                title@,
                author@,
                provider_names()[i],
            ),
{
    let names = providers();
    let mut v: Vec<Result<String, EndpointError>> = Vec::new();
    let mut i: usize = 0;
    while i < names.len()
        invariant
            i <= names@.len(),
            v@.len() == i,
            names@.len() == provider_names().len(),
            forall|j: int| 0 <= j < names@.len() ==> (#[trigger] names@[j])@ == provider_names()[j],
            forall|j: int|
                0 <= j < i ==> url_result(#[trigger] v@[j]) == search_url_of(
                    server@,
                    title@,
                    author@,
                    provider_names()[j],
                ),
        decreases names@.len() - i,
    {
        v.push(search_url(server, title, author, names[i]));
        i += 1;
    }
    v
}

/// What one provider's search came to, given its reply: `None` for a failed
/// request, else the list of covers it offered, of which the first counts.
pub fn provider_outcome(reply: Option<Vec<String>>) -> (r: ProviderOutcome)
    ensures
        r@ == match reply {
            None => ProviderOutcomeView::Failed,
            Some(covers) => if covers@.len() > 0 {
                ProviderOutcomeView::Found(covers@[0]@)
            } else {
                ProviderOutcomeView::NotFound
            },
        },
{
    match reply {
        None => ProviderOutcome::Failed,
        Some(covers) => {
            if covers.len() > 0 {
                ProviderOutcome::Found(covers[0].clone())
            } else {
                ProviderOutcome::NotFound
            }
        },
    }
}

/// The hosted URL that an upload yielded: the link of the reply, provided
/// that the request succeeded and the reply reports success.
pub fn hosted_url(status_success: bool, reply: Option<(bool, String)>) -> (r: Option<String>)
    ensures
        opt_text(r) == match reply {
            Some((reported, link)) => if status_success && reported {
                Some(link@)
            } else {
                None
            },
            None => None,
        },
{
    match reply {
        Some((reported, link)) => {
            if status_success && reported {
                Some(link)
            } else {
                None
            }
        },
        None => None,
    }
}

/// The cover of the first provider, in list order, that found one.
pub fn pick_cover(outcomes: &Vec<ProviderOutcome>) -> (r: Option<String>)
    ensures
        opt_text(r) == preferred_cover(outcome_views(outcomes@)),
{
    let mut i: usize = 0;
    while i < outcomes.len()
        invariant
            i <= outcomes@.len(),
            first_found(outcome_views(outcomes@), 0) == first_found(
                outcome_views(outcomes@),
                i as int,
            ),
        decreases outcomes@.len() - i,
    {
        match &outcomes[i] {
            ProviderOutcome::Found(url) => {
                return Some(url.clone());
            },
            _ => {},
        }
        i += 1;
    }
    None
}

/// Starts a resolution.
pub fn begin(cache: &ArtworkCache, server: &str, item_id: &str) -> (step: CoverStep)
    ensures
        step@ == begin_of(cache@, server@, item_id@),
{
    match cache.get(item_id) {
        Some(url) => CoverStep::Done { artwork: Some(url), persist: false },
        None => CoverStep::AskServer { cover_url: cover_url(server, item_id) },
    }
}

/// Continues a resolution once the library server has answered the request
/// for `cover_url`.
pub fn after_server(
    cache: &mut ArtworkCache,
    config: &Config,
    item_id: &str,
    cover_url: &str,
    found: bool,
    is_podcast: bool,
    title: &str,
    author: &str,
) -> (step: CoverStep)
    ensures
        (final(cache)@, step@) == after_server_of(
            old(cache)@,
            config.wants_rehosting(),
            opt_text(config.imgur_client_id),
            item_id@,
            cover_url@,
            found,
            is_podcast,
            title@,
            author@,
        ),
{
    if found {
        if config.rehosting_enabled() {
            match &config.imgur_client_id {
                Some(client_id) => {
                    return CoverStep::Upload {
                        client_id: client_id.clone(),
                        cover_url: String::from_str(cover_url),
                    };
                },
                None => {},
            }
        }
        cache.insert(item_id, cover_url);
        CoverStep::Done { artwork: Some(String::from_str(cover_url)), persist: true }
    } else if is_podcast {
        CoverStep::Done { artwork: None, persist: false }
    } else {
        CoverStep::Search { title: search_title(title), author: String::from_str(author) }
    }
}

/// Ends a resolution once the upload is over; `hosted` is the hosted URL, or
/// `None` when the upload failed.
pub fn after_upload(cache: &mut ArtworkCache, item_id: &str, cover_url: &str, hosted: Option<String>) -> (step:
    CoverStep)
    ensures
        (final(cache)@, step@) == after_upload_of(
            old(cache)@,
            item_id@,
            cover_url@,
            opt_text(hosted),
        ),
{
    let url = match hosted {
        Some(u) => u,
        None => String::from_str(cover_url),
    };
    cache.insert(item_id, url.as_str());
    CoverStep::Done { artwork: Some(url), persist: true }
}

/// Ends a resolution once every provider's search is over. `outcomes` holds
/// one outcome per provider, in the providers' order.
pub fn after_search(cache: &mut ArtworkCache, item_id: &str, outcomes: &Vec<ProviderOutcome>) -> (step:
    CoverStep)
    ensures
        (final(cache)@, step@) == after_search_of(
            old(cache)@,
            item_id@,
            outcome_views(outcomes@),
        ),
{
    match pick_cover(outcomes) {
        Some(url) => {
            cache.insert(item_id, url.as_str());
            CoverStep::Done { artwork: Some(url), persist: true }
        },
        None => CoverStep::Done { artwork: None, persist: false },
    }
}

} // verus!
