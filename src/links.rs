use vstd::prelude::*;
use crate::ident::{generate_id, id_from_number, id_of_number, is_url_safe_token};
use crate::urls::{parse_url, parsed_url};

verus! {

/// The `Cache-Control` value sent with every redirect.
pub const DEFAULT_CACHE_CONTROL_HEADER_VALUE: &'static str =
    "public, max-age=300, s-maxage=300, state-while-revalidate=300, stale-if-error=300";

/// The status of a temporary redirect.
pub const TEMPORARY_REDIRECT: u16 = 307;

/// A short identifier and the URL it leads to.
pub struct Link {
    pub id: String,
    pub target_url: String,
}

/// The URL asked for when a link is created or changed.
pub struct LinkTarget {
    pub target_url: String,
}

/// How many recorded visits of a link came with one referer and one user agent.
pub struct CounterLinkStatistics {
    pub amount: Option<i64>,
    pub referer: Option<String>,
    pub user_agent: Option<String>,
}

/// One recorded visit of a link.
pub struct StatisticRow {
    pub link_id: String,
    pub referer: Option<String>,
    pub user_agent: Option<String>,
}

/// The answer to a visit of a known link.
pub struct RedirectResponse {
    pub status: u16,
    pub location: String,
    pub cache_control: String,
}

/// What a visit of a known link leads to: the answer, and the visit to record.
pub struct Redirect {
    pub response: RedirectResponse,
    pub statistic: StatisticRow,
}

/// Why an operation on links failed.
pub enum LinkError {
    /// No link has the identifier asked for.
    NotFound,
    /// The target is not an absolute URL; the text says so.
    MalformedUrl(String),
    /// The store failed or did not answer in time; the text describes it.
    Internal(String),
}

impl LinkError {
    /// The HTTP status that reports this error.
    pub fn status(&self) -> (r: u16)
        ensures
            r == error_status(*self),
    {
        match self {
            LinkError::NotFound => 404,
            LinkError::MalformedUrl(_) => 409,
            LinkError::Internal(_) => 500,
        }
    }

    /// The text sent back with this error.
    pub fn message(&self) -> (r: String)
        ensures
            r@ == error_message(*self),
    {
        match self {
            LinkError::NotFound => String::from_str("Not Found"),
            LinkError::MalformedUrl(m) => m.clone(),
            LinkError::Internal(m) => m.clone(),
        }
    }
}

/// The HTTP status of an error: 404 for an unknown link, 409 for a malformed URL, 500
/// for a failure of the store.
pub open spec fn error_status(e: LinkError) -> u16 {
    match e {
        LinkError::NotFound => 404u16,
        LinkError::MalformedUrl(_) => 409u16,
        LinkError::Internal(_) => 500u16,
    }
}

/// The text of an error.
pub open spec fn error_message(e: LinkError) -> Seq<char> {
    match e {
        LinkError::NotFound => "Not Found"@,
        LinkError::MalformedUrl(m) => m@,
        LinkError::Internal(m) => m@,
    }
}

/// `e` reports a malformed URL with the text `text`.
pub open spec fn is_malformed(e: LinkError, text: Seq<char>) -> bool {
    e matches LinkError::MalformedUrl(m) && m@ == text
}

/// The text of the error that `create_link` gives for a malformed URL.
pub open spec fn create_malformed_text() -> Seq<char> {
    "url malformed"@
}

/// The text of the error that `update_link` gives for a malformed URL.
pub open spec fn update_malformed_text() -> Seq<char> {
    "Url malformed"@
}

/// `r` answers a visit of the link `link`, made with `referer` and `user_agent` under the
/// identifier `requested`.
pub open spec fn is_redirect_to(
    r: Redirect,
    requested: Seq<char>,
    link: Link,
    referer: Option<String>,
    user_agent: Option<String>,
) -> bool {
    &&& r.response.status == TEMPORARY_REDIRECT
    &&& r.response.location@ == link.target_url@
    &&& r.response.cache_control@ == DEFAULT_CACHE_CONTROL_HEADER_VALUE@
    &&& r.statistic.link_id@ == requested
    &&& r.statistic.referer == referer
    &&& r.statistic.user_agent == user_agent
}

/// Answers a visit of `requested_link`, given what the lookup of that identifier found.
/// An unknown identifier is `NotFound`; a known one is a temporary redirect to its target,
/// with exactly one visit to record.
pub fn redirect(
    requested_link: String,
    found: Option<Link>,
    referer: Option<String>,
    user_agent: Option<String>,
) -> (r: Result<Redirect, LinkError>)
    ensures
        found is None ==> r matches Err(LinkError::NotFound),
        found is Some ==> r is Ok && is_redirect_to(
            r->Ok_0,
            requested_link@,
            found->0,
            referer,
            user_agent,
        ),
{
    match found {
        None => Err(LinkError::NotFound),
        Some(link) => {
            let response = RedirectResponse {
                status: TEMPORARY_REDIRECT,
                location: link.target_url,
                cache_control: String::from_str(DEFAULT_CACHE_CONTROL_HEADER_VALUE),
            };
            let statistic = StatisticRow { link_id: requested_link, referer, user_agent };
            Ok(Redirect { response, statistic })
        },
    }
}

/// The link made of `id_number` and the target `new_link`, if that target is an
/// absolute URL. The target is kept in its normalized form.
pub fn create_link_with_number(id_number: u32, new_link: LinkTarget) -> (r: Result<Link, LinkError>)
    ensures
        r is Err <==> parsed_url(new_link.target_url@) is None,
        r is Err ==> is_malformed(r->Err_0, create_malformed_text()),
        r is Ok ==> r->Ok_0.id@ == id_of_number(id_number as nat) && r->Ok_0.target_url@
            == parsed_url(new_link.target_url@)->0,
{
    match parse_url(new_link.target_url.as_str()) {
        None => Err(LinkError::MalformedUrl(String::from_str("url malformed"))),
        Some(url) => Ok(Link { id: id_from_number(id_number), target_url: url }),
    }
}

/// A new link to the target `new_link`, under a freshly drawn identifier, if that target is
/// an absolute URL. The target is kept in its normalized form.
pub fn create_link(new_link: LinkTarget) -> (r: Result<Link, LinkError>)
    ensures
        r is Err <==> parsed_url(new_link.target_url@) is None,
        r is Err ==> is_malformed(r->Err_0, create_malformed_text()),
        r is Ok ==> r->Ok_0.target_url@ == parsed_url(new_link.target_url@)->0,
        r is Ok ==> is_url_safe_token(r->Ok_0.id@),
        r is Ok ==> exists|n: nat| n < u32::MAX && r->Ok_0.id@ == id_of_number(n),
{
    match parse_url(new_link.target_url.as_str()) {
        None => Err(LinkError::MalformedUrl(String::from_str("url malformed"))),
        Some(url) => Ok(Link { id: generate_id(), target_url: url }),
    }
}

/// The link `link_id` as it stands after its target becomes `update`, if that target is an
/// absolute URL. The target is kept in its normalized form.
pub fn update_link(link_id: String, update: LinkTarget) -> (r: Result<Link, LinkError>)
    ensures
        r is Err <==> parsed_url(update.target_url@) is None,
        r is Err ==> is_malformed(r->Err_0, update_malformed_text()),
        r is Ok ==> r->Ok_0.id == link_id && r->Ok_0.target_url@ == parsed_url(
            update.target_url@,
        )->0,
{
    match parse_url(update.target_url.as_str()) {
        None => Err(LinkError::MalformedUrl(String::from_str("Url malformed"))),
        Some(url) => Ok(Link { id: link_id, target_url: url }),
    }
}

} // verus!
