use vstd::prelude::*;
use crate::ident::is_url_safe_token;
use crate::links::{
    create_malformed_text, error_status, is_malformed, is_redirect_to, update_malformed_text,
    Link, LinkError, LinkTarget, Redirect, StatisticRow, TEMPORARY_REDIRECT,
};
use crate::stats::{row_key, visits, visits_with};
use crate::urls::parsed_url;

verus! {

/// A link created for an absolute URL leads there: the created link holds the normalized
/// URL under a URL-safe identifier, and a visit of that identifier is a temporary
/// redirect whose location is that normalized URL.
pub proof fn law_created_link_redirects_to_target(
    target: LinkTarget,
    created: Link,
    visit: Redirect,
    referer: Option<String>,
    user_agent: Option<String>,
)
    requires
        parsed_url(target.target_url@) is Some,
        created.target_url@ == parsed_url(target.target_url@)->0,
        is_url_safe_token(created.id@),
        is_redirect_to(visit, created.id@, created, referer, user_agent),
    ensures
        created.id@.len() > 0,
        visit.response.status == 307,
        visit.response.location@ == parsed_url(target.target_url@)->0,
        visit.response.location@ == created.target_url@,
{
    assert(TEMPORARY_REDIRECT == 307);
}

/// A malformed URL is refused with a conflict, both on creation and on update.
pub proof fn law_malformed_url_is_conflict(s: Seq<char>, on_create: LinkError, on_update: LinkError)
    requires
        parsed_url(s) is None,
        is_malformed(on_create, create_malformed_text()),
        is_malformed(on_update, update_malformed_text()),
    ensures
        error_status(on_create) == 409,
        error_status(on_update) == 409,
{
}

/// A visit of an identifier that no lookup finds is answered with a 404.
pub proof fn law_unknown_link_is_not_found(e: LinkError)
    requires
        e matches LinkError::NotFound,
    ensures
        error_status(e) == 404,
{
}

/// Repeated visits of one link lead to the same location, and each adds exactly one
/// recorded visit of that link.
pub proof fn law_repeated_redirects_agree(
    link: Link,
    requested: Seq<char>,
    first: Redirect,
    second: Redirect,
    referer: Option<String>,
    user_agent: Option<String>,
    rows: Seq<StatisticRow>,
)
    requires
        is_redirect_to(first, requested, link, referer, user_agent),
        is_redirect_to(second, requested, link, referer, user_agent),
    ensures
        first.response.location@ == second.response.location@,
        first.response.status == second.response.status,
        visits(rows.push(first.statistic), requested) == visits(rows, requested) + 1,
        visits(rows.push(first.statistic).push(second.statistic), requested) == visits(
            rows,
            requested,
        ) + 2,
{
    let once = rows.push(first.statistic);
    let twice = once.push(second.statistic);
    assert(once.drop_last() =~= rows);
    assert(twice.drop_last() =~= once);
    assert(visits(once, requested) == visits(rows, requested) + 1);
    assert(visits(twice, requested) == visits(once, requested) + 1);
}

/// Two visits of one link, made with any headers, are recorded independently: each adds
/// one visit to the count of its own referer and user agent, and none to another's.
pub proof fn law_concurrent_redirects_each_count_once(
    link: Link,
    requested: Seq<char>,
    first: Redirect,
    first_referer: Option<String>,
    first_agent: Option<String>,
    second: Redirect,
    second_referer: Option<String>,
    second_agent: Option<String>,
    rows: Seq<StatisticRow>,
    key: (Option<Seq<char>>, Option<Seq<char>>),
)
    requires
        is_redirect_to(first, requested, link, first_referer, first_agent),
        is_redirect_to(second, requested, link, second_referer, second_agent),
    ensures
        visits(rows.push(first.statistic).push(second.statistic), requested) == visits(
            rows,
            requested,
        ) + 2,
        visits_with(rows.push(first.statistic).push(second.statistic), requested, key)
            == visits_with(rows, requested, key) + (if row_key(first.statistic) == key {
            1int
        } else {
            0int
        }) + (if row_key(second.statistic) == key {
            1int
        } else {
            0int
        }),
{
    let once = rows.push(first.statistic);
    let twice = once.push(second.statistic);
    assert(once.drop_last() =~= rows);
    assert(twice.drop_last() =~= once);
    assert(visits(once, requested) == visits(rows, requested) + 1);
    assert(visits(twice, requested) == visits(once, requested) + 1);
    assert(visits_with(once, requested, key) == visits_with(rows, requested, key) + (if row_key(
        first.statistic,
    ) == key {
        1int
    } else {
        0int
    }));
    assert(visits_with(twice, requested, key) == visits_with(once, requested, key) + (if row_key(
        second.statistic,
    ) == key {
        1int
    } else {
        0int
    }));
}

} // verus!
