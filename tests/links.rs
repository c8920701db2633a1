use link_shortener::links::{
    create_link_with_number, LinkError, StatisticRow, DEFAULT_CACHE_CONTROL_HEADER_VALUE,
    TEMPORARY_REDIRECT,
};
use link_shortener::{create_link, redirect, update_link, Link, LinkTarget};

fn target(s: &str) -> LinkTarget {
    LinkTarget { target_url: s.to_string() }
}

fn link(id: &str, url: &str) -> Link {
    Link { id: id.to_string(), target_url: url.to_string() }
}

#[test]
fn scenario_create_redirect_update() {
    let created = create_link(target("https://example.com/")).ok().unwrap();
    assert_eq!(created.target_url, "https://example.com/");
    assert!(!created.id.is_empty());

    let stored = link("abc123", "https://example.com/");
    let visit = redirect("abc123".to_string(), Some(stored), None, None).ok().unwrap();
    assert_eq!(visit.response.status, 307);
    assert_eq!(visit.response.location, "https://example.com/");
    assert_eq!(visit.statistic.link_id, "abc123");

    let missing = redirect("missing".to_string(), None, None, None).err().unwrap();
    assert!(matches!(missing, LinkError::NotFound));
    assert_eq!(missing.status(), 404);
    assert_eq!(missing.message(), "Not Found");

    let updated = update_link("abc123".to_string(), target("https://example.org/")).ok().unwrap();
    assert_eq!(updated.id, "abc123");
    assert_eq!(updated.target_url, "https://example.org/");

    let again = redirect("abc123".to_string(), Some(updated), None, None).ok().unwrap();
    assert_eq!(again.response.location, "https://example.org/");
}

#[test]
fn create_link_normalizes_target() {
    let created = create_link(target("https://example.com")).ok().unwrap();
    assert_eq!(created.target_url, "https://example.com/");
    let created = create_link(target("HTTPS://Example.COM/a/../b")).ok().unwrap();
    assert_eq!(created.target_url, "https://example.com/b");
}

#[test]
fn create_link_id_is_url_safe() {
    for _ in 0..50 {
        let created = create_link(target("https://example.com/")).ok().unwrap();
        assert!(!created.id.is_empty());
        assert!(created
            .id
            .chars()
            .all(|c| c.is_ascii_alphanumeric() || c == '-' || c == '_'));
    }
}

#[test]
fn create_link_with_number_is_exact() {
    let l = create_link_with_number(123, target("https://example.com/x?y=1")).ok().unwrap();
    assert_eq!(l.id, "MTIz");
    assert_eq!(l.target_url, "https://example.com/x?y=1");
}

#[test]
fn create_link_rejects_malformed_url() {
    for bad in ["not a url", "/relative/path", "", "example.com"] {
        let e = create_link(target(bad)).err().unwrap();
        assert_eq!(e.status(), 409);
        assert_eq!(e.message(), "url malformed");
        let e = create_link_with_number(7, target(bad)).err().unwrap();
        assert_eq!(e.message(), "url malformed");
    }
}

#[test]
fn update_link_rejects_malformed_url() {
    for bad in ["not a url", "/relative/path", "", "example.com"] {
        let e = update_link("abc123".to_string(), target(bad)).err().unwrap();
        assert_eq!(e.status(), 409);
        assert_eq!(e.message(), "Url malformed");
    }
}

#[test]
fn update_link_normalizes_target() {
    let l = update_link("id1".to_string(), target("http://Example.org")).ok().unwrap();
    assert_eq!(l.id, "id1");
    assert_eq!(l.target_url, "http://example.org/");
}

#[test]
fn redirect_unknown_link_is_not_found() {
    for id in ["", "abc", "never-created"] {
        let e = redirect(id.to_string(), None, Some("r".to_string()), None).err().unwrap();
        assert!(matches!(e, LinkError::NotFound));
        assert_eq!(e.status(), 404);
    }
}

#[test]
fn redirect_carries_headers_and_cache_control() {
    let visit = redirect(
        "abc".to_string(),
        Some(link("abc", "https://example.com/")),
        Some("https://ref.example/".to_string()),
        Some("agent/1.0".to_string()),
    )
    .ok()
    .unwrap();
    assert_eq!(visit.response.status, TEMPORARY_REDIRECT);
    assert_eq!(
        visit.response.cache_control,
        "public, max-age=300, s-maxage=300, state-while-revalidate=300, stale-if-error=300"
    );
    assert_eq!(visit.response.cache_control, DEFAULT_CACHE_CONTROL_HEADER_VALUE);
    let StatisticRow { link_id, referer, user_agent } = visit.statistic;
    assert_eq!(link_id, "abc");
    assert_eq!(referer.as_deref(), Some("https://ref.example/"));
    assert_eq!(user_agent.as_deref(), Some("agent/1.0"));
}

#[test]
fn repeated_redirects_agree() {
    let first = redirect("abc".to_string(), Some(link("abc", "https://example.com/")), None, None)
        .ok()
        .unwrap();
    let second = redirect("abc".to_string(), Some(link("abc", "https://example.com/")), None, None)
        .ok()
        .unwrap();
    assert_eq!(first.response.location, second.response.location);
    assert_eq!(first.statistic.link_id, second.statistic.link_id);
}

#[test]
fn internal_error_reports_500() {
    let e = LinkError::Internal("database is locked".to_string());
    assert_eq!(e.status(), 500);
    assert_eq!(e.message(), "database is locked");
}
