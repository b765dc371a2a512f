use pack_index::redirect::{is_redirect, RedirectFetch, RedirectStep};
use pack_index::resolver::plan_seeds;
use pack_index::uri::UriParts;

fn start(seed: &str) -> RedirectFetch {
    let plans = plan_seeds(&vec![seed.to_string()]);
    let parts: UriParts = plans.into_iter().next().unwrap().expect("seed must parse");
    RedirectFetch::new(parts)
}

#[test]
fn redirect_statuses_are_the_five_standard_ones() {
    for s in [301u16, 302, 303, 307, 308] {
        assert!(is_redirect(s));
    }
    for s in [200u16, 201, 204, 300, 304, 400, 404, 500] {
        assert!(!is_redirect(s));
    }
}

#[test]
fn terminal_response_ends_the_chain_after_one_request() {
    let mut m = start("http://example.com/index.vidx");
    assert_eq!(m.last_uri().text, "http://example.com/index.vidx");
    let step = m.on_response(200, None);
    assert_eq!(step, RedirectStep::Done);
    assert_eq!(m.urls.len(), 1);
}

#[test]
fn error_statuses_are_terminal_not_followed() {
    // No status-code validation happens at this layer: a 404 body is handed
    // to the caller like any terminal response.
    let mut m = start("http://example.com/index.vidx");
    let step = m.on_response(404, None);
    assert_eq!(step, RedirectStep::Done);
    assert_eq!(m.urls.len(), 1);
}

#[test]
fn one_absolute_redirect_adds_one_request() {
    let mut m = start("http://example.com/index.vidx");
    let step = m.on_response(301, Some("http://mirror.example/index.vidx".to_string()));
    assert_eq!(step, RedirectStep::Follow);
    assert_eq!(m.urls.len(), 2);
    assert_eq!(m.last_uri().text, "http://mirror.example/index.vidx");
    let step = m.on_response(200, None);
    assert_eq!(step, RedirectStep::Done);
    assert_eq!(m.urls.len(), 2);
}

#[test]
fn chain_of_three_redirects_issues_four_requests() {
    let mut m = start("http://example.com/a");
    for target in ["http://example.com/b", "http://example.com/c", "http://mirror.example/d"] {
        let step = m.on_response(302, Some(target.to_string()));
        assert_eq!(step, RedirectStep::Follow);
    }
    let step = m.on_response(200, None);
    assert_eq!(step, RedirectStep::Done);
    assert_eq!(m.urls.len(), 4);
    assert_eq!(m.last_uri().text, "http://mirror.example/d");
}

#[test]
fn relative_location_without_prior_authority_is_followed_as_is() {
    // A path-only seed has no authority, so a path-only Location is followed
    // unchanged.
    let mut m = start("/local/index.vidx");
    assert!(m.last_uri().authority.is_none());
    let step = m.on_response(302, Some("/local/other.vidx".to_string()));
    assert_eq!(step, RedirectStep::Follow);
    assert_eq!(m.last_uri().text, "/local/other.vidx");
}

#[test]
fn relative_location_resolves_against_preceding_authority() {
    // The machine prepends the authority of the immediately preceding
    // request ("example.com") to the relative Location and re-parses the
    // result. hyper's current Uri parser rejects the authority-plus-path
    // form "example.com/other.vidx", so the fetch fails as a URI-parse
    // error rather than following some other target; the chain is left
    // unchanged either way.
    let mut m = start("http://example.com/index.vidx");
    assert_eq!(m.last_uri().authority.as_deref(), Some("example.com"));
    let step = m.on_response(302, Some("/other.vidx".to_string()));
    assert_eq!(step, RedirectStep::Failed);
    assert_eq!(m.urls.len(), 1);
}

#[test]
fn missing_location_on_a_redirect_fails_the_fetch() {
    let mut m = start("http://example.com/index.vidx");
    let step = m.on_response(301, None);
    assert_eq!(step, RedirectStep::Failed);
    assert_eq!(m.urls.len(), 1);
}

#[test]
fn unparsable_location_fails_the_fetch() {
    let mut m = start("http://example.com/index.vidx");
    let step = m.on_response(301, Some("http://bad uri/with space".to_string()));
    assert_eq!(step, RedirectStep::Failed);
    assert_eq!(m.urls.len(), 1);
}
