use coder::client::{Coder, Executor};
use coder::error::Error;

fn client() -> Coder {
    Coder::new(
        String::from("https://manager.example.com"),
        String::from("SECRET-REDACTED"),
    )
    .expect("base URL should parse")
}

#[test]
fn test_root_path() {
    let c = client();
    let req = c.orgs().finish().expect("chain is live");
    assert_eq!(req.url, "https://manager.example.com/api/orgs");
    assert_eq!(req.method(), "GET");
}

#[test]
fn test_keyed_path() {
    let c = client();
    let req = c.orgs().get("default").finish().expect("chain is live");
    assert_eq!(req.url, "https://manager.example.com/api/orgs/default");
}

#[test]
fn test_end_to_end_member_path() {
    let c = client();
    let req = c
        .orgs()
        .get("default")
        .members()
        .get("5e876cf4-10abe9b2e54eb609c5ec1870")
        .finish()
        .expect("chain is live");
    assert_eq!(
        req.url,
        "https://manager.example.com/api/orgs/default/members/5e876cf4-10abe9b2e54eb609c5ec1870"
    );
}

#[test]
fn test_every_entry_point_path() {
    let c = client();
    assert_eq!(
        c.users().finish().unwrap().url,
        "https://manager.example.com/api/users"
    );
    assert_eq!(
        c.users().me().finish().unwrap().url,
        "https://manager.example.com/api/users/me"
    );
    assert_eq!(
        c.orgs().namespaces().finish().unwrap().url,
        "https://manager.example.com/api/orgs/namespaces"
    );
    assert_eq!(
        c.envs().get("5ed15061-d7d3db1d91600a4fed28f6ed").finish().unwrap().url,
        "https://manager.example.com/api/environments/5ed15061-d7d3db1d91600a4fed28f6ed"
    );
    assert_eq!(
        c.images().get("5ea8a569-596e6afd9301c23f8dabd87c").tags().finish().unwrap().url,
        "https://manager.example.com/api/images/5ea8a569-596e6afd9301c23f8dabd87c/tags"
    );
    assert_eq!(
        c.registries().get("5ea8a565-bdec42be59ffe9cf6b131e7c").finish().unwrap().url,
        "https://manager.example.com/api/registries/5ea8a565-bdec42be59ffe9cf6b131e7c"
    );
    assert_eq!(
        c.orgs().get("default").services().get("5f15b3a2-57f7a823e4d379409978edbf").finish().unwrap().url,
        "https://manager.example.com/api/orgs/default/services/5f15b3a2-57f7a823e4d379409978edbf"
    );
    assert_eq!(
        c.orgs().get("default").envs().finish().unwrap().url,
        "https://manager.example.com/api/orgs/default/environments"
    );
    assert_eq!(
        c.orgs()
            .get("default")
            .members()
            .get("5e876cf4-10abe9b2e54eb609c5ec1870")
            .envs()
            .finish()
            .unwrap()
            .url,
        "https://manager.example.com/api/orgs/default/members/5e876cf4-10abe9b2e54eb609c5ec1870/environments"
    );
}

#[test]
fn test_no_double_separator_when_origin_has_path() {
    // The base URL's own path is dropped at construction: chains start at
    // the origin plus the fixed prefix.
    let c = Coder::new(
        String::from("https://manager.example.com/some/prefix"),
        String::from("SECRET-REDACTED"),
    )
    .expect("base URL should parse");
    let req = c.orgs().finish().expect("chain is live");
    assert_eq!(req.url, "https://manager.example.com/api/orgs");
    assert!(!req.url.contains("//api"));
}

#[test]
fn test_invalid_base_url_rejected() {
    let r = Coder::new(String::from("not a url"), String::from("t"));
    assert!(matches!(r, Err(Error::UrlParse)));
    // An absolute URL without a host-bearing scheme is rejected too.
    let r = Coder::new(String::from("mailto:nobody@example.com"), String::from("t"));
    assert!(matches!(r, Err(Error::UrlParse)));
    // Blob URLs are refused outright, however deeply they nest.
    let r = Coder::new(
        String::from("blob:blob:blob:https://manager.example.com"),
        String::from("t"),
    );
    assert!(matches!(r, Err(Error::UrlParse)));
    let mut deep = String::new();
    for _ in 0..200000 {
        deep.push_str("blob:");
    }
    deep.push_str("https://manager.example.com");
    let r = Coder::new(deep, String::from("t"));
    assert!(matches!(r, Err(Error::UrlParse)));
}

#[test]
fn test_poisoned_chain_carries_first_error() {
    let c = client();
    // A space cannot stand in a path segment: the chain poisons there.
    let r = c
        .orgs()
        .get("some random id")
        .members()
        .get("5e876cf4-10abe9b2e54eb609c5ec1870")
        .finish();
    match r {
        Err(Error::Composition { part }) => assert_eq!(part, "some random id"),
        _ => panic!("expected the original composition error"),
    }
}

#[test]
fn test_poisoned_chain_ignores_later_navigation_and_query() {
    let c = client();
    // Poison first, then navigate and attach a query: the first error must
    // come back, not a later one.
    let r = c.images().get("bad/../id").with_envs(true).tags().finish();
    match r {
        Err(Error::Composition { part }) => assert_eq!(part, "bad/../id"),
        _ => panic!("expected the original composition error"),
    }
}

#[test]
fn test_empty_segment_poisons() {
    let c = client();
    let r = c.users().get("").finish();
    match r {
        Err(Error::Composition { part }) => assert_eq!(part, ""),
        _ => panic!("expected a composition error"),
    }
}

#[test]
fn test_query_two_keys_both_present() {
    let c = client();
    let req = c
        .images()
        .get("5ea8a569-596e6afd9301c23f8dabd87c")
        .with_envs(true)
        .with_user_ids(false)
        .finish()
        .expect("chain is live");
    assert_eq!(
        req.url,
        "https://manager.example.com/api/images/5ea8a569-596e6afd9301c23f8dabd87c?envs=true&user_ids=false"
    );
}

#[test]
fn test_query_last_write_wins() {
    let c = client();
    let req = c
        .images()
        .get("5ea8a569-596e6afd9301c23f8dabd87c")
        .with_envs(false)
        .with_envs(true)
        .finish()
        .expect("chain is live");
    assert_eq!(
        req.url,
        "https://manager.example.com/api/images/5ea8a569-596e6afd9301c23f8dabd87c?envs=true"
    );
}

#[test]
fn test_request_headers() {
    let c = client();
    let req = c.users().finish().expect("chain is live");
    assert_eq!(req.headers.len(), 2);
    assert_eq!(req.headers[0].0, "User-Agent");
    assert_eq!(req.headers[0].1, "coder.rs 0.1.0");
    assert_eq!(req.headers[1].0, "Session-Token");
    assert_eq!(req.headers[1].1, "SECRET-REDACTED");
}

#[test]
fn test_concurrent_chains_do_not_interfere() {
    // Two chains from one client, built interleaved: each owns its state,
    // so neither sees the other's segments or query pairs.
    let c = client();
    let a = c.orgs();
    let b = c.users();
    let a = a.get("default");
    let b = b.get("5e876cf4-10abe9b2e54eb609c5ec1870");
    let a = a.members();
    let ra = a.finish().expect("first chain is live");
    let rb = b.finish().expect("second chain is live");
    assert_eq!(ra.url, "https://manager.example.com/api/orgs/default/members");
    assert_eq!(
        rb.url,
        "https://manager.example.com/api/users/5e876cf4-10abe9b2e54eb609c5ec1870"
    );
}

#[test]
fn test_custom_request_from_root() {
    let c = client();
    let b = c.new_request();
    let req = b
        .join_path("orgs")
        .join_segments(&vec![String::from("default"), String::from("members")])
        .build()
        .expect("chain is live");
    assert_eq!(
        req.url,
        "https://manager.example.com/api/orgs/default/members"
    );
}

#[test]
fn test_join_segments_empty_is_identity() {
    let c = client();
    let with_empty = c
        .new_request()
        .join_path("orgs")
        .join_segments(&vec![])
        .build()
        .expect("chain is live");
    let without = c.new_request().join_path("orgs").build().expect("chain is live");
    assert_eq!(with_empty.url, without.url);
}

#[test]
fn test_url_join_empty_list_is_identity() {
    let joined = coder::util::url_join("https://h.example.com/api", &vec![]);
    assert_eq!(joined, "https://h.example.com/api");
}

#[test]
fn test_url_join_single_separators() {
    let joined = coder::util::url_join(
        "https://h.example.com",
        &vec![String::from("api"), String::from("orgs"), String::from("default")],
    );
    assert_eq!(joined, "https://h.example.com/api/orgs/default");
}

#[test]
fn test_url_join_normalizes_trailing_separator() {
    // A base already ending in `/` gets no second separator.
    let joined = coder::util::url_join(
        "https://h.example.com/api/",
        &vec![String::from("orgs"), String::from("default")],
    );
    assert_eq!(joined, "https://h.example.com/api/orgs/default");
    let joined = coder::util::url_join("/b/", &vec![String::from("a")]);
    assert_eq!(joined, "/b/a");
    assert!(!joined.contains("//"));
}
