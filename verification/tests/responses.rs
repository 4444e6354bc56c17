use coder::client::interpret_response;
use coder::error::Error;
use coder::headers::Headers;
use coder::json::{decode_org_member_body, decode_user_body};
use coder::models::{OrgRole, SiteRole, User};

fn canned_headers() -> Headers {
    Headers::new(vec![(
        String::from("content-type"),
        String::from("application/json"),
    )])
}

fn user_body() -> Vec<u8> {
    let text = r#"{"id":"5e876cf4-10abe9b2e54eb609c5ec1870","name":"Colin","username":"colin","email":"colin@example.com","dotfiles_git_uri":"","roles":["site-manager","site-auditor"],"avatar_hash":"28707d","key_regenerated_at":"2020-04-03T17:05:56.964782Z","created_at":"2020-04-03T17:05:56.964782Z","updated_at":"2020-05-29T18:10:33.532351Z"}"#;
    text.as_bytes().to_vec()
}

#[test]
fn test_success_status_with_valid_body() {
    let body = user_body();
    let decoded = decode_user_body(&body);
    let resp = interpret_response::<User>(200, canned_headers(), &body, decoded)
        .expect("a 200 with a valid body is an envelope");
    assert_eq!(resp.status_code, 200);
    let user = resp.response.expect("the payload rides in Ok");
    assert_eq!(user.id, "5e876cf4-10abe9b2e54eb609c5ec1870");
    assert_eq!(user.roles, vec![SiteRole::Manager, SiteRole::Auditor]);
    assert_eq!(user.created_at, "2020-04-03T17:05:56.964782Z");
}

#[test]
fn test_error_status_with_error_body_is_data() {
    let body = br#"{"error":{"msg":"not found","code":"NF","details":{"id":7}}}"#.to_vec();
    let resp = interpret_response::<User>(404, canned_headers(), &body, None)
        .expect("a 404 with a JSON body is an envelope, not a failure");
    assert_eq!(resp.status_code, 404);
    let err = resp.response.expect_err("the error document rides in Err");
    assert_eq!(err.error.msg, "not found");
    assert_eq!(err.error.code, "NF");
    assert_eq!(err.error.details, r#"{"id":7}"#);
}

#[test]
fn test_error_body_defaults() {
    let body = br#"{"error":{"msg":"denied"}}"#.to_vec();
    let resp = interpret_response::<User>(403, canned_headers(), &body, None).unwrap();
    let err = resp.response.expect_err("error document");
    assert_eq!(err.error.msg, "denied");
    assert_eq!(err.error.code, "");
    assert_eq!(err.error.details, "null");
}

#[test]
fn test_error_body_raw_fallback() {
    // A well-formed document without the structured shape is captured raw.
    let body = br#"["whatever",1]"#.to_vec();
    let resp = interpret_response::<User>(500, canned_headers(), &body, None).unwrap();
    let err = resp.response.expect_err("error document");
    assert_eq!(err.error.msg, r#"["whatever",1]"#);
    assert_eq!(err.error.code, "");
}

#[test]
fn test_success_status_with_truncated_body_fails_decode() {
    let body = br#"{"id": "5e8"#.to_vec();
    let decoded = decode_user_body(&body);
    assert!(decoded.is_none());
    let r = interpret_response::<User>(200, canned_headers(), &body, decoded);
    assert!(matches!(r, Err(Error::Decode)));
}

#[test]
fn test_error_status_with_non_json_body_fails_decode() {
    let body = b"<html>bad gateway</html>".to_vec();
    let r = interpret_response::<User>(502, canned_headers(), &body, None);
    assert!(matches!(r, Err(Error::Decode)));
}

#[test]
fn test_member_decode_embeds_user() {
    let text = r#"{"id":"5e876cf4-10abe9b2e54eb609c5ec1870","name":"Colin","username":"colin","email":"colin@example.com","dotfiles_git_uri":"","roles":["site-member"],"avatar_hash":"28707d","key_regenerated_at":"2020-04-03T17:05:56.964782Z","created_at":"2020-04-03T17:05:56.964782Z","updated_at":"2020-05-29T18:10:33.532351Z","organization_roles":["organization-admin"],"has_active_environments":true,"joined_at":"2020-04-03T17:05:56.964782Z","roles_updated_at":"2020-05-29T18:10:33.532351Z"}"#;
    let body = text.as_bytes().to_vec();
    let member = decode_org_member_body(&body).expect("a matching record decodes");
    assert_eq!(member.user.id, "5e876cf4-10abe9b2e54eb609c5ec1870");
    assert_eq!(member.organization_roles, vec![OrgRole::Admin]);
    assert!(member.has_active_environments);
}

#[test]
fn test_member_decode_rejects_unknown_role() {
    let text = r#"{"id":"x","name":"n","username":"u","email":"e","dotfiles_git_uri":"","roles":["site-emperor"],"avatar_hash":"","key_regenerated_at":"","created_at":"","updated_at":""}"#;
    assert!(decode_user_body(text.as_bytes()).is_none());
}

#[test]
fn test_headers_lookup() {
    let h = canned_headers();
    assert_eq!(h.get("content-type"), Some(&String::from("application/json")));
    assert_eq!(h.get("server"), None);
    assert_eq!(h.pairs().len(), 1);
}

#[test]
fn test_error_messages() {
    assert_eq!(
        Error::UrlParse.message(),
        "url parse error: not an absolute URL"
    );
    assert_eq!(
        Error::Composition { part: String::from("a b") }.message(),
        "url composition error: invalid part `a b`"
    );
    assert_eq!(
        Error::Transport { message: String::from("connection reset") }.message(),
        "transport error: connection reset"
    );
    assert_eq!(
        Error::Decode.message(),
        "decode error: body is not the expected JSON shape"
    );
}
