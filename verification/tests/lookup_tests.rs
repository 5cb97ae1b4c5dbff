//! Host normalization, base-URL resolution, descriptor vetting, and the
//! authentication reply reading.

use pocket_ark_client::text::{str_eq, str_starts_with, strip_leading_slash};
use pocket_ark_client::auth::{
    account_create_url, interpret_auth_reply, login_url, ServerAuthError, TokenResponse,
};
use pocket_ark_client::lookup::{
    check_server_details, min_server_version, normalize_host, resolve_base_url, LookupError,
    Version,
};

#[test]
fn scheme_is_inferred_and_slash_appended() {
    assert_eq!(normalize_host("example.com"), ("http://example.com/".to_string(), true));
    assert_eq!(normalize_host("http://example.com"), ("http://example.com/".to_string(), false));
    assert_eq!(
        normalize_host("https://example.com/base"),
        ("https://example.com/base/".to_string(), false)
    );
    assert_eq!(normalize_host("example.com/"), ("http://example.com/".to_string(), true));
}

#[test]
fn resolution_canonicalizes_the_base() {
    assert_eq!(resolve_base_url("example.com").unwrap(), "http://example.com/");
    assert_eq!(resolve_base_url("example.com:80").unwrap(), "http://example.com/");
    assert_eq!(resolve_base_url("example.com:8080").unwrap(), "http://example.com:8080/");
    assert_eq!(resolve_base_url("https://example.com").unwrap(), "https://example.com/");
}

#[test]
fn secure_port_with_inferred_scheme_switches_to_https() {
    assert_eq!(resolve_base_url("example.com:443").unwrap(), "https://example.com/");
    assert_eq!(
        resolve_base_url("http://example.com:443").unwrap(),
        "http://example.com:443/"
    );
}

#[test]
fn unparseable_host_is_rejected() {
    assert!(matches!(resolve_base_url("http://["), Err(LookupError::InvalidHostTarget)));
}

fn release(major: u64, minor: u64, patch: u64) -> Version {
    Version { major, minor, patch, has_pre: false }
}

#[test]
fn version_ordering_matches_semver_precedence() {
    assert!(release(0, 0, 9).precedes(&release(0, 1, 0)));
    assert!(release(0, 1, 0).precedes(&release(0, 1, 1)));
    assert!(release(1, 0, 0).precedes(&release(2, 0, 0)));
    assert!(!release(0, 1, 0).precedes(&release(0, 1, 0)));
    assert!(!release(1, 2, 3).precedes(&release(1, 2, 0)));
    let pre = Version { major: 0, minor: 1, patch: 0, has_pre: true };
    assert!(pre.precedes(&release(0, 1, 0)));
    assert!(!release(0, 1, 0).precedes(&pre));
}

#[test]
fn details_with_proper_ident_and_version_succeed() {
    let data = check_server_details(
        "http://remote.example/".to_string(),
        Some("POCKET_ARK_SERVER".to_string()),
        release(0, 2, 5),
        Some("assoc".to_string()),
    )
    .unwrap();
    assert_eq!(data.url, "http://remote.example/");
    assert_eq!(data.version, release(0, 2, 5));
    assert_eq!(data.association.as_deref(), Some("assoc"));
}

#[test]
fn wrong_or_missing_ident_is_not_a_proper_server() {
    let err = check_server_details(
        "http://remote.example/".to_string(),
        Some("SOME_OTHER_SERVER".to_string()),
        release(0, 2, 5),
        None,
    )
    .unwrap_err();
    assert!(matches!(err, LookupError::NotPocketArk));
    let err = check_server_details(
        "http://remote.example/".to_string(),
        None,
        release(0, 2, 5),
        None,
    )
    .unwrap_err();
    assert!(matches!(err, LookupError::NotPocketArk));
}

#[test]
fn outdated_server_reports_both_versions() {
    let err = check_server_details(
        "http://remote.example/".to_string(),
        Some("POCKET_ARK_SERVER".to_string()),
        release(0, 0, 9),
        None,
    )
    .unwrap_err();
    match err {
        LookupError::ServerOutdated(server, minimum) => {
            assert_eq!(server, release(0, 0, 9));
            assert_eq!(minimum, min_server_version());
        },
        other => panic!("unexpected outcome: {:?}", other),
    }
}

#[test]
fn auth_endpoints_join_against_the_base() {
    assert_eq!(
        account_create_url("http://remote.example/").unwrap(),
        "http://remote.example/api/server/create"
    );
    assert_eq!(
        login_url("http://remote.example/").unwrap(),
        "http://remote.example/api/server/login"
    );
    assert!(account_create_url("not a url").is_none());
}

#[test]
fn auth_reply_reading_is_exact() {
    let err = interpret_auth_reply(404, "no such account".to_string(), None).unwrap_err();
    match err {
        ServerAuthError::ServerError(text) => assert_eq!(text, "no such account"),
        other => panic!("unexpected outcome: {:?}", other),
    }
    let err = interpret_auth_reply(200, String::new(), None).unwrap_err();
    assert!(matches!(err, ServerAuthError::Malformed));
    let token = interpret_auth_reply(
        200,
        String::new(),
        Some(TokenResponse { token: "issued-token".to_string() }),
    )
    .unwrap();
    assert_eq!(token, "issued-token");
}

#[test]
fn text_helpers_behave() {
    assert!(str_eq("abc", "abc"));
    assert!(!str_eq("abc", "abd"));
    assert!(!str_eq("abc", "ab"));
    assert!(str_starts_with("http://x", "http://"));
    assert!(!str_starts_with("htt", "http://"));
    assert_eq!(strip_leading_slash("/a/b"), "a/b");
    assert_eq!(strip_leading_slash("a/b"), "a/b");
    assert_eq!(strip_leading_slash("//a"), "/a");
    assert_eq!(strip_leading_slash(""), "");
}

#[test]
fn tls_policy_pins_one_version() {
    let policy = pocket_ark_client::tls::server_tls_policy();
    assert_eq!(policy.min_version, policy.max_version);
    assert_eq!(policy.min_version, 0x0303);
}
