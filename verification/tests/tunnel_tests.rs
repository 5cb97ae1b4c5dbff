//! The tunnel bridge: the two upgrade request shapes and the status rule
//! that gates any byte relaying.

use pocket_ark_client::session::SessionContext;
use pocket_ark_client::tunnel::{
    build_stream_upgrade, build_tunnel_upgrade, check_upgrade_status, ServerStreamError,
};

fn session(association: Option<&[u8]>) -> SessionContext {
    SessionContext::new(
        "http://remote.example/".to_string(),
        b"bearer-token".to_vec(),
        association.map(|a| a.to_vec()),
    )
    .unwrap()
}

fn pairs(req: &pocket_ark_client::tunnel::UpgradeRequest) -> Vec<(String, Vec<u8>)> {
    req.headers.entries.iter().map(|h| (h.name.clone(), h.value.clone())).collect()
}

#[test]
fn stream_upgrade_carries_bearer_token() {
    let req = build_stream_upgrade(&session(None)).unwrap();
    assert_eq!(req.url, "http://remote.example/api/server/upgrade");
    assert_eq!(
        pairs(&req),
        vec![
            ("connection".to_string(), b"Upgrade".to_vec()),
            ("upgrade".to_string(), b"blaze".to_vec()),
            ("x-token".to_string(), b"bearer-token".to_vec()),
        ]
    );
}

#[test]
fn stream_upgrade_appends_association_when_present() {
    let req = build_stream_upgrade(&session(Some(b"assoc-1"))).unwrap();
    assert_eq!(
        pairs(&req).last().unwrap(),
        &("x-association".to_string(), b"assoc-1".to_vec())
    );
}

#[test]
fn tunnel_upgrade_is_anonymous() {
    let req = build_tunnel_upgrade(&session(Some(b"assoc-2"))).unwrap();
    assert_eq!(req.url, "http://remote.example/api/server/tunnel");
    assert_eq!(
        pairs(&req),
        vec![
            ("connection".to_string(), b"Upgrade".to_vec()),
            ("upgrade".to_string(), b"tunnel".to_vec()),
            ("x-association".to_string(), b"assoc-2".to_vec()),
        ]
    );
    let bare = build_tunnel_upgrade(&session(None)).unwrap();
    assert!(pairs(&bare).iter().all(|(n, _)| n != "x-token"));
    assert_eq!(pairs(&bare).len(), 2);
}

#[test]
fn unauthorized_upgrade_fails_before_any_relaying() {
    match check_upgrade_status(401) {
        Err(ServerStreamError::ServerError(status)) => assert_eq!(status, 401),
        other => panic!("unexpected outcome: {:?}", other),
    }
}

#[test]
fn only_success_statuses_permit_the_upgrade() {
    assert!(check_upgrade_status(200).is_ok());
    assert!(check_upgrade_status(101).is_err());
    assert!(check_upgrade_status(204).is_ok());
    assert!(check_upgrade_status(299).is_ok());
    assert!(check_upgrade_status(300).is_err());
    assert!(check_upgrade_status(500).is_err());
}
