use socks_relay::auth::build_auth_request;
use socks_relay::auth::check_auth_reply;
use socks_relay::auth::check_method_selection;
use socks_relay::auth::upstream_greeting;
use socks_relay::credentials::Credentials;
use socks_relay::session::SessionError;

#[test]
fn upstream_greeting_is_exact() {
    assert_eq!(upstream_greeting(), vec![0x05, 0x01, 0x02]);
}

#[test]
fn auth_request_framing_is_exact() {
    let c = Credentials::new(b"bob".to_vec(), b"x".to_vec()).unwrap();
    assert_eq!(build_auth_request(&c), vec![0x01, 0x03, 0x62, 0x6F, 0x62, 0x01, 0x78]);
}

#[test]
fn auth_request_with_empty_credentials() {
    let c = Credentials::new(vec![], vec![]).unwrap();
    assert_eq!(build_auth_request(&c), vec![0x01, 0x00, 0x00]);
}

#[test]
fn auth_request_with_longest_credentials() {
    let username = vec![0xAB; 255];
    let password = vec![0xCD; 255];
    let c = Credentials::new(username.clone(), password.clone()).unwrap();
    let req = build_auth_request(&c);
    assert_eq!(req.len(), 3 + 255 + 255);
    assert_eq!(req[0], 0x01);
    assert_eq!(req[1], 255);
    assert_eq!(&req[2..257], &username[..]);
    assert_eq!(req[257], 255);
    assert_eq!(&req[258..], &password[..]);
}

#[test]
fn credentials_reject_overlong_parts() {
    assert!(Credentials::new(vec![0x61; 256], vec![]).is_none());
    assert!(Credentials::new(vec![], vec![0x61; 256]).is_none());
    assert!(Credentials::new(vec![0x61; 255], vec![0x61; 255]).is_some());
}

#[test]
fn method_selection_rejects_wrong_version() {
    assert_eq!(check_method_selection(0x04, 0x02), Err(SessionError::UnsupportedSocksVersion));
    assert_eq!(check_method_selection(0x00, 0x02), Err(SessionError::UnsupportedSocksVersion));
}

#[test]
fn method_selection_rejects_wrong_method() {
    assert_eq!(check_method_selection(0x05, 0x00), Err(SessionError::UserPassNotSupported));
    assert_eq!(check_method_selection(0x05, 0xFF), Err(SessionError::UserPassNotSupported));
}

#[test]
fn method_selection_accepts_userpass() {
    assert_eq!(check_method_selection(0x05, 0x02), Ok(()));
}

#[test]
fn auth_reply_rejects_wrong_version() {
    assert_eq!(check_auth_reply(0x05, 0x00), Err(SessionError::UnsupportedAuthVersion));
    assert_eq!(check_auth_reply(0x00, 0x00), Err(SessionError::UnsupportedAuthVersion));
}

#[test]
fn auth_reply_rejects_failure_status() {
    assert_eq!(check_auth_reply(0x01, 0x01), Err(SessionError::CredentialsRejected));
    assert_eq!(check_auth_reply(0x01, 0xFF), Err(SessionError::CredentialsRejected));
}

#[test]
fn auth_reply_accepts_success() {
    assert_eq!(check_auth_reply(0x01, 0x00), Ok(()));
}
