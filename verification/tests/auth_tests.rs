use p2p_claude_daemon::auth::{AuthError, AuthManager, DaemonConfig, PairingCode};

#[test]
fn issued_code_is_zero_padded_six_digits() {
    let pc = PairingCode::issue(42, 1_000, 300);
    assert_eq!(pc.code, "000042");
    assert_eq!(pc.expires_at, 1_300);
    assert_eq!(pc.client_id, None);
    assert_eq!(PairingCode::issue(999_999, 0, 0).code, "999999");
    assert_eq!(PairingCode::issue(0, 0, 0).code, "000000");
    assert_eq!(PairingCode::issue(123_456, 0, 0).code, "123456");
}

#[test]
fn expiration_saturates() {
    let pc = PairingCode::issue(1, u64::MAX - 10, 300);
    assert_eq!(pc.expires_at, u64::MAX);
}

#[test]
fn code_matches_until_it_expires() {
    let pc = PairingCode::issue(123_456, 1_000, 300);
    assert!(pc.matches_at("123456", 1_000));
    assert!(pc.matches_at("123456", 1_300));
    assert!(!pc.matches_at("123456", 1_301));
    assert!(!pc.matches_at("123457", 1_100));
    assert!(!pc.matches_at("12345", 1_100));
    assert!(!pc.is_expired_at(1_300));
    assert!(pc.is_expired_at(1_301));
}

#[test]
fn generated_code_is_six_digits_and_live() {
    let pc = PairingCode::new(300);
    assert_eq!(pc.code.len(), 6);
    assert!(pc.code.chars().all(|c| c.is_ascii_digit()));
    assert!(!pc.is_expired());
    assert!(pc.matches(&pc.code.clone()));
}

#[test]
fn validation_follows_the_active_code() {
    let mut auth = AuthManager::new("key".to_string());
    assert_eq!(auth.api_key(), "key");
    assert_eq!(auth.validate_pairing_code("123456"), Err(AuthError::NoActiveCode));
    let code = auth.generate_pairing_code(300);
    assert_eq!(code.len(), 6);
    assert_eq!(auth.validate_pairing_code(&code), Ok(()));
    let other = if code == "000000" { "000001" } else { "000000" };
    assert_eq!(auth.validate_pairing_code(other), Err(AuthError::InvalidOrExpired));
    auth.clear_pairing_code();
    assert_eq!(auth.validate_pairing_code(&code), Err(AuthError::NoActiveCode));
}

#[test]
fn expired_code_is_refused() {
    let mut auth = AuthManager::new(String::new());
    let code = auth.generate_pairing_code(0);
    assert_eq!(auth.validate_pairing_code_at(&code, u64::MAX), Err(AuthError::InvalidOrExpired));
    assert_eq!(auth.validate_pairing_code_at(&code, 0), Ok(()));
}

#[test]
fn allowed_clients() {
    let mut auth = AuthManager::new(String::new());
    assert!(auth.is_client_allowed("anyone"));
    auth.add_allowed_client("phone".to_string());
    assert!(auth.is_client_allowed("phone"));
    assert!(!auth.is_client_allowed("tablet"));
    auth.add_allowed_client("tablet".to_string());
    assert!(auth.is_client_allowed("tablet"));
}

#[test]
fn default_config_values() {
    let c = DaemonConfig::with_api_key("k".to_string());
    assert_eq!(c.api_key, "k");
    assert_eq!(c.signaling_url, "ws://localhost:8080/ws");
    assert_eq!(c.stun_servers, vec!["stun.l.google.com:19302".to_string()]);
    assert_eq!(c.root_path, ".");
    assert_eq!(c.confirm_mode, "auto");
    assert_eq!(c.listen_port, 8081);
}
