use std::time::{SystemTime, UNIX_EPOCH};

use streamie::decimal::{read_decimal, to_decimal};
use streamie::security::{
    authenticate, authorize, check_claims, create_token, decode, get_fullname, get_token_value,
    is_admin, logout, role_from_name, role_name, validate_token, validate_token_at, Identity,
    SecurityRole, SecurityToken,
};

fn now_secs() -> u64 {
    SystemTime::now().duration_since(UNIX_EPOCH).expect("IAT-Time for token not receivable").as_secs()
}

fn claims(username: &str, role: SecurityRole, iss: &str, iat: u64, exp: u64) -> SecurityToken {
    SecurityToken { username: username.to_string(), role, iss: iss.to_string(), iat, exp }
}

#[test]
fn test_token_create_validate() {
    let st = SecurityToken {
        username: "Testuser".to_string(),
        role: SecurityRole::MODERATOR,
        iss: "streamie.live".to_string(),
        iat: now_secs(),
        exp: now_secs() + 300,
    };

    let st_token = create_token(st);
    match validate_token(st_token) {
        Some(_) => assert_eq!(true, true),
        None => assert_eq!(true, false),
    }
}

#[test]
fn test_token_is_invalid_issuer() {
    let st = SecurityToken {
        username: "Testuser".to_string(),
        role: SecurityRole::MODERATOR,
        iss: "nicht-streamie".to_string(),
        iat: now_secs(),
        exp: now_secs() + 300,
    };

    let st_token = create_token(st);
    match validate_token(st_token) {
        Some(_) => assert_eq!(true, false),
        None => assert_eq!(true, true),
    }
}

#[test]
fn test_token_is_invalid_time() {
    let st = SecurityToken {
        username: "Testuser".to_string(),
        role: SecurityRole::MODERATOR,
        iss: "streamie.live".to_string(),
        iat: now_secs(),
        exp: 300,
    };

    let st_token = create_token(st);
    match validate_token(st_token) {
        Some(_) => assert_eq!(true, false),
        None => assert_eq!(true, true),
    }
}

#[test]
fn decimal_writes_and_reads_numbers() {
    assert_eq!(to_decimal(0), "0");
    assert_eq!(to_decimal(7200), "7200");
    assert_eq!(to_decimal(u64::MAX), "18446744073709551615");
    assert_eq!(read_decimal("1657352895"), Some(1657352895));
    assert_eq!(read_decimal("007"), Some(7));
    assert_eq!(read_decimal("18446744073709551615"), Some(u64::MAX));
    assert_eq!(read_decimal("18446744073709551616"), None);
    assert_eq!(read_decimal(""), None);
    assert_eq!(read_decimal("12a"), None);
    assert_eq!(read_decimal("-1"), None);
}

#[test]
fn token_round_trips_through_decode() {
    let token = create_token(claims("Testuser", SecurityRole::ADMIN, "streamie.live", 100, 7300));
    let c = decode(&token).expect("a token of this service decodes");
    assert_eq!(c.username, "Testuser");
    assert_eq!(c.role, SecurityRole::ADMIN);
    assert_eq!(c.iss, "streamie.live");
    assert_eq!(c.iat, 100);
    assert_eq!(c.exp, 7300);
    let v = validate_token_at(token, 7299).expect("in force before expiry");
    assert_eq!(v.username, "Testuser");
    assert_eq!(v.exp, 7300);
}

#[test]
fn token_round_trip_keeps_every_role_and_large_times() {
    for role in [SecurityRole::ADMIN, SecurityRole::MODERATOR, SecurityRole::USER] {
        let token = create_token(claims("ü-user", role, "streamie.live", 0, u64::MAX));
        let c = decode(&token).expect("decodes");
        assert_eq!(c.role, role);
        assert_eq!(c.username, "ü-user");
        assert_eq!(c.iat, 0);
        assert_eq!(c.exp, u64::MAX);
    }
}

#[test]
fn tampered_token_is_invalid() {
    let token = create_token(claims("Testuser", SecurityRole::USER, "streamie.live", 100, 7300));
    let first_dot = token.find('.').unwrap();
    let mut bytes = token.clone().into_bytes();
    let i = first_dot + 3;
    bytes[i] = if bytes[i] == b'A' { b'B' } else { b'A' };
    let tampered = String::from_utf8(bytes).unwrap();
    assert_ne!(tampered, token);
    assert!(decode(&tampered).is_none());
    assert!(validate_token_at(tampered.clone(), 200).is_none());
    assert!(authenticate(Some(tampered), 200).is_none());
}

#[test]
fn tampered_signature_is_invalid() {
    let token = create_token(claims("Testuser", SecurityRole::USER, "streamie.live", 100, 7300));
    let mut bytes = token.clone().into_bytes();
    let last = bytes.len() - 2;
    bytes[last] = if bytes[last] == b'x' { b'y' } else { b'x' };
    let tampered = String::from_utf8(bytes).unwrap();
    assert!(decode(&tampered).is_none());
}

#[test]
fn expired_token_decodes_but_does_not_authenticate() {
    let token = create_token(claims("Testuser", SecurityRole::ADMIN, "streamie.live", 100, 500));
    assert!(decode(&token).is_some());
    assert!(authenticate(Some(token.clone()), 500).is_none());
    assert!(authenticate(Some(token.clone()), 501).is_none());
    assert!(authenticate(Some(token), 499).is_some());
}

#[test]
fn foreign_issuer_does_not_authenticate() {
    let token = create_token(claims("Testuser", SecurityRole::ADMIN, "elsewhere", 100, 500));
    assert!(decode(&token).is_some());
    assert!(authenticate(Some(token), 200).is_none());
}

#[test]
fn missing_or_malformed_token_is_anonymous() {
    assert!(authenticate(None, 0).is_none());
    assert!(authenticate(Some("None".to_string()), 0).is_none());
    assert!(authenticate(Some("a.b.c".to_string()), 0).is_none());
    assert!(decode("").is_none());
}

#[test]
fn authenticate_gives_name_and_role() {
    let token = create_token(claims("mod1", SecurityRole::MODERATOR, "streamie.live", 10, 20));
    let id = authenticate(Some(token), 15).expect("valid");
    assert_eq!(id.username, "mod1");
    assert_eq!(id.role, SecurityRole::MODERATOR);
}

#[test]
fn check_claims_applies_issuer_and_expiry() {
    assert!(check_claims(claims("a", SecurityRole::USER, "streamie.live", 0, 10), 9).is_some());
    assert!(check_claims(claims("a", SecurityRole::USER, "streamie.live", 0, 10), 10).is_none());
    assert!(check_claims(claims("a", SecurityRole::USER, "other", 0, 10), 0).is_none());
}

#[test]
fn roles_compare_flat() {
    let admin = Identity { username: "a".to_string(), role: SecurityRole::ADMIN };
    assert!(authorize(&admin, SecurityRole::ADMIN));
    assert!(!authorize(&admin, SecurityRole::MODERATOR));
    assert!(!authorize(&admin, SecurityRole::USER));
    let moderator = Identity { username: "m".to_string(), role: SecurityRole::MODERATOR };
    assert!(!is_admin(&Some(moderator)));
    assert!(is_admin(&Some(admin)));
    assert!(!is_admin(&None));
}

#[test]
fn role_names_read_back() {
    assert_eq!(role_name(SecurityRole::ADMIN), "ADMIN");
    assert_eq!(role_name(SecurityRole::MODERATOR), "MODERATOR");
    assert_eq!(role_name(SecurityRole::USER), "USER");
    assert_eq!(role_from_name(&"ADMIN".to_string()), SecurityRole::ADMIN);
    assert_eq!(role_from_name(&"MODERATOR".to_string()), SecurityRole::MODERATOR);
    assert_eq!(role_from_name(&"admin".to_string()), SecurityRole::USER);
    assert_eq!(role_from_name(&"".to_string()), SecurityRole::USER);
}

#[test]
fn cookie_defaults() {
    assert_eq!(get_token_value(None), "None");
    assert_eq!(get_token_value(Some("abc".to_string())), "abc");
    assert_eq!(get_fullname(None), "Unknown User");
    assert_eq!(get_fullname(Some("Jane".to_string())), "Jane");
}

#[test]
fn logout_drops_token_cookie() {
    let l = logout();
    assert_eq!(l.removed_cookie, "streamie.live");
    assert_eq!(l.redirect_to, "/");
    assert_eq!(l.notice, "Successfully logged out.");
}
