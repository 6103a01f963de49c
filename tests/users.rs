use streamie::database::{check_password, create_hash, to_hex};
use streamie::security::{
    authenticate, login_proceed, validate_token_at, Identity, LoginOutcome, LoginUser, SecurityRole,
};
use streamie::sessions::{to_tera_user, User};
use streamie::usermanagement::{create_new_user, create_salt, new_user_record, user_result, NewUser};

fn account(role: &str) -> User {
    User {
        id: "62a05c8631a6964f64d829ac".to_string(),
        username: "admin".to_string(),
        hash: create_hash(&"correctSALT".to_string()),
        salt: "SALT".to_string(),
        role: role.to_string(),
        fullname: "Ada Admin".to_string(),
    }
}

fn login_form(pass: &str, captcha: &str) -> LoginUser {
    LoginUser { user: "admin".to_string(), pass: pass.to_string(), captcha: captcha.to_string() }
}

#[test]
fn test_salt_creator() {
    let salt = create_salt();
    assert_eq!(salt.chars().count(), 30);
}

#[test]
fn salt_is_alphanumeric_and_fresh() {
    let a = create_salt();
    let b = create_salt();
    assert!(a.chars().all(|c| c.is_ascii_alphanumeric()));
    assert_ne!(a, b);
}

#[test]
fn hash_is_hex_sha256() {
    assert_eq!(
        create_hash(&"abc".to_string()),
        "ba7816bf8f01cfea414140de5dae2223b00361a396177a9cb410ff61f20015ad"
    );
    assert_eq!(
        create_hash(&"correctSALT".to_string()),
        "b9ebe69a3b8969022ba7c8d790702e741af0c2e3e2d9b01795e152f5581a62af"
    );
    assert_eq!(to_hex(&vec![0x00, 0x0f, 0xa0, 0xff]), "000fa0ff");
    assert_eq!(to_hex(&vec![]), "");
}

#[test]
fn password_check() {
    assert!(check_password(account("ADMIN"), "correct".to_string()).is_some());
    assert!(check_password(account("ADMIN"), "wrong".to_string()).is_none());
    assert!(check_password(account("ADMIN"), "".to_string()).is_none());
}

#[test]
fn admin_login_sets_admin_token() {
    let outcome = login_proceed(Some("XK3PQ".to_string()), &login_form("correct", "XK3PQ"), Some(account("ADMIN")), 1000);
    assert_eq!(outcome.message(), "Eingeloggt");
    match outcome {
        LoginOutcome::LoggedIn { fullname, token } => {
            assert_eq!(fullname, "Ada Admin");
            let claims = validate_token_at(token.clone(), 1000).expect("token in force");
            assert_eq!(claims.role, SecurityRole::ADMIN);
            assert_eq!(claims.username, "admin");
            assert_eq!(claims.iss, "streamie.live");
            assert_eq!(claims.iat, 1000);
            assert_eq!(claims.exp, 8200);
            assert!(authenticate(Some(token), 8200).is_none());
        },
        LoginOutcome::NotAuthorized => panic!("login refused"),
    }
}

#[test]
fn login_with_wrong_captcha_is_refused() {
    let outcome = login_proceed(Some("XK3PQ".to_string()), &login_form("correct", "ABCDE"), Some(account("ADMIN")), 1000);
    assert_eq!(outcome.message(), "Not Authorized");
    assert!(matches!(outcome, LoginOutcome::NotAuthorized));
    let outcome = login_proceed(None, &login_form("correct", "XK3PQ"), Some(account("ADMIN")), 1000);
    assert!(matches!(outcome, LoginOutcome::NotAuthorized));
}

#[test]
fn login_with_wrong_password_or_unknown_user_is_refused() {
    let outcome = login_proceed(Some("C".to_string()), &login_form("wrong", "C"), Some(account("ADMIN")), 1000);
    assert_eq!(outcome.message(), "Not Authorized");
    let outcome = login_proceed(Some("C".to_string()), &login_form("correct", "C"), None, 1000);
    assert_eq!(outcome.message(), "Not Authorized");
}

#[test]
fn login_role_follows_account_and_expiry_saturates() {
    let outcome = login_proceed(Some("C".to_string()), &login_form("correct", "C"), Some(account("MODERATOR")), u64::MAX - 10);
    match outcome {
        LoginOutcome::LoggedIn { token, .. } => {
            let claims = validate_token_at(token, u64::MAX - 5).expect("in force");
            assert_eq!(claims.role, SecurityRole::MODERATOR);
            assert_eq!(claims.exp, u64::MAX);
        },
        LoginOutcome::NotAuthorized => panic!("login refused"),
    }
}

#[test]
fn admin_creates_user_with_salted_hash() {
    let form = NewUser {
        fullname: "New Person".to_string(),
        username: "newbie".to_string(),
        password: "pw".to_string(),
        role: "USER".to_string(),
    };
    let admin = Some(Identity { username: "admin".to_string(), role: SecurityRole::ADMIN });
    let u = create_new_user(&admin, &form, "abc".to_string()).expect("created");
    assert_eq!(u.username, "newbie");
    assert_eq!(u.salt.chars().count(), 30);
    assert_eq!(u.hash, create_hash(&format!("pw{}", u.salt)));
    assert!(check_password(u, "pw".to_string()).is_some());
    let user = Some(Identity { username: "u".to_string(), role: SecurityRole::USER });
    assert!(create_new_user(&user, &form, "abc".to_string()).is_none());
    assert!(create_new_user(&None, &form, "abc".to_string()).is_none());
}

#[test]
fn user_record_is_exact() {
    let form = NewUser {
        fullname: "F".to_string(),
        username: "u".to_string(),
        password: "correct".to_string(),
        role: "ADMIN".to_string(),
    };
    let u = new_user_record(&form, "id1".to_string(), "SALT".to_string());
    assert_eq!(u.hash, "b9ebe69a3b8969022ba7c8d790702e741af0c2e3e2d9b01795e152f5581a62af");
    assert_eq!(u.role, "ADMIN");
    assert_eq!(u.id, "id1");
    let t = to_tera_user(u);
    assert_eq!(t.fullname, "F");
    assert_eq!(t.salt, "SALT");
}

#[test]
fn user_results() {
    assert_eq!(user_result(true).status, 1);
    assert_eq!(user_result(false).status, 0);
}
