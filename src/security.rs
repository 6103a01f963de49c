use vstd::prelude::*;

use crate::database::{check_password, hash_spec};
use crate::decimal::{decimal, lemma_parse_decimal, parse_decimal, read_decimal, to_decimal};
use crate::sessions::User;

verus! {

/// The issuer that every token of this service names.
pub const ISSUER: &'static str = "streamie.live";

/// The key with which tokens are signed and checked.
pub const TOKEN_SECRET: &'static str = "WRITEYOURSECRETHERE";

/// Name of the cookie that carries the signed token.
pub const TOKEN_COOKIE: &'static str = "streamie.live";

/// Name of the cookie that carries the display name.
pub const FULLNAME_COOKIE: &'static str = "fullname";

/// The roles a user can have. Role checks compare for equality: no role
/// includes another.
#[derive(PartialEq, Eq, Structural, Clone, Copy, Debug)]
pub enum SecurityRole {
    ADMIN,
    USER,
    MODERATOR,
}

/// The claims that a token carries.
#[derive(Clone, Debug)]
pub struct SecurityToken {
    pub username: String,
    pub role: SecurityRole,
    pub iss: String,
    pub iat: u64,
    pub exp: u64,
}

pub struct SecurityTokenView {
    pub username: Seq<char>,
    pub role: SecurityRole,
    pub iss: Seq<char>,
    pub iat: u64,
    pub exp: u64,
}

impl View for SecurityToken {
    type V = SecurityTokenView;

    open spec fn view(&self) -> SecurityTokenView {
        SecurityTokenView {
            username: self.username@,
            role: self.role,
            iss: self.iss@,
            iat: self.iat,
            exp: self.exp,
        }
    }
}

/// Who made a request, as far as a valid token shows it.
#[derive(Clone, Debug)]
pub struct Identity {
    pub username: String,
    pub role: SecurityRole,
}

pub open spec fn opt_token_view(t: Option<SecurityToken>) -> Option<SecurityTokenView> {
    match t {
        Some(t) => Some(t@),
        None => None,
    }
}

pub open spec fn role_name_spec(role: SecurityRole) -> Seq<char> {
    match role {
        SecurityRole::ADMIN => "ADMIN"@,
        SecurityRole::MODERATOR => "MODERATOR"@,
        SecurityRole::USER => "USER"@,
    }
}

/// A role read from its name; any name but the two privileged ones is a plain user.
pub open spec fn role_of_name(name: Seq<char>) -> SecurityRole {
    if name == "ADMIN"@ {
        SecurityRole::ADMIN
    } else if name == "MODERATOR"@ {
        SecurityRole::MODERATOR
    } else {
        SecurityRole::USER
    }
}

/// The map that a list of distinct keys with their values stands for.
pub open spec fn claim_map(s: Seq<(String, String)>) -> Map<Seq<char>, Seq<char>>
    decreases s.len(),
{
    if s.len() == 0 {
        Map::empty()
    } else {
        claim_map(s.drop_last()).insert(s.last().0@, s.last().1@)
    }
}

pub open spec fn keys_distinct(s: Seq<(String, String)>) -> bool {
    forall|i: int, j: int| 0 <= i < j < s.len() ==> #[trigger] s[i].0@ != #[trigger] s[j].0@
}

/// The claims that a token for `c` carries, numbers written in decimal.
pub open spec fn claims_of(c: SecurityTokenView) -> Map<Seq<char>, Seq<char>> {
    map![
        "username"@ => c.username,
        "role"@ => role_name_spec(c.role),
        "iss"@ => c.iss,
        "iat"@ => decimal(c.iat as nat),
        "exp"@ => decimal(c.exp as nat),
    ]
}

/// The token claims that a map of claims gives: all five present and both
/// times decimal numbers.
pub open spec fn parse_claims(m: Map<Seq<char>, Seq<char>>) -> Option<SecurityTokenView> {
    if m.contains_key("username"@) && m.contains_key("role"@) && m.contains_key("iss"@)
        && m.contains_key("iat"@) && m.contains_key("exp"@)
        && parse_decimal(m["iat"@]) is Some && parse_decimal(m["exp"@]) is Some {
        Some(SecurityTokenView {
            username: m["username"@],
            role: role_of_name(m["role"@]),
            iss: m["iss"@],
            iat: parse_decimal(m["iat"@])->Some_0,
            exp: parse_decimal(m["exp"@])->Some_0,
        })
    } else {
        None
    }
}

/// Whether claims are in force at time `now`: issued by this service and not expired.
pub open spec fn claims_valid_at(c: SecurityTokenView, now: u64) -> bool {
    c.iss == ISSUER@ && now < c.exp
}

/// The claims of a map that are in force at `now`.
pub open spec fn valid_claims(m: Map<Seq<char>, Seq<char>>, now: u64) -> Option<SecurityTokenView> {
    match parse_claims(m) {
        Some(c) => if claims_valid_at(c, now) { Some(c) } else { None },
        None => None,
    }
}

/// What validating `token` at time `now` may give as `r`: only claims in force
/// then, and for a token signed by this service exactly its claims if they are in
/// force.
pub open spec fn validated_at(r: Option<SecurityToken>, token: Seq<char>, now: u64) -> bool {
    &&& r matches Some(t) ==> claims_valid_at(t@, now)
    &&& forall|m: Map<Seq<char>, Seq<char>>|
        m.dom().finite() && #[trigger] hs256_token(TOKEN_SECRET@, m) == token
            ==> opt_token_view(r) == valid_claims(m, now)
}

/// The token that jwt signs for a map of string claims with an HMAC-SHA256 key.
pub uninterp spec fn hs256_token(secret: Seq<char>, claims: Map<Seq<char>, Seq<char>>) -> Seq<char>;

/// The token of claims `c`, signed with this service's key.
pub open spec fn token_of(c: SecurityTokenView) -> Seq<char> {
    hs256_token(TOKEN_SECRET@, claims_of(c))
}

/// Relies on `hmac::Mac::new_from_slice`, which takes a key of any length, and on
/// jwt's `SignWithKey` for a `BTreeMap` of strings, which writes the header and the
/// claims as JSON and cannot fail on them: the token depends on the key and the
/// claims alone.
#[verifier::external_body]
fn sign_claims(secret: &str, claims: &Vec<(String, String)>) -> (r: String)
    requires
        keys_distinct(claims@),
    ensures
        r@ == hs256_token(secret@, claim_map(claims@)),
{
    let key: hmac::Hmac<sha2::Sha256> = hmac::Mac::new_from_slice(secret.as_bytes()).unwrap();
    let map: std::collections::BTreeMap<&str, &str> =
        claims.iter().map(|(k, v)| (k.as_str(), v.as_str())).collect();
    jwt::SignWithKey::sign_with_key(map, &key).unwrap()
}

/// Whether, where `token` is the signed token of a finite map of claims `m`,
/// verification gave back `r` holding exactly `m`.
pub open spec fn returns_claims_of(r: Option<Vec<(String, String)>>, secret: Seq<char>, token: Seq<char>, m: Map<Seq<char>, Seq<char>>) -> bool {
    m.dom().finite() && hs256_token(secret, m) == token ==> (r matches Some(v) && claim_map(v@) == m)
}

/// Relies on jwt's `VerifyWithKey` for `&str` into a `BTreeMap<String, String>`:
/// with the key that signed it, a token made by `SignWithKey` verifies and gives
/// back its claims; a token that does not verify gives an error.
#[verifier::external_body]
fn verify_claims(secret: &str, token: &str) -> (r: Option<Vec<(String, String)>>)
    ensures
        r matches Some(v) ==> keys_distinct(v@),
        forall|m: Map<Seq<char>, Seq<char>>| #![trigger hs256_token(secret@, m)] returns_claims_of(r, secret@, token@, m),
{
    let key: hmac::Hmac<sha2::Sha256> = hmac::Mac::new_from_slice(secret.as_bytes()).unwrap();
    let claims: Result<std::collections::BTreeMap<String, String>, jwt::Error> =
        jwt::VerifyWithKey::verify_with_key(token, &key);
    claims.ok().map(|m| m.into_iter().collect())
}

/// Relies on `SystemTime::now`: the seconds since the Unix epoch, if the clock is
/// not set before it.
#[verifier::external_body]
fn unix_time_now() -> (r: Option<u64>) {
    std::time::SystemTime::now().duration_since(std::time::UNIX_EPOCH).ok().map(|d| d.as_secs())
}

proof fn lemma_claim_keys_distinct()
    ensures
        "username"@ != "role"@,
        "username"@ != "iss"@,
        "username"@ != "iat"@,
        "username"@ != "exp"@,
        "role"@ != "iss"@,
        "role"@ != "iat"@,
        "role"@ != "exp"@,
        "iss"@ != "iat"@,
        "iss"@ != "exp"@,
        "iat"@ != "exp"@,
{
    reveal_strlit("username");
    reveal_strlit("role");
    reveal_strlit("iss");
    reveal_strlit("iat");
    reveal_strlit("exp");
    assert("username"@.len() == 8);
    assert("role"@.len() == 4);
    assert("iss"@.len() == 3);
    assert("iss"@[1] != "iat"@[1]);
    assert("iss"@[0] != "exp"@[0]);
    assert("iat"@[0] != "exp"@[0]);
}

proof fn lemma_role_names()
    ensures
        forall|r: SecurityRole| #[trigger] role_of_name(role_name_spec(r)) == r,
{
    reveal_strlit("ADMIN");
    reveal_strlit("MODERATOR");
    reveal_strlit("USER");
    assert("ADMIN"@.len() == 5);
    assert("MODERATOR"@.len() == 9);
    assert("USER"@.len() == 4);
}

proof fn lemma_claim_map_lookup(s: Seq<(String, String)>, k: Seq<char>)
    requires
        keys_distinct(s),
    ensures
        claim_map(s).contains_key(k) <==> exists|i: int| 0 <= i < s.len() && s[i].0@ == k,
        forall|i: int| 0 <= i < s.len() && s[i].0@ == k ==> claim_map(s)[k] == #[trigger] s[i].1@,
    decreases s.len(),
{
    if s.len() > 0 {
        let t = s.drop_last();
        assert forall|i: int, j: int| 0 <= i < j < t.len() implies #[trigger] t[i].0@ != #[trigger] t[j].0@ by {
            assert(t[i] == s[i] && t[j] == s[j]);
        }
        lemma_claim_map_lookup(t, k);
        if claim_map(s).contains_key(k) && k != s.last().0@ {
            let i = choose|i: int| 0 <= i < t.len() && t[i].0@ == k;
            assert(s[i] == t[i]);
        }
        if exists|i: int| 0 <= i < s.len() && s[i].0@ == k {
            let i = choose|i: int| 0 <= i < s.len() && s[i].0@ == k;
            if i < s.len() - 1 {
                assert(t[i] == s[i]);
            }
        }
        assert forall|i: int| 0 <= i < s.len() && s[i].0@ == k implies claim_map(s)[k] == #[trigger] s[i].1@ by {
            if i < s.len() - 1 {
                assert(t[i] == s[i]);
                assert(s[i].0@ != s[s.len() - 1].0@);
            }
        }
    }
}

/// Finds the value of claim `key`.
fn find_claim<'a>(claims: &'a Vec<(String, String)>, key: &str) -> (r: Option<&'a String>)
    requires
        keys_distinct(claims@),
    ensures
        r is None <==> !claim_map(claims@).contains_key(key@),
        r matches Some(v) ==> v@ == claim_map(claims@)[key@],
{
    let ghost k = key@;
    proof {
        lemma_claim_map_lookup(claims@, k);
    }
    let target = String::from_str(key);
    let mut i: usize = 0;
    while i < claims.len()
        invariant
            target@ == k,
            k == key@,
            i <= claims@.len(),
            keys_distinct(claims@),
            forall|j: int| 0 <= j < i ==> (#[trigger] claims@[j]).0@ != k,
        decreases claims.len() - i,
    {
        if claims[i].0 == target {
            proof {
                lemma_claim_map_lookup(claims@, k);
                let j = i as int;
                assert(0 <= j < claims@.len() && claims@[j].0@ == k);
                assert(claim_map(claims@).contains_key(k));
                assert(claim_map(claims@)[k] == claims@[j].1@);
            }
            return Some(&claims[i].1);
        }
        i = i + 1;
    }
    None
}

/// The name of a role as tokens and accounts write it.
pub fn role_name(role: SecurityRole) -> (r: &'static str)
    ensures
        r@ == role_name_spec(role),
{
    match role {
        SecurityRole::ADMIN => "ADMIN",
        SecurityRole::MODERATOR => "MODERATOR",
        SecurityRole::USER => "USER",
    }
}

/// Reads a role from its name.
pub fn role_from_name(name: &String) -> (r: SecurityRole)
    ensures
        r == role_of_name(name@),
{
    if *name == String::from_str("ADMIN") {
        SecurityRole::ADMIN
    } else if *name == String::from_str("MODERATOR") {
        SecurityRole::MODERATOR
    } else {
        SecurityRole::USER
    }
}

/// Signs the claims of `sec_token` into a token.
pub fn create_token(sec_token: SecurityToken) -> (r: String)
    ensures
        r@ == token_of(sec_token@),
{
    let c = sec_token;
    let ghost cv = c@;
    let mut claims: Vec<(String, String)> = Vec::new();
    claims.push((String::from_str("username"), c.username));
    claims.push((String::from_str("role"), String::from_str(role_name(c.role))));
    claims.push((String::from_str("iss"), c.iss));
    claims.push((String::from_str("iat"), to_decimal(c.iat)));
    claims.push((String::from_str("exp"), to_decimal(c.exp)));
    proof {
        lemma_claim_keys_distinct();
        let s = claims@;
        assert(keys_distinct(s));
        assert(s.drop_last().drop_last().drop_last().drop_last().drop_last() =~= Seq::empty());
        assert(claim_map(s) =~= claims_of(cv)) by {
            reveal_with_fuel(claim_map, 6);
        }
    }
    sign_claims(TOKEN_SECRET, &claims)
}

/// Reads token claims out of a verified map of claims.
pub fn decode_claims(claims: &Vec<(String, String)>) -> (r: Option<SecurityToken>)
    requires
        keys_distinct(claims@),
    ensures
        opt_token_view(r) == parse_claims(claim_map(claims@)),
{
    let username = find_claim(claims, "username");
    let role = find_claim(claims, "role");
    let iss = find_claim(claims, "iss");
    let iat = find_claim(claims, "iat");
    let exp = find_claim(claims, "exp");
    match (username, role, iss, iat, exp) {
        (Some(username), Some(role), Some(iss), Some(iat), Some(exp)) => {
            let iat = read_decimal(iat.as_str());
            let exp = read_decimal(exp.as_str());
            match (iat, exp) {
                (Some(iat), Some(exp)) => Some(
                    SecurityToken {
                        username: username.clone(),
                        role: role_from_name(role),
                        iss: iss.clone(),
                        iat,
                        exp,
                    },
                ),
                _ => None,
            }
        },
        _ => None,
    }
}

/// Checks the signature of `token` and reads its claims, without looking at
/// issuer or expiry. A token that `create_token` made decodes to the claims it
/// was made from.
pub fn decode(token: &str) -> (r: Option<SecurityToken>)
    ensures
        forall|m: Map<Seq<char>, Seq<char>>|
            m.dom().finite() && #[trigger] hs256_token(TOKEN_SECRET@, m) == token@
                ==> opt_token_view(r) == parse_claims(m),
{
    match verify_claims(TOKEN_SECRET, token) {
        Some(claims) => decode_claims(&claims),
        None => None,
    }
}

/// Keeps claims that are in force at `now`.
pub fn check_claims(claims: SecurityToken, now: u64) -> (r: Option<SecurityToken>)
    ensures
        r is Some <==> claims_valid_at(claims@, now),
        r matches Some(t) ==> t@ == claims@,
{
    let issuer = String::from_str(ISSUER);
    if claims.iss == issuer && now < claims.exp {
        Some(claims)
    } else {
        None
    }
}

/// The claims of `token` if its signature holds and it is in force at `now`.
pub fn validate_token_at(token: String, now: u64) -> (r: Option<SecurityToken>)
    ensures
        validated_at(r, token@, now),
{
    match decode(token.as_str()) {
        Some(c) => check_claims(c, now),
        None => None,
    }
}

/// The claims of `token` if its signature holds and it is in force now.
pub fn validate_token(token: String) -> (r: Option<SecurityToken>)
    ensures
        exists|now: u64| validated_at(r, token@, now),
{
    match unix_time_now() {
        Some(now) => {
            let r = validate_token_at(token, now);
            assert(validated_at(r, token@, now));
            r
        },
        None => {
            let r = None;
            assert(validated_at(r, token@, u64::MAX));
            r
        },
    }
}

/// The identity that a request carrying `raw_token` has at time `now`: none when
/// the token is missing, does not verify, names another issuer or has expired.
pub fn authenticate(raw_token: Option<String>, now: u64) -> (r: Option<Identity>)
    ensures
        raw_token is None ==> r is None,
        r matches Some(id) ==> exists|c: SecurityTokenView|
            #![trigger claims_valid_at(c, now)]
            claims_valid_at(c, now) && c.username == id.username@ && c.role == id.role,
        raw_token matches Some(tok) ==> forall|m: Map<Seq<char>, Seq<char>>|
            m.dom().finite() && #[trigger] hs256_token(TOKEN_SECRET@, m) == tok@ ==> (match valid_claims(m, now) {
                Some(c) => r matches Some(id) && id.username@ == c.username && id.role == c.role,
                None => r is None,
            }),
{
    match raw_token {
        Some(token) => match validate_token_at(token, now) {
            Some(t) => {
                let ghost c = t@;
                let id = Identity { username: t.username, role: t.role };
                assert(claims_valid_at(c, now) && c.username == id.username@ && c.role == id.role);
                Some(id)
            },
            None => None,
        },
        None => None,
    }
}

/// Whether `identity` holds exactly the role `required`.
pub fn authorize(identity: &Identity, required: SecurityRole) -> (r: bool)
    ensures
        r == (identity.role == required),
{
    identity.role == required
}

/// Whether `identity` is an administrator: every administrative route asks
/// for exactly this.
pub fn is_admin(identity: &Option<Identity>) -> (r: bool)
    ensures
        r == (identity matches Some(id) && id.role == SecurityRole::ADMIN),
{
    match identity {
        Some(id) => authorize(id, SecurityRole::ADMIN),
        None => false,
    }
}

/// How long a token stays in force after login, in seconds.
pub const TOKEN_LIFETIME: u64 = 7200;

/// The token cookie's value, or "None" when the request has none.
pub fn get_token_value(token: Option<String>) -> (r: String)
    ensures
        r@ == match token {
            Some(t) => t@,
            None => "None"@,
        },
{
    match token {
        Some(t) => t,
        None => String::from_str("None"),
    }
}

/// The display-name cookie's value, or "Unknown User" when the request has none.
pub fn get_fullname(fullname: Option<String>) -> (r: String)
    ensures
        r@ == match fullname {
            Some(f) => f@,
            None => "Unknown User"@,
        },
{
    match fullname {
        Some(f) => f,
        None => String::from_str("Unknown User"),
    }
}

/// The login form.
#[derive(Clone, Debug)]
pub struct LoginUser {
    pub user: String,
    pub pass: String,
    pub captcha: String,
}

/// What a login attempt gives.
pub enum LoginOutcome {
    /// Refused: wrong captcha, unknown user or wrong password. No cookie is set.
    NotAuthorized,
    /// Accepted: the cookies to set, the display name and the signed token.
    LoggedIn { fullname: String, token: String },
}

impl LoginOutcome {
    /// The response text.
    pub fn message(&self) -> (r: &'static str)
        ensures
            r@ == match self {
                LoginOutcome::NotAuthorized => "Not Authorized"@,
                LoginOutcome::LoggedIn { .. } => "Eingeloggt"@,
            },
    {
        match self {
            LoginOutcome::NotAuthorized => "Not Authorized",
            LoginOutcome::LoggedIn { .. } => "Eingeloggt",
        }
    }
}

/// The claims that a login at `now` grants to `user`.
pub open spec fn login_claims(user: User, now: u64) -> SecurityTokenView {
    SecurityTokenView {
        username: user.username@,
        role: role_of_name(user.role@),
        iss: ISSUER@,
        iat: now,
        exp: if now <= u64::MAX - TOKEN_LIFETIME { (now + TOKEN_LIFETIME) as u64 } else { u64::MAX },
    }
}

/// Decides a login at time `now`. `stored_captcha` is the captcha answer kept in
/// the client's cookie, `account` the stored account named by `form.user`, if
/// any. The login succeeds exactly when the captcha answer matches the stored
/// one (a missing cookie counts as the empty answer) and the password, followed
/// by the account's salt, hashes to the stored hash; the token then carries the
/// account's name and role, issued now and in force for two hours.
pub fn login_proceed(stored_captcha: Option<String>, form: &LoginUser, account: Option<User>, now: u64) -> (r: LoginOutcome)
    ensures
        r is LoggedIn <==> ({
            &&& form.captcha@ == match stored_captcha {
                Some(c) => c@,
                None => Seq::<char>::empty(),
            }
            &&& account matches Some(u)
            &&& u.hash@ == hash_spec(form.pass@ + u.salt@)
        }),
        r matches LoginOutcome::LoggedIn { fullname, token } ==> (account matches Some(u) && fullname@
            == u.fullname@ && token@ == token_of(login_claims(u, now))),
{
    let captcha = match stored_captcha {
        Some(c) => c,
        None => String::new(),
    };
    if captcha != form.captcha {
        return LoginOutcome::NotAuthorized;
    }
    let account = match account {
        Some(u) => u,
        None => return LoginOutcome::NotAuthorized,
    };
    match check_password(account, form.pass.clone()) {
        Some(u) => {
            let exp = if now <= u64::MAX - TOKEN_LIFETIME {
                now + TOKEN_LIFETIME
            } else {
                u64::MAX
            };
            let role = role_from_name(&u.role);
            let claims = SecurityToken {
                username: u.username,
                role,
                iss: String::from_str(ISSUER),
                iat: now,
                exp,
            };
            let token = create_token(claims);
            LoginOutcome::LoggedIn { fullname: u.fullname, token }
        },
        None => LoginOutcome::NotAuthorized,
    }
}

/// What logging out does: drop the token cookie and go back to the start page
/// with a notice.
pub struct Logout {
    pub removed_cookie: String,
    pub redirect_to: String,
    pub notice: String,
}

/// Logs out.
pub fn logout() -> (r: Logout)
    ensures
        r.removed_cookie@ == TOKEN_COOKIE@,
        r.redirect_to@ == "/"@,
        r.notice@ == "Successfully logged out."@,
{
    Logout {
        removed_cookie: String::from_str(TOKEN_COOKIE),
        redirect_to: String::from_str("/"),
        notice: String::from_str("Successfully logged out."),
    }
}

/// Decoding the claims of a token gives back the claims it was made from.
pub proof fn token_round_trip(c: SecurityTokenView)
    ensures
        claims_of(c).dom().finite(),
        parse_claims(claims_of(c)) == Some(c),
{
    lemma_claim_keys_distinct();
    lemma_role_names();
    lemma_parse_decimal(c.iat);
    lemma_parse_decimal(c.exp);
    let m = claims_of(c);
    assert(role_of_name(m["role"@]) == c.role);
}

/// Claims issued by this service and not yet expired are in force.
pub proof fn fresh_claims_accepted(c: SecurityTokenView, now: u64)
    requires
        c.iss == ISSUER@,
        now < c.exp,
    ensures
        valid_claims(claims_of(c), now) == Some(c),
{
    token_round_trip(c);
}

/// Expired claims are refused although they decode.
pub proof fn expired_claims_refused(c: SecurityTokenView, now: u64)
    requires
        c.exp <= now,
    ensures
        parse_claims(claims_of(c)) == Some(c),
        valid_claims(claims_of(c), now) is None,
{
    token_round_trip(c);
}

/// Claims that name another issuer are refused.
pub proof fn foreign_issuer_refused(c: SecurityTokenView, now: u64)
    requires
        c.iss != ISSUER@,
    ensures
        valid_claims(claims_of(c), now) is None,
{
    token_round_trip(c);
}

} // verus!
