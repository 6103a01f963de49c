use vstd::prelude::*;

use vstd::utf8::encode_utf8;

use crate::sessions::User;

verus! {

/// Name of the service's database.
pub const DATABASE_NAME: &'static str = "Streamie";

/// Name of the database that tests use.
pub const TEST_DATABASE_NAME: &'static str = "Test";

/// Collection of the accounts.
pub const USERS_COLLECTION: &'static str = "users";

/// Collection of the sessions.
pub const SESSIONS_COLLECTION: &'static str = "sessions";

/// The SHA-256 digest of `data`.
pub uninterp spec fn sha256_of(data: Seq<u8>) -> Seq<u8>;

/// Relies on sha2's `Sha256::digest`: a 32-byte digest that depends on the data
/// alone.
#[verifier::external_body]
fn sha256_digest(data: &[u8]) -> (r: Vec<u8>)
    ensures
        r@ == sha256_of(data@),
        r@.len() == 32,
{
    <sha2::Sha256 as sha2::Digest>::digest(data).to_vec()
}

/// The lower-case hex digit for `d < 16`.
pub open spec fn hex_digit(d: nat) -> char {
    if d < 10 {
        ('0' as u32 + d) as char
    } else {
        ('a' as u32 + (d - 10)) as char
    }
}

/// Each byte as two lower-case hex digits, high half first.
pub open spec fn hex_lower(bytes: Seq<u8>) -> Seq<char>
    decreases bytes.len(),
{
    if bytes.len() == 0 {
        Seq::empty()
    } else {
        hex_lower(bytes.drop_last()).push(hex_digit(bytes.last() as nat / 16)).push(
            hex_digit(bytes.last() as nat % 16),
        )
    }
}

/// The hash under which a password (followed by its salt) is stored.
pub open spec fn hash_spec(value: Seq<char>) -> Seq<char> {
    hex_lower(sha256_of(encode_utf8(value)))
}

fn hex_digit_str(d: u8) -> (r: &'static str)
    requires
        d < 16,
    ensures
        r@ == seq![hex_digit(d as nat)],
{
    proof {
        reveal_strlit("0");
        reveal_strlit("1");
        reveal_strlit("2");
        reveal_strlit("3");
        reveal_strlit("4");
        reveal_strlit("5");
        reveal_strlit("6");
        reveal_strlit("7");
        reveal_strlit("8");
        reveal_strlit("9");
        reveal_strlit("a");
        reveal_strlit("b");
        reveal_strlit("c");
        reveal_strlit("d");
        reveal_strlit("e");
        reveal_strlit("f");
    }
    if d == 0 { "0" }
    else if d == 1 { "1" }
    else if d == 2 { "2" }
    else if d == 3 { "3" }
    else if d == 4 { "4" }
    else if d == 5 { "5" }
    else if d == 6 { "6" }
    else if d == 7 { "7" }
    else if d == 8 { "8" }
    else if d == 9 { "9" }
    else if d == 10 { "a" }
    else if d == 11 { "b" }
    else if d == 12 { "c" }
    else if d == 13 { "d" }
    else if d == 14 { "e" }
    else { "f" }
}

/// Writes `bytes` in lower-case hex.
pub fn to_hex(bytes: &Vec<u8>) -> (r: String)
    ensures
        r@ == hex_lower(bytes@),
{
    let mut r = String::new();
    let mut i: usize = 0;
    while i < bytes.len()
        invariant
            i <= bytes@.len(),
            r@ == hex_lower(bytes@.take(i as int)),
        decreases bytes@.len() - i,
    {
        let b = bytes[i];
        r.append(hex_digit_str(b / 16));
        r.append(hex_digit_str(b % 16));
        i = i + 1;
        assert(bytes@.take(i as int).drop_last() =~= bytes@.take(i as int - 1));
    }
    assert(bytes@.take(i as int) =~= bytes@);
    r
}

/// The hex SHA-256 of `value`'s UTF-8 bytes.
pub fn create_hash(value: &String) -> (r: String)
    ensures
        r@ == hash_spec(value@),
{
    let digest = sha256_digest(value.as_str().as_bytes());
    to_hex(&digest)
}

/// The account if `password`, followed by the account's salt, hashes to the
/// stored hash.
pub fn check_password(user: User, password: String) -> (r: Option<User>)
    ensures
        r is Some <==> user.hash@ == hash_spec(password@ + user.salt@),
        r matches Some(u) ==> u == user,
{
    let salted = password.concat(user.salt.as_str());
    let hashed = create_hash(&salted);
    if user.hash == hashed {
        Some(user)
    } else {
        None
    }
}

} // verus!
