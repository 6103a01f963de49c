use vstd::prelude::*;

use crate::database::{create_hash, hash_spec};
use crate::security::{is_admin, Identity, SecurityRole};
use crate::sessions::User;

verus! {

/// Length of the salt that each account gets.
pub const SALT_LENGTH: usize = 30;

/// The answer of the account routes: 1 for done, 0 for refused or failed.
#[derive(PartialEq, Eq, Structural, Clone, Copy, Debug)]
pub struct UserResult {
    pub status: u8,
}

/// The form that creates an account.
#[derive(Clone, Debug)]
pub struct NewUser {
    pub fullname: String,
    pub username: String,
    pub password: String,
    pub role: String,
}

pub open spec fn is_alphanumeric(c: char) -> bool {
    ('a' <= c && c <= 'z') || ('A' <= c && c <= 'Z') || ('0' <= c && c <= '9')
}

/// Relies on rand's `thread_rng` sampled with `Alphanumeric`, which draws ASCII
/// letters and digits; `n` of them are taken.
#[verifier::external_body]
fn random_alphanumeric(n: usize) -> (r: String)
    ensures
        r@.len() == n,
        forall|i: int| 0 <= i < n ==> is_alphanumeric(#[trigger] r@[i]),
{
    let rng = rand::thread_rng();
    rand::Rng::sample_iter(rng, &rand::distributions::Alphanumeric).take(n).map(char::from).collect()
}

/// A fresh random salt of thirty ASCII letters and digits.
pub fn create_salt() -> (r: String)
    ensures
        r@.len() == SALT_LENGTH,
        forall|i: int| 0 <= i < r@.len() ==> is_alphanumeric(#[trigger] r@[i]),
{
    random_alphanumeric(SALT_LENGTH)
}

/// The account that `form` describes, with identifier `id` and salt `salt`:
/// the password is stored only as the hash of itself followed by the salt.
pub fn new_user_record(form: &NewUser, id: String, salt: String) -> (r: User)
    ensures
        r.id@ == id@,
        r.username@ == form.username@,
        r.role@ == form.role@,
        r.fullname@ == form.fullname@,
        r.salt@ == salt@,
        r.hash@ == hash_spec(form.password@ + salt@),
{
    let salted = form.password.clone().concat(salt.as_str());
    let hash = create_hash(&salted);
    User {
        id,
        username: form.username.clone(),
        role: form.role.clone(),
        fullname: form.fullname.clone(),
        salt,
        hash,
    }
}

/// The account that an administrator creates with `form`, with a fresh salt;
/// none for anyone else.
pub fn create_new_user(identity: &Option<Identity>, form: &NewUser, id: String) -> (r: Option<User>)
    ensures
        r is Some <==> (identity matches Some(i) && i.role == SecurityRole::ADMIN),
        r matches Some(u) ==> {
            &&& u.id@ == id@
            &&& u.username@ == form.username@
            &&& u.role@ == form.role@
            &&& u.fullname@ == form.fullname@
            &&& u.salt@.len() == SALT_LENGTH
            &&& u.hash@ == hash_spec(form.password@ + u.salt@)
        },
{
    if !is_admin(identity) {
        return None;
    }
    let salt = create_salt();
    Some(new_user_record(form, id, salt))
}

/// The answer for an account route: 1 where it was done, 0 otherwise.
pub fn user_result(done: bool) -> (r: UserResult)
    ensures
        r.status == if done { 1u8 } else { 0u8 },
{
    UserResult { status: if done { 1 } else { 0 } }
}

} // verus!
