use vstd::prelude::*;

use crate::security::{is_admin, Identity, SecurityRole};
use crate::sessions::{
    parse_session_time, session_time_spec, stream_type_from_platform, stream_type_spec, Session,
    SessionStream,
};

verus! {

/// The form that creates a session; every field must be filled in.
#[derive(Clone, Debug)]
pub struct NewSession {
    pub start: String,
    pub end: String,
    pub name: String,
    pub description: String,
    pub link: String,
    pub channel: String,
    pub plattform: String,
}

/// The form that changes the session named `old_name`; an empty field leaves
/// the stored value as it is.
#[derive(Clone, Debug)]
pub struct UpSession {
    pub start: String,
    pub end: String,
    pub name: String,
    pub description: String,
    pub link: String,
    pub channel: String,
    pub plattform: String,
    pub old_name: String,
}

/// The form that names a session to delete.
#[derive(Clone, Debug)]
pub struct DelSession {
    pub name: String,
}

pub open spec fn is_admin_spec(identity: Option<Identity>) -> bool {
    identity matches Some(i) && i.role == SecurityRole::ADMIN
}

/// The page to render for an administrative page `page`: the page itself for
/// an administrator, the unauthorized page for anyone else.
pub fn admin_template(identity: &Option<Identity>, page: &'static str) -> (r: &'static str)
    ensures
        r@ == if is_admin_spec(*identity) {
            page@
        } else {
            "unauthorized"@
        },
{
    if is_admin(identity) {
        page
    } else {
        "unauthorized"
    }
}

impl NewSession {
    /// Whether every field is filled in.
    pub fn is_complete(&self) -> (r: bool)
        ensures
            r == (self.start@.len() > 0 && self.end@.len() > 0 && self.name@.len() > 0
                && self.description@.len() > 0 && self.link@.len() > 0 && self.channel@.len() > 0
                && self.plattform@.len() > 0),
    {
        self.start.as_str().unicode_len() > 0 && self.end.as_str().unicode_len() > 0
            && self.name.as_str().unicode_len() > 0 && self.description.as_str().unicode_len() > 0
            && self.link.as_str().unicode_len() > 0 && self.channel.as_str().unicode_len() > 0
            && self.plattform.as_str().unicode_len() > 0
    }
}

/// What a request to create a session gives.
pub enum AddSession {
    /// The caller is not an administrator; nothing is stored.
    Unauthorized,
    /// A field is empty or a time cannot be read; nothing is stored.
    Invalid,
    /// The session to store.
    Insert(Session),
}

/// Decides a request to create a session from `form` under identifier `id`.
pub fn add_session(identity: &Option<Identity>, form: &NewSession, id: String) -> (r: AddSession)
    ensures
        r is Unauthorized <==> !is_admin_spec(*identity),
        r is Insert <==> {
            &&& is_admin_spec(*identity)
            &&& form.start@.len() > 0 && form.end@.len() > 0 && form.name@.len() > 0
            &&& form.description@.len() > 0 && form.link@.len() > 0 && form.channel@.len() > 0
            &&& form.plattform@.len() > 0
            &&& session_time_spec(form.start@) is Some
            &&& session_time_spec(form.end@) is Some
        },
        r matches AddSession::Insert(s) ==> {
            &&& s.id@ == id@
            &&& session_time_spec(form.start@) == Some(s.start as int)
            &&& session_time_spec(form.end@) == Some(s.end as int)
            &&& s.name@ == form.name@
            &&& s.description@ == form.description@
            &&& s.stream.link@ == form.link@
            &&& s.stream.channel@ == form.channel@
            &&& s.stream.stream_type == stream_type_spec(form.plattform@)
        },
{
    if !is_admin(identity) {
        return AddSession::Unauthorized;
    }
    if !form.is_complete() {
        return AddSession::Invalid;
    }
    let start = parse_session_time(form.start.as_str());
    let end = parse_session_time(form.end.as_str());
    match (start, end) {
        (Some(start), Some(end)) => AddSession::Insert(
            Session {
                id,
                start,
                end,
                name: form.name.clone(),
                description: form.description.clone(),
                stream: SessionStream {
                    link: form.link.clone(),
                    channel: form.channel.clone(),
                    stream_type: stream_type_from_platform(&form.plattform),
                },
            },
        ),
        _ => AddSession::Invalid,
    }
}

/// A submitted value where one was given, else the stored one.
pub open spec fn field_or(given: Seq<char>, stored: Seq<char>) -> Seq<char> {
    if given.len() == 0 {
        stored
    } else {
        given
    }
}

/// Whether a submitted time is either left empty or readable.
pub open spec fn time_field_ok(given: Seq<char>) -> bool {
    given.len() == 0 || session_time_spec(given) is Some
}

/// The time a submitted field gives, or the stored one where it is empty.
pub open spec fn time_or(given: Seq<char>, stored: i64) -> int {
    if given.len() == 0 {
        stored as int
    } else {
        session_time_spec(given)->Some_0
    }
}

fn pick(given: &String, stored: &String) -> (r: String)
    ensures
        r@ == field_or(given@, stored@),
{
    if given.as_str().unicode_len() == 0 {
        stored.clone()
    } else {
        given.clone()
    }
}

fn pick_time(given: &String, stored: i64) -> (r: Option<i64>)
    ensures
        r is Some <==> time_field_ok(given@),
        r matches Some(t) ==> t as int == time_or(given@, stored),
{
    if given.as_str().unicode_len() == 0 {
        Some(stored)
    } else {
        parse_session_time(given.as_str())
    }
}

/// Overwrites the fields of `session` that `form` fills in and leaves the
/// others as they were; the identifier never changes. Where a filled-in time
/// cannot be read nothing changes and the result is false.
pub fn update_fields(session: &mut Session, form: &UpSession) -> (r: bool)
    ensures
        r == (time_field_ok(form.start@) && time_field_ok(form.end@)),
        !r ==> *final(session) == *old(session),
        r ==> {
            let s = *final(session);
            let o = *old(session);
            &&& s.id == o.id
            &&& s.start as int == time_or(form.start@, o.start)
            &&& s.end as int == time_or(form.end@, o.end)
            &&& s.name@ == field_or(form.name@, o.name@)
            &&& s.description@ == field_or(form.description@, o.description@)
            &&& s.stream.link@ == field_or(form.link@, o.stream.link@)
            &&& s.stream.channel@ == field_or(form.channel@, o.stream.channel@)
            &&& s.stream.stream_type == if form.plattform@.len() == 0 {
                o.stream.stream_type
            } else {
                stream_type_spec(form.plattform@)
            }
        },
{
    let start = pick_time(&form.start, session.start);
    let end = pick_time(&form.end, session.end);
    match (start, end) {
        (Some(start), Some(end)) => {
            session.start = start;
            session.end = end;
            session.name = pick(&form.name, &session.name);
            session.description = pick(&form.description, &session.description);
            session.stream.link = pick(&form.link, &session.stream.link);
            session.stream.channel = pick(&form.channel, &session.stream.channel);
            if form.plattform.as_str().unicode_len() > 0 {
                session.stream.stream_type = stream_type_from_platform(&form.plattform);
            }
            true
        },
        _ => false,
    }
}

/// What a request to change a session gives.
pub enum UpdateSession {
    /// The caller is not an administrator; nothing changes.
    Unauthorized,
    /// No session has the name the form gives; nothing changes.
    NotFound,
    /// A filled-in time cannot be read; nothing changes.
    Invalid,
    /// The changed session to store.
    Update(Session),
}

/// Decides a request to change a session. `stored` is the session that
/// `form.old_name` names, if there is one.
pub fn admin_update_session(identity: &Option<Identity>, stored: Option<Session>, form: &UpSession) -> (r: UpdateSession)
    ensures
        r is Unauthorized <==> !is_admin_spec(*identity),
        r is NotFound <==> is_admin_spec(*identity) && stored is None,
        r is Invalid <==> is_admin_spec(*identity) && stored is Some && !(time_field_ok(form.start@)
            && time_field_ok(form.end@)),
        r matches UpdateSession::Update(s) ==> stored matches Some(o) && {
            &&& s.id == o.id
            &&& s.start as int == time_or(form.start@, o.start)
            &&& s.end as int == time_or(form.end@, o.end)
            &&& s.name@ == field_or(form.name@, o.name@)
            &&& s.description@ == field_or(form.description@, o.description@)
            &&& s.stream.link@ == field_or(form.link@, o.stream.link@)
            &&& s.stream.channel@ == field_or(form.channel@, o.stream.channel@)
            &&& s.stream.stream_type == if form.plattform@.len() == 0 {
                o.stream.stream_type
            } else {
                stream_type_spec(form.plattform@)
            }
        },
{
    if !is_admin(identity) {
        return UpdateSession::Unauthorized;
    }
    match stored {
        None => UpdateSession::NotFound,
        Some(session) => {
            let mut session = session;
            if update_fields(&mut session, form) {
                UpdateSession::Update(session)
            } else {
                UpdateSession::Invalid
            }
        },
    }
}

/// The name of the session to delete, for an administrator; none for anyone
/// else.
pub fn delete_session(identity: &Option<Identity>, stream_name: &str) -> (r: Option<String>)
    ensures
        r is Some <==> is_admin_spec(*identity),
        r matches Some(n) ==> n@ == stream_name@,
{
    if is_admin(identity) {
        Some(String::from_str(stream_name))
    } else {
        None
    }
}

} // verus!
