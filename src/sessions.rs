use vstd::prelude::*;

verus! {

/// How session times are written on the wire; they are read as UTC.
pub const FORMAT_STR: &'static str = "%d.%m.%Y %H:%M:%S";

/// The platforms a stream can run on.
#[derive(PartialEq, Eq, Structural, Clone, Copy, Debug)]
pub enum StreamType {
    Twitch,
    Youtube,
    NoPlatform,
}

/// Where a session is streamed.
#[derive(Clone, Debug)]
pub struct SessionStream {
    pub link: String,
    pub channel: String,
    pub stream_type: StreamType,
}

/// A scheduled stream. `id` is the record's identifier in hex; `start` and
/// `end` are seconds since the Unix epoch, UTC.
#[derive(Clone, Debug)]
pub struct Session {
    pub id: String,
    pub start: i64,
    pub end: i64,
    pub name: String,
    pub description: String,
    pub stream: SessionStream,
}

/// A session as a page shows it.
#[derive(Clone, Debug)]
pub struct TeraSession {
    pub id: String,
    pub start: i64,
    pub end: i64,
    pub name: String,
    pub description: String,
    pub stream: SessionStream,
}

/// An account. `hash` is the hex SHA-256 of the password followed by `salt`.
#[derive(Clone, Debug)]
pub struct User {
    pub id: String,
    pub username: String,
    pub hash: String,
    pub salt: String,
    pub role: String,
    pub fullname: String,
}

/// An account as a page shows it.
#[derive(Clone, Debug)]
pub struct TeraUser {
    pub id: String,
    pub username: String,
    pub hash: String,
    pub salt: String,
    pub role: String,
    pub fullname: String,
}

pub struct SessionView {
    pub id: Seq<char>,
    pub start: i64,
    pub end: i64,
    pub name: Seq<char>,
    pub description: Seq<char>,
    pub link: Seq<char>,
    pub channel: Seq<char>,
    pub stream_type: StreamType,
}

impl View for Session {
    type V = SessionView;

    open spec fn view(&self) -> SessionView {
        SessionView {
            id: self.id@,
            start: self.start,
            end: self.end,
            name: self.name@,
            description: self.description@,
            link: self.stream.link@,
            channel: self.stream.channel@,
            stream_type: self.stream.stream_type,
        }
    }
}

impl View for TeraSession {
    type V = SessionView;

    open spec fn view(&self) -> SessionView {
        SessionView {
            id: self.id@,
            start: self.start,
            end: self.end,
            name: self.name@,
            description: self.description@,
            link: self.stream.link@,
            channel: self.stream.channel@,
            stream_type: self.stream.stream_type,
        }
    }
}

/// The platform that a form names: "Youtube" and "None" name their platforms,
/// anything else stands for Twitch.
pub open spec fn stream_type_spec(platform: Seq<char>) -> StreamType {
    if platform == "Youtube"@ {
        StreamType::Youtube
    } else if platform == "None"@ {
        StreamType::NoPlatform
    } else {
        StreamType::Twitch
    }
}

/// The platform that a form names.
pub fn stream_type_from_platform(platform: &String) -> (r: StreamType)
    ensures
        r == stream_type_spec(platform@),
{
    if *platform == String::from_str("Youtube") {
        StreamType::Youtube
    } else if *platform == String::from_str("None") {
        StreamType::NoPlatform
    } else {
        StreamType::Twitch
    }
}

/// The UTC instant, in seconds since the Unix epoch, that chrono reads from
/// `text` with `format`, if it reads one.
pub uninterp spec fn utc_seconds_of(text: Seq<char>, format: Seq<char>) -> Option<int>;

/// Relies on chrono's `NaiveDateTime::parse_from_str` and `and_utc().timestamp()`:
/// the result depends on the text and the format alone.
#[verifier::external_body]
fn parse_utc_seconds(text: &str, format: &str) -> (r: Option<i64>)
    ensures
        match r {
            Some(t) => utc_seconds_of(text@, format@) == Some(t as int),
            None => utc_seconds_of(text@, format@) is None,
        },
{
    chrono::NaiveDateTime::parse_from_str(text, format).ok().map(|t| t.and_utc().timestamp())
}

/// The instant that a session time `text` (`DD.MM.YYYY HH:MM:SS`, UTC) names.
pub open spec fn session_time_spec(text: Seq<char>) -> Option<int> {
    utc_seconds_of(text, FORMAT_STR@)
}

/// Reads a session time written as `DD.MM.YYYY HH:MM:SS`, in UTC.
pub fn parse_session_time(text: &str) -> (r: Option<i64>)
    ensures
        match r {
            Some(t) => session_time_spec(text@) == Some(t as int),
            None => session_time_spec(text@) is None,
        },
{
    parse_utc_seconds(text, FORMAT_STR)
}

/// The session as a page shows it.
pub fn to_tera_session(session: Session) -> (r: TeraSession)
    ensures
        r@ == session@,
{
    TeraSession {
        id: session.id,
        start: session.start,
        end: session.end,
        name: session.name,
        description: session.description,
        stream: session.stream,
    }
}

/// The sessions as a page lists them, in the same order.
pub fn to_tera_sessions(sessions: Vec<Session>) -> (r: Vec<TeraSession>)
    ensures
        r@.len() == sessions@.len(),
        forall|i: int| 0 <= i < r@.len() ==> (#[trigger] r@[i])@ == sessions@[i]@,
{
    let mut r: Vec<TeraSession> = Vec::new();
    let mut rest = sessions;
    let ghost all = rest@;
    while rest.len() > 0
        invariant
            r@.len() + rest@.len() == all.len(),
            rest@ == all.subrange(r@.len() as int, all.len() as int),
            forall|i: int| 0 <= i < r@.len() ==> (#[trigger] r@[i])@ == all[i]@,
        decreases rest@.len(),
    {
        let s = rest.remove(0);
        r.push(to_tera_session(s));
        assert(rest@ =~= all.subrange(r@.len() as int, all.len() as int));
    }
    r
}

/// The account as a page shows it.
pub fn to_tera_user(user: User) -> (r: TeraUser)
    ensures
        r.id@ == user.id@,
        r.username@ == user.username@,
        r.hash@ == user.hash@,
        r.salt@ == user.salt@,
        r.role@ == user.role@,
        r.fullname@ == user.fullname@,
{
    TeraUser {
        id: user.id,
        username: user.username,
        hash: user.hash,
        salt: user.salt,
        role: user.role,
        fullname: user.fullname,
    }
}

} // verus!
