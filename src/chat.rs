use vstd::prelude::*;

use crate::security::{
    authenticate, hs256_token, valid_claims, Identity, SecurityRole, TOKEN_SECRET,
};

verus! {

/// Mailbox size of the chat hub that the service runs.
pub const CHAT_CAPACITY: usize = 1024;

/// A chat post as a client sends it.
#[derive(Clone, Debug)]
pub struct Message {
    pub room: String,
    pub message: String,
}

/// A chat message as it is broadcast: who wrote it, and a tag for the
/// writer's role.
#[derive(Clone, Debug)]
pub struct ChatMessage {
    pub room: String,
    pub username: String,
    pub message: String,
    pub chat_type: String,
}

pub struct ChatMessageView {
    pub room: Seq<char>,
    pub username: Seq<char>,
    pub message: Seq<char>,
    pub chat_type: Seq<char>,
}

impl View for ChatMessage {
    type V = ChatMessageView;

    open spec fn view(&self) -> ChatMessageView {
        ChatMessageView {
            room: self.room@,
            username: self.username@,
            message: self.message@,
            chat_type: self.chat_type@,
        }
    }
}

impl ChatMessage {
    /// A copy of this message.
    pub fn duplicate(&self) -> (r: ChatMessage)
        ensures
            r@ == self@,
    {
        ChatMessage {
            room: self.room.clone(),
            username: self.username.clone(),
            message: self.message.clone(),
            chat_type: self.chat_type.clone(),
        }
    }
}

/// The tag that marks a writer's role in the chat.
pub open spec fn chat_type_spec(role: SecurityRole) -> Seq<char> {
    match role {
        SecurityRole::ADMIN => "admin"@,
        SecurityRole::MODERATOR => "mod"@,
        SecurityRole::USER => "user"@,
    }
}

/// The tag that marks a writer's role in the chat.
pub fn chat_type_of(role: SecurityRole) -> (r: String)
    ensures
        r@ == chat_type_spec(role),
{
    match role {
        SecurityRole::ADMIN => String::from_str("admin"),
        SecurityRole::MODERATOR => String::from_str("mod"),
        SecurityRole::USER => String::from_str("user"),
    }
}

/// What reading from a subscription gives.
pub enum Received {
    /// The next message.
    Message(ChatMessage),
    /// This many messages were dropped before the subscriber read them; the
    /// subscription now stands at the oldest message kept.
    Lagged(u64),
    /// Nothing new yet.
    Empty,
    /// The subscription has ended.
    Closed,
}

pub enum ReceivedView {
    Message(ChatMessageView),
    Lagged(nat),
    Empty,
    Closed,
}

impl View for Received {
    type V = ReceivedView;

    open spec fn view(&self) -> ReceivedView {
        match self {
            Received::Message(m) => ReceivedView::Message(m@),
            Received::Lagged(n) => ReceivedView::Lagged(*n as nat),
            Received::Empty => ReceivedView::Empty,
            Received::Closed => ReceivedView::Closed,
        }
    }
}

/// Where a subscriber stands.
#[derive(PartialEq, Eq, Structural, Clone, Copy, Debug)]
pub enum SubscriberState {
    /// It can read every message it has not read yet.
    Active,
    /// Messages it had not read were dropped; its next read reports how many.
    Lagging,
    /// It has ended, or was never opened.
    Closed,
}

/// The broadcast bus of the chat. Every message published is offered to every
/// open subscription, in the order of publication. Each subscription has a
/// mailbox of `capacity` messages: the hub keeps the last `capacity` messages,
/// and a subscriber that falls further behind loses the oldest ones and is told
/// how many it lost. Publishing never waits for a reader.
pub struct Hub {
    capacity: usize,
    /// The messages kept, oldest first.
    buffer: Vec<ChatMessage>,
    /// How many messages were ever published.
    published: u64,
    /// For each subscription, the number of the next message it reads;
    /// `None` once it has ended.
    cursors: Vec<Option<u64>>,
    /// Every message ever published, oldest first.
    log: Ghost<Seq<ChatMessageView>>,
}

/// A hub as a mathematical value: its mailbox size, all messages published,
/// and for each subscription the number of the next message it reads.
pub struct HubView {
    pub capacity: nat,
    pub log: Seq<ChatMessageView>,
    pub cursors: Seq<Option<nat>>,
}

pub open spec fn cursor_view(c: Option<u64>) -> Option<nat> {
    match c {
        Some(x) => Some(x as nat),
        None => None,
    }
}

impl View for Hub {
    type V = HubView;

    closed spec fn view(&self) -> HubView {
        HubView {
            capacity: self.capacity as nat,
            log: self.log@,
            cursors: self.cursors@.map_values(|c: Option<u64>| cursor_view(c)),
        }
    }
}

/// Number of the oldest message that the hub still holds.
pub open spec fn oldest_kept(h: HubView) -> nat {
    if h.log.len() > h.capacity {
        (h.log.len() - h.capacity) as nat
    } else {
        0
    }
}

/// The hub after `m` is published.
pub open spec fn publish_spec(h: HubView, m: ChatMessageView) -> HubView {
    HubView { log: h.log.push(m), ..h }
}

/// The hub after each of `ms` is published in turn.
pub open spec fn publish_all(h: HubView, ms: Seq<ChatMessageView>) -> HubView
    decreases ms.len(),
{
    if ms.len() == 0 {
        h
    } else {
        publish_spec(publish_all(h, ms.drop_last()), ms.last())
    }
}

/// The hub with a new subscription that starts at the next message published.
pub open spec fn subscribe_spec(h: HubView) -> HubView {
    HubView { cursors: h.cursors.push(Some(h.log.len())), ..h }
}

/// The hub with subscription `id` ended.
pub open spec fn unsubscribe_spec(h: HubView, id: nat) -> HubView {
    if id < h.cursors.len() {
        HubView { cursors: h.cursors.update(id as int, None), ..h }
    } else {
        h
    }
}

/// Where subscription `id` stands.
pub open spec fn state_spec(h: HubView, id: nat) -> SubscriberState {
    if id >= h.cursors.len() {
        SubscriberState::Closed
    } else {
        match h.cursors[id as int] {
            None => SubscriberState::Closed,
            Some(c) => if c < oldest_kept(h) {
                SubscriberState::Lagging
            } else {
                SubscriberState::Active
            },
        }
    }
}

/// What one read on subscription `id` gives, and the hub after it.
pub open spec fn receive_spec(h: HubView, id: nat) -> (HubView, ReceivedView) {
    if id >= h.cursors.len() {
        (h, ReceivedView::Closed)
    } else {
        match h.cursors[id as int] {
            None => (h, ReceivedView::Closed),
            Some(c) => if c < oldest_kept(h) {
                (
                    HubView { cursors: h.cursors.update(id as int, Some(oldest_kept(h))), ..h },
                    ReceivedView::Lagged((oldest_kept(h) - c) as nat),
                )
            } else if c >= h.log.len() {
                (h, ReceivedView::Empty)
            } else {
                (
                    HubView { cursors: h.cursors.update(id as int, Some(c + 1)), ..h },
                    ReceivedView::Message(h.log[c as int]),
                )
            },
        }
    }
}

impl Hub {
    /// The hub's invariant: it holds the last `capacity` messages of its log,
    /// and no subscription stands beyond the log.
    pub closed spec fn wf(&self) -> bool {
        &&& self.capacity > 0
        &&& self.published as nat == self.log@.len()
        &&& self.buffer@.len() == if self.log@.len() > self.capacity {
            self.capacity as nat
        } else {
            self.log@.len()
        }
        &&& forall|i: int|
            0 <= i < self.buffer@.len() ==> (#[trigger] self.buffer@[i])@ == self.log@[self.log@.len()
                - self.buffer@.len() + i]
        &&& forall|i: int|
            0 <= i < self.cursors@.len() ==> (#[trigger] self.cursors@[i] matches Some(c) ==> c
                <= self.published)
    }

    proof fn lemma_view(&self)
        ensures
            self@.cursors.len() == self.cursors@.len(),
            forall|i: int|
                0 <= i < self.cursors@.len() ==> #[trigger] self@.cursors[i] == cursor_view(
                    self.cursors@[i],
                ),
    {
    }

    /// A hub whose mailboxes hold `capacity` messages, with no subscription.
    pub fn new(capacity: usize) -> (r: Hub)
        requires
            capacity > 0,
        ensures
            r.wf(),
            r@.capacity == capacity,
            r@.log.len() == 0,
            r@.cursors.len() == 0,
    {
        let r = Hub {
            capacity,
            buffer: Vec::new(),
            published: 0,
            cursors: Vec::new(),
            log: Ghost(Seq::empty()),
        };
        assert(r@.cursors =~= Seq::empty());
        r
    }

    /// How many messages were published.
    pub fn published(&self) -> (r: u64)
        requires
            self.wf(),
        ensures
            r == self@.log.len(),
    {
        self.published
    }

    /// Broadcasts `m` to every open subscription. Only the count of messages,
    /// a `u64`, can refuse it.
    pub fn publish(&mut self, m: ChatMessage) -> (r: bool)
        requires
            old(self).wf(),
        ensures
            final(self).wf(),
            r == (old(self)@.log.len() < u64::MAX),
            final(self)@ == if r {
                publish_spec(old(self)@, m@)
            } else {
                old(self)@
            },
    {
        if self.published == u64::MAX {
            return false;
        }
        let ghost old_buf = self.buffer@;
        let ghost mv = m@;
        if self.buffer.len() == self.capacity {
            self.buffer.remove(0);
        }
        self.buffer.push(m);
        self.published = self.published + 1;
        self.log = Ghost(self.log@.push(mv));
        proof {
            let log = self.log@;
            let buf = self.buffer@;
            assert forall|i: int| 0 <= i < buf.len() implies (#[trigger] buf[i])@ == log[log.len()
                - buf.len() + i] by {
                if i < buf.len() - 1 {
                    if old_buf.len() == self.capacity {
                        assert(buf[i] == old_buf[i + 1]);
                    } else {
                        assert(buf[i] == old_buf[i]);
                    }
                }
            }
            assert(self@.cursors =~= old(self)@.cursors);
            assert(self@ == publish_spec(old(self)@, mv));
        }
        true
    }

    /// Opens a subscription that starts at the next message published, and
    /// gives its number.
    pub fn subscribe(&mut self) -> (id: usize)
        requires
            old(self).wf(),
        ensures
            final(self).wf(),
            id == old(self)@.cursors.len(),
            final(self)@ == subscribe_spec(old(self)@),
    {
        let id = self.cursors.len();
        self.cursors.push(Some(self.published));
        proof {
            assert(self@.cursors =~= old(self)@.cursors.push(Some(old(self)@.log.len())));
        }
        id
    }

    /// Ends subscription `id`: it gives nothing more.
    pub fn unsubscribe(&mut self, id: usize)
        requires
            old(self).wf(),
        ensures
            final(self).wf(),
            final(self)@ == unsubscribe_spec(old(self)@, id as nat),
    {
        if id < self.cursors.len() {
            self.cursors.set(id, None);
            proof {
                assert(self@.cursors =~= old(self)@.cursors.update(id as int, None));
            }
        }
    }

    /// Where subscription `id` stands.
    pub fn state(&self, id: usize) -> (r: SubscriberState)
        requires
            self.wf(),
        ensures
            r == state_spec(self@, id as nat),
    {
        proof {
            self.lemma_view();
        }
        if id >= self.cursors.len() {
            return SubscriberState::Closed;
        }
        match self.cursors[id] {
            None => SubscriberState::Closed,
            Some(c) => {
                if c < self.published - self.buffer.len() as u64 {
                    SubscriberState::Lagging
                } else {
                    SubscriberState::Active
                }
            },
        }
    }

    /// Reads once from subscription `id`.
    pub fn receive(&mut self, id: usize) -> (r: Received)
        requires
            old(self).wf(),
        ensures
            final(self).wf(),
            (final(self)@, r@) == receive_spec(old(self)@, id as nat),
    {
        proof {
            self.lemma_view();
        }
        if id >= self.cursors.len() {
            return Received::Closed;
        }
        match self.cursors[id] {
            None => Received::Closed,
            Some(c) => {
                let oldest = self.published - self.buffer.len() as u64;
                if c < oldest {
                    self.cursors.set(id, Some(oldest));
                    proof {
                        assert(self@.cursors =~= old(self)@.cursors.update(
                            id as int,
                            Some(oldest_kept(old(self)@)),
                        ));
                    }
                    Received::Lagged(oldest - c)
                } else if c >= self.published {
                    Received::Empty
                } else {
                    let m = self.buffer[(c - oldest) as usize].duplicate();
                    self.cursors.set(id, Some(c + 1));
                    proof {
                        assert(self@.cursors =~= old(self)@.cursors.update(
                            id as int,
                            Some(c as nat + 1),
                        ));
                    }
                    Received::Message(m)
                }
            },
        }
    }
}

/// What a chat stream does after a read.
#[derive(PartialEq, Eq, Structural, Clone, Copy, Debug)]
pub enum StreamStep {
    /// Send the message to the client and read again.
    Deliver,
    /// Messages were missed; read again.
    Skip,
    /// Nothing yet; wait for a publication or for the client to go.
    Wait,
    /// End the stream.
    End,
}

/// The next step of a chat stream, given what a read gave and whether the
/// client's connection has been cancelled. A cancelled stream ends.
pub fn stream_step(received: &Received, cancelled: bool) -> (r: StreamStep)
    ensures
        cancelled ==> r == StreamStep::End,
        !cancelled ==> r == match received@ {
            ReceivedView::Message(_) => StreamStep::Deliver,
            ReceivedView::Lagged(_) => StreamStep::Skip,
            ReceivedView::Empty => StreamStep::Wait,
            ReceivedView::Closed => StreamStep::End,
        },
{
    if cancelled {
        return StreamStep::End;
    }
    match received {
        Received::Message(_) => StreamStep::Deliver,
        Received::Lagged(_) => StreamStep::Skip,
        Received::Empty => StreamStep::Wait,
        Received::Closed => StreamStep::End,
    }
}

/// The message that `identity` posts with `form`.
pub fn chat_message_of(identity: Identity, form: Message) -> (r: ChatMessage)
    ensures
        r.room@ == form.room@,
        r.username@ == identity.username@,
        r.message@ == form.message@,
        r.chat_type@ == chat_type_spec(identity.role),
{
    ChatMessage {
        room: form.room,
        username: identity.username,
        message: form.message,
        chat_type: chat_type_of(identity.role),
    }
}

/// Opens a chat stream for a request carrying `token` at time `now`: a
/// subscription for an authenticated client, none for anyone else.
pub fn retrieve_chat(hub: &mut Hub, token: Option<String>, now: u64) -> (r: Option<usize>)
    requires
        old(hub).wf(),
    ensures
        final(hub).wf(),
        token is None ==> r is None && final(hub)@ == old(hub)@,
        token matches Some(t) ==> forall|m: Map<Seq<char>, Seq<char>>|
            m.dom().finite() && #[trigger] hs256_token(TOKEN_SECRET@, m) == t@ ==> (match valid_claims(m, now) {
                Some(_) => r == Some(old(hub)@.cursors.len() as usize) && final(hub)@ == subscribe_spec(old(hub)@),
                None => r is None && final(hub)@ == old(hub)@,
            }),
{
    match authenticate(token, now) {
        Some(_) => Some(hub.subscribe()),
        None => None,
    }
}

/// Posts `form` to the chat for a request carrying `token` at time `now`: the
/// message, tagged with the writer's role, is published when the token is
/// valid, and nothing happens otherwise. Says whether it was published.
pub fn retrieve_message(form: Message, hub: &mut Hub, token: Option<String>, now: u64) -> (r: bool)
    requires
        old(hub).wf(),
    ensures
        final(hub).wf(),
        !r ==> final(hub)@ == old(hub)@,
        token is None ==> !r,
        token matches Some(t) ==> forall|m: Map<Seq<char>, Seq<char>>|
            m.dom().finite() && #[trigger] hs256_token(TOKEN_SECRET@, m) == t@ ==> (match valid_claims(m, now) {
                Some(c) => r == (old(hub)@.log.len() < u64::MAX) && (r ==> final(hub)@ == publish_spec(
                    old(hub)@,
                    ChatMessageView {
                        room: form.room@,
                        username: c.username,
                        message: form.message@,
                        chat_type: chat_type_spec(c.role),
                    },
                )),
                None => !r,
            }),
{
    match authenticate(token, now) {
        Some(identity) => {
            let m = chat_message_of(identity, form);
            hub.publish(m)
        },
        None => false,
    }
}

/// Publishing messages one after another appends them to the log and leaves
/// the mailbox size and the subscriptions as they were.
pub proof fn lemma_publish_all(h: HubView, ms: Seq<ChatMessageView>)
    ensures
        publish_all(h, ms) == (HubView { log: h.log + ms, ..h }),
    decreases ms.len(),
{
    if ms.len() > 0 {
        lemma_publish_all(h, ms.drop_last());
        assert(h.log + ms =~= (h.log + ms.drop_last()).push(ms.last()));
    }
}

/// A subscriber that has not fallen behind reads the next message of the log;
/// the read moves it on by one and touches nothing else.
pub proof fn lemma_receive_next(h: HubView, id: nat, c: nat)
    requires
        id < h.cursors.len(),
        h.cursors[id as int] == Some(c),
        oldest_kept(h) <= c < h.log.len(),
    ensures
        receive_spec(h, id).1 == ReceivedView::Message(h.log[c as int]),
        receive_spec(h, id).0 == (HubView { cursors: h.cursors.update(id as int, Some(c + 1)), ..h }),
{
}

/// Two subscribers that are both up to date read three messages published
/// after that in the order of publication, each on its own: neither reading
/// disturbs the other. Holds where the mailbox has room for the three.
pub proof fn subscribers_read_in_order(
    h: HubView,
    s1: nat,
    s2: nat,
    m1: ChatMessageView,
    m2: ChatMessageView,
    m3: ChatMessageView,
)
    requires
        s1 != s2,
        s1 < h.cursors.len(),
        s2 < h.cursors.len(),
        h.cursors[s1 as int] == Some(h.log.len()),
        h.cursors[s2 as int] == Some(h.log.len()),
        h.capacity >= 3,
    ensures
        ({
            let p = publish_spec(publish_spec(publish_spec(h, m1), m2), m3);
            let a1 = receive_spec(p, s1);
            let b1 = receive_spec(a1.0, s2);
            let a2 = receive_spec(b1.0, s1);
            let a3 = receive_spec(a2.0, s1);
            let b2 = receive_spec(a3.0, s2);
            let b3 = receive_spec(b2.0, s2);
            &&& a1.1 == ReceivedView::Message(m1)
            &&& a2.1 == ReceivedView::Message(m2)
            &&& a3.1 == ReceivedView::Message(m3)
            &&& b1.1 == ReceivedView::Message(m1)
            &&& b2.1 == ReceivedView::Message(m2)
            &&& b3.1 == ReceivedView::Message(m3)
        }),
{
    let n = h.log.len();
    let p = publish_spec(publish_spec(publish_spec(h, m1), m2), m3);
    assert(p.log.len() == n + 3);
    assert(p.log[n as int] == m1 && p.log[n + 1int] == m2 && p.log[n + 2int] == m3);
    assert(oldest_kept(p) <= n);
    lemma_receive_next(p, s1, n);
    let a1 = receive_spec(p, s1);
    lemma_receive_next(a1.0, s2, n);
    let b1 = receive_spec(a1.0, s2);
    lemma_receive_next(b1.0, s1, n + 1);
    let a2 = receive_spec(b1.0, s1);
    lemma_receive_next(a2.0, s1, n + 2);
    let a3 = receive_spec(a2.0, s1);
    lemma_receive_next(a3.0, s2, n + 1);
    let b2 = receive_spec(a3.0, s2);
    lemma_receive_next(b2.0, s2, n + 2);
}

/// A subscriber that reads nothing while more messages are published than its
/// mailbox holds falls into lagging; its next read reports how many messages
/// it lost, and the read after that gives the oldest message still kept.
/// Publishing went on all the while.
pub proof fn slow_subscriber_lags(h: HubView, s: nat, ms: Seq<ChatMessageView>)
    requires
        s < h.cursors.len(),
        h.cursors[s as int] == Some(h.log.len()),
        h.capacity > 0,
        ms.len() > h.capacity,
    ensures
        publish_all(h, ms).log == h.log + ms,
        state_spec(publish_all(h, ms), s) == SubscriberState::Lagging,
        receive_spec(publish_all(h, ms), s).1 == ReceivedView::Lagged((ms.len() - h.capacity) as nat),
        receive_spec(receive_spec(publish_all(h, ms), s).0, s).1 == ReceivedView::Message(
            ms[ms.len() - h.capacity],
        ),
{
    lemma_publish_all(h, ms);
    let p = publish_all(h, ms);
    assert(oldest_kept(p) == h.log.len() + ms.len() - h.capacity);
    let q = receive_spec(p, s).0;
    assert(q.log == p.log && q.capacity == p.capacity);
    lemma_receive_next(q, s, oldest_kept(p));
    assert(q.log[oldest_kept(p) as int] == ms[ms.len() - h.capacity]);
}

} // verus!
