use streamie::chat::{
    chat_type_of, retrieve_chat, retrieve_message, stream_step, ChatMessage, Hub, Message, Received,
    StreamStep, SubscriberState, CHAT_CAPACITY,
};
use streamie::security::{create_token, SecurityRole, SecurityToken};

fn msg(text: &str) -> ChatMessage {
    ChatMessage {
        room: "main".to_string(),
        username: "alice".to_string(),
        message: text.to_string(),
        chat_type: "user".to_string(),
    }
}

fn text_of(r: Received) -> String {
    match r {
        Received::Message(m) => m.message,
        Received::Lagged(n) => format!("lagged {}", n),
        Received::Empty => "empty".to_string(),
        Received::Closed => "closed".to_string(),
    }
}

fn token_for(role: SecurityRole, exp: u64) -> String {
    create_token(SecurityToken {
        username: "writer".to_string(),
        role,
        iss: "streamie.live".to_string(),
        iat: 0,
        exp,
    })
}

#[test]
fn two_subscribers_see_the_same_order() {
    let mut hub = Hub::new(CHAT_CAPACITY);
    let s1 = hub.subscribe();
    let s2 = hub.subscribe();
    assert_eq!(hub.state(s1), SubscriberState::Active);
    assert!(hub.publish(msg("M1")));
    assert!(hub.publish(msg("M2")));
    assert!(hub.publish(msg("M3")));
    assert_eq!(text_of(hub.receive(s1)), "M1");
    assert_eq!(text_of(hub.receive(s2)), "M1");
    assert_eq!(text_of(hub.receive(s1)), "M2");
    assert_eq!(text_of(hub.receive(s1)), "M3");
    assert_eq!(text_of(hub.receive(s2)), "M2");
    assert_eq!(text_of(hub.receive(s2)), "M3");
    assert_eq!(text_of(hub.receive(s1)), "empty");
    assert_eq!(text_of(hub.receive(s2)), "empty");
}

#[test]
fn slow_subscriber_lags_and_learns_the_gap() {
    let mut hub = Hub::new(2);
    let slow = hub.subscribe();
    let fast = hub.subscribe();
    for i in 0..5 {
        assert!(hub.publish(msg(&format!("M{}", i))));
        assert_eq!(text_of(hub.receive(fast)), format!("M{}", i));
    }
    assert_eq!(hub.published(), 5);
    assert_eq!(hub.state(slow), SubscriberState::Lagging);
    assert_eq!(hub.state(fast), SubscriberState::Active);
    assert_eq!(text_of(hub.receive(slow)), "lagged 3");
    assert_eq!(hub.state(slow), SubscriberState::Active);
    assert_eq!(text_of(hub.receive(slow)), "M3");
    assert_eq!(text_of(hub.receive(slow)), "M4");
    assert_eq!(text_of(hub.receive(slow)), "empty");
}

#[test]
fn mailbox_of_exact_capacity_does_not_lag() {
    let mut hub = Hub::new(3);
    let s = hub.subscribe();
    for t in ["a", "b", "c"] {
        hub.publish(msg(t));
    }
    assert_eq!(hub.state(s), SubscriberState::Active);
    assert_eq!(text_of(hub.receive(s)), "a");
}

#[test]
fn new_subscriber_gets_no_history() {
    let mut hub = Hub::new(4);
    hub.publish(msg("old"));
    let s = hub.subscribe();
    assert_eq!(text_of(hub.receive(s)), "empty");
    hub.publish(msg("new"));
    assert_eq!(text_of(hub.receive(s)), "new");
}

#[test]
fn publishing_without_subscribers_never_blocks() {
    let mut hub = Hub::new(1);
    for i in 0..100 {
        assert!(hub.publish(msg(&i.to_string())));
    }
    assert_eq!(hub.published(), 100);
}

#[test]
fn closed_subscription_ends_and_others_go_on() {
    let mut hub = Hub::new(4);
    let a = hub.subscribe();
    let b = hub.subscribe();
    hub.unsubscribe(a);
    assert_eq!(hub.state(a), SubscriberState::Closed);
    hub.publish(msg("x"));
    assert_eq!(text_of(hub.receive(a)), "closed");
    assert_eq!(text_of(hub.receive(b)), "x");
    assert_eq!(text_of(hub.receive(99)), "closed");
    assert_eq!(hub.state(99), SubscriberState::Closed);
}

#[test]
fn stream_steps() {
    assert_eq!(stream_step(&Received::Message(msg("m")), false), StreamStep::Deliver);
    assert_eq!(stream_step(&Received::Lagged(2), false), StreamStep::Skip);
    assert_eq!(stream_step(&Received::Empty, false), StreamStep::Wait);
    assert_eq!(stream_step(&Received::Closed, false), StreamStep::End);
    assert_eq!(stream_step(&Received::Message(msg("m")), true), StreamStep::End);
}

#[test]
fn chat_types_follow_roles() {
    assert_eq!(chat_type_of(SecurityRole::ADMIN), "admin");
    assert_eq!(chat_type_of(SecurityRole::MODERATOR), "mod");
    assert_eq!(chat_type_of(SecurityRole::USER), "user");
}

#[test]
fn message_from_valid_token_is_published_with_role_tag() {
    let mut hub = Hub::new(CHAT_CAPACITY);
    let reader = hub.subscribe();
    let form = Message { room: "lobby".to_string(), message: "hello".to_string() };
    assert!(retrieve_message(form, &mut hub, Some(token_for(SecurityRole::MODERATOR, 1000)), 10));
    match hub.receive(reader) {
        Received::Message(m) => {
            assert_eq!(m.room, "lobby");
            assert_eq!(m.username, "writer");
            assert_eq!(m.message, "hello");
            assert_eq!(m.chat_type, "mod");
        },
        _ => panic!("expected a message"),
    }
}

#[test]
fn message_without_valid_token_is_dropped() {
    let mut hub = Hub::new(CHAT_CAPACITY);
    let form = Message { room: "lobby".to_string(), message: "hello".to_string() };
    assert!(!retrieve_message(form.clone(), &mut hub, None, 10));
    assert!(!retrieve_message(form, &mut hub, Some(token_for(SecurityRole::ADMIN, 5)), 10));
    assert_eq!(hub.published(), 0);
}

#[test]
fn chat_stream_opens_only_for_valid_tokens() {
    let mut hub = Hub::new(CHAT_CAPACITY);
    assert_eq!(retrieve_chat(&mut hub, None, 10), None);
    assert_eq!(retrieve_chat(&mut hub, Some("None".to_string()), 10), None);
    assert_eq!(retrieve_chat(&mut hub, Some(token_for(SecurityRole::USER, 100)), 10), Some(0));
    assert_eq!(retrieve_chat(&mut hub, Some(token_for(SecurityRole::USER, 100)), 10), Some(1));
}
