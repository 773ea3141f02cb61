use schmu::connections::Connections;
use schmu::protocol::Frame;
use schmu::server::{get_submit, post_submit, FormReply};
use schmu::connections::Submission;
use schmu::socket::{ServerAction, ServerEndpoint, ServerEvent};
use tokio::sync::mpsc::error::TryRecvError;
use tokio::sync::mpsc::Receiver;

fn text(t: &str) -> ServerEvent {
    ServerEvent::Frame(Frame::Text(t.to_string()))
}

fn open(registry: &mut Connections, hello: &str) -> (ServerEndpoint, String, Receiver<String>) {
    let mut endpoint = ServerEndpoint::new();
    match endpoint.step(registry, text(hello)) {
        ServerAction::Welcome { id, reply, mailbox } => {
            assert_eq!(reply, format!("hello:{id}"));
            (endpoint, id, mailbox)
        }
        _ => panic!("no welcome"),
    }
}

#[test]
fn hello_registers_and_is_answered() {
    let mut registry = Connections::new();
    let (endpoint, id, _mailbox) = open(&mut registry, "hello");
    assert_eq!(id.len(), 6);
    assert!(registry.contains(&id));
    assert!(!endpoint.is_closed());
}

#[test]
fn hello_with_id_registers_that_id() {
    let mut registry = Connections::new();
    let (_endpoint, id, _mailbox) = open(&mut registry, "hello:living-room");
    assert_eq!(id, "living-room");
    assert!(registry.contains("living-room"));
}

#[test]
fn hello_with_live_id_gets_another() {
    let mut registry = Connections::new();
    let (_e1, first, _m1) = open(&mut registry, "hello:room");
    let (_e2, second, _m2) = open(&mut registry, "hello:room");
    assert_eq!(first, "room");
    assert_ne!(second, "room");
    assert!(registry.contains(&second));
}

#[test]
fn invalid_first_frame_closes_without_reply() {
    let frames = [
        Frame::Text("".to_string()),
        Frame::Text("hi".to_string()),
        Frame::Text("hello:".to_string()),
        Frame::Text("hello:abc".to_string()),
        Frame::Text("hello:not valid".to_string()),
        Frame::Text("push:AAAAAAAAAAA".to_string()),
        Frame::Binary(vec![104, 101, 108, 108, 111]),
        Frame::Pong(vec![]),
        Frame::Close,
    ];
    for frame in frames {
        let mut registry = Connections::new();
        let (_e, live, _m) = open(&mut registry, "hello:already");
        let mut endpoint = ServerEndpoint::new();
        let action = endpoint.step(&mut registry, ServerEvent::Frame(frame));
        assert!(matches!(action, ServerAction::Close));
        assert!(endpoint.is_closed());
        assert!(registry.contains(&live));
        assert!(!registry.contains("abc"));
        assert!(!registry.contains("not valid"));
        let again = endpoint.step(&mut registry, text("hello"));
        assert!(matches!(again, ServerAction::Ignore));
        assert!(endpoint.is_closed());
    }
}

#[test]
fn disconnect_before_hello_closes() {
    let mut registry = Connections::new();
    let mut endpoint = ServerEndpoint::new();
    assert!(matches!(endpoint.step(&mut registry, ServerEvent::Disconnected), ServerAction::Close));
    assert!(endpoint.is_closed());
}

#[test]
fn submission_before_hello_closes() {
    let mut registry = Connections::new();
    let mut endpoint = ServerEndpoint::new();
    let action = endpoint.step(&mut registry, ServerEvent::Submission("AAAAAAAAAAA".to_string()));
    assert!(matches!(action, ServerAction::Close));
    assert!(endpoint.is_closed());
}

#[test]
fn ping_is_answered_in_every_open_phase() {
    let mut registry = Connections::new();
    let mut endpoint = ServerEndpoint::new();
    let action = endpoint.step(&mut registry, ServerEvent::Frame(Frame::Ping(vec![1, 2])));
    assert!(matches!(action, ServerAction::Pong { payload } if payload == [1, 2]));
    assert!(!endpoint.is_closed());
    assert!(matches!(endpoint.step(&mut registry, text("hello")), ServerAction::Welcome { .. }));
    let action = endpoint.step(&mut registry, ServerEvent::Frame(Frame::Ping(vec![7])));
    assert!(matches!(action, ServerAction::Pong { payload } if payload == [7]));
    assert!(!endpoint.is_closed());
}

#[test]
fn submissions_are_pushed_to_their_session_only() {
    let mut registry = Connections::new();
    let (mut a, id_a, mut mailbox_a) = open(&mut registry, "hello");
    let (_b, id_b, mut mailbox_b) = open(&mut registry, "hello");
    assert_ne!(id_a, id_b);
    assert_eq!(registry.submit(&id_a, "AAAAAAAAAAA"), Submission::Delivered);
    assert_eq!(mailbox_b.try_recv(), Err(TryRecvError::Empty));
    let song = mailbox_a.try_recv().unwrap();
    let action = a.step(&mut registry, ServerEvent::Submission(song));
    assert!(matches!(action, ServerAction::Send { frame } if frame == "push:AAAAAAAAAAA"));
    assert_eq!(mailbox_a.try_recv(), Err(TryRecvError::Empty));
    assert_eq!(mailbox_b.try_recv(), Err(TryRecvError::Empty));
}

#[test]
fn frames_of_an_active_session_are_ignored() {
    let mut registry = Connections::new();
    let (mut endpoint, id, _mailbox) = open(&mut registry, "hello");
    for frame in [
        Frame::Text("hello".to_string()),
        Frame::Text("anything".to_string()),
        Frame::Binary(vec![1]),
        Frame::Pong(vec![]),
    ] {
        assert!(matches!(
            endpoint.step(&mut registry, ServerEvent::Frame(frame)),
            ServerAction::Ignore
        ));
        assert!(!endpoint.is_closed());
        assert!(registry.contains(&id));
    }
}

#[test]
fn close_frame_unregisters() {
    let mut registry = Connections::new();
    let (mut endpoint, id, mut mailbox) = open(&mut registry, "hello");
    let (_other, other_id, _m) = open(&mut registry, "hello");
    let action = endpoint.step(&mut registry, ServerEvent::Frame(Frame::Close));
    assert!(matches!(action, ServerAction::Close));
    assert!(endpoint.is_closed());
    assert!(!registry.contains(&id));
    assert!(registry.contains(&other_id));
    assert_eq!(mailbox.try_recv(), Err(TryRecvError::Disconnected));
}

#[test]
fn transport_error_unregisters() {
    let mut registry = Connections::new();
    let (mut endpoint, id, _mailbox) = open(&mut registry, "hello:room");
    let action = endpoint.step(&mut registry, ServerEvent::Disconnected);
    assert!(matches!(action, ServerAction::Close));
    assert!(endpoint.is_closed());
    assert!(!registry.contains(&id));
}

#[test]
fn closed_endpoint_ignores_everything() {
    let mut registry = Connections::new();
    let (mut endpoint, _id, _mailbox) = open(&mut registry, "hello");
    endpoint.step(&mut registry, ServerEvent::Disconnected);
    for event in [
        text("hello"),
        ServerEvent::Frame(Frame::Ping(vec![1])),
        ServerEvent::Frame(Frame::Close),
        ServerEvent::Disconnected,
        ServerEvent::Submission("AAAAAAAAAAA".to_string()),
    ] {
        assert!(matches!(endpoint.step(&mut registry, event), ServerAction::Ignore));
        assert!(endpoint.is_closed());
    }
}

#[test]
fn form_is_shown_for_live_sessions_only() {
    let mut registry = Connections::new();
    let (id, _rx) = registry.register(None);
    assert_eq!(get_submit(&registry, &id), FormReply::Form);
    assert_eq!(get_submit(&registry, "nobody"), FormReply::InvalidSession);
    registry.unregister(&id);
    assert_eq!(get_submit(&registry, &id), FormReply::InvalidSession);
}

#[test]
fn post_checks_the_song_id_and_submits() {
    let mut registry = Connections::new();
    let (id, mut rx) = registry.register(None);
    assert_eq!(
        post_submit(&mut registry, &id, "too short"),
        (FormReply::InvalidSongId, Submission::NoSession)
    );
    assert_eq!(rx.try_recv(), Err(TryRecvError::Empty));
    assert_eq!(
        post_submit(&mut registry, &id, "AAAAAAAAAAA"),
        (FormReply::Success, Submission::Delivered)
    );
    assert_eq!(rx.try_recv(), Ok("AAAAAAAAAAA".to_string()));
    assert_eq!(
        post_submit(&mut registry, "nobody", "AAAAAAAAAAA"),
        (FormReply::Success, Submission::NoSession)
    );
    assert_eq!(rx.try_recv(), Err(TryRecvError::Empty));
}
