use schmu::connections::{
    is_valid_id_request, Connections, Offer, Submission, ALPHABET, ID_LENGTH, MAILBOX_CAPACITY,
};
use tokio::sync::mpsc::error::TryRecvError;

fn is_generated(id: &str) -> bool {
    id.chars().count() >= ID_LENGTH && id.chars().all(|c| ALPHABET.contains(c))
}

#[test]
fn new_registry_has_no_session() {
    let registry = Connections::new();
    assert!(!registry.contains("abcdef"));
    assert!(!registry.contains(""));
}

#[test]
fn register_without_request_generates_id() {
    let mut registry = Connections::new();
    let (id, _rx) = registry.register(None);
    assert_eq!(id.len(), 6);
    assert!(is_generated(&id));
    assert!(registry.contains(&id));
}

#[test]
fn generated_ids_use_the_alphabet_only() {
    let mut registry = Connections::new();
    let mut receivers = Vec::new();
    for _ in 0..200 {
        let (id, rx) = registry.register(None);
        assert_eq!(id.chars().count(), 6);
        assert!(id.chars().all(|c| "abcdeghkmnpqrswxyzACEFGHLMNPRSTWY34679".contains(c)));
        receivers.push(rx);
    }
}

#[test]
fn two_registrations_never_share_an_id() {
    let mut registry = Connections::new();
    let mut seen = Vec::new();
    let mut receivers = Vec::new();
    for _ in 0..300 {
        let (id, rx) = registry.register(None);
        assert!(!seen.contains(&id));
        seen.push(id);
        receivers.push(rx);
    }
}

#[test]
fn register_grants_valid_free_request() {
    let mut registry = Connections::new();
    let (id, _rx) = registry.register(Some("my-room_1".to_string()));
    assert_eq!(id, "my-room_1");
    assert!(registry.contains("my-room_1"));
}

#[test]
fn register_of_live_id_assigns_another() {
    let mut registry = Connections::new();
    let (first, mut rx1) = registry.register(Some("room".to_string()));
    let (second, _rx2) = registry.register(Some("room".to_string()));
    assert_eq!(first, "room");
    assert_ne!(second, "room");
    assert!(is_generated(&second));
    assert!(registry.contains("room"));
    assert!(registry.contains(&second));
    assert_eq!(registry.submit("room", "AAAAAAAAAAA"), Submission::Delivered);
    assert_eq!(rx1.try_recv(), Ok("AAAAAAAAAAA".to_string()));
}

#[test]
fn register_of_invalid_request_generates_id() {
    let mut registry = Connections::new();
    for bad in ["abc", "", "has space", "semi;colon", "ümlaut", "a/b/c/d"] {
        let (id, _rx) = registry.register(Some(bad.to_string()));
        assert_ne!(id, bad);
        assert!(is_generated(&id));
        assert!(!registry.contains(bad));
    }
}

#[test]
fn unregister_removes_and_is_idempotent() {
    let mut registry = Connections::new();
    let (a, _ra) = registry.register(Some("aaaa".to_string()));
    let (b, _rb) = registry.register(Some("bbbb".to_string()));
    registry.unregister(&a);
    assert!(!registry.contains(&a));
    assert!(registry.contains(&b));
    registry.unregister(&a);
    assert!(!registry.contains(&a));
    assert!(registry.contains(&b));
    registry.unregister("never-there");
    assert!(registry.contains(&b));
}

#[test]
fn unregister_closes_the_mailbox() {
    let mut registry = Connections::new();
    let (a, mut rx) = registry.register(None);
    assert_eq!(rx.try_recv(), Err(TryRecvError::Empty));
    registry.unregister(&a);
    assert_eq!(rx.try_recv(), Err(TryRecvError::Disconnected));
}

#[test]
fn unregistered_id_can_be_requested_again() {
    let mut registry = Connections::new();
    let (_, _r1) = registry.register(Some("room".to_string()));
    registry.unregister("room");
    let (id, _r2) = registry.register(Some("room".to_string()));
    assert_eq!(id, "room");
}

#[test]
fn submit_to_unknown_session_does_nothing() {
    let mut registry = Connections::new();
    let (a, mut rx) = registry.register(None);
    assert_eq!(registry.submit("unknown", "AAAAAAAAAAA"), Submission::NoSession);
    assert_eq!(rx.try_recv(), Err(TryRecvError::Empty));
    assert!(registry.contains(&a));
    assert!(!registry.contains("unknown"));
}

#[test]
fn submit_reaches_only_the_named_session() {
    let mut registry = Connections::new();
    let (a, mut rx_a) = registry.register(None);
    let (b, mut rx_b) = registry.register(None);
    assert_ne!(a, b);
    assert_eq!(registry.submit(&a, "AAAAAAAAAAA"), Submission::Delivered);
    assert_eq!(rx_a.try_recv(), Ok("AAAAAAAAAAA".to_string()));
    assert_eq!(rx_a.try_recv(), Err(TryRecvError::Empty));
    assert_eq!(rx_b.try_recv(), Err(TryRecvError::Empty));
}

#[test]
fn submissions_arrive_in_order() {
    let mut registry = Connections::new();
    let (a, mut rx) = registry.register(None);
    for song in ["11111111111", "22222222222", "33333333333"] {
        assert_eq!(registry.submit(&a, song), Submission::Delivered);
    }
    assert_eq!(rx.try_recv(), Ok("11111111111".to_string()));
    assert_eq!(rx.try_recv(), Ok("22222222222".to_string()));
    assert_eq!(rx.try_recv(), Ok("33333333333".to_string()));
    assert_eq!(rx.try_recv(), Err(TryRecvError::Empty));
}

#[test]
fn full_mailbox_drops_the_newest() {
    let mut registry = Connections::new();
    let (a, mut rx) = registry.register(None);
    assert_eq!(MAILBOX_CAPACITY, 64);
    for k in 0..MAILBOX_CAPACITY {
        assert_eq!(registry.submit(&a, &format!("{k:011}")), Submission::Delivered);
    }
    assert_eq!(registry.submit(&a, "overflowing"), Submission::MailboxFull);
    for k in 0..MAILBOX_CAPACITY {
        assert_eq!(rx.try_recv(), Ok(format!("{k:011}")));
    }
    assert_eq!(rx.try_recv(), Err(TryRecvError::Empty));
    assert_eq!(registry.submit(&a, "fits again!"), Submission::Delivered);
}

#[test]
fn closed_mailbox_drops_the_submission() {
    let mut registry = Connections::new();
    let (a, rx) = registry.register(None);
    drop(rx);
    assert_eq!(registry.submit(&a, "AAAAAAAAAAA"), Submission::MailboxClosed);
    assert!(registry.contains(&a));
}

#[test]
fn submission_from_offer() {
    assert_eq!(Submission::from_offer(Offer::Accepted), Submission::Delivered);
    assert_eq!(Submission::from_offer(Offer::Full), Submission::MailboxFull);
    assert_eq!(Submission::from_offer(Offer::Closed), Submission::MailboxClosed);
}

#[test]
fn id_request_needs_length_and_charset() {
    assert!(is_valid_id_request("abcd"));
    assert!(is_valid_id_request("ABCD-ef_09"));
    assert!(is_valid_id_request("----"));
    assert!(is_valid_id_request("a-very-long-identifier_with_0123456789"));
    assert!(!is_valid_id_request(""));
    assert!(!is_valid_id_request("abc"));
    assert!(!is_valid_id_request("ab d"));
    assert!(!is_valid_id_request("abcd!"));
    assert!(!is_valid_id_request("äbcd"));
    assert!(!is_valid_id_request("abc\u{e9}"));
    assert!(!is_valid_id_request("a:bc"));
    assert!(!is_valid_id_request("ab\ncd"));
}
