use etcgbot::sender::{resolve, InboundMessage, SenderRecord};

#[test]
fn no_sender_yields_someone() {
    let msg = InboundMessage { chat_id: 1, sender: None };
    let info = resolve(&msg);
    assert_eq!(info.display_name, "someone");
    assert_eq!(info.identity, None);
}

#[test]
fn full_name_joined_with_space() {
    let msg = InboundMessage {
        chat_id: 1,
        sender: Some(SenderRecord {
            first_name: String::from("Ada"),
            last_name: Some(String::from("Lovelace")),
            identity: 77,
        }),
    };
    let info = resolve(&msg);
    assert_eq!(info.display_name, "Ada Lovelace");
    assert_eq!(info.identity, Some(77));
}

#[test]
fn first_name_alone_without_last_name() {
    let msg = InboundMessage {
        chat_id: 1,
        sender: Some(SenderRecord {
            first_name: String::from("Ada"),
            last_name: None,
            identity: 77,
        }),
    };
    let info = resolve(&msg);
    assert_eq!(info.display_name, "Ada");
    assert_eq!(info.identity, Some(77));
}

#[test]
fn empty_last_name_is_ignored() {
    let msg = InboundMessage {
        chat_id: 1,
        sender: Some(SenderRecord {
            first_name: String::from("Ada"),
            last_name: Some(String::new()),
            identity: 77,
        }),
    };
    let info = resolve(&msg);
    assert_eq!(info.display_name, "Ada");
    assert_eq!(info.identity, Some(77));
}
