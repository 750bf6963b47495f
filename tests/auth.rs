use hilfmir::{AllowedChat, Auth, Config, InboundEvent, SecretString};

fn config(chats: Vec<AllowedChat>) -> Config {
    Config::new(
        SecretString::new("token".to_string()),
        SecretString::new("key".to_string()),
        chats,
        "example.org".to_string(),
        [0, 0, 0, 0],
        8080,
        false,
    )
}

fn from_chat(chat_id: i64) -> InboundEvent {
    InboundEvent { chat_id, message_id: 1, text: Some("/t en hi".to_string()), reply_to: None }
}

#[test]
fn listed_chat_is_authorized() {
    let auth = Auth::new(&config(vec![AllowedChat { id: -100, name: "team".to_string() }]));
    assert!(auth.message_is_authorized(&from_chat(-100)));
    assert_eq!(auth.get_chat_name(-100).as_deref(), Some("team"));
}

#[test]
fn unlisted_chat_is_rejected() {
    let auth = Auth::new(&config(vec![AllowedChat { id: 1, name: "a".to_string() }]));
    assert!(!auth.message_is_authorized(&from_chat(2)));
    assert_eq!(auth.get_chat_name(2), None);
}

#[test]
fn empty_allow_list_rejects_everything() {
    let auth = Auth::new(&config(vec![]));
    assert!(!auth.message_is_authorized(&from_chat(0)));
    assert!(!auth.message_is_authorized(&from_chat(i64::MAX)));
    assert!(!auth.message_is_authorized(&from_chat(i64::MIN)));
}

#[test]
fn later_entry_wins_for_a_repeated_id() {
    let auth = Auth::new(&config(vec![
        AllowedChat { id: 5, name: "first".to_string() },
        AllowedChat { id: 5, name: "second".to_string() },
    ]));
    assert_eq!(auth.get_chat_name(5).as_deref(), Some("second"));
}
