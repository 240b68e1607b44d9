use reading_list_bot::{reply_to, PING_COMMAND, PING_REPLY};

#[test]
fn ping_gets_pong() {
    assert_eq!(reply_to("!ping"), Some("Pong!".to_string()));
}

#[test]
fn ping_constants() {
    assert_eq!(PING_COMMAND, "!ping");
    assert_eq!(PING_REPLY, "Pong!");
}

#[test]
fn ping_with_trailing_space_gets_nothing() {
    assert_eq!(reply_to("!ping "), None);
}

#[test]
fn upper_case_ping_gets_nothing() {
    assert_eq!(reply_to("PING"), None);
    assert_eq!(reply_to("!PING"), None);
}

#[test]
fn other_messages_get_nothing() {
    assert_eq!(reply_to(""), None);
    assert_eq!(reply_to("ping"), None);
    assert_eq!(reply_to(" !ping"), None);
    assert_eq!(reply_to("Pong!"), None);
}
