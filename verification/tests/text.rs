use alma_negra::commands::{channel_mention, join_message, leave_messages, ChatMessage};
use alma_negra::decimal::decimal_string;

fn text(message: &ChatMessage) -> (bool, &str) {
    match message {
        ChatMessage::ReplyToAuthor(t) => (true, t.as_str()),
        ChatMessage::SayInChannel(t) => (false, t.as_str()),
    }
}

#[test]
fn decimal_matches_display() {
    for n in [0u64, 1, 9, 10, 11, 99, 100, 4242, 1_000_000_007, u64::MAX - 1, u64::MAX] {
        assert_eq!(decimal_string(n), n.to_string());
    }
    for n in 0u64..2000 {
        assert_eq!(decimal_string(n), n.to_string());
    }
}

#[test]
fn decimal_of_max() {
    assert_eq!(decimal_string(u64::MAX), "18446744073709551615");
}

#[test]
fn mention_of_channel() {
    assert_eq!(channel_mention(123), "<#123>");
    assert_eq!(channel_mention(0), "<#0>");
}

#[test]
fn join_without_channel() {
    let m = join_message(None, false);
    assert_eq!(text(&m), (true, "Requires a valid voice channel ID be given"));
    let m = join_message(None, true);
    assert_eq!(text(&m), (true, "Requires a valid voice channel ID be given"));
}

#[test]
fn join_success() {
    let m = join_message(Some(987654321), true);
    assert_eq!(text(&m), (false, "Joined <#987654321>"));
}

#[test]
fn join_failure() {
    let m = join_message(Some(5), false);
    assert_eq!(text(&m), (false, "Error joining the channel"));
}

#[test]
fn leave_when_not_in_call() {
    let ms = leave_messages(false, Some("ignored".to_string()));
    assert_eq!(ms.len(), 1);
    assert_eq!(text(&ms[0]), (true, "Not in a voice channel"));
}

#[test]
fn leave_success() {
    let ms = leave_messages(true, None);
    assert_eq!(ms.len(), 1);
    assert_eq!(text(&ms[0]), (false, "Left voice channel"));
}

#[test]
fn leave_failure_reported_first() {
    let ms = leave_messages(true, Some("NoCall".to_string()));
    assert_eq!(ms.len(), 2);
    assert_eq!(text(&ms[0]), (false, "Failed: NoCall"));
    assert_eq!(text(&ms[1]), (false, "Left voice channel"));
}
