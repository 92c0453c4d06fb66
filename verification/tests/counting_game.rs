use impossible_bot::counting::{
    handle_message, remove_channel, setup_channel, x_emoji, EmojiRef, IncomingMessage,
    MessageOutcome, Reaction, StoreChange, Verdict,
};
use impossible_bot::decimal::decimal_string;
use impossible_bot::models::Channel;

fn channel(current: u64, last_user: Option<&str>) -> Channel {
    Channel {
        id: "555".to_string(),
        current_number: current,
        last_count_user: last_user.map(|u| u.to_string()),
        last_count_time: last_user.map(|_| 100),
        last_count_message_id: last_user.map(|_| "900".to_string()),
    }
}

fn message(author: u64, content: &str) -> IncomingMessage {
    IncomingMessage {
        author_id: author,
        author_is_bot: false,
        message_id: 77,
        content: content.to_string(),
        timestamp: 1_650_000_000,
    }
}

fn after(outcome: &MessageOutcome, before: Channel) -> Channel {
    match &outcome.channel {
        Some(c) => Channel {
            id: c.id.clone(),
            current_number: c.current_number,
            last_count_user: c.last_count_user.clone(),
            last_count_time: c.last_count_time,
            last_count_message_id: c.last_count_message_id.clone(),
        },
        None => before,
    }
}

#[test]
fn decimal_string_matches_to_string() {
    for n in [0u64, 1, 9, 10, 42, 100, 1234567890, 919665575813333013, u64::MAX] {
        assert_eq!(decimal_string(n), n.to_string());
    }
    assert_eq!(decimal_string(u64::MAX), "18446744073709551615");
}

#[test]
fn next_number_counts() {
    let outcome = handle_message(&message(8, "5"), Some(channel(4, Some("7"))));
    assert_eq!(outcome.verdict, Verdict::Correct);
    assert_eq!(outcome.reaction, Some(Reaction::CheckMark));
    assert!(outcome.messages.is_empty());
    let c = outcome.channel.unwrap();
    assert_eq!(c.id, "555");
    assert_eq!(c.current_number, 5);
    assert_eq!(c.last_count_user.as_deref(), Some("8"));
    assert_eq!(c.last_count_message_id.as_deref(), Some("77"));
    assert_eq!(c.last_count_time, Some(1_650_000_000));
}

#[test]
fn first_count_in_fresh_channel() {
    let outcome = handle_message(&message(123456789012345678, "1"), Some(Channel::new("9".to_string())));
    assert_eq!(outcome.verdict, Verdict::Correct);
    let c = outcome.channel.unwrap();
    assert_eq!(c.current_number, 1);
    assert_eq!(c.last_count_user.as_deref(), Some("123456789012345678"));
}

#[test]
fn same_user_twice_restarts() {
    let outcome = handle_message(&message(7, "5"), Some(channel(4, Some("7"))));
    assert_eq!(outcome.verdict, Verdict::SameUser);
    assert_eq!(outcome.reaction, Some(Reaction::WhiteX));
    assert_eq!(outcome.messages.len(), 2);
    assert_eq!(outcome.messages[0].content, "*Whoops!!! Wait until another person can go, <@7>*");
    assert!(outcome.messages[0].reply);
    assert_eq!(outcome.messages[1].content, "**Restarting at `1`**");
    assert!(!outcome.messages[1].reply);
    let c = outcome.channel.unwrap();
    assert_eq!(c.current_number, 0);
    assert_eq!(c.last_count_user, None);
    assert_eq!(c.last_count_time, None);
    assert_eq!(c.last_count_message_id, None);
    assert_eq!(c.id, "555");
}

#[test]
fn wrong_number_restarts() {
    let outcome = handle_message(&message(42, "6"), Some(channel(4, Some("7"))));
    assert_eq!(outcome.verdict, Verdict::WrongNumber);
    assert_eq!(outcome.reaction, Some(Reaction::WhiteX));
    assert_eq!(outcome.messages.len(), 1);
    assert_eq!(
        outcome.messages[0].content,
        "*Whoops!!! Wrong number, <@42>*\n**Restarting at `1`**"
    );
    assert!(outcome.messages[0].reply);
    let c = outcome.channel.unwrap();
    assert_eq!(c.current_number, 0);
    assert_eq!(c.last_count_user, None);
}

#[test]
fn number_with_extra_text_is_wrong() {
    for content in ["5 ", " 5", "05", "five", "", "5!"] {
        let outcome = handle_message(&message(42, content), Some(channel(4, None)));
        assert_eq!(outcome.verdict, Verdict::WrongNumber, "content {:?}", content);
    }
}

#[test]
fn ignored_messages_change_nothing() {
    let mut bot = message(42, "5");
    bot.author_is_bot = true;
    let outcomes = [
        handle_message(&bot, Some(channel(4, Some("7")))),
        handle_message(&message(42, "5"), None),
        handle_message(&message(42, "*chat"), Some(channel(4, Some("7")))),
        handle_message(&message(7, "*5"), Some(channel(4, Some("7")))),
    ];
    for outcome in outcomes.iter() {
        assert_eq!(outcome.verdict, Verdict::Ignored);
        assert_eq!(outcome.reaction, None);
        assert!(outcome.messages.is_empty());
        assert!(outcome.channel.is_none());
    }
}

#[test]
fn same_member_cannot_count_twice() {
    let start = channel(10, Some("1"));
    let first = handle_message(&message(2, "11"), Some(start));
    assert_eq!(first.verdict, Verdict::Correct);
    let second = handle_message(&message(2, "12"), first.channel);
    assert_eq!(second.verdict, Verdict::SameUser);
    assert_eq!(second.channel.unwrap().current_number, 0);
}

#[test]
fn count_restarts_at_one() {
    let start = channel(10, Some("1"));
    let mistake = handle_message(&message(2, "13"), Some(start));
    assert_eq!(mistake.verdict, Verdict::WrongNumber);
    let next = handle_message(&message(2, "1"), mistake.channel);
    assert_eq!(next.verdict, Verdict::Correct);
    assert_eq!(next.channel.unwrap().current_number, 1);
}

#[test]
fn counting_on_with_turns() {
    let mut current = Channel::new("1".to_string());
    let authors = [5u64, 6, 5, 7, 6, 5];
    for (i, author) in authors.iter().enumerate() {
        let expected = (i + 1).to_string();
        let outcome = handle_message(&message(*author, &expected), Some(channel_clone(&current)));
        assert_eq!(outcome.verdict, Verdict::Correct);
        current = after(&outcome, current);
    }
    assert_eq!(current.current_number, 6);
    assert_eq!(current.last_count_user.as_deref(), Some("5"));
}

fn channel_clone(c: &Channel) -> Channel {
    Channel {
        id: c.id.clone(),
        current_number: c.current_number,
        last_count_user: c.last_count_user.clone(),
        last_count_time: c.last_count_time,
        last_count_message_id: c.last_count_message_id.clone(),
    }
}

#[test]
fn setup_and_remove_channel() {
    let (created, change) = setup_channel(1234, false);
    assert!(created);
    match change {
        StoreChange::Insert(c) => {
            assert_eq!(c.id, "1234");
            assert_eq!(c.current_number, 0);
            assert_eq!(c.last_count_user, None);
            assert_eq!(c.last_count_time, None);
            assert_eq!(c.last_count_message_id, None);
        }
        _ => panic!("expected an insert"),
    }
    let (created, change) = setup_channel(1234, true);
    assert!(!created);
    assert!(matches!(change, StoreChange::Keep));

    let (removed, change) = remove_channel(1234, true);
    assert!(removed);
    match change {
        StoreChange::Delete(id) => assert_eq!(id, "1234"),
        _ => panic!("expected a delete"),
    }
    let (removed, change) = remove_channel(1234, false);
    assert!(!removed);
    assert!(matches!(change, StoreChange::Keep));
}

#[test]
fn x_emoji_text() {
    assert_eq!(x_emoji().to_text(), "<:white_x_mark:919665575813333013>");
    let animated = EmojiRef { animated: true, id: 5, name: "party".to_string() };
    assert_eq!(animated.to_text(), "<a:party:5>");
}

#[test]
fn channel_transitions() {
    let mut c = Channel::new("3".to_string());
    c.record_count("11".to_string(), "12".to_string(), 13);
    assert_eq!(c.current_number, 1);
    assert_eq!(c.last_count_user.as_deref(), Some("11"));
    assert_eq!(c.last_count_message_id.as_deref(), Some("12"));
    assert_eq!(c.last_count_time, Some(13));
    c.restart();
    assert_eq!(c.current_number, 0);
    assert_eq!(c.last_count_user, None);
    assert_eq!(c.id, "3");
}

#[test]
fn records_stay_consistent() {
    let consistent = |c: &Channel| {
        c.last_count_user.is_some() == c.last_count_time.is_some()
            && c.last_count_user.is_some() == c.last_count_message_id.is_some()
    };
    let mut current = Channel::new("31".to_string());
    assert!(consistent(&current));
    let script = [(1u64, "1"), (2, "2"), (2, "3"), (3, "1"), (4, "7"), (5, "1"), (6, "2")];
    let mut counts = Vec::new();
    for (author, content) in script.iter() {
        let before = current.current_number;
        let outcome = handle_message(&message(*author, content), Some(channel_clone(&current)));
        current = after(&outcome, current);
        assert!(consistent(&current));
        assert_eq!(current.id, "31");
        let now = current.current_number;
        assert!(now == before || now == before + 1 || now == 0);
        counts.push(now);
    }
    assert_eq!(counts, vec![1, 2, 0, 1, 0, 1, 2]);
}
