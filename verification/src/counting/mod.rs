//! The counting game: members take turns posting the next number in a
//! counting channel. A wrong number, or a second number in a row from the
//! same member, restarts the count at one.

pub mod commands;
pub mod laws;

use crate::decimal::{decimal, decimal_string};
use crate::discord::{
    channel_id_text, emoji_id_text, message_id_text, user_id_text, user_mention,
    user_mention_text,
};
use crate::models::{Channel, ChannelView, opt_channel_view};
use vstd::prelude::*;
use vstd::string::*;

verus! {

/// A custom emoji, as the bot writes it in messages and reactions.
pub struct EmojiRef {
    pub animated: bool,
    pub id: u64,
    pub name: String,
}

/// How a custom emoji is written in message text: `<a:name:id>` when it is
/// animated, `<:name:id>` when it is not.
pub open spec fn emoji_text(animated: bool, name: Seq<char>, id: u64) -> Seq<char> {
    seq!['<'] + (if animated { seq!['a'] } else { Seq::empty() }) + seq![':'] + name + seq![':']
        + decimal(id as nat) + seq!['>']
}

/// The id of the bot's "white X" emoji.
pub const X_EMOJI_ID: u64 = 919665575813333013;

/// The name of the bot's "white X" emoji.
pub open spec fn x_emoji_name() -> Seq<char> {
    "white_x_mark"@
}

/// The bot's "white X" emoji, with which it marks a broken count.
pub fn x_emoji() -> (emoji: EmojiRef)
    ensures
        !emoji.animated,
        emoji.id == X_EMOJI_ID,
        emoji.name@ == x_emoji_name(),
{
    EmojiRef { animated: false, id: X_EMOJI_ID, name: String::from_str("white_x_mark") }
}

impl EmojiRef {
    /// The emoji written in message text.
    pub fn to_text(&self) -> (text: String)
        ensures
            text@ == emoji_text(self.animated, self.name@, self.id),
    {
        proof {
            reveal_strlit("<");
            reveal_strlit("a");
            reveal_strlit(":");
            reveal_strlit(">");
        }
        let mut text = String::from_str("<");
        if self.animated {
            text.append("a");
        }
        text.append(":");
        text.append(self.name.as_str());
        text.append(":");
        let id = emoji_id_text(self.id);
        text.append(id.as_str());
        text.append(">");
        proof {
            assert(text@ =~= emoji_text(self.animated, self.name@, self.id));
        }
        text
    }
}

/// A message posted in some channel, as the game sees it.
pub struct IncomingMessage {
    /// Id of the author.
    pub author_id: u64,
    /// Whether the author is a bot.
    pub author_is_bot: bool,
    /// Id of the message.
    pub message_id: u64,
    /// The text of the message.
    pub content: String,
    /// When the message was posted (Unix seconds).
    pub timestamp: i64,
}

/// What a message holds.
pub ghost struct MessageView {
    pub author_id: u64,
    pub author_is_bot: bool,
    pub message_id: u64,
    pub content: Seq<char>,
    pub timestamp: i64,
}

impl View for IncomingMessage {
    type V = MessageView;

    open spec fn view(&self) -> MessageView {
        MessageView {
            author_id: self.author_id,
            author_is_bot: self.author_is_bot,
            message_id: self.message_id,
            content: self.content@,
            timestamp: self.timestamp,
        }
    }
}

/// How the game judges a message.
#[derive(PartialEq, Eq, Structural, Clone, Copy, Debug)]
pub enum Verdict {
    /// Not part of the game: a bot wrote it, the channel is not a counting
    /// channel, or the message starts with `*`.
    Ignored,
    /// The author also made the last count: the game restarts.
    SameUser,
    /// The next number: it counts.
    Correct,
    /// Anything else: the game restarts.
    WrongNumber,
}

/// The reaction the bot puts on a judged message.
#[derive(PartialEq, Eq, Structural, Clone, Copy, Debug)]
pub enum Reaction {
    /// The unicode check mark `✅`.
    CheckMark,
    /// The bot's "white X" custom emoji.
    WhiteX,
}

/// A message the bot sends in the channel.
pub struct OutgoingMessage {
    /// The text.
    pub content: String,
    /// Whether it replies to the judged message, pinging its author.
    pub reply: bool,
}

/// What an outgoing message holds.
pub ghost struct OutgoingView {
    pub content: Seq<char>,
    pub reply: bool,
}

impl View for OutgoingMessage {
    type V = OutgoingView;

    open spec fn view(&self) -> OutgoingView {
        OutgoingView { content: self.content@, reply: self.reply }
    }
}

/// Everything the bot does about one message.
pub struct MessageOutcome {
    /// How the message was judged.
    pub verdict: Verdict,
    /// The reaction put on the message, if any.
    pub reaction: Option<Reaction>,
    /// The messages sent in the channel, in order.
    pub messages: Vec<OutgoingMessage>,
    /// The channel record after the message, when it changed.
    pub channel: Option<Channel>,
}

/// What an outcome holds.
pub ghost struct OutcomeView {
    pub verdict: Verdict,
    pub reaction: Option<Reaction>,
    pub messages: Seq<OutgoingView>,
    pub channel: Option<ChannelView>,
}

impl View for MessageOutcome {
    type V = OutcomeView;

    open spec fn view(&self) -> OutcomeView {
        OutcomeView {
            verdict: self.verdict,
            reaction: self.reaction,
            messages: self.messages@.map_values(|m: OutgoingMessage| m@),
            channel: opt_channel_view(self.channel),
        }
    }
}

/// Whether a message starts with `*`: such messages are chat, not counts.
pub open spec fn starts_with_star(content: Seq<char>) -> bool {
    content.len() > 0 && content[0] == '*'
}

/// Whether `author` made the last count in `channel`.
pub open spec fn counted_last(author: u64, channel: ChannelView) -> bool {
    decimal(author as nat) == match channel.last_count_user {
        Some(user) => user,
        None => Seq::empty(),
    }
}

/// How the game judges `message` in a channel whose record is `channel`
/// (`None`: not a counting channel).
pub open spec fn judge(message: MessageView, channel: Option<ChannelView>) -> Verdict {
    if message.author_is_bot {
        Verdict::Ignored
    } else {
        match channel {
            None => Verdict::Ignored,
            Some(c) => if starts_with_star(message.content) {
                Verdict::Ignored
            } else if counted_last(message.author_id, c) {
                Verdict::SameUser
            } else if message.content == decimal(c.current_number + 1) {
                Verdict::Correct
            } else {
                Verdict::WrongNumber
            },
        }
    }
}

/// Whether judging `message` compares it with the number after the
/// channel's count.
pub open spec fn reaches_number_check(message: MessageView, channel: ChannelView) -> bool {
    !message.author_is_bot && !starts_with_star(message.content) && !counted_last(
        message.author_id,
        channel,
    )
}

/// The reply to a member who counted twice in a row.
pub open spec fn same_user_text(author: u64) -> Seq<char> {
    "*Whoops!!! Wait until another person can go, "@ + user_mention_text(author) + "*"@
}

/// The announcement that the game restarts.
pub open spec fn restarting_text() -> Seq<char> {
    "**Restarting at `1`**"@
}

/// The reply to a wrong number.
pub open spec fn wrong_number_text(author: u64) -> Seq<char> {
    "*Whoops!!! Wrong number, "@ + user_mention_text(author) + "*\n**Restarting at `1`**"@
}

/// Everything the bot does about `message` in a channel whose record is
/// `channel`.
pub open spec fn message_outcome(message: MessageView, channel: Option<ChannelView>) -> OutcomeView {
    match judge(message, channel) {
        Verdict::Ignored => OutcomeView {
            verdict: Verdict::Ignored,
            reaction: None,
            messages: Seq::empty(),
            channel: None,
        },
        Verdict::SameUser => OutcomeView {
            verdict: Verdict::SameUser,
            reaction: Some(Reaction::WhiteX),
            messages: seq![
                OutgoingView { content: same_user_text(message.author_id), reply: true },
                OutgoingView { content: restarting_text(), reply: false },
            ],
            channel: Some(channel.unwrap().restarted()),
        },
        Verdict::Correct => OutcomeView {
            verdict: Verdict::Correct,
            reaction: Some(Reaction::CheckMark),
            messages: Seq::empty(),
            channel: Some(
                channel.unwrap().counted(
                    decimal(message.author_id as nat),
                    decimal(message.message_id as nat),
                    message.timestamp,
                ),
            ),
        },
        Verdict::WrongNumber => OutcomeView {
            verdict: Verdict::WrongNumber,
            reaction: Some(Reaction::WhiteX),
            messages: seq![
                OutgoingView { content: wrong_number_text(message.author_id), reply: true },
            ],
            channel: Some(channel.unwrap().restarted()),
        },
    }
}

/// Whether `content` starts with `*`.
fn is_starred(content: &String) -> (starred: bool)
    ensures
        starred == starts_with_star(content@),
{
    let text = content.as_str();
    text.unicode_len() > 0 && text.get_char(0) == '*'
}

/// Whether the game needs the channel's counting record to judge `message`:
/// messages from bots are ignored without looking it up.
pub fn looks_up_channel(message: &IncomingMessage) -> (looks_up: bool)
    ensures
        looks_up == !message.author_is_bot,
        !looks_up ==> judge(message@, None) == judge(message@, Some(arbitrary())),
{
    !message.author_is_bot
}

/// The inputs on which judging `message` would have to compute the number
/// after `u64::MAX`: the game cannot go on there.
pub open spec fn next_number_overflows_spec(message: MessageView, channel: Option<ChannelView>) -> bool {
    channel matches Some(c) && reaches_number_check(message, c) && c.current_number == u64::MAX
}

/// Whether judging `message` in `channel` would have to compute the number
/// after `u64::MAX`.
pub fn next_number_overflows(message: &IncomingMessage, channel: &Option<Channel>) -> (overflows:
    bool)
    ensures
        overflows == next_number_overflows_spec(message@, opt_channel_view(*channel)),
{
    match channel {
        None => false,
        Some(c) => {
            if message.author_is_bot || is_starred(&message.content) {
                false
            } else {
                let author = user_id_text(message.author_id);
                let last = match &c.last_count_user {
                    Some(user) => user.clone(),
                    None => String::new(),
                };
                author != last && c.current_number == u64::MAX
            }
        },
    }
}

/// Decides what the bot does about `message`, posted in a channel whose
/// counting record is `channel` (`None` when the channel is not a counting
/// channel): which reaction it adds, which messages it sends, and what the
/// record becomes.
pub fn handle_message(message: &IncomingMessage, channel: Option<Channel>) -> (outcome:
    MessageOutcome)
    requires
        !next_number_overflows_spec(message@, opt_channel_view(channel)),
    ensures
        outcome@ == message_outcome(message@, opt_channel_view(channel)),
{
    let ignored = MessageOutcome {
        verdict: Verdict::Ignored,
        reaction: None,
        messages: Vec::new(),
        channel: None,
    };
    if message.author_is_bot {
        proof {
            assert(ignored@.messages =~= Seq::empty());
        }
        return ignored;
    }
    let mut record = match channel {
        Some(c) => c,
        None => {
            proof {
                assert(ignored@.messages =~= Seq::empty());
            }
            return ignored;
        },
    };
    if is_starred(&message.content) {
        proof {
            assert(ignored@.messages =~= Seq::empty());
        }
        return ignored;
    }
    let ghost before = record@;
    let author = user_id_text(message.author_id);
    let last = match &record.last_count_user {
        Some(user) => user.clone(),
        None => String::new(),
    };
    if author == last {
        let mut reply = String::from_str("*Whoops!!! Wait until another person can go, ");
        let mention = user_mention(message.author_id);
        reply.append(mention.as_str());
        reply.append("*");
        let mut messages = Vec::new();
        messages.push(OutgoingMessage { content: reply, reply: true });
        messages.push(
            OutgoingMessage { content: String::from_str("**Restarting at `1`**"), reply: false },
        );
        record.restart();
        let outcome = MessageOutcome {
            verdict: Verdict::SameUser,
            reaction: Some(Reaction::WhiteX),
            messages,
            channel: Some(record),
        };
        proof {
            assert(outcome@.messages =~= message_outcome(
                message@,
                opt_channel_view(channel),
            ).messages);
        }
        return outcome;
    }
    let expected = decimal_string(record.current_number + 1);
    if message.content == expected {
        let message_id = message_id_text(message.message_id);
        record.record_count(author, message_id, message.timestamp);
        let outcome = MessageOutcome {
            verdict: Verdict::Correct,
            reaction: Some(Reaction::CheckMark),
            messages: Vec::new(),
            channel: Some(record),
        };
        proof {
            assert(outcome@.messages =~= Seq::empty());
        }
        outcome
    } else {
        let mut reply = String::from_str("*Whoops!!! Wrong number, ");
        let mention = user_mention(message.author_id);
        reply.append(mention.as_str());
        reply.append("*\n**Restarting at `1`**");
        let mut messages = Vec::new();
        messages.push(OutgoingMessage { content: reply, reply: true });
        record.restart();
        let outcome = MessageOutcome {
            verdict: Verdict::WrongNumber,
            reaction: Some(Reaction::WhiteX),
            messages,
            channel: Some(record),
        };
        proof {
            assert(outcome@.messages =~= message_outcome(
                message@,
                opt_channel_view(channel),
            ).messages);
        }
        outcome
    }
}

/// A change to the collection of counting channels.
pub enum StoreChange {
    /// Add this record.
    Insert(Channel),
    /// Delete the record with this channel id.
    Delete(String),
    /// Leave the collection as it is.
    Keep,
}

/// What a change to the collection holds.
pub ghost enum StoreChangeView {
    Insert(ChannelView),
    Delete(Seq<char>),
    Keep,
}

impl View for StoreChange {
    type V = StoreChangeView;

    open spec fn view(&self) -> StoreChangeView {
        match self {
            StoreChange::Insert(c) => StoreChangeView::Insert(c@),
            StoreChange::Delete(id) => StoreChangeView::Delete(id@),
            StoreChange::Keep => StoreChangeView::Keep,
        }
    }
}

/// The collection of counting channels, keyed by channel id, after `change`.
pub open spec fn apply_change(
    store: Map<Seq<char>, ChannelView>,
    change: StoreChangeView,
) -> Map<Seq<char>, ChannelView> {
    match change {
        StoreChangeView::Insert(c) => store.insert(c.id, c),
        StoreChangeView::Delete(id) => store.remove(id),
        StoreChangeView::Keep => store,
    }
}

/// What setting up channel `channel_id` does, given whether it already is a
/// counting channel: a fresh record is added unless one exists.
pub open spec fn setup_change(channel_id: u64, already_set_up: bool) -> StoreChangeView {
    if already_set_up {
        StoreChangeView::Keep
    } else {
        StoreChangeView::Insert(ChannelView::fresh(decimal(channel_id as nat)))
    }
}

/// What removing channel `channel_id` does, given whether it is a counting
/// channel: its record is deleted if there is one.
pub open spec fn remove_change(channel_id: u64, set_up: bool) -> StoreChangeView {
    if set_up {
        StoreChangeView::Delete(decimal(channel_id as nat))
    } else {
        StoreChangeView::Keep
    }
}

/// Sets up channel `channel_id` for counting. `already_set_up` tells whether
/// a record for it exists. Returns whether the channel was newly set up, and
/// the change to make to the collection.
pub fn setup_channel(channel_id: u64, already_set_up: bool) -> (result: (bool, StoreChange))
    ensures
        result.0 == !already_set_up,
        result.1@ == setup_change(channel_id, already_set_up),
{
    if already_set_up {
        (false, StoreChange::Keep)
    } else {
        let id = channel_id_text(channel_id);
        (true, StoreChange::Insert(Channel::new(id)))
    }
}

/// Stops counting in channel `channel_id`. `set_up` tells whether a record
/// for it exists. Returns whether the channel was removed, and the change to
/// make to the collection.
pub fn remove_channel(channel_id: u64, set_up: bool) -> (result: (bool, StoreChange))
    ensures
        result.0 == set_up,
        result.1@ == remove_change(channel_id, set_up),
{
    if set_up {
        (true, StoreChange::Delete(channel_id_text(channel_id)))
    } else {
        (false, StoreChange::Keep)
    }
}

} // verus!
