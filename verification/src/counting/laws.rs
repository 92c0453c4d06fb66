//! What holds of the counting game across messages, and of the collection of
//! counting channels across commands.

use super::{
    OutcomeView, OutgoingView, MessageView, Reaction, Verdict, apply_change, counted_last,
    judge, message_outcome, remove_change, setup_change, starts_with_star,
};
use super::commands::{CountingRoute, counting_command, counting_route};
use crate::commands::ArgumentKind;
use crate::decimal::{decimal, lemma_decimal_injective, lemma_decimal_len};
use crate::models::ChannelView;
use vstd::prelude::*;

verus! {

/// The channel record after `message`, starting from `channel` (a record
/// that does not change stays as it was).
pub open spec fn step(channel: Option<ChannelView>, message: MessageView) -> Option<ChannelView> {
    match message_outcome(message, channel).channel {
        Some(c) => Some(c),
        None => channel,
    }
}

/// The channel record after `messages`, in order, starting from `channel`.
pub open spec fn play(channel: Option<ChannelView>, messages: Seq<MessageView>) -> Option<
    ChannelView,
>
    decreases messages.len(),
{
    if messages.len() == 0 {
        channel
    } else {
        step(play(channel, messages.drop_last()), messages.last())
    }
}

/// Whether `messages` count on correctly from `channel`: every message is
/// from a member (not a bot), is not starred, holds the next number, and
/// comes from someone other than whoever counted just before.
pub open spec fn counts_on(channel: ChannelView, messages: Seq<MessageView>) -> bool {
    &&& messages.len() > 0 ==> !counted_last(messages[0].author_id, channel)
    &&& forall|i: int|
        0 <= i < messages.len() ==> {
            &&& !(#[trigger] messages[i]).author_is_bot
            &&& !starts_with_star(messages[i].content)
            &&& messages[i].content == decimal((channel.current_number + i + 1) as nat)
        }
    &&& forall|i: int|
        0 < i < messages.len() ==> #[trigger] messages[i].author_id != messages[i - 1].author_id
}

/// Messages from bots, messages in channels that are not counting channels,
/// and messages starting with `*` are ignored: no reaction, no reply, and
/// the channel's record is left as it is.
pub proof fn law_ignored_messages_change_nothing(message: MessageView, channel: Option<ChannelView>)
    requires
        message.author_is_bot || channel is None || starts_with_star(message.content),
    ensures
        message_outcome(message, channel) == (OutcomeView {
            verdict: Verdict::Ignored,
            reaction: None,
            messages: Seq::empty(),
            channel: None,
        }),
        step(channel, message) == channel,
{
}

/// The next number, posted by someone other than whoever counted last,
/// counts: the bot reacts with a check mark, sends nothing, and the count
/// goes up by one, recording the author, the message and its time.
pub proof fn law_next_number_counts(message: MessageView, channel: ChannelView)
    requires
        !message.author_is_bot,
        !starts_with_star(message.content),
        !counted_last(message.author_id, channel),
        message.content == decimal(channel.current_number + 1),
    ensures
        message_outcome(message, Some(channel)).verdict == Verdict::Correct,
        message_outcome(message, Some(channel)).reaction == Some(Reaction::CheckMark),
        message_outcome(message, Some(channel)).messages.len() == 0,
        step(Some(channel), message) == Some(
            channel.counted(
                decimal(message.author_id as nat),
                decimal(message.message_id as nat),
                message.timestamp,
            ),
        ),
        step(Some(channel), message).unwrap().current_number == channel.current_number + 1,
{
}

/// A judged message that is neither ignored nor the next number restarts
/// the game: the bot reacts with its "white X", and the count goes back to
/// zero with nobody recorded as having counted.
pub proof fn law_mistakes_restart_the_game(message: MessageView, channel: ChannelView)
    requires
        judge(message, Some(channel)) != Verdict::Ignored,
        judge(message, Some(channel)) != Verdict::Correct,
    ensures
        message_outcome(message, Some(channel)).reaction == Some(Reaction::WhiteX),
        step(Some(channel), message) == Some(channel.restarted()),
        step(Some(channel), message).unwrap().current_number == 0,
        step(Some(channel), message).unwrap().last_count_user is None,
{
}

/// Nobody counts twice in a row: right after a member's number counted, any
/// number from that same member (unless starred) restarts the game.
pub proof fn law_same_member_cannot_count_twice(
    first: MessageView,
    second: MessageView,
    channel: ChannelView,
)
    requires
        judge(first, Some(channel)) == Verdict::Correct,
        second.author_id == first.author_id,
        !second.author_is_bot,
        !starts_with_star(second.content),
    ensures
        judge(second, step(Some(channel), first)) == Verdict::SameUser,
        step(step(Some(channel), first), second) == Some(
            step(Some(channel), first).unwrap().restarted(),
        ),
{
}

/// After a restart the game goes on at one: the next message reading `1`,
/// from any member, counts.
pub proof fn law_count_restarts_at_one(mistake: MessageView, next: MessageView, channel: ChannelView)
    requires
        judge(mistake, Some(channel)) == Verdict::SameUser || judge(mistake, Some(channel))
            == Verdict::WrongNumber,
        !next.author_is_bot,
        next.content == seq!['1'],
    ensures
        judge(next, step(Some(channel), mistake)) == Verdict::Correct,
        step(step(Some(channel), mistake), next).unwrap().current_number == 1,
{
    lemma_decimal_len(next.author_id as nat);
    assert(decimal(1) =~= seq!['1']);
}

/// Counting on correctly works: when members take turns posting the next
/// numbers, every message counts, the count goes up by the number of
/// messages, and the last author is recorded.
pub proof fn law_counting_on(channel: ChannelView, messages: Seq<MessageView>)
    requires
        counts_on(channel, messages),
    ensures
        play(Some(channel), messages) matches Some(c) && c.current_number == channel.current_number
            + messages.len() && (messages.len() > 0 ==> c.last_count_user == Some(
            decimal(messages.last().author_id as nat),
        )) && c.id == channel.id,
    decreases messages.len(),
{
    if messages.len() > 0 {
        let prefix = messages.drop_last();
        assert(counts_on(channel, prefix)) by {
            assert forall|i: int| 0 <= i < prefix.len() implies {
                &&& !(#[trigger] prefix[i]).author_is_bot
                &&& !starts_with_star(prefix[i].content)
                &&& prefix[i].content == decimal((channel.current_number + i + 1) as nat)
            } by {
                assert(prefix[i] == messages[i]);
            }
            assert forall|i: int| 0 < i < prefix.len() implies #[trigger] prefix[i].author_id
                != prefix[i - 1].author_id by {
                assert(prefix[i] == messages[i]);
                assert(prefix[i - 1] == messages[i - 1]);
            }
        }
        law_counting_on(channel, prefix);
        let before = play(Some(channel), prefix).unwrap();
        let last = messages.last();
        let k = messages.len() - 1;
        assert(last == messages[k]);
        assert(!last.author_is_bot);
        if k > 0 {
            assert(messages[k].author_id != messages[k - 1].author_id);
            assert(prefix.last() == messages[k - 1]);
            if counted_last(last.author_id, before) {
                lemma_decimal_injective(last.author_id as nat, prefix.last().author_id as nat);
            }
        } else {
            assert(prefix.len() == 0);
            assert(messages[0] == last);
        }
        assert(last.content == decimal(before.current_number + 1));
    }
}

/// Setting up a channel that is not yet a counting channel adds a fresh
/// record for it (count at zero, nobody has counted) and reports success.
pub proof fn law_setup_adds_fresh_channel(store: Map<Seq<char>, ChannelView>, channel_id: u64)
    requires
        !store.dom().contains(decimal(channel_id as nat)),
    ensures
        apply_change(store, setup_change(channel_id, false)) == store.insert(
            decimal(channel_id as nat),
            ChannelView::fresh(decimal(channel_id as nat)),
        ),
        ({
            let after = apply_change(store, setup_change(channel_id, false));
            let key = decimal(channel_id as nat);
            &&& after.dom().contains(key)
            &&& after[key].id == key
            &&& after[key].current_number == 0
            &&& after[key].last_count_user is None
            &&& after[key].last_count_time is None
            &&& after[key].last_count_message_id is None
            &&& forall|other: Seq<char>| other != key ==> after.dom().contains(other)
                == store.dom().contains(other) && (store.dom().contains(other) ==> after[other]
                == store[other])
        }),
{
}

/// Setting up a channel that already is a counting channel changes nothing;
/// in particular its count is kept.
pub proof fn law_setup_keeps_existing_channel(store: Map<Seq<char>, ChannelView>, channel_id: u64)
    requires
        store.dom().contains(decimal(channel_id as nat)),
    ensures
        apply_change(store, setup_change(channel_id, true)) == store,
{
}

/// Removing a channel right after setting it up leaves the collection as it
/// was before.
pub proof fn law_remove_undoes_setup(store: Map<Seq<char>, ChannelView>, channel_id: u64)
    requires
        !store.dom().contains(decimal(channel_id as nat)),
    ensures
        ({
            let after_setup = apply_change(store, setup_change(channel_id, false));
            let set_up = after_setup.dom().contains(decimal(channel_id as nat));
            set_up && apply_change(after_setup, remove_change(channel_id, set_up)) == store
        }),
{
    let key = decimal(channel_id as nat);
    let after_setup = apply_change(store, setup_change(channel_id, false));
    assert(after_setup.remove(key) =~= store);
}

/// Removing a channel takes it out of the collection, and removing one that
/// is not a counting channel changes nothing.
pub proof fn law_remove_takes_channel_out(store: Map<Seq<char>, ChannelView>, channel_id: u64)
    ensures
        ({
            let set_up = store.dom().contains(decimal(channel_id as nat));
            let after = apply_change(store, remove_change(channel_id, set_up));
            &&& !after.dom().contains(decimal(channel_id as nat))
            &&& !set_up ==> after == store
        }),
{
}

/// Whether a record's three "last count" fields are all set or all unset.
pub open spec fn last_count_consistent(channel: ChannelView) -> bool {
    channel.last_count_user is Some == channel.last_count_time is Some
        && channel.last_count_user is Some == channel.last_count_message_id is Some
}

/// Every message keeps a counting record consistent: the last counter, the
/// time and the message of the last count are recorded together and cleared
/// together, and the channel id never changes. A freshly set up channel is
/// consistent.
pub proof fn law_records_stay_consistent(message: MessageView, channel: ChannelView, id: Seq<char>)
    ensures
        last_count_consistent(ChannelView::fresh(id)),
        last_count_consistent(channel) ==> last_count_consistent(
            step(Some(channel), message).unwrap(),
        ),
        step(Some(channel), message).unwrap().id == channel.id,
{
}

/// A message moves the count by at most one step: it stays, goes up by
/// one, or goes back to zero.
pub proof fn law_count_moves_by_one_or_restarts(message: MessageView, channel: ChannelView)
    ensures
        ({
            let after = step(Some(channel), message).unwrap().current_number;
            after == channel.current_number || after == channel.current_number + 1 || after == 0
        }),
{
}

/// Only the next number counts. For a message that the game judges (from a
/// member, not starred, and not from whoever counted last), the verdict is
/// `Correct` exactly when the text is the decimal of the count plus one; any
/// other text is a wrong number: the bot reacts with its "white X", replies
/// to the author with the "Wrong number" text mentioning them, and the count
/// goes back to zero with no last count recorded.
pub proof fn law_only_next_number_counts(message: MessageView, channel: ChannelView)
    requires
        !message.author_is_bot,
        !starts_with_star(message.content),
        channel.last_count_user != Some(decimal(message.author_id as nat)),
    ensures
        (judge(message, Some(channel)) == Verdict::Correct) <==> message.content == decimal(
            channel.current_number + 1,
        ),
        message.content != decimal(channel.current_number + 1) ==> {
            let outcome = message_outcome(message, Some(channel));
            &&& outcome.verdict == Verdict::WrongNumber
            &&& outcome.reaction == Some(Reaction::WhiteX)
            &&& outcome.messages == seq![
                OutgoingView {
                    content: "*Whoops!!! Wrong number, "@ + seq!['<', '@'] + decimal(
                        message.author_id as nat,
                    ) + seq!['>'] + "*\n**Restarting at `1`**"@,
                    reply: true,
                },
            ]
            &&& outcome.channel matches Some(after) && after.id == channel.id
                && after.current_number == 0 && after.last_count_user is None
                && after.last_count_time is None && after.last_count_message_id is None
        },
        message.content == decimal(channel.current_number + 1) ==> {
            let outcome = message_outcome(message, Some(channel));
            &&& outcome.reaction == Some(Reaction::CheckMark)
            &&& outcome.messages.len() == 0
            &&& outcome.channel matches Some(after) && after.id == channel.id
                && after.current_number == channel.current_number + 1
                && after.last_count_user == Some(decimal(message.author_id as nat))
                && after.last_count_message_id == Some(decimal(message.message_id as nat))
                && after.last_count_time == Some(message.timestamp)
        },
{
    lemma_decimal_len(message.author_id as nat);
    let outcome = message_outcome(message, Some(channel));
    if message.content != decimal(channel.current_number + 1) {
        assert(outcome.messages =~= seq![
            OutgoingView {
                content: "*Whoops!!! Wrong number, "@ + seq!['<', '@'] + decimal(
                    message.author_id as nat,
                ) + seq!['>'] + "*\n**Restarting at `1`**"@,
                reply: true,
            },
        ]) by {
            assert(outcome.messages[0].content =~= "*Whoops!!! Wrong number, "@ + seq!['<', '@']
                + decimal(message.author_id as nat) + seq!['>'] + "*\n**Restarting at `1`**"@);
        }
    }
}

/// A member who counted last and posts again (not starred) restarts the
/// game, whatever they post: the bot reacts with its "white X", replies
/// "Wait until another person can go" mentioning them, announces the restart
/// at one, and the count goes back to zero with no last count recorded.
pub proof fn law_counting_twice_restarts(message: MessageView, channel: ChannelView)
    requires
        !message.author_is_bot,
        !starts_with_star(message.content),
        channel.last_count_user == Some(decimal(message.author_id as nat)),
    ensures
        ({
            let outcome = message_outcome(message, Some(channel));
            &&& outcome.verdict == Verdict::SameUser
            &&& outcome.reaction == Some(Reaction::WhiteX)
            &&& outcome.messages == seq![
                OutgoingView {
                    content: "*Whoops!!! Wait until another person can go, "@ + seq!['<', '@']
                        + decimal(message.author_id as nat) + seq!['>'] + "*"@,
                    reply: true,
                },
                OutgoingView { content: "**Restarting at `1`**"@, reply: false },
            ]
            &&& outcome.channel matches Some(after) && after.id == channel.id
                && after.current_number == 0 && after.last_count_user is None
                && after.last_count_time is None && after.last_count_message_id is None
        }),
{
    let outcome = message_outcome(message, Some(channel));
    assert(outcome.messages[0].content =~= "*Whoops!!! Wait until another person can go, "@
        + seq!['<', '@'] + decimal(message.author_id as nat) + seq!['>'] + "*"@);
    assert(outcome.messages =~= seq![
        OutgoingView {
            content: "*Whoops!!! Wait until another person can go, "@ + seq!['<', '@'] + decimal(
                message.author_id as nat,
            ) + seq!['>'] + "*"@,
            reply: true,
        },
        OutgoingView { content: "**Restarting at `1`**"@, reply: false },
    ]);
}

/// Whether permission bits allow `/counting` is decided by the
/// Administrator (8) and Manage Channels (16) bits alone, whatever the
/// subcommand: a caller holding either is never refused, a caller holding
/// neither always is, and a caller whose permissions are unknown is never
/// refused. Callers who are not refused reach `setup` and `remove` by name.
pub proof fn law_refusal_depends_only_on_permissions(
    subcommand: Seq<char>,
    permissions: Option<Option<u64>>,
)
    ensures
        permissions matches Some(Some(bits)) ==> ((counting_route(subcommand, permissions)
            == CountingRoute::Refused) <==> (bits & 8 != 8 && bits & 16 != 16)),
        !(permissions matches Some(Some(_))) ==> counting_route(subcommand, permissions)
            != CountingRoute::Refused,
        counting_route(subcommand, permissions) != CountingRoute::Refused ==> {
            &&& subcommand == "setup"@ ==> counting_route(subcommand, permissions)
                == CountingRoute::Setup
            &&& subcommand == "remove"@ ==> counting_route(subcommand, permissions)
                == CountingRoute::Remove
            &&& subcommand != "setup"@ && subcommand != "remove"@ ==> counting_route(
                subcommand,
                permissions,
            ) == CountingRoute::Ignored
        },
{
    reveal_strlit("setup");
    reveal_strlit("remove");
    assert("setup"@[0] != "remove"@[0]);
}

/// `/counting` has two subcommands, `setup` then `remove`. Each takes a
/// required `channel` argument that only accepts text channels; `setup`
/// also takes an optional yes/no `quiet` flag.
pub proof fn law_counting_command_arguments()
    ensures
        ({
            let command = counting_command();
            &&& command.name == "counting"@
            &&& command.subcommands.len() == 2
            &&& command.subcommands[0].name == "setup"@
            &&& command.subcommands[1].name == "remove"@
            &&& command.subcommands[0].arguments.len() == 2
            &&& command.subcommands[1].arguments.len() == 1
            &&& forall|i: int, j: int|
                0 <= i < 2 && 0 <= j < command.subcommands[i].arguments.len()
                    && #[trigger] command.subcommands[i].arguments[j].name == "channel"@ ==> {
                    &&& command.subcommands[i].arguments[j].kind == ArgumentKind::Channel
                    &&& command.subcommands[i].arguments[j].required
                    &&& command.subcommands[i].arguments[j].text_channels_only
                }
            &&& command.subcommands[0].arguments[0].name == "channel"@
            &&& command.subcommands[1].arguments[0].name == "channel"@
            &&& command.subcommands[0].arguments[1].name == "quiet"@
            &&& command.subcommands[0].arguments[1].kind == ArgumentKind::Boolean
            &&& !command.subcommands[0].arguments[1].required
        }),
{
    let command = counting_command();
    assert forall|i: int, j: int|
        0 <= i < 2 && 0 <= j < command.subcommands[i].arguments.len()
            && #[trigger] command.subcommands[i].arguments[j].name == "channel"@ implies {
            &&& command.subcommands[i].arguments[j].kind == ArgumentKind::Channel
            &&& command.subcommands[i].arguments[j].required
            &&& command.subcommands[i].arguments[j].text_channels_only
        } by {
        reveal_strlit("channel");
        reveal_strlit("quiet");
        if i == 0 && j == 1 {
            assert(command.subcommands[0].arguments[1].name[0] == 'q');
            assert("channel"@[0] == 'c');
        }
    }
}

} // verus!
