//! `/counting setup` and `/counting remove`: turning the game on and off in a
//! channel.

use crate::commands::{
    ArgumentKind, ArgumentView, CommandArgument, CommandSpec, CommandView, InteractionReply,
    ReplyView, Subcommand, SubcommandView, commands_view,
};
use crate::discord::{
    ADMINISTRATOR_BIT, MANAGE_CHANNELS_BIT, channel_mention, channel_mention_text,
    grants_administrator, grants_manage_channels,
};
use super::{emoji_text, x_emoji, x_emoji_name, X_EMOJI_ID};
use vstd::prelude::*;
use vstd::string::*;

verus! {

/// The definition of `/counting`.
pub open spec fn counting_command() -> CommandView {
    CommandView {
        name: "counting"@,
        description: "Counting fun!!!"@,
        subcommands: seq![
            SubcommandView {
                name: "setup"@,
                description: "Setup bot in a channel"@,
                arguments: seq![
                    ArgumentView {
                        kind: ArgumentKind::Channel,
                        name: "channel"@,
                        description: "Channel you want to setup counting in"@,
                        required: true,
                        text_channels_only: true,
                    },
                    ArgumentView {
                        kind: ArgumentKind::Boolean,
                        name: "quiet"@,
                        description: "Should the bot not send a message in the channel with the rules?"@,
                        required: false,
                        text_channels_only: false,
                    },
                ],
            },
            SubcommandView {
                name: "remove"@,
                description: "Remove bot from channel"@,
                arguments: seq![
                    ArgumentView {
                        kind: ArgumentKind::Channel,
                        name: "channel"@,
                        description: "Channel you want to remove bot from"@,
                        required: true,
                        text_channels_only: true,
                    },
                ],
            },
        ],
    }
}

/// Adds `/counting` to `commands`.
pub fn configure(commands: &mut Vec<CommandSpec>)
    ensures
        commands_view(final(commands)@) == commands_view(old(commands)@).push(counting_command()),
{
    let mut setup_arguments = Vec::new();
    setup_arguments.push(
        CommandArgument {
            kind: ArgumentKind::Channel,
            name: String::from_str("channel"),
            description: String::from_str("Channel you want to setup counting in"),
            required: true,
            text_channels_only: true,
        },
    );
    setup_arguments.push(
        CommandArgument {
            kind: ArgumentKind::Boolean,
            name: String::from_str("quiet"),
            description: String::from_str(
                "Should the bot not send a message in the channel with the rules?",
            ),
            required: false,
            text_channels_only: false,
        },
    );
    let mut remove_arguments = Vec::new();
    remove_arguments.push(
        CommandArgument {
            kind: ArgumentKind::Channel,
            name: String::from_str("channel"),
            description: String::from_str("Channel you want to remove bot from"),
            required: true,
            text_channels_only: true,
        },
    );
    let mut subcommands = Vec::new();
    subcommands.push(
        Subcommand {
            name: String::from_str("setup"),
            description: String::from_str("Setup bot in a channel"),
            arguments: setup_arguments,
        },
    );
    subcommands.push(
        Subcommand {
            name: String::from_str("remove"),
            description: String::from_str("Remove bot from channel"),
            arguments: remove_arguments,
        },
    );
    let command = CommandSpec {
        name: String::from_str("counting"),
        description: String::from_str("Counting fun!!!"),
        subcommands,
    };
    let ghost start = commands@;
    commands.push(command);
    proof {
        assert(command@.subcommands[0].arguments =~= counting_command().subcommands[0].arguments);
        assert(command@.subcommands[1].arguments =~= counting_command().subcommands[1].arguments);
        assert(command@.subcommands =~= counting_command().subcommands);
        assert(commands_view(commands@) =~= commands_view(start).push(counting_command()));
    }
}

/// What `/counting` does with an interaction.
#[derive(PartialEq, Eq, Structural, Clone, Copy, Debug)]
pub enum CountingRoute {
    /// The caller may not manage channels: they are told so.
    Refused,
    /// `/counting setup`.
    Setup,
    /// `/counting remove`.
    Remove,
    /// Any other subcommand: nothing happens.
    Ignored,
}

/// Whether permission bits allow running `/counting`: Administrator or
/// Manage Channels.
pub open spec fn may_manage_counting(bits: u64) -> bool {
    bits & ADMINISTRATOR_BIT == ADMINISTRATOR_BIT || bits & MANAGE_CHANNELS_BIT
        == MANAGE_CHANNELS_BIT
}

/// What `/counting` does when its first option is named `subcommand` and the
/// caller's permissions are `permissions` (outer `None`: not called from a
/// guild; inner `None`: Discord sent no permissions).
pub open spec fn counting_route(subcommand: Seq<char>, permissions: Option<Option<u64>>) -> CountingRoute {
    if permissions matches Some(Some(bits)) && !may_manage_counting(bits) {
        CountingRoute::Refused
    } else if subcommand == "setup"@ {
        CountingRoute::Setup
    } else if subcommand == "remove"@ {
        CountingRoute::Remove
    } else {
        CountingRoute::Ignored
    }
}

/// Decides what `/counting` does: refuse callers who may not manage
/// channels, then dispatch on the subcommand's name.
pub fn handle(subcommand: &String, permissions: Option<Option<u64>>) -> (route: CountingRoute)
    ensures
        route == counting_route(subcommand@, permissions),
{
    if let Some(Some(bits)) = permissions {
        if !(grants_administrator(bits) || grants_manage_channels(bits)) {
            return CountingRoute::Refused;
        }
    }
    if *subcommand == String::from_str("setup") {
        CountingRoute::Setup
    } else if *subcommand == String::from_str("remove") {
        CountingRoute::Remove
    } else {
        CountingRoute::Ignored
    }
}

/// The reply to a caller who may not manage channels. (The emoji's full
/// text is written inside the `white_x_mark` prefix.)
pub open spec fn refusal_text() -> Seq<char> {
    "<:white_x_mark:"@ + emoji_text(false, x_emoji_name(), X_EMOJI_ID)
        + "> You are not an administrator!"@
}

/// The ephemeral reply to a caller who may not manage channels.
pub fn refusal_reply() -> (reply: InteractionReply)
    ensures
        reply@ == (ReplyView { content: refusal_text(), ephemeral: true }),
{
    let emoji = x_emoji().to_text();
    let mut content = String::from_str("<:white_x_mark:");
    content.append(emoji.as_str());
    content.append("> You are not an administrator!");
    InteractionReply { content, ephemeral: true }
}

/// The reply to `/counting setup` for channel `channel_id`; `created` tells
/// whether the channel was newly set up.
pub open spec fn setup_text(channel_id: u64, created: bool) -> Seq<char> {
    if created {
        "✅ Successfully setup channel "@ + channel_mention_text(channel_id) + " for counting!"@
    } else {
        "Channel "@ + channel_mention_text(channel_id) + " seems to already be setup."@
    }
}

/// The ephemeral reply to `/counting setup`.
pub fn setup_reply(channel_id: u64, created: bool) -> (reply: InteractionReply)
    ensures
        reply@ == (ReplyView { content: setup_text(channel_id, created), ephemeral: true }),
{
    let mention = channel_mention(channel_id);
    let mut content;
    if created {
        content = String::from_str("✅ Successfully setup channel ");
        content.append(mention.as_str());
        content.append(" for counting!");
    } else {
        content = String::from_str("Channel ");
        content.append(mention.as_str());
        content.append(" seems to already be setup.");
    }
    InteractionReply { content, ephemeral: true }
}

/// The reply to `/counting remove` for channel `channel_id`; `removed` tells
/// whether the channel was a counting channel.
pub open spec fn remove_text(channel_id: u64, removed: bool) -> Seq<char> {
    if removed {
        "✅ Successfully removed channel "@ + channel_mention_text(channel_id) + " for counting!"@
    } else {
        "Channel "@ + channel_mention_text(channel_id)
            + " seems to not have been setup in the first place!"@
    }
}

/// The ephemeral reply to `/counting remove`.
pub fn remove_reply(channel_id: u64, removed: bool) -> (reply: InteractionReply)
    ensures
        reply@ == (ReplyView { content: remove_text(channel_id, removed), ephemeral: true }),
{
    let mention = channel_mention(channel_id);
    let mut content;
    if removed {
        content = String::from_str("✅ Successfully removed channel ");
        content.append(mention.as_str());
        content.append(" for counting!");
    } else {
        content = String::from_str("Channel ");
        content.append(mention.as_str());
        content.append(" seems to not have been setup in the first place!");
    }
    InteractionReply { content, ephemeral: true }
}

} // verus!
