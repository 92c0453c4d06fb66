//! Slash commands: their definitions, as registered with Discord, and the
//! routing of incoming interactions to the command that handles them.

pub mod fakenitro;

use crate::counting::commands as counting;
use vstd::prelude::*;

verus! {

/// The kind of value a command argument takes.
#[derive(PartialEq, Eq, Structural, Clone, Copy, Debug)]
pub enum ArgumentKind {
    /// A channel of the guild.
    Channel,
    /// A yes/no flag.
    Boolean,
}

/// An argument of a subcommand.
pub struct CommandArgument {
    pub kind: ArgumentKind,
    pub name: String,
    pub description: String,
    /// Whether Discord makes the user give it.
    pub required: bool,
    /// Whether only text channels may be given (for channel arguments).
    pub text_channels_only: bool,
}

/// What a command argument holds.
pub ghost struct ArgumentView {
    pub kind: ArgumentKind,
    pub name: Seq<char>,
    pub description: Seq<char>,
    pub required: bool,
    pub text_channels_only: bool,
}

impl View for CommandArgument {
    type V = ArgumentView;

    open spec fn view(&self) -> ArgumentView {
        ArgumentView {
            kind: self.kind,
            name: self.name@,
            description: self.description@,
            required: self.required,
            text_channels_only: self.text_channels_only,
        }
    }
}

/// A subcommand of a slash command.
pub struct Subcommand {
    pub name: String,
    pub description: String,
    pub arguments: Vec<CommandArgument>,
}

/// What a subcommand holds.
pub ghost struct SubcommandView {
    pub name: Seq<char>,
    pub description: Seq<char>,
    pub arguments: Seq<ArgumentView>,
}

impl View for Subcommand {
    type V = SubcommandView;

    open spec fn view(&self) -> SubcommandView {
        SubcommandView {
            name: self.name@,
            description: self.description@,
            arguments: self.arguments@.map_values(|a: CommandArgument| a@),
        }
    }
}

/// A slash command, as registered with Discord.
pub struct CommandSpec {
    pub name: String,
    pub description: String,
    pub subcommands: Vec<Subcommand>,
}

/// What a command definition holds.
pub ghost struct CommandView {
    pub name: Seq<char>,
    pub description: Seq<char>,
    pub subcommands: Seq<SubcommandView>,
}

impl View for CommandSpec {
    type V = CommandView;

    open spec fn view(&self) -> CommandView {
        CommandView {
            name: self.name@,
            description: self.description@,
            subcommands: self.subcommands@.map_values(|s: Subcommand| s@),
        }
    }
}

/// The views of a list of command definitions.
pub open spec fn commands_view(commands: Seq<CommandSpec>) -> Seq<CommandView> {
    commands.map_values(|c: CommandSpec| c@)
}

/// A response to an interaction, sent as a message.
pub struct InteractionReply {
    pub content: String,
    /// Whether only the user who interacted sees it.
    pub ephemeral: bool,
}

/// What an interaction reply holds.
pub ghost struct ReplyView {
    pub content: Seq<char>,
    pub ephemeral: bool,
}

impl View for InteractionReply {
    type V = ReplyView;

    open spec fn view(&self) -> ReplyView {
        ReplyView { content: self.content@, ephemeral: self.ephemeral }
    }
}

/// Adds the bot's slash commands to `commands`: first `counting`, then
/// `fakenitro`.
pub fn configure_commands(commands: &mut Vec<CommandSpec>)
    ensures
        commands_view(final(commands)@) == commands_view(old(commands)@).push(
            counting::counting_command(),
        ).push(fakenitro::fakenitro_command()),
{
    let ghost start = commands@;
    counting::configure(commands);
    let ghost middle = commands@;
    fakenitro::configure(commands);
    proof {
        assert(commands_view(middle) =~= commands_view(start).push(counting::counting_command()));
        assert(commands_view(commands@) =~= commands_view(middle).push(
            fakenitro::fakenitro_command(),
        ));
    }
}

/// Which command handles an application command interaction.
#[derive(PartialEq, Eq, Structural, Clone, Copy, Debug)]
pub enum CommandRoute {
    Counting,
    FakeNitro,
    /// No such command: the bot only logs a warning.
    Unregistered,
}

/// The command that handles an application command named `name`.
pub open spec fn command_route(name: Seq<char>) -> CommandRoute {
    if name == "counting"@ {
        CommandRoute::Counting
    } else if name == "fakenitro"@ {
        CommandRoute::FakeNitro
    } else {
        CommandRoute::Unregistered
    }
}

/// Routes an application command interaction by the command's name.
pub fn handle_command_interaction(name: &String) -> (route: CommandRoute)
    ensures
        route == command_route(name@),
{
    if *name == String::from_str("counting") {
        CommandRoute::Counting
    } else if *name == String::from_str("fakenitro") {
        CommandRoute::FakeNitro
    } else {
        CommandRoute::Unregistered
    }
}

/// Which handler takes a message component interaction.
#[derive(PartialEq, Eq, Structural, Clone, Copy, Debug)]
pub enum ComponentRoute {
    /// The "Accept" button under a fake gift.
    FakeNitroAccept,
    /// No such component: the bot only logs a warning.
    Unregistered,
}

/// The handler of a component whose custom id is `custom_id`.
pub open spec fn component_route(custom_id: Seq<char>) -> ComponentRoute {
    if custom_id == fakenitro::accept_button_id() {
        ComponentRoute::FakeNitroAccept
    } else {
        ComponentRoute::Unregistered
    }
}

/// Routes a message component interaction by the component's custom id.
pub fn handle_component_interaction(custom_id: &String) -> (route: ComponentRoute)
    ensures
        route == component_route(custom_id@),
{
    if *custom_id == String::from_str("fakenitro-accept") {
        ComponentRoute::FakeNitroAccept
    } else {
        ComponentRoute::Unregistered
    }
}

/// Every registered command is routed to its own handler, an unknown name
/// to none, and the gift's "Accept" button to the accept handler.
pub proof fn law_registered_commands_are_routed(name: Seq<char>, user: Seq<char>, avatar: Option<Seq<char>>)
    ensures
        command_route(counting::counting_command().name) == CommandRoute::Counting,
        command_route(fakenitro::fakenitro_command().name) == CommandRoute::FakeNitro,
        name != counting::counting_command().name && name != fakenitro::fakenitro_command().name
            ==> command_route(name) == CommandRoute::Unregistered,
        component_route(fakenitro::gift(user, avatar).button_id) == ComponentRoute::FakeNitroAccept,
{
    reveal_strlit("counting");
    reveal_strlit("fakenitro");
    assert("counting"@[0] != "fakenitro"@[0]);
}

} // verus!
