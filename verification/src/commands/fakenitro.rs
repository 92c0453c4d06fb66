//! `/fakenitro`: posts a fake Discord Nitro gift whose "Accept" button only
//! mocks whoever presses it.

use super::{CommandSpec, CommandView, InteractionReply, ReplyView, commands_view};
use crate::discord::rgb_colour;
use vstd::prelude::*;
use vstd::string::*;

verus! {

/// The definition of `/fakenitro`.
pub open spec fn fakenitro_command() -> CommandView {
    CommandView { name: "fakenitro"@, description: "Get trolled!"@, subcommands: Seq::empty() }
}

/// Adds `/fakenitro` to `commands`.
pub fn configure(commands: &mut Vec<CommandSpec>)
    ensures
        commands_view(final(commands)@) == commands_view(old(commands)@).push(fakenitro_command()),
{
    let command = CommandSpec {
        name: String::from_str("fakenitro"),
        description: String::from_str("Get trolled!"),
        subcommands: Vec::new(),
    };
    let ghost start = commands@;
    commands.push(command);
    proof {
        assert(command@.subcommands =~= Seq::empty());
        assert(commands_view(commands@) =~= commands_view(start).push(fakenitro_command()));
    }
}

/// The custom id of the gift's "Accept" button.
pub open spec fn accept_button_id() -> Seq<char> {
    "fakenitro-accept"@
}

/// The picture used when the user has no avatar of their own.
pub open spec fn default_avatar_url() -> Seq<char> {
    "https://cdn.discordapp.com/embed/avatars/1.png"@
}

/// The gift's embed.
pub struct GiftEmbed {
    pub title: String,
    pub thumbnail_url: String,
    pub field_name: String,
    pub field_value: String,
    pub field_inline: bool,
    /// Packed as `0xRRGGBB`.
    pub colour: u32,
    pub footer_text: String,
    pub footer_icon_url: String,
}

/// The button's style.
#[derive(PartialEq, Eq, Structural, Clone, Copy, Debug)]
pub enum ButtonKind {
    /// Discord's green button.
    Success,
}

/// A button under a message.
pub struct Button {
    pub label: String,
    pub custom_id: String,
    pub style: ButtonKind,
}

/// What `/fakenitro` does: an ephemeral notice to the caller, and the gift,
/// posted in the channel.
pub struct FakeNitroGift {
    pub notice: InteractionReply,
    pub embed: GiftEmbed,
    pub button: Button,
}

/// What the gift holds.
pub ghost struct GiftView {
    pub notice: ReplyView,
    pub title: Seq<char>,
    pub thumbnail_url: Seq<char>,
    pub field_name: Seq<char>,
    pub field_value: Seq<char>,
    pub field_inline: bool,
    pub colour: u32,
    pub footer_text: Seq<char>,
    pub footer_icon_url: Seq<char>,
    pub button_label: Seq<char>,
    pub button_id: Seq<char>,
    pub button_style: ButtonKind,
}

impl View for FakeNitroGift {
    type V = GiftView;

    open spec fn view(&self) -> GiftView {
        GiftView {
            notice: self.notice@,
            title: self.embed.title@,
            thumbnail_url: self.embed.thumbnail_url@,
            field_name: self.embed.field_name@,
            field_value: self.embed.field_value@,
            field_inline: self.embed.field_inline,
            colour: self.embed.colour,
            footer_text: self.embed.footer_text@,
            footer_icon_url: self.embed.footer_icon_url@,
            button_label: self.button.label@,
            button_id: self.button.custom_id@,
            button_style: self.button.style,
        }
    }
}

/// The gift shown for a user named `user_name` whose avatar is at
/// `avatar_url`.
pub open spec fn gift(user_name: Seq<char>, avatar_url: Option<Seq<char>>) -> GiftView {
    GiftView {
        notice: ReplyView { content: "Message sent."@, ephemeral: true },
        title: "A WILD GIFT APPEARS!"@,
        thumbnail_url: "https://i.imgur.com/w9aiD6F.png"@,
        field_name: "Discord Nitro"@,
        field_value: "Expires in 48 hours."@,
        field_inline: false,
        colour: 3092790,
        footer_text: user_name,
        footer_icon_url: match avatar_url {
            Some(url) => url,
            None => default_avatar_url(),
        },
        button_label: "⠀⠀⠀⠀⠀⠀⠀⠀⠀⠀⠀Accept⠀⠀⠀⠀⠀⠀⠀⠀⠀⠀⠀⠀"@,
        button_id: accept_button_id(),
        button_style: ButtonKind::Success,
    }
}

/// Builds the fake gift for `/fakenitro`, signed with the caller's name and
/// avatar (`avatar_url`, if they have one).
pub fn handle(user_name: String, avatar_url: Option<String>) -> (result: FakeNitroGift)
    ensures
        result@ == gift(
            user_name@,
            match avatar_url {
                Some(url) => Some(url@),
                None => None,
            },
        ),
{
    let icon = match avatar_url {
        Some(url) => url,
        None => String::from_str("https://cdn.discordapp.com/embed/avatars/1.png"),
    };
    let colour = rgb_colour(47, 49, 54);
    FakeNitroGift {
        notice: InteractionReply { content: String::from_str("Message sent."), ephemeral: true },
        embed: GiftEmbed {
            title: String::from_str("A WILD GIFT APPEARS!"),
            thumbnail_url: String::from_str("https://i.imgur.com/w9aiD6F.png"),
            field_name: String::from_str("Discord Nitro"),
            field_value: String::from_str("Expires in 48 hours."),
            field_inline: false,
            colour,
            footer_text: user_name,
            footer_icon_url: icon,
        },
        button: Button {
            label: String::from_str("⠀⠀⠀⠀⠀⠀⠀⠀⠀⠀⠀Accept⠀⠀⠀⠀⠀⠀⠀⠀⠀⠀⠀⠀"),
            custom_id: String::from_str("fakenitro-accept"),
            style: ButtonKind::Success,
        },
    }
}

/// The reply to whoever presses "Accept".
pub fn handle_accept() -> (reply: InteractionReply)
    ensures
        reply@ == (ReplyView { content: "HAHAHA get trolled"@, ephemeral: true }),
{
    InteractionReply { content: String::from_str("HAHAHA get trolled"), ephemeral: true }
}

/// The gift is signed with the caller's name whatever their avatar; its
/// footer picture is their avatar when they have one and Discord's default
/// avatar otherwise; and everything else about the gift is the same for
/// every caller.
pub proof fn law_gift_is_signed_by_caller(
    user_name: Seq<char>,
    avatar_url: Option<Seq<char>>,
    other_name: Seq<char>,
    other_avatar: Option<Seq<char>>,
)
    ensures
        gift(user_name, avatar_url).footer_text == user_name,
        avatar_url matches Some(url) ==> gift(user_name, avatar_url).footer_icon_url == url,
        avatar_url is None ==> gift(user_name, avatar_url).footer_icon_url
            == "https://cdn.discordapp.com/embed/avatars/1.png"@,
        ({
            let a = gift(user_name, avatar_url);
            let b = gift(other_name, other_avatar);
            &&& a.notice == b.notice
            &&& a.title == b.title
            &&& a.thumbnail_url == b.thumbnail_url
            &&& a.field_name == b.field_name
            &&& a.field_value == b.field_value
            &&& a.field_inline == b.field_inline
            &&& a.colour == b.colour
            &&& a.button_label == b.button_label
            &&& a.button_id == b.button_id
            &&& a.button_style == b.button_style
        }),
        gift(user_name, avatar_url).notice.ephemeral,
        gift(user_name, avatar_url).button_id == "fakenitro-accept"@,
        gift(user_name, avatar_url).colour == 0x2F3136,
{
}

} // verus!
