use impossible_bot::commands::fakenitro::{self, ButtonKind};
use impossible_bot::commands::{
    configure_commands, handle_command_interaction, handle_component_interaction, ArgumentKind,
    CommandRoute, CommandSpec, ComponentRoute,
};
use impossible_bot::counting::commands::{
    handle, refusal_reply, remove_reply, setup_reply, CountingRoute,
};

#[test]
fn command_routing() {
    assert_eq!(handle_command_interaction(&"counting".to_string()), CommandRoute::Counting);
    assert_eq!(handle_command_interaction(&"fakenitro".to_string()), CommandRoute::FakeNitro);
    assert_eq!(handle_command_interaction(&"Counting".to_string()), CommandRoute::Unregistered);
    assert_eq!(handle_command_interaction(&"".to_string()), CommandRoute::Unregistered);
    assert_eq!(
        handle_component_interaction(&"fakenitro-accept".to_string()),
        ComponentRoute::FakeNitroAccept
    );
    assert_eq!(handle_component_interaction(&"other".to_string()), ComponentRoute::Unregistered);
}

#[test]
fn counting_command_permissions() {
    let setup = "setup".to_string();
    let remove = "remove".to_string();
    // no member or no permissions: not checked
    assert_eq!(handle(&setup, None), CountingRoute::Setup);
    assert_eq!(handle(&remove, Some(None)), CountingRoute::Remove);
    // administrator, manage channels, both
    assert_eq!(handle(&setup, Some(Some(8))), CountingRoute::Setup);
    assert_eq!(handle(&remove, Some(Some(16))), CountingRoute::Remove);
    assert_eq!(handle(&setup, Some(Some(8 | 16 | 1))), CountingRoute::Setup);
    // neither
    assert_eq!(handle(&setup, Some(Some(0))), CountingRoute::Refused);
    assert_eq!(handle(&setup, Some(Some(1 | 2 | 4 | 32))), CountingRoute::Refused);
    assert_eq!(handle(&"other".to_string(), Some(Some(0))), CountingRoute::Refused);
    // unknown subcommand
    assert_eq!(handle(&"other".to_string(), Some(Some(8))), CountingRoute::Ignored);
}

#[test]
fn counting_replies() {
    let refused = refusal_reply();
    assert_eq!(
        refused.content,
        "<:white_x_mark:<:white_x_mark:919665575813333013>> You are not an administrator!"
    );
    assert!(refused.ephemeral);
    let r = setup_reply(42, true);
    assert_eq!(r.content, "✅ Successfully setup channel <#42> for counting!");
    assert!(r.ephemeral);
    assert_eq!(setup_reply(42, false).content, "Channel <#42> seems to already be setup.");
    assert_eq!(remove_reply(7, true).content, "✅ Successfully removed channel <#7> for counting!");
    assert_eq!(
        remove_reply(7, false).content,
        "Channel <#7> seems to not have been setup in the first place!"
    );
    assert!(remove_reply(7, false).ephemeral);
}

#[test]
fn registered_commands() {
    let mut commands: Vec<CommandSpec> = Vec::new();
    configure_commands(&mut commands);
    assert_eq!(commands.len(), 2);
    let counting = &commands[0];
    assert_eq!(counting.name, "counting");
    assert_eq!(counting.description, "Counting fun!!!");
    assert_eq!(counting.subcommands.len(), 2);
    let setup = &counting.subcommands[0];
    assert_eq!(setup.name, "setup");
    assert_eq!(setup.description, "Setup bot in a channel");
    assert_eq!(setup.arguments.len(), 2);
    assert_eq!(setup.arguments[0].kind, ArgumentKind::Channel);
    assert_eq!(setup.arguments[0].name, "channel");
    assert!(setup.arguments[0].required);
    assert!(setup.arguments[0].text_channels_only);
    assert_eq!(setup.arguments[1].kind, ArgumentKind::Boolean);
    assert_eq!(setup.arguments[1].name, "quiet");
    assert!(!setup.arguments[1].required);
    let remove = &counting.subcommands[1];
    assert_eq!(remove.name, "remove");
    assert_eq!(remove.arguments.len(), 1);
    assert_eq!(remove.arguments[0].description, "Channel you want to remove bot from");
    let nitro = &commands[1];
    assert_eq!(nitro.name, "fakenitro");
    assert_eq!(nitro.description, "Get trolled!");
    assert!(nitro.subcommands.is_empty());
}

#[test]
fn fake_nitro_gift() {
    let gift = fakenitro::handle("alice".to_string(), None);
    assert_eq!(gift.notice.content, "Message sent.");
    assert!(gift.notice.ephemeral);
    assert_eq!(gift.embed.title, "A WILD GIFT APPEARS!");
    assert_eq!(gift.embed.thumbnail_url, "https://i.imgur.com/w9aiD6F.png");
    assert_eq!(gift.embed.field_name, "Discord Nitro");
    assert_eq!(gift.embed.field_value, "Expires in 48 hours.");
    assert!(!gift.embed.field_inline);
    assert_eq!(gift.embed.colour, 0x2F3136);
    assert_eq!(gift.embed.footer_text, "alice");
    assert_eq!(gift.embed.footer_icon_url, "https://cdn.discordapp.com/embed/avatars/1.png");
    assert_eq!(gift.button.custom_id, "fakenitro-accept");
    assert_eq!(gift.button.style, ButtonKind::Success);
    assert!(gift.button.label.contains("Accept"));
    let with_avatar = fakenitro::handle("bob".to_string(), Some("https://x/a.png".to_string()));
    assert_eq!(with_avatar.embed.footer_icon_url, "https://x/a.png");
    let accept = fakenitro::handle_accept();
    assert_eq!(accept.content, "HAHAHA get trolled");
    assert!(accept.ephemeral);
}
