//! The few computations this library takes from `serenity`, Discord's
//! client library: how ids and mentions are written in message text, how
//! permission bits are read, and how an RGB colour is packed.

use crate::decimal::decimal;
use serenity::model::id::{ChannelId, EmojiId, MessageId, UserId};
use serenity::model::misc::Mentionable;
use serenity::model::permissions::Permissions;
use serenity::utils::Colour;
use vstd::prelude::*;

verus! {

/// The bit of the Administrator permission (`Permissions::ADMINISTRATOR`).
pub const ADMINISTRATOR_BIT: u64 = 8;

/// The bit of the Manage Channels permission (`Permissions::MANAGE_CHANNELS`).
pub const MANAGE_CHANNELS_BIT: u64 = 16;

/// How a user is mentioned in message text: `<@id>`.
pub open spec fn user_mention_text(user_id: u64) -> Seq<char> {
    seq!['<', '@'] + decimal(user_id as nat) + seq!['>']
}

/// How a channel is mentioned in message text: `<#id>`.
pub open spec fn channel_mention_text(channel_id: u64) -> Seq<char> {
    seq!['<', '#'] + decimal(channel_id as nat) + seq!['>']
}

/// `UserId`'s `Display`: serenity writes the inner `u64` in decimal.
#[verifier::external_body]
pub(crate) fn user_id_text(user_id: u64) -> (text: String)
    ensures
        text@ == decimal(user_id as nat),
{
    UserId(user_id).to_string()
}

/// `MessageId`'s `Display`: serenity writes the inner `u64` in decimal.
#[verifier::external_body]
pub(crate) fn message_id_text(message_id: u64) -> (text: String)
    ensures
        text@ == decimal(message_id as nat),
{
    MessageId(message_id).to_string()
}

/// `ChannelId`'s `Display`: serenity writes the inner `u64` in decimal.
#[verifier::external_body]
pub(crate) fn channel_id_text(channel_id: u64) -> (text: String)
    ensures
        text@ == decimal(channel_id as nat),
{
    ChannelId(channel_id).to_string()
}

/// `EmojiId`'s `Display`: serenity writes the inner `u64` in decimal.
#[verifier::external_body]
pub(crate) fn emoji_id_text(emoji_id: u64) -> (text: String)
    ensures
        text@ == decimal(emoji_id as nat),
{
    EmojiId(emoji_id).to_string()
}

/// `UserId::mention` written out: serenity's `Mention` displays a user as
/// `<@{id}>`.
#[verifier::external_body]
pub(crate) fn user_mention(user_id: u64) -> (text: String)
    ensures
        text@ == user_mention_text(user_id),
{
    UserId(user_id).mention().to_string()
}

/// `ChannelId::mention` written out: serenity's `Mention` displays a channel
/// as `<#{id}>`.
#[verifier::external_body]
pub(crate) fn channel_mention(channel_id: u64) -> (text: String)
    ensures
        text@ == channel_mention_text(channel_id),
{
    ChannelId(channel_id).mention().to_string()
}

/// `Permissions::administrator`: whether the set `bits` contains the
/// Administrator flag (bitflags' `contains` is `bits & flag == flag`).
#[verifier::external_body]
pub(crate) fn grants_administrator(bits: u64) -> (granted: bool)
    ensures
        granted == (bits & ADMINISTRATOR_BIT == ADMINISTRATOR_BIT),
{
    Permissions { bits }.administrator()
}

/// `Permissions::manage_channels`: whether the set `bits` contains the
/// Manage Channels flag.
#[verifier::external_body]
pub(crate) fn grants_manage_channels(bits: u64) -> (granted: bool)
    ensures
        granted == (bits & MANAGE_CHANNELS_BIT == MANAGE_CHANNELS_BIT),
{
    Permissions { bits }.manage_channels()
}

/// `Colour::from_rgb`: packs the three channels as `0xRRGGBB`.
#[verifier::external_body]
pub(crate) fn rgb_colour(red: u8, green: u8, blue: u8) -> (value: u32)
    ensures
        value == red as int * 65536 + green as int * 256 + blue as int,
{
    Colour::from_rgb(red, green, blue).0
}

} // verus!
