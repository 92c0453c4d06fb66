//! The records the bot keeps in its database.

use vstd::prelude::*;

verus! {

/// A guild (Discord server) known to the bot.
pub struct Guild {
    /// Discord guild id.
    id: String,
}

/// What a guild record holds.
pub ghost struct GuildView {
    pub id: Seq<char>,
}

impl View for Guild {
    type V = GuildView;

    closed spec fn view(&self) -> GuildView {
        GuildView { id: self.id@ }
    }
}

impl Guild {
    /// A guild record for the guild with id `id`.
    pub fn new(id: String) -> (guild: Guild)
        ensures
            guild@.id == id@,
    {
        Guild { id }
    }

    /// The Discord guild id.
    pub fn id(&self) -> (id: &String)
        ensures
            id@ == self@.id,
    {
        &self.id
    }
}

/// A member of a guild, with the points the bot has given them.
pub struct Member {
    /// Discord guild id.
    guild_id: String,
    /// Discord user id.
    user_id: String,
    /// Number of points the user has.
    points: u8,
}

/// What a member record holds.
pub ghost struct MemberView {
    pub guild_id: Seq<char>,
    pub user_id: Seq<char>,
    pub points: u8,
}

impl View for Member {
    type V = MemberView;

    closed spec fn view(&self) -> MemberView {
        MemberView { guild_id: self.guild_id@, user_id: self.user_id@, points: self.points }
    }
}

impl Member {
    /// A member record.
    pub fn new(guild_id: String, user_id: String, points: u8) -> (member: Member)
        ensures
            member@ == (MemberView { guild_id: guild_id@, user_id: user_id@, points }),
    {
        Member { guild_id, user_id, points }
    }

    /// The Discord guild id.
    pub fn guild_id(&self) -> (id: &String)
        ensures
            id@ == self@.guild_id,
    {
        &self.guild_id
    }

    /// The Discord user id.
    pub fn user_id(&self) -> (id: &String)
        ensures
            id@ == self@.user_id,
    {
        &self.user_id
    }

    /// The member's points.
    pub fn points(&self) -> (points: u8)
        ensures
            points == self@.points,
    {
        self.points
    }
}

/// A channel in which the counting game is played.
pub struct Channel {
    /// Discord channel id, in decimal.
    pub id: String,
    /// The last number counted correctly; 0 before the first count.
    pub current_number: u64,
    /// Id of the user who counted last, in decimal.
    pub last_count_user: Option<String>,
    /// When the last count was made (Unix seconds).
    pub last_count_time: Option<i64>,
    /// Id of the message with the last count, in decimal.
    pub last_count_message_id: Option<String>,
}

/// What a counting channel record holds.
pub ghost struct ChannelView {
    pub id: Seq<char>,
    pub current_number: nat,
    pub last_count_user: Option<Seq<char>>,
    pub last_count_time: Option<i64>,
    pub last_count_message_id: Option<Seq<char>>,
}

/// The view of an optional string.
pub open spec fn opt_view(s: Option<String>) -> Option<Seq<char>> {
    match s {
        Some(s) => Some(s@),
        None => None,
    }
}

impl View for Channel {
    type V = ChannelView;

    open spec fn view(&self) -> ChannelView {
        ChannelView {
            id: self.id@,
            current_number: self.current_number as nat,
            last_count_user: opt_view(self.last_count_user),
            last_count_time: self.last_count_time,
            last_count_message_id: opt_view(self.last_count_message_id),
        }
    }
}

/// The view of an optional channel record.
pub open spec fn opt_channel_view(channel: Option<Channel>) -> Option<ChannelView> {
    match channel {
        Some(c) => Some(c@),
        None => None,
    }
}

impl ChannelView {
    /// A channel just set up for counting, with id `id`.
    pub open spec fn fresh(id: Seq<char>) -> ChannelView {
        ChannelView {
            id,
            current_number: 0,
            last_count_user: None,
            last_count_time: None,
            last_count_message_id: None,
        }
    }

    /// The channel after the game restarts: the count is back at zero and
    /// nobody has counted.
    pub open spec fn restarted(self) -> ChannelView {
        ChannelView {
            current_number: 0,
            last_count_user: None,
            last_count_time: None,
            last_count_message_id: None,
            ..self
        }
    }

    /// The channel after `user` counted the next number in message
    /// `message_id` at `time`.
    pub open spec fn counted(self, user: Seq<char>, message_id: Seq<char>, time: i64) -> ChannelView {
        ChannelView {
            current_number: self.current_number + 1,
            last_count_user: Some(user),
            last_count_time: Some(time),
            last_count_message_id: Some(message_id),
            ..self
        }
    }
}

impl Channel {
    /// The record of a channel just set up for counting.
    pub fn new(id: String) -> (channel: Channel)
        ensures
            channel@ == ChannelView::fresh(id@),
    {
        Channel {
            id,
            current_number: 0,
            last_count_user: None,
            last_count_time: None,
            last_count_message_id: None,
        }
    }

    /// Restarts the game: the count goes back to zero and the last count is
    /// forgotten.
    pub fn restart(&mut self)
        ensures
            final(self)@ == old(self)@.restarted(),
    {
        self.current_number = 0;
        self.last_count_user = None;
        self.last_count_time = None;
        self.last_count_message_id = None;
    }

    /// Records that `user` counted the next number in message `message_id`
    /// at `time`.
    pub fn record_count(&mut self, user: String, message_id: String, time: i64)
        requires
            old(self).current_number < u64::MAX,
        ensures
            final(self)@ == old(self)@.counted(user@, message_id@, time),
    {
        self.current_number = self.current_number + 1;
        self.last_count_user = Some(user);
        self.last_count_time = Some(time);
        self.last_count_message_id = Some(message_id);
    }
}

} // verus!
