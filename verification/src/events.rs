//! The event decoder.
//!
//! One frame — one JSON value — becomes exactly one [`Event`] variant or one
//! structured decode failure.  Frames carrying a string "type" field are
//! dispatched over the fixed catalog of event kinds; frames without one are
//! confirmations of an earlier outbound send, discriminated by a required
//! "ok" boolean.  An unrecognized "type" value is a schema failure naming the
//! offending string, never a silently dropped frame.

use vstd::prelude::*;

use crate::entities::{
    bot_of, channel_of, comment_of, file_of, item_of, message_of, user_of, Bot, BotV, Channel,
    ChannelV, Comment, CommentV, File, FileV, Item, ItemV, Message, MessageV, User, UserV,
};
use crate::error::{fail_matches, missing_field, unknown_type, Error};
use crate::json::{
    bool_req, isize_req, obj_req, spec_get, str_eq, str_opt, str_req, Fail, Json, Outcome,
};

verus! {

/// One event of the real-time stream: a closed, tagged union with one case
/// per event kind.  Every variant is an immutable value produced from one
/// frame.
#[derive(Clone, Debug)]
pub enum Event {
    /// The greeting sent when the stream opens.
    Hello,
    /// A message was posted; wraps the message entity.
    Message(Message),
    /// Someone started typing.
    UserTyping { channel: String, user: String },
    /// The reader's channel read-cursor moved.
    ChannelMarked { channel: String, ts: String },
    /// A channel was created; carries the full snapshot.
    ChannelCreated { channel: Channel },
    /// The caller joined a channel; carries the full snapshot.
    ChannelJoined { channel: Channel },
    /// The caller left a channel.
    ChannelLeft { channel: String },
    /// A channel was deleted.
    ChannelDeleted { channel: String },
    /// A channel was renamed; carries the full snapshot.
    ChannelRename { channel: Channel },
    /// A channel was archived.
    ChannelArchive { channel: String, user: String },
    /// A channel was unarchived.
    ChannelUnArchive { channel: String, user: String },
    /// Bulk history changes happened in a channel.
    ChannelHistoryChanged { latest: String, ts: String, event_ts: String },
    /// A direct-message channel was created; carries the full snapshot.
    ImCreated { user: String, channel: Channel },
    /// A direct-message channel was opened.
    ImOpen { user: String, channel: String },
    /// A direct-message channel was closed.
    ImClose { user: String, channel: String },
    /// The reader's direct-message read-cursor moved.
    ImMarked { channel: String, ts: String },
    /// Bulk history changes happened in a direct-message channel.
    ImHistoryChanged { latest: String, ts: String, event_ts: String },
    /// The caller joined a private group; carries the full snapshot.
    GroupJoined { channel: Channel },
    /// The caller left a private group; carries the full snapshot.
    GroupLeft { channel: Channel },
    /// A private group was opened.
    GroupOpen { user: String, channel: String },
    /// A private group was closed.
    GroupClose { user: String, channel: String },
    /// A private group was archived.
    GroupArchive { channel: String },
    /// A private group was unarchived.
    GroupUnArchive { channel: String },
    /// A private group was renamed; carries the full snapshot.
    GroupRename { channel: Channel },
    /// The reader's group read-cursor moved.
    GroupMarked { channel: String, ts: String },
    /// Bulk history changes happened in a private group.
    GroupHistoryChanged { latest: String, ts: String, event_ts: String },
    /// A file was created; carries the full snapshot.
    FileCreated { file: File },
    /// A file was shared; carries the full snapshot.
    FileShared { file: File },
    /// A file was unshared; carries the full snapshot.
    FileUnShared { file: File },
    /// A file was made public; carries the full snapshot.
    FilePublic { file: File },
    /// A file was made private; carries only the file identifier, an
    /// asymmetry of the upstream protocol.
    FilePrivate { file: String },
    /// A file changed; carries the full snapshot.
    FileChange { file: File },
    /// A file was deleted.
    FileDeleted { file_id: String, event_ts: String },
    /// A comment was added to a file.
    FileCommentAdded { file: File, comment: Comment },
    /// A comment on a file was edited.
    FileCommentEdited { file: File, comment: Comment },
    /// A comment on a file was deleted; carries only the comment identifier.
    FileCommentDeleted { file: File, comment: String },
    /// Something was pinned.
    PinAdded { user: String, channel_id: String, item: Item, event_ts: String },
    /// Something was unpinned.
    PinRemoved { user: String, channel_id: String, item: Item, has_pins: bool, event_ts: String },
    /// A user's presence changed.
    PresenceChange { user: String, presence: String },
    /// The caller's own presence was set by hand.
    ManualPresenceChange { presence: String },
    /// A preference changed.
    PrefChange { name: String, value: String },
    /// A user record changed; carries the full snapshot.
    UserChange { user: User },
    /// A user joined the team; carries the full snapshot.
    TeamJoin { user: User },
    /// Something was starred.
    StarAdded { user: String, item: Item, event_ts: String },
    /// A star was removed.
    StarRemoved { user: String, item: Item, event_ts: String },
    /// A reaction was added.  The wire carries the reaction's name under the
    /// key "name" even though this field is called `reaction`.
    ReactionAdded { user: String, reaction: String, item: Item, item_user: String, event_ts: String },
    /// A reaction was removed; the same wire-key divergence applies.
    ReactionRemoved {
        user: String,
        reaction: String,
        item: Item,
        item_user: String,
        event_ts: String,
    },
    /// The team's custom emoji changed.
    EmojiChanged { event_ts: String },
    /// The team's slash commands changed.
    CommandsChanged { event_ts: String },
    /// The team's billing plan changed.
    TeamPlanChange { plan: String },
    /// A team-wide preference changed.
    TeamPrefChange { name: String, value: bool },
    /// The team was renamed.
    TeamRename { name: String },
    /// The team's domain changed.
    TeamDomainChange { url: String, domain: String },
    /// The team's email domain changed.
    EmailDomainChanged { email_domain: String, event_ts: String },
    /// A bot was added; carries the full snapshot.
    BotAdded { bot: Bot },
    /// A bot record changed; carries the full snapshot.
    BotChanged { bot: Bot },
    /// The authorized accounts changed.
    AccountsChanged,
    /// The team began migrating between servers.
    TeamMigrationStarted,
    /// A fresh reconnection URL was issued.
    ReconnectUrl,
    /// Confirmation of a message sent.
    MessageSent { reply_to: isize, ts: String, text: String },
    /// An error sending a message.
    MessageError { reply_to: isize, code: isize, message: String },
}

/// The mathematical model of an [`Event`].
pub ghost enum EventV {
    Hello,
    Message(MessageV),
    UserTyping { channel: Seq<char>, user: Seq<char> },
    ChannelMarked { channel: Seq<char>, ts: Seq<char> },
    ChannelCreated { channel: ChannelV },
    ChannelJoined { channel: ChannelV },
    ChannelLeft { channel: Seq<char> },
    ChannelDeleted { channel: Seq<char> },
    ChannelRename { channel: ChannelV },
    ChannelArchive { channel: Seq<char>, user: Seq<char> },
    ChannelUnArchive { channel: Seq<char>, user: Seq<char> },
    ChannelHistoryChanged { latest: Seq<char>, ts: Seq<char>, event_ts: Seq<char> },
    ImCreated { user: Seq<char>, channel: ChannelV },
    ImOpen { user: Seq<char>, channel: Seq<char> },
    ImClose { user: Seq<char>, channel: Seq<char> },
    ImMarked { channel: Seq<char>, ts: Seq<char> },
    ImHistoryChanged { latest: Seq<char>, ts: Seq<char>, event_ts: Seq<char> },
    GroupJoined { channel: ChannelV },
    GroupLeft { channel: ChannelV },
    GroupOpen { user: Seq<char>, channel: Seq<char> },
    GroupClose { user: Seq<char>, channel: Seq<char> },
    GroupArchive { channel: Seq<char> },
    GroupUnArchive { channel: Seq<char> },
    GroupRename { channel: ChannelV },
    GroupMarked { channel: Seq<char>, ts: Seq<char> },
    GroupHistoryChanged { latest: Seq<char>, ts: Seq<char>, event_ts: Seq<char> },
    FileCreated { file: FileV },
    FileShared { file: FileV },
    FileUnShared { file: FileV },
    FilePublic { file: FileV },
    FilePrivate { file: Seq<char> },
    FileChange { file: FileV },
    FileDeleted { file_id: Seq<char>, event_ts: Seq<char> },
    FileCommentAdded { file: FileV, comment: CommentV },
    FileCommentEdited { file: FileV, comment: CommentV },
    FileCommentDeleted { file: FileV, comment: Seq<char> },
    PinAdded { user: Seq<char>, channel_id: Seq<char>, item: ItemV, event_ts: Seq<char> },
    PinRemoved {
        user: Seq<char>,
        channel_id: Seq<char>,
        item: ItemV,
        has_pins: bool,
        event_ts: Seq<char>,
    },
    PresenceChange { user: Seq<char>, presence: Seq<char> },
    ManualPresenceChange { presence: Seq<char> },
    PrefChange { name: Seq<char>, value: Seq<char> },
    UserChange { user: UserV },
    TeamJoin { user: UserV },
    StarAdded { user: Seq<char>, item: ItemV, event_ts: Seq<char> },
    StarRemoved { user: Seq<char>, item: ItemV, event_ts: Seq<char> },
    ReactionAdded {
        user: Seq<char>,
        reaction: Seq<char>,
        item: ItemV,
        item_user: Seq<char>,
        event_ts: Seq<char>,
    },
    ReactionRemoved {
        user: Seq<char>,
        reaction: Seq<char>,
        item: ItemV,
        item_user: Seq<char>,
        event_ts: Seq<char>,
    },
    EmojiChanged { event_ts: Seq<char> },
    CommandsChanged { event_ts: Seq<char> },
    TeamPlanChange { plan: Seq<char> },
    TeamPrefChange { name: Seq<char>, value: bool },
    TeamRename { name: Seq<char> },
    TeamDomainChange { url: Seq<char>, domain: Seq<char> },
    EmailDomainChanged { email_domain: Seq<char>, event_ts: Seq<char> },
    BotAdded { bot: BotV },
    BotChanged { bot: BotV },
    AccountsChanged,
    TeamMigrationStarted,
    ReconnectUrl,
    MessageSent { reply_to: int, ts: Seq<char>, text: Seq<char> },
    MessageError { reply_to: int, code: int, message: Seq<char> },
}

impl View for Event {
    type V = EventV;

    open spec fn view(&self) -> EventV {
        match *self {
            Event::Hello => EventV::Hello,
            Event::Message(ref m) => EventV::Message(m@),
            Event::UserTyping { ref channel, ref user } => EventV::UserTyping {
                channel: channel@,
                user: user@,
            },
            Event::ChannelMarked { ref channel, ref ts } => EventV::ChannelMarked {
                channel: channel@,
                ts: ts@,
            },
            Event::ChannelCreated { ref channel } => EventV::ChannelCreated { channel: channel@ },
            Event::ChannelJoined { ref channel } => EventV::ChannelJoined { channel: channel@ },
            Event::ChannelLeft { ref channel } => EventV::ChannelLeft { channel: channel@ },
            Event::ChannelDeleted { ref channel } => EventV::ChannelDeleted { channel: channel@ },
            Event::ChannelRename { ref channel } => EventV::ChannelRename { channel: channel@ },
            Event::ChannelArchive { ref channel, ref user } => EventV::ChannelArchive {
                channel: channel@,
                user: user@,
            },
            Event::ChannelUnArchive { ref channel, ref user } => EventV::ChannelUnArchive {
                channel: channel@,
                user: user@,
            },
            Event::ChannelHistoryChanged { ref latest, ref ts, ref event_ts } => (
            EventV::ChannelHistoryChanged { latest: latest@, ts: ts@, event_ts: event_ts@ }),
            Event::ImCreated { ref user, ref channel } => EventV::ImCreated {
                user: user@,
                channel: channel@,
            },
            Event::ImOpen { ref user, ref channel } => EventV::ImOpen {
                user: user@,
                channel: channel@,
            },
            Event::ImClose { ref user, ref channel } => EventV::ImClose {
                user: user@,
                channel: channel@,
            },
            Event::ImMarked { ref channel, ref ts } => EventV::ImMarked {
                channel: channel@,
                ts: ts@,
            },
            Event::ImHistoryChanged { ref latest, ref ts, ref event_ts } => (
            EventV::ImHistoryChanged { latest: latest@, ts: ts@, event_ts: event_ts@ }),
            Event::GroupJoined { ref channel } => EventV::GroupJoined { channel: channel@ },
            Event::GroupLeft { ref channel } => EventV::GroupLeft { channel: channel@ },
            Event::GroupOpen { ref user, ref channel } => EventV::GroupOpen {
                user: user@,
                channel: channel@,
            },
            Event::GroupClose { ref user, ref channel } => EventV::GroupClose {
                user: user@,
                channel: channel@,
            },
            Event::GroupArchive { ref channel } => EventV::GroupArchive { channel: channel@ },
            Event::GroupUnArchive { ref channel } => EventV::GroupUnArchive { channel: channel@ },
            Event::GroupRename { ref channel } => EventV::GroupRename { channel: channel@ },
            Event::GroupMarked { ref channel, ref ts } => EventV::GroupMarked {
                channel: channel@,
                ts: ts@,
            },
            Event::GroupHistoryChanged { ref latest, ref ts, ref event_ts } => (
            EventV::GroupHistoryChanged { latest: latest@, ts: ts@, event_ts: event_ts@ }),
            Event::FileCreated { ref file } => EventV::FileCreated { file: file@ },
            Event::FileShared { ref file } => EventV::FileShared { file: file@ },
            Event::FileUnShared { ref file } => EventV::FileUnShared { file: file@ },
            Event::FilePublic { ref file } => EventV::FilePublic { file: file@ },
            Event::FilePrivate { ref file } => EventV::FilePrivate { file: file@ },
            Event::FileChange { ref file } => EventV::FileChange { file: file@ },
            Event::FileDeleted { ref file_id, ref event_ts } => EventV::FileDeleted {
                file_id: file_id@,
                event_ts: event_ts@,
            },
            Event::FileCommentAdded { ref file, ref comment } => EventV::FileCommentAdded {
                file: file@,
                comment: comment@,
            },
            Event::FileCommentEdited { ref file, ref comment } => EventV::FileCommentEdited {
                file: file@,
                comment: comment@,
            },
            Event::FileCommentDeleted { ref file, ref comment } => EventV::FileCommentDeleted {
                file: file@,
                comment: comment@,
            },
            Event::PinAdded { ref user, ref channel_id, ref item, ref event_ts } => (
            EventV::PinAdded {
                user: user@,
                channel_id: channel_id@,
                item: item@,
                event_ts: event_ts@,
            }),
            Event::PinRemoved { ref user, ref channel_id, ref item, ref has_pins, ref event_ts }
                => (EventV::PinRemoved {
                user: user@,
                channel_id: channel_id@,
                item: item@,
                has_pins: *has_pins,
                event_ts: event_ts@,
            }),
            Event::PresenceChange { ref user, ref presence } => EventV::PresenceChange {
                user: user@,
                presence: presence@,
            },
            Event::ManualPresenceChange { ref presence } => EventV::ManualPresenceChange {
                presence: presence@,
            },
            Event::PrefChange { ref name, ref value } => EventV::PrefChange {
                name: name@,
                value: value@,
            },
            Event::UserChange { ref user } => EventV::UserChange { user: user@ },
            Event::TeamJoin { ref user } => EventV::TeamJoin { user: user@ },
            Event::StarAdded { ref user, ref item, ref event_ts } => EventV::StarAdded {
                user: user@,
                item: item@,
                event_ts: event_ts@,
            },
            Event::StarRemoved { ref user, ref item, ref event_ts } => EventV::StarRemoved {
                user: user@,
                item: item@,
                event_ts: event_ts@,
            },
            Event::ReactionAdded { ref user, ref reaction, ref item, ref item_user, ref event_ts }
                => (EventV::ReactionAdded {
                user: user@,
                reaction: reaction@,
                item: item@,
                item_user: item_user@,
                event_ts: event_ts@,
            }),
            Event::ReactionRemoved {
                ref user,
                ref reaction,
                ref item,
                ref item_user,
                ref event_ts,
            } => (EventV::ReactionRemoved {
                user: user@,
                reaction: reaction@,
                item: item@,
                item_user: item_user@,
                event_ts: event_ts@,
            }),
            Event::EmojiChanged { ref event_ts } => EventV::EmojiChanged { event_ts: event_ts@ },
            Event::CommandsChanged { ref event_ts } => EventV::CommandsChanged {
                event_ts: event_ts@,
            },
            Event::TeamPlanChange { ref plan } => EventV::TeamPlanChange { plan: plan@ },
            Event::TeamPrefChange { ref name, ref value } => EventV::TeamPrefChange {
                name: name@,
                value: *value,
            },
            Event::TeamRename { ref name } => EventV::TeamRename { name: name@ },
            Event::TeamDomainChange { ref url, ref domain } => EventV::TeamDomainChange {
                url: url@,
                domain: domain@,
            },
            Event::EmailDomainChanged { ref email_domain, ref event_ts } => (
            EventV::EmailDomainChanged { email_domain: email_domain@, event_ts: event_ts@ }),
            Event::BotAdded { ref bot } => EventV::BotAdded { bot: bot@ },
            Event::BotChanged { ref bot } => EventV::BotChanged { bot: bot@ },
            Event::AccountsChanged => EventV::AccountsChanged,
            Event::TeamMigrationStarted => EventV::TeamMigrationStarted,
            Event::ReconnectUrl => EventV::ReconnectUrl,
            Event::MessageSent { ref reply_to, ref ts, ref text } => EventV::MessageSent {
                reply_to: *reply_to as int,
                ts: ts@,
                text: text@,
            },
            Event::MessageError { ref reply_to, ref code, ref message } => EventV::MessageError {
                reply_to: *reply_to as int,
                code: *code as int,
                message: message@,
            },
        }
    }
}

/// How a decode result must relate to the outcome the frame determines.
pub open spec fn outcome_matches(o: Outcome<EventV>, r: Result<Event, Error>) -> bool {
    match o {
        Outcome::Good(ev) => r matches Ok(v) && v@ == ev,
        Outcome::Bad(f) => r matches Err(e) && fail_matches(f, e),
    }
}

/// Two required string fields.
pub open spec fn two_strs(j: Json, k1: Seq<char>, k2: Seq<char>) -> Outcome<
    (Seq<char>, Seq<char>),
> {
    match str_req(j, k1) {
        Outcome::Bad(f) => Outcome::Bad(f),
        Outcome::Good(a) => match str_req(j, k2) {
            Outcome::Bad(f) => Outcome::Bad(f),
            Outcome::Good(b) => Outcome::Good((a, b)),
        },
    }
}

/// Three required string fields.
pub open spec fn three_strs(j: Json, k1: Seq<char>, k2: Seq<char>, k3: Seq<char>) -> Outcome<
    (Seq<char>, Seq<char>, Seq<char>),
> {
    match two_strs(j, k1, k2) {
        Outcome::Bad(f) => Outcome::Bad(f),
        Outcome::Good(p) => match str_req(j, k3) {
            Outcome::Bad(f) => Outcome::Bad(f),
            Outcome::Good(c) => Outcome::Good((p.0, p.1, c)),
        },
    }
}

/// Reads two required string fields.
fn read_two(j: &Json, k1: &str, k2: &str) -> (r: Result<(String, String), Error>)
    ensures
        match two_strs(*j, k1@, k2@) {
            Outcome::Good(p) => r matches Ok(v) && v.0@ == p.0 && v.1@ == p.1,
            Outcome::Bad(f) => r matches Err(e) && fail_matches(f, e),
        },
{
    let a = match crate::json::read_str(j, k1) {
        Ok(v) => v,
        Err(e) => return Err(e),
    };
    let b = match crate::json::read_str(j, k2) {
        Ok(v) => v,
        Err(e) => return Err(e),
    };
    Ok((a, b))
}

/// Reads three required string fields.
fn read_three(j: &Json, k1: &str, k2: &str, k3: &str) -> (r: Result<
    (String, String, String),
    Error,
>)
    ensures
        match three_strs(*j, k1@, k2@, k3@) {
            Outcome::Good(p) => r matches Ok(v) && v.0@ == p.0 && v.1@ == p.1 && v.2@ == p.2,
            Outcome::Bad(f) => r matches Err(e) && fail_matches(f, e),
        },
{
    let p = match read_two(j, k1, k2) {
        Ok(v) => v,
        Err(e) => return Err(e),
    };
    let c = match crate::json::read_str(j, k3) {
        Ok(v) => v,
        Err(e) => return Err(e),
    };
    Ok((p.0, p.1, c))
}

/// A required field decoded as a channel snapshot.
pub open spec fn channel_at(j: Json, key: Seq<char>) -> Outcome<ChannelV> {
    match spec_get(j, key) {
        None => Outcome::Bad(Fail::Missing(key)),
        Some(v) => channel_of(v),
    }
}

/// Reads a required field as a channel snapshot.
fn read_channel_at(j: &Json, key: &str) -> (r: Result<Channel, Error>)
    ensures
        match channel_at(*j, key@) {
            Outcome::Good(c) => r matches Ok(v) && v@ == c,
            Outcome::Bad(f) => r matches Err(e) && fail_matches(f, e),
        },
{
    match crate::json::get_field(j, key) {
        None => Err(missing_field(key)),
        Some(v) => Channel::decode(v),
    }
}

/// A required field decoded as a user snapshot.
pub open spec fn user_at(j: Json, key: Seq<char>) -> Outcome<UserV> {
    match spec_get(j, key) {
        None => Outcome::Bad(Fail::Missing(key)),
        Some(v) => user_of(v),
    }
}

/// Reads a required field as a user snapshot.
fn read_user_at(j: &Json, key: &str) -> (r: Result<User, Error>)
    ensures
        match user_at(*j, key@) {
            Outcome::Good(c) => r matches Ok(v) && v@ == c,
            Outcome::Bad(f) => r matches Err(e) && fail_matches(f, e),
        },
{
    match crate::json::get_field(j, key) {
        None => Err(missing_field(key)),
        Some(v) => User::decode(v),
    }
}

/// A required field decoded as a file snapshot.
pub open spec fn file_at(j: Json, key: Seq<char>) -> Outcome<FileV> {
    match spec_get(j, key) {
        None => Outcome::Bad(Fail::Missing(key)),
        Some(v) => file_of(v),
    }
}

/// Reads a required field as a file snapshot.
fn read_file_at(j: &Json, key: &str) -> (r: Result<File, Error>)
    ensures
        match file_at(*j, key@) {
            Outcome::Good(c) => r matches Ok(v) && v@ == c,
            Outcome::Bad(f) => r matches Err(e) && fail_matches(f, e),
        },
{
    match crate::json::get_field(j, key) {
        None => Err(missing_field(key)),
        Some(v) => File::decode(v),
    }
}

/// A required field decoded as a comment snapshot.
pub open spec fn comment_at(j: Json, key: Seq<char>) -> Outcome<CommentV> {
    match spec_get(j, key) {
        None => Outcome::Bad(Fail::Missing(key)),
        Some(v) => comment_of(v),
    }
}

/// Reads a required field as a comment snapshot.
fn read_comment_at(j: &Json, key: &str) -> (r: Result<Comment, Error>)
    ensures
        match comment_at(*j, key@) {
            Outcome::Good(c) => r matches Ok(v) && v@ == c,
            Outcome::Bad(f) => r matches Err(e) && fail_matches(f, e),
        },
{
    match crate::json::get_field(j, key) {
        None => Err(missing_field(key)),
        Some(v) => Comment::decode(v),
    }
}

/// A required field decoded as a bot snapshot.
pub open spec fn bot_at(j: Json, key: Seq<char>) -> Outcome<BotV> {
    match spec_get(j, key) {
        None => Outcome::Bad(Fail::Missing(key)),
        Some(v) => bot_of(v),
    }
}

/// Reads a required field as a bot snapshot.
fn read_bot_at(j: &Json, key: &str) -> (r: Result<Bot, Error>)
    ensures
        match bot_at(*j, key@) {
            Outcome::Good(c) => r matches Ok(v) && v@ == c,
            Outcome::Bad(f) => r matches Err(e) && fail_matches(f, e),
        },
{
    match crate::json::get_field(j, key) {
        None => Err(missing_field(key)),
        Some(v) => Bot::decode(v),
    }
}

/// A required field decoded as an item reference.
pub open spec fn item_at(j: Json, key: Seq<char>) -> Outcome<ItemV> {
    match spec_get(j, key) {
        None => Outcome::Bad(Fail::Missing(key)),
        Some(v) => item_of(v),
    }
}

/// Reads a required field as an item reference.
fn read_item_at(j: &Json, key: &str) -> (r: Result<Item, Error>)
    ensures
        match item_at(*j, key@) {
            Outcome::Good(c) => r matches Ok(v) && v@ == c,
            Outcome::Bad(f) => r matches Err(e) && fail_matches(f, e),
        },
{
    match crate::json::get_field(j, key) {
        None => Err(missing_field(key)),
        Some(v) => Item::decode(v),
    }
}

/// The greeting and the message kinds.
pub open spec fn typed_basic_of(ty: Seq<char>, j: Json) -> Option<Outcome<EventV>> {
    if ty == "hello"@ {
        Some(Outcome::Good(EventV::Hello))
    } else if ty == "message"@ {
        Some(
            match message_of(j) {
                Outcome::Bad(f) => Outcome::Bad(f),
                Outcome::Good(m) => Outcome::Good(EventV::Message(m)),
            },
        )
    } else {
        None
    }
}

fn decode_basic_kind(ty: &str, j: &Json) -> (r: Option<Result<Event, Error>>)
    ensures
        match typed_basic_of(ty@, *j) {
            Some(o) => r matches Some(res) && outcome_matches(o, res),
            None => r is None,
        },
{
    if str_eq(ty, "hello") {
        Some(Ok(Event::Hello))
    } else if str_eq(ty, "message") {
        Some(
            match Message::decode(j) {
                Ok(m) => Ok(Event::Message(m)),
                Err(e) => Err(e),
            },
        )
    } else {
        None
    }
}

/// The channel lifecycle kinds.
pub open spec fn typed_channel_of(ty: Seq<char>, j: Json) -> Option<Outcome<EventV>> {
    if ty == "user_typing"@ {
        Some(
            match two_strs(j, "channel"@, "user"@) {
                Outcome::Bad(f) => Outcome::Bad(f),
                Outcome::Good(p) => Outcome::Good(EventV::UserTyping { channel: p.0, user: p.1 }),
            },
        )
    } else if ty == "channel_marked"@ {
        Some(
            match two_strs(j, "channel"@, "ts"@) {
                Outcome::Bad(f) => Outcome::Bad(f),
                Outcome::Good(p) => Outcome::Good(EventV::ChannelMarked { channel: p.0, ts: p.1 }),
            },
        )
    } else if ty == "channel_created"@ {
        Some(
            match channel_at(j, "channel"@) {
                Outcome::Bad(f) => Outcome::Bad(f),
                Outcome::Good(c) => Outcome::Good(EventV::ChannelCreated { channel: c }),
            },
        )
    } else if ty == "channel_joined"@ {
        Some(
            match channel_at(j, "channel"@) {
                Outcome::Bad(f) => Outcome::Bad(f),
                Outcome::Good(c) => Outcome::Good(EventV::ChannelJoined { channel: c }),
            },
        )
    } else if ty == "channel_left"@ {
        Some(
            match str_req(j, "channel"@) {
                Outcome::Bad(f) => Outcome::Bad(f),
                Outcome::Good(c) => Outcome::Good(EventV::ChannelLeft { channel: c }),
            },
        )
    } else if ty == "channel_deleted"@ {
        Some(
            match str_req(j, "channel"@) {
                Outcome::Bad(f) => Outcome::Bad(f),
                Outcome::Good(c) => Outcome::Good(EventV::ChannelDeleted { channel: c }),
            },
        )
    } else if ty == "channel_rename"@ {
        Some(
            match channel_at(j, "channel"@) {
                Outcome::Bad(f) => Outcome::Bad(f),
                Outcome::Good(c) => Outcome::Good(EventV::ChannelRename { channel: c }),
            },
        )
    } else if ty == "channel_archive"@ {
        Some(
            match two_strs(j, "channel"@, "user"@) {
                Outcome::Bad(f) => Outcome::Bad(f),
                Outcome::Good(p) => Outcome::Good(
                    EventV::ChannelArchive { channel: p.0, user: p.1 },
                ),
            },
        )
    } else if ty == "channel_unarchive"@ {
        Some(
            match two_strs(j, "channel"@, "user"@) {
                Outcome::Bad(f) => Outcome::Bad(f),
                Outcome::Good(p) => Outcome::Good(
                    EventV::ChannelUnArchive { channel: p.0, user: p.1 },
                ),
            },
        )
    } else if ty == "channel_history_changed"@ {
        Some(
            match three_strs(j, "latest"@, "ts"@, "event_ts"@) {
                Outcome::Bad(f) => Outcome::Bad(f),
                Outcome::Good(p) => Outcome::Good(
                    EventV::ChannelHistoryChanged { latest: p.0, ts: p.1, event_ts: p.2 },
                ),
            },
        )
    } else {
        None
    }
}

fn decode_channel_kind(ty: &str, j: &Json) -> (r: Option<Result<Event, Error>>)
    ensures
        match typed_channel_of(ty@, *j) {
            Some(o) => r matches Some(res) && outcome_matches(o, res),
            None => r is None,
        },
{
    if str_eq(ty, "user_typing") {
        Some(
            match read_two(j, "channel", "user") {
                Ok(p) => Ok(Event::UserTyping { channel: p.0, user: p.1 }),
                Err(e) => Err(e),
            },
        )
    } else if str_eq(ty, "channel_marked") {
        Some(
            match read_two(j, "channel", "ts") {
                Ok(p) => Ok(Event::ChannelMarked { channel: p.0, ts: p.1 }),
                Err(e) => Err(e),
            },
        )
    } else if str_eq(ty, "channel_created") {
        Some(
            match read_channel_at(j, "channel") {
                Ok(c) => Ok(Event::ChannelCreated { channel: c }),
                Err(e) => Err(e),
            },
        )
    } else if str_eq(ty, "channel_joined") {
        Some(
            match read_channel_at(j, "channel") {
                Ok(c) => Ok(Event::ChannelJoined { channel: c }),
                Err(e) => Err(e),
            },
        )
    } else if str_eq(ty, "channel_left") {
        Some(
            match crate::json::read_str(j, "channel") {
                Ok(c) => Ok(Event::ChannelLeft { channel: c }),
                Err(e) => Err(e),
            },
        )
    } else if str_eq(ty, "channel_deleted") {
        Some(
            match crate::json::read_str(j, "channel") {
                Ok(c) => Ok(Event::ChannelDeleted { channel: c }),
                Err(e) => Err(e),
            },
        )
    } else if str_eq(ty, "channel_rename") {
        Some(
            match read_channel_at(j, "channel") {
                Ok(c) => Ok(Event::ChannelRename { channel: c }),
                Err(e) => Err(e),
            },
        )
    } else if str_eq(ty, "channel_archive") {
        Some(
            match read_two(j, "channel", "user") {
                Ok(p) => Ok(Event::ChannelArchive { channel: p.0, user: p.1 }),
                Err(e) => Err(e),
            },
        )
    } else if str_eq(ty, "channel_unarchive") {
        Some(
            match read_two(j, "channel", "user") {
                Ok(p) => Ok(Event::ChannelUnArchive { channel: p.0, user: p.1 }),
                Err(e) => Err(e),
            },
        )
    } else if str_eq(ty, "channel_history_changed") {
        Some(
            match read_three(j, "latest", "ts", "event_ts") {
                Ok(p) => Ok(Event::ChannelHistoryChanged { latest: p.0, ts: p.1, event_ts: p.2 }),
                Err(e) => Err(e),
            },
        )
    } else {
        None
    }
}

/// The direct-message and private-group kinds.
pub open spec fn typed_im_group_of(ty: Seq<char>, j: Json) -> Option<Outcome<EventV>> {
    if ty == "im_created"@ {
        Some(
            match str_req(j, "user"@) {
                Outcome::Bad(f) => Outcome::Bad(f),
                Outcome::Good(user) => match channel_at(j, "channel"@) {
                    Outcome::Bad(f) => Outcome::Bad(f),
                    Outcome::Good(channel) => Outcome::Good(EventV::ImCreated { user, channel }),
                },
            },
        )
    } else if ty == "im_open"@ {
        Some(
            match two_strs(j, "user"@, "channel"@) {
                Outcome::Bad(f) => Outcome::Bad(f),
                Outcome::Good(p) => Outcome::Good(EventV::ImOpen { user: p.0, channel: p.1 }),
            },
        )
    } else if ty == "im_close"@ {
        Some(
            match two_strs(j, "user"@, "channel"@) {
                Outcome::Bad(f) => Outcome::Bad(f),
                Outcome::Good(p) => Outcome::Good(EventV::ImClose { user: p.0, channel: p.1 }),
            },
        )
    } else if ty == "im_marked"@ {
        Some(
            match two_strs(j, "channel"@, "ts"@) {
                Outcome::Bad(f) => Outcome::Bad(f),
                Outcome::Good(p) => Outcome::Good(EventV::ImMarked { channel: p.0, ts: p.1 }),
            },
        )
    } else if ty == "im_history_changed"@ {
        Some(
            match three_strs(j, "latest"@, "ts"@, "event_ts"@) {
                Outcome::Bad(f) => Outcome::Bad(f),
                Outcome::Good(p) => Outcome::Good(
                    EventV::ImHistoryChanged { latest: p.0, ts: p.1, event_ts: p.2 },
                ),
            },
        )
    } else if ty == "group_joined"@ {
        Some(
            match channel_at(j, "channel"@) {
                Outcome::Bad(f) => Outcome::Bad(f),
                Outcome::Good(c) => Outcome::Good(EventV::GroupJoined { channel: c }),
            },
        )
    } else if ty == "group_left"@ {
        Some(
            match channel_at(j, "channel"@) {
                Outcome::Bad(f) => Outcome::Bad(f),
                Outcome::Good(c) => Outcome::Good(EventV::GroupLeft { channel: c }),
            },
        )
    } else if ty == "group_open"@ {
        Some(
            match two_strs(j, "user"@, "channel"@) {
                Outcome::Bad(f) => Outcome::Bad(f),
                Outcome::Good(p) => Outcome::Good(EventV::GroupOpen { user: p.0, channel: p.1 }),
            },
        )
    } else if ty == "group_close"@ {
        Some(
            match two_strs(j, "user"@, "channel"@) {
                Outcome::Bad(f) => Outcome::Bad(f),
                Outcome::Good(p) => Outcome::Good(EventV::GroupClose { user: p.0, channel: p.1 }),
            },
        )
    } else if ty == "group_archive"@ {
        Some(
            match str_req(j, "channel"@) {
                Outcome::Bad(f) => Outcome::Bad(f),
                Outcome::Good(c) => Outcome::Good(EventV::GroupArchive { channel: c }),
            },
        )
    } else if ty == "group_unarchive"@ {
        Some(
            match str_req(j, "channel"@) {
                Outcome::Bad(f) => Outcome::Bad(f),
                Outcome::Good(c) => Outcome::Good(EventV::GroupUnArchive { channel: c }),
            },
        )
    } else if ty == "group_rename"@ {
        Some(
            match channel_at(j, "channel"@) {
                Outcome::Bad(f) => Outcome::Bad(f),
                Outcome::Good(c) => Outcome::Good(EventV::GroupRename { channel: c }),
            },
        )
    } else if ty == "group_marked"@ {
        Some(
            match two_strs(j, "channel"@, "ts"@) {
                Outcome::Bad(f) => Outcome::Bad(f),
                Outcome::Good(p) => Outcome::Good(EventV::GroupMarked { channel: p.0, ts: p.1 }),
            },
        )
    } else if ty == "group_history_changed"@ {
        Some(
            match three_strs(j, "latest"@, "ts"@, "event_ts"@) {
                Outcome::Bad(f) => Outcome::Bad(f),
                Outcome::Good(p) => Outcome::Good(
                    EventV::GroupHistoryChanged { latest: p.0, ts: p.1, event_ts: p.2 },
                ),
            },
        )
    } else {
        None
    }
}

fn decode_im_group_kind(ty: &str, j: &Json) -> (r: Option<Result<Event, Error>>)
    ensures
        match typed_im_group_of(ty@, *j) {
            Some(o) => r matches Some(res) && outcome_matches(o, res),
            None => r is None,
        },
{
    if str_eq(ty, "im_created") {
        Some(
            {
                match crate::json::read_str(j, "user") {
                    Ok(user) => match read_channel_at(j, "channel") {
                        Ok(channel) => Ok(Event::ImCreated { user, channel }),
                        Err(e) => Err(e),
                    },
                    Err(e) => Err(e),
                }
            },
        )
    } else if str_eq(ty, "im_open") {
        Some(
            match read_two(j, "user", "channel") {
                Ok(p) => Ok(Event::ImOpen { user: p.0, channel: p.1 }),
                Err(e) => Err(e),
            },
        )
    } else if str_eq(ty, "im_close") {
        Some(
            match read_two(j, "user", "channel") {
                Ok(p) => Ok(Event::ImClose { user: p.0, channel: p.1 }),
                Err(e) => Err(e),
            },
        )
    } else if str_eq(ty, "im_marked") {
        Some(
            match read_two(j, "channel", "ts") {
                Ok(p) => Ok(Event::ImMarked { channel: p.0, ts: p.1 }),
                Err(e) => Err(e),
            },
        )
    } else if str_eq(ty, "im_history_changed") {
        Some(
            match read_three(j, "latest", "ts", "event_ts") {
                Ok(p) => Ok(Event::ImHistoryChanged { latest: p.0, ts: p.1, event_ts: p.2 }),
                Err(e) => Err(e),
            },
        )
    } else if str_eq(ty, "group_joined") {
        Some(
            match read_channel_at(j, "channel") {
                Ok(c) => Ok(Event::GroupJoined { channel: c }),
                Err(e) => Err(e),
            },
        )
    } else if str_eq(ty, "group_left") {
        Some(
            match read_channel_at(j, "channel") {
                Ok(c) => Ok(Event::GroupLeft { channel: c }),
                Err(e) => Err(e),
            },
        )
    } else if str_eq(ty, "group_open") {
        Some(
            match read_two(j, "user", "channel") {
                Ok(p) => Ok(Event::GroupOpen { user: p.0, channel: p.1 }),
                Err(e) => Err(e),
            },
        )
    } else if str_eq(ty, "group_close") {
        Some(
            match read_two(j, "user", "channel") {
                Ok(p) => Ok(Event::GroupClose { user: p.0, channel: p.1 }),
                Err(e) => Err(e),
            },
        )
    } else if str_eq(ty, "group_archive") {
        Some(
            match crate::json::read_str(j, "channel") {
                Ok(c) => Ok(Event::GroupArchive { channel: c }),
                Err(e) => Err(e),
            },
        )
    } else if str_eq(ty, "group_unarchive") {
        Some(
            match crate::json::read_str(j, "channel") {
                Ok(c) => Ok(Event::GroupUnArchive { channel: c }),
                Err(e) => Err(e),
            },
        )
    } else if str_eq(ty, "group_rename") {
        Some(
            match read_channel_at(j, "channel") {
                Ok(c) => Ok(Event::GroupRename { channel: c }),
                Err(e) => Err(e),
            },
        )
    } else if str_eq(ty, "group_marked") {
        Some(
            match read_two(j, "channel", "ts") {
                Ok(p) => Ok(Event::GroupMarked { channel: p.0, ts: p.1 }),
                Err(e) => Err(e),
            },
        )
    } else if str_eq(ty, "group_history_changed") {
        Some(
            match read_three(j, "latest", "ts", "event_ts") {
                Ok(p) => Ok(Event::GroupHistoryChanged { latest: p.0, ts: p.1, event_ts: p.2 }),
                Err(e) => Err(e),
            },
        )
    } else {
        None
    }
}

/// The file lifecycle and file-comment kinds.
pub open spec fn typed_file_of(ty: Seq<char>, j: Json) -> Option<Outcome<EventV>> {
    if ty == "file_created"@ {
        Some(
            match file_at(j, "file"@) {
                Outcome::Bad(f) => Outcome::Bad(f),
                Outcome::Good(c) => Outcome::Good(EventV::FileCreated { file: c }),
            },
        )
    } else if ty == "file_shared"@ {
        Some(
            match file_at(j, "file"@) {
                Outcome::Bad(f) => Outcome::Bad(f),
                Outcome::Good(c) => Outcome::Good(EventV::FileShared { file: c }),
            },
        )
    } else if ty == "file_unshared"@ {
        Some(
            match file_at(j, "file"@) {
                Outcome::Bad(f) => Outcome::Bad(f),
                Outcome::Good(c) => Outcome::Good(EventV::FileUnShared { file: c }),
            },
        )
    } else if ty == "file_public"@ {
        Some(
            match file_at(j, "file"@) {
                Outcome::Bad(f) => Outcome::Bad(f),
                Outcome::Good(c) => Outcome::Good(EventV::FilePublic { file: c }),
            },
        )
    } else if ty == "file_private"@ {
        Some(
            match str_req(j, "file"@) {
                Outcome::Bad(f) => Outcome::Bad(f),
                Outcome::Good(c) => Outcome::Good(EventV::FilePrivate { file: c }),
            },
        )
    } else if ty == "file_change"@ {
        Some(
            match file_at(j, "file"@) {
                Outcome::Bad(f) => Outcome::Bad(f),
                Outcome::Good(c) => Outcome::Good(EventV::FileChange { file: c }),
            },
        )
    } else if ty == "file_deleted"@ {
        Some(
            match two_strs(j, "file_id"@, "event_ts"@) {
                Outcome::Bad(f) => Outcome::Bad(f),
                Outcome::Good(p) => Outcome::Good(
                    EventV::FileDeleted { file_id: p.0, event_ts: p.1 },
                ),
            },
        )
    } else if ty == "file_comment_added"@ {
        Some(
            match file_at(j, "file"@) {
                Outcome::Bad(f) => Outcome::Bad(f),
                Outcome::Good(file) => match comment_at(j, "comment"@) {
                    Outcome::Bad(f) => Outcome::Bad(f),
                    Outcome::Good(comment) => Outcome::Good(
                        EventV::FileCommentAdded { file, comment },
                    ),
                },
            },
        )
    } else if ty == "file_comment_edited"@ {
        Some(
            match file_at(j, "file"@) {
                Outcome::Bad(f) => Outcome::Bad(f),
                Outcome::Good(file) => match comment_at(j, "comment"@) {
                    Outcome::Bad(f) => Outcome::Bad(f),
                    Outcome::Good(comment) => Outcome::Good(
                        EventV::FileCommentEdited { file, comment },
                    ),
                },
            },
        )
    } else if ty == "file_comment_deleted"@ {
        Some(
            match file_at(j, "file"@) {
                Outcome::Bad(f) => Outcome::Bad(f),
                Outcome::Good(file) => match str_req(j, "comment"@) {
                    Outcome::Bad(f) => Outcome::Bad(f),
                    Outcome::Good(comment) => Outcome::Good(
                        EventV::FileCommentDeleted { file, comment },
                    ),
                },
            },
        )
    } else {
        None
    }
}

fn decode_file_kind(ty: &str, j: &Json) -> (r: Option<Result<Event, Error>>)
    ensures
        match typed_file_of(ty@, *j) {
            Some(o) => r matches Some(res) && outcome_matches(o, res),
            None => r is None,
        },
{
    if str_eq(ty, "file_created") {
        Some(
            match read_file_at(j, "file") {
                Ok(c) => Ok(Event::FileCreated { file: c }),
                Err(e) => Err(e),
            },
        )
    } else if str_eq(ty, "file_shared") {
        Some(
            match read_file_at(j, "file") {
                Ok(c) => Ok(Event::FileShared { file: c }),
                Err(e) => Err(e),
            },
        )
    } else if str_eq(ty, "file_unshared") {
        Some(
            match read_file_at(j, "file") {
                Ok(c) => Ok(Event::FileUnShared { file: c }),
                Err(e) => Err(e),
            },
        )
    } else if str_eq(ty, "file_public") {
        Some(
            match read_file_at(j, "file") {
                Ok(c) => Ok(Event::FilePublic { file: c }),
                Err(e) => Err(e),
            },
        )
    } else if str_eq(ty, "file_private") {
        Some(
            match crate::json::read_str(j, "file") {
                Ok(c) => Ok(Event::FilePrivate { file: c }),
                Err(e) => Err(e),
            },
        )
    } else if str_eq(ty, "file_change") {
        Some(
            match read_file_at(j, "file") {
                Ok(c) => Ok(Event::FileChange { file: c }),
                Err(e) => Err(e),
            },
        )
    } else if str_eq(ty, "file_deleted") {
        Some(
            match read_two(j, "file_id", "event_ts") {
                Ok(p) => Ok(Event::FileDeleted { file_id: p.0, event_ts: p.1 }),
                Err(e) => Err(e),
            },
        )
    } else if str_eq(ty, "file_comment_added") {
        Some(
            match read_file_at(j, "file") {
                Ok(file) => match read_comment_at(j, "comment") {
                    Ok(comment) => Ok(Event::FileCommentAdded { file, comment }),
                    Err(e) => Err(e),
                },
                Err(e) => Err(e),
            },
        )
    } else if str_eq(ty, "file_comment_edited") {
        Some(
            match read_file_at(j, "file") {
                Ok(file) => match read_comment_at(j, "comment") {
                    Ok(comment) => Ok(Event::FileCommentEdited { file, comment }),
                    Err(e) => Err(e),
                },
                Err(e) => Err(e),
            },
        )
    } else if str_eq(ty, "file_comment_deleted") {
        Some(
            match read_file_at(j, "file") {
                Ok(file) => match crate::json::read_str(j, "comment") {
                    Ok(comment) => Ok(Event::FileCommentDeleted { file, comment }),
                    Err(e) => Err(e),
                },
                Err(e) => Err(e),
            },
        )
    } else {
        None
    }
}

/// The pin, star and reaction kinds, which annotate a polymorphic item.
pub open spec fn typed_annotation_of(ty: Seq<char>, j: Json) -> Option<Outcome<EventV>> {
    if ty == "pin_added"@ {
        Some(
            match two_strs(j, "user"@, "channel_id"@) {
                Outcome::Bad(f) => Outcome::Bad(f),
                Outcome::Good(p) => match item_at(j, "item"@) {
                    Outcome::Bad(f) => Outcome::Bad(f),
                    Outcome::Good(item) => match str_req(j, "event_ts"@) {
                        Outcome::Bad(f) => Outcome::Bad(f),
                        Outcome::Good(event_ts) => Outcome::Good(
                            EventV::PinAdded { user: p.0, channel_id: p.1, item, event_ts },
                        ),
                    },
                },
            },
        )
    } else if ty == "pin_removed"@ {
        Some(
            match two_strs(j, "user"@, "channel_id"@) {
                Outcome::Bad(f) => Outcome::Bad(f),
                Outcome::Good(p) => match item_at(j, "item"@) {
                    Outcome::Bad(f) => Outcome::Bad(f),
                    Outcome::Good(item) => match bool_req(j, "has_pins"@) {
                        Outcome::Bad(f) => Outcome::Bad(f),
                        Outcome::Good(has_pins) => match str_req(j, "event_ts"@) {
                            Outcome::Bad(f) => Outcome::Bad(f),
                            Outcome::Good(event_ts) => Outcome::Good(
                                EventV::PinRemoved {
                                    user: p.0,
                                    channel_id: p.1,
                                    item,
                                    has_pins,
                                    event_ts,
                                },
                            ),
                        },
                    },
                },
            },
        )
    } else if ty == "star_added"@ {
        Some(
            match str_req(j, "user"@) {
                Outcome::Bad(f) => Outcome::Bad(f),
                Outcome::Good(user) => match item_at(j, "item"@) {
                    Outcome::Bad(f) => Outcome::Bad(f),
                    Outcome::Good(item) => match str_req(j, "event_ts"@) {
                        Outcome::Bad(f) => Outcome::Bad(f),
                        Outcome::Good(event_ts) => Outcome::Good(
                            EventV::StarAdded { user, item, event_ts },
                        ),
                    },
                },
            },
        )
    } else if ty == "star_removed"@ {
        Some(
            match str_req(j, "user"@) {
                Outcome::Bad(f) => Outcome::Bad(f),
                Outcome::Good(user) => match item_at(j, "item"@) {
                    Outcome::Bad(f) => Outcome::Bad(f),
                    Outcome::Good(item) => match str_req(j, "event_ts"@) {
                        Outcome::Bad(f) => Outcome::Bad(f),
                        Outcome::Good(event_ts) => Outcome::Good(
                            EventV::StarRemoved { user, item, event_ts },
                        ),
                    },
                },
            },
        )
    } else if ty == "reaction_added"@ {
        Some(
            match two_strs(j, "user"@, "name"@) {
                Outcome::Bad(f) => Outcome::Bad(f),
                Outcome::Good(p) => match item_at(j, "item"@) {
                    Outcome::Bad(f) => Outcome::Bad(f),
                    Outcome::Good(item) => match two_strs(j, "item_user"@, "event_ts"@) {
                        Outcome::Bad(f) => Outcome::Bad(f),
                        Outcome::Good(q) => Outcome::Good(
                            EventV::ReactionAdded {
                                user: p.0,
                                reaction: p.1,
                                item,
                                item_user: q.0,
                                event_ts: q.1,
                            },
                        ),
                    },
                },
            },
        )
    } else if ty == "reaction_removed"@ {
        Some(
            match two_strs(j, "user"@, "name"@) {
                Outcome::Bad(f) => Outcome::Bad(f),
                Outcome::Good(p) => match item_at(j, "item"@) {
                    Outcome::Bad(f) => Outcome::Bad(f),
                    Outcome::Good(item) => match two_strs(j, "item_user"@, "event_ts"@) {
                        Outcome::Bad(f) => Outcome::Bad(f),
                        Outcome::Good(q) => Outcome::Good(
                            EventV::ReactionRemoved {
                                user: p.0,
                                reaction: p.1,
                                item,
                                item_user: q.0,
                                event_ts: q.1,
                            },
                        ),
                    },
                },
            },
        )
    } else {
        None
    }
}

fn decode_annotation_kind(ty: &str, j: &Json) -> (r: Option<Result<Event, Error>>)
    ensures
        match typed_annotation_of(ty@, *j) {
            Some(o) => r matches Some(res) && outcome_matches(o, res),
            None => r is None,
        },
{
    if str_eq(ty, "pin_added") {
        Some(
            match read_two(j, "user", "channel_id") {
                Ok(p) => match read_item_at(j, "item") {
                    Ok(item) => match crate::json::read_str(j, "event_ts") {
                        Ok(event_ts) => Ok(
                            Event::PinAdded { user: p.0, channel_id: p.1, item, event_ts },
                        ),
                        Err(e) => Err(e),
                    },
                    Err(e) => Err(e),
                },
                Err(e) => Err(e),
            },
        )
    } else if str_eq(ty, "pin_removed") {
        Some(
            match read_two(j, "user", "channel_id") {
                Ok(p) => match read_item_at(j, "item") {
                    Ok(item) => match crate::json::read_bool(j, "has_pins") {
                        Ok(has_pins) => match crate::json::read_str(j, "event_ts") {
                            Ok(event_ts) => Ok(
                                Event::PinRemoved {
                                    user: p.0,
                                    channel_id: p.1,
                                    item,
                                    has_pins,
                                    event_ts,
                                },
                            ),
                            Err(e) => Err(e),
                        },
                        Err(e) => Err(e),
                    },
                    Err(e) => Err(e),
                },
                Err(e) => Err(e),
            },
        )
    } else if str_eq(ty, "star_added") {
        Some(
            match crate::json::read_str(j, "user") {
                Ok(user) => match read_item_at(j, "item") {
                    Ok(item) => match crate::json::read_str(j, "event_ts") {
                        Ok(event_ts) => Ok(Event::StarAdded { user, item, event_ts }),
                        Err(e) => Err(e),
                    },
                    Err(e) => Err(e),
                },
                Err(e) => Err(e),
            },
        )
    } else if str_eq(ty, "star_removed") {
        Some(
            match crate::json::read_str(j, "user") {
                Ok(user) => match read_item_at(j, "item") {
                    Ok(item) => match crate::json::read_str(j, "event_ts") {
                        Ok(event_ts) => Ok(Event::StarRemoved { user, item, event_ts }),
                        Err(e) => Err(e),
                    },
                    Err(e) => Err(e),
                },
                Err(e) => Err(e),
            },
        )
    } else if str_eq(ty, "reaction_added") {
        Some(
            match read_two(j, "user", "name") {
                Ok(p) => match read_item_at(j, "item") {
                    Ok(item) => match read_two(j, "item_user", "event_ts") {
                        Ok(q) => Ok(
                            Event::ReactionAdded {
                                user: p.0,
                                reaction: p.1,
                                item,
                                item_user: q.0,
                                event_ts: q.1,
                            },
                        ),
                        Err(e) => Err(e),
                    },
                    Err(e) => Err(e),
                },
                Err(e) => Err(e),
            },
        )
    } else if str_eq(ty, "reaction_removed") {
        Some(
            match read_two(j, "user", "name") {
                Ok(p) => match read_item_at(j, "item") {
                    Ok(item) => match read_two(j, "item_user", "event_ts") {
                        Ok(q) => Ok(
                            Event::ReactionRemoved {
                                user: p.0,
                                reaction: p.1,
                                item,
                                item_user: q.0,
                                event_ts: q.1,
                            },
                        ),
                        Err(e) => Err(e),
                    },
                    Err(e) => Err(e),
                },
                Err(e) => Err(e),
            },
        )
    } else {
        None
    }
}

/// The presence, preference, team, bot and payload-free kinds.
pub open spec fn typed_misc_of(ty: Seq<char>, j: Json) -> Option<Outcome<EventV>> {
    if ty == "presence_change"@ {
        Some(
            match two_strs(j, "user"@, "presence"@) {
                Outcome::Bad(f) => Outcome::Bad(f),
                Outcome::Good(p) => Outcome::Good(
                    EventV::PresenceChange { user: p.0, presence: p.1 },
                ),
            },
        )
    } else if ty == "manual_presence_change"@ {
        Some(
            match str_req(j, "presence"@) {
                Outcome::Bad(f) => Outcome::Bad(f),
                Outcome::Good(c) => Outcome::Good(EventV::ManualPresenceChange { presence: c }),
            },
        )
    } else if ty == "pref_change"@ {
        Some(
            match two_strs(j, "name"@, "value"@) {
                Outcome::Bad(f) => Outcome::Bad(f),
                Outcome::Good(p) => Outcome::Good(EventV::PrefChange { name: p.0, value: p.1 }),
            },
        )
    } else if ty == "user_change"@ {
        Some(
            match user_at(j, "user"@) {
                Outcome::Bad(f) => Outcome::Bad(f),
                Outcome::Good(u) => Outcome::Good(EventV::UserChange { user: u }),
            },
        )
    } else if ty == "team_join"@ {
        Some(
            match user_at(j, "user"@) {
                Outcome::Bad(f) => Outcome::Bad(f),
                Outcome::Good(u) => Outcome::Good(EventV::TeamJoin { user: u }),
            },
        )
    } else if ty == "emoji_changed"@ {
        Some(
            match str_req(j, "event_ts"@) {
                Outcome::Bad(f) => Outcome::Bad(f),
                Outcome::Good(c) => Outcome::Good(EventV::EmojiChanged { event_ts: c }),
            },
        )
    } else if ty == "commands_changed"@ {
        Some(
            match str_req(j, "event_ts"@) {
                Outcome::Bad(f) => Outcome::Bad(f),
                Outcome::Good(c) => Outcome::Good(EventV::CommandsChanged { event_ts: c }),
            },
        )
    } else if ty == "team_plan_change"@ {
        Some(
            match str_req(j, "plan"@) {
                Outcome::Bad(f) => Outcome::Bad(f),
                Outcome::Good(c) => Outcome::Good(EventV::TeamPlanChange { plan: c }),
            },
        )
    } else if ty == "team_pref_change"@ {
        Some(
            match str_req(j, "name"@) {
                Outcome::Bad(f) => Outcome::Bad(f),
                Outcome::Good(name) => match bool_req(j, "value"@) {
                    Outcome::Bad(f) => Outcome::Bad(f),
                    Outcome::Good(value) => Outcome::Good(EventV::TeamPrefChange { name, value }),
                },
            },
        )
    } else if ty == "team_rename"@ {
        Some(
            match str_req(j, "name"@) {
                Outcome::Bad(f) => Outcome::Bad(f),
                Outcome::Good(c) => Outcome::Good(EventV::TeamRename { name: c }),
            },
        )
    } else if ty == "team_domain_change"@ {
        Some(
            match two_strs(j, "url"@, "domain"@) {
                Outcome::Bad(f) => Outcome::Bad(f),
                Outcome::Good(p) => Outcome::Good(
                    EventV::TeamDomainChange { url: p.0, domain: p.1 },
                ),
            },
        )
    } else if ty == "email_domain_changeed"@ {
        Some(
            match two_strs(j, "email_domain"@, "event_ts"@) {
                Outcome::Bad(f) => Outcome::Bad(f),
                Outcome::Good(p) => Outcome::Good(
                    EventV::EmailDomainChanged { email_domain: p.0, event_ts: p.1 },
                ),
            },
        )
    } else if ty == "bot_added"@ {
        Some(
            match bot_at(j, "bot"@) {
                Outcome::Bad(f) => Outcome::Bad(f),
                Outcome::Good(b) => Outcome::Good(EventV::BotAdded { bot: b }),
            },
        )
    } else if ty == "bot_changed"@ {
        Some(
            match bot_at(j, "bot"@) {
                Outcome::Bad(f) => Outcome::Bad(f),
                Outcome::Good(b) => Outcome::Good(EventV::BotChanged { bot: b }),
            },
        )
    } else if ty == "accounts_changed"@ {
        Some(Outcome::Good(EventV::AccountsChanged))
    } else if ty == "team_migration_started"@ {
        Some(Outcome::Good(EventV::TeamMigrationStarted))
    } else if ty == "reconnect_url"@ {
        Some(Outcome::Good(EventV::ReconnectUrl))
    } else {
        None
    }
}

fn decode_misc_kind(ty: &str, j: &Json) -> (r: Option<Result<Event, Error>>)
    ensures
        match typed_misc_of(ty@, *j) {
            Some(o) => r matches Some(res) && outcome_matches(o, res),
            None => r is None,
        },
{
    if str_eq(ty, "presence_change") {
        Some(
            match read_two(j, "user", "presence") {
                Ok(p) => Ok(Event::PresenceChange { user: p.0, presence: p.1 }),
                Err(e) => Err(e),
            },
        )
    } else if str_eq(ty, "manual_presence_change") {
        Some(
            match crate::json::read_str(j, "presence") {
                Ok(c) => Ok(Event::ManualPresenceChange { presence: c }),
                Err(e) => Err(e),
            },
        )
    } else if str_eq(ty, "pref_change") {
        Some(
            match read_two(j, "name", "value") {
                Ok(p) => Ok(Event::PrefChange { name: p.0, value: p.1 }),
                Err(e) => Err(e),
            },
        )
    } else if str_eq(ty, "user_change") {
        Some(
            match read_user_at(j, "user") {
                Ok(u) => Ok(Event::UserChange { user: u }),
                Err(e) => Err(e),
            },
        )
    } else if str_eq(ty, "team_join") {
        Some(
            match read_user_at(j, "user") {
                Ok(u) => Ok(Event::TeamJoin { user: u }),
                Err(e) => Err(e),
            },
        )
    } else if str_eq(ty, "emoji_changed") {
        Some(
            match crate::json::read_str(j, "event_ts") {
                Ok(c) => Ok(Event::EmojiChanged { event_ts: c }),
                Err(e) => Err(e),
            },
        )
    } else if str_eq(ty, "commands_changed") {
        Some(
            match crate::json::read_str(j, "event_ts") {
                Ok(c) => Ok(Event::CommandsChanged { event_ts: c }),
                Err(e) => Err(e),
            },
        )
    } else if str_eq(ty, "team_plan_change") {
        Some(
            match crate::json::read_str(j, "plan") {
                Ok(c) => Ok(Event::TeamPlanChange { plan: c }),
                Err(e) => Err(e),
            },
        )
    } else if str_eq(ty, "team_pref_change") {
        Some(
            match crate::json::read_str(j, "name") {
                Ok(name) => match crate::json::read_bool(j, "value") {
                    Ok(value) => Ok(Event::TeamPrefChange { name, value }),
                    Err(e) => Err(e),
                },
                Err(e) => Err(e),
            },
        )
    } else if str_eq(ty, "team_rename") {
        Some(
            match crate::json::read_str(j, "name") {
                Ok(c) => Ok(Event::TeamRename { name: c }),
                Err(e) => Err(e),
            },
        )
    } else if str_eq(ty, "team_domain_change") {
        Some(
            match read_two(j, "url", "domain") {
                Ok(p) => Ok(Event::TeamDomainChange { url: p.0, domain: p.1 }),
                Err(e) => Err(e),
            },
        )
    } else if str_eq(ty, "email_domain_changeed") {
        Some(
            match read_two(j, "email_domain", "event_ts") {
                Ok(p) => Ok(Event::EmailDomainChanged { email_domain: p.0, event_ts: p.1 }),
                Err(e) => Err(e),
            },
        )
    } else if str_eq(ty, "bot_added") {
        Some(
            match read_bot_at(j, "bot") {
                Ok(b) => Ok(Event::BotAdded { bot: b }),
                Err(e) => Err(e),
            },
        )
    } else if str_eq(ty, "bot_changed") {
        Some(
            match read_bot_at(j, "bot") {
                Ok(b) => Ok(Event::BotChanged { bot: b }),
                Err(e) => Err(e),
            },
        )
    } else if str_eq(ty, "accounts_changed") {
        Some(Ok(Event::AccountsChanged))
    } else if str_eq(ty, "team_migration_started") {
        Some(Ok(Event::TeamMigrationStarted))
    } else if str_eq(ty, "reconnect_url") {
        Some(Ok(Event::ReconnectUrl))
    } else {
        None
    }
}

/// The outcome of a frame whose "type" discriminant is present: the catalog
/// of recognized kinds, tried group by group; a string matching none of them
/// is the unknown-discriminant failure that names it.
pub open spec fn typed_of(ty: Seq<char>, j: Json) -> Outcome<EventV> {
    match typed_basic_of(ty, j) {
        Some(o) => o,
        None => match typed_channel_of(ty, j) {
            Some(o) => o,
            None => match typed_im_group_of(ty, j) {
                Some(o) => o,
                None => match typed_file_of(ty, j) {
                    Some(o) => o,
                    None => match typed_annotation_of(ty, j) {
                        Some(o) => o,
                        None => match typed_misc_of(ty, j) {
                            Some(o) => o,
                            None => Outcome::Bad(Fail::UnknownType(ty)),
                        },
                    },
                },
            },
        },
    }
}

/// Whether a discriminant string belongs to the catalog.
pub open spec fn recognized(ty: Seq<char>, j: Json) -> bool {
    typed_basic_of(ty, j) is Some || typed_channel_of(ty, j) is Some || typed_im_group_of(ty, j)
        is Some || typed_file_of(ty, j) is Some || typed_annotation_of(ty, j) is Some
        || typed_misc_of(ty, j) is Some
}

fn decode_typed(ty: &str, j: &Json) -> (r: Result<Event, Error>)
    ensures
        outcome_matches(typed_of(ty@, *j), r),
{
    match decode_basic_kind(ty, j) {
        Some(res) => res,
        None => match decode_channel_kind(ty, j) {
            Some(res) => res,
            None => match decode_im_group_kind(ty, j) {
                Some(res) => res,
                None => match decode_file_kind(ty, j) {
                    Some(res) => res,
                    None => match decode_annotation_kind(ty, j) {
                        Some(res) => res,
                        None => match decode_misc_kind(ty, j) {
                            Some(res) => res,
                            None => Err(unknown_type(ty)),
                        },
                    },
                },
            },
        },
    }
}

/// The outcome of a confirmation frame — one with no "type" field.  A
/// required "ok" boolean splits success, which echoes the timestamp and text,
/// from failure, which carries a nested "error" object with a numeric code
/// and a message.
pub open spec fn confirmation_of(j: Json) -> Outcome<EventV> {
    match bool_req(j, "ok"@) {
        Outcome::Bad(f) => Outcome::Bad(f),
        Outcome::Good(ok) => match isize_req(j, "reply_to"@) {
            Outcome::Bad(f) => Outcome::Bad(f),
            Outcome::Good(reply_to) => if ok {
                match two_strs(j, "ts"@, "text"@) {
                    Outcome::Bad(f) => Outcome::Bad(f),
                    Outcome::Good(p) => Outcome::Good(
                        EventV::MessageSent { reply_to, ts: p.0, text: p.1 },
                    ),
                }
            } else {
                match obj_req(j, "error"@) {
                    Outcome::Bad(f) => Outcome::Bad(f),
                    Outcome::Good(err) => match isize_req(err, "code"@) {
                        Outcome::Bad(f) => Outcome::Bad(f),
                        Outcome::Good(code) => match str_req(err, "msg"@) {
                            Outcome::Bad(f) => Outcome::Bad(f),
                            Outcome::Good(message) => Outcome::Good(
                                EventV::MessageError { reply_to, code, message },
                            ),
                        },
                    },
                }
            },
        },
    }
}

fn decode_confirmation(j: &Json) -> (r: Result<Event, Error>)
    ensures
        outcome_matches(confirmation_of(*j), r),
{
    let ok = match crate::json::read_bool(j, "ok") {
        Ok(v) => v,
        Err(e) => return Err(e),
    };
    let reply_to = match crate::json::read_isize(j, "reply_to") {
        Ok(v) => v,
        Err(e) => return Err(e),
    };
    if ok {
        match read_two(j, "ts", "text") {
            Ok(p) => Ok(Event::MessageSent { reply_to, ts: p.0, text: p.1 }),
            Err(e) => Err(e),
        }
    } else {
        let err = match crate::json::read_obj(j, "error") {
            Ok(v) => v,
            Err(e) => return Err(e),
        };
        let code = match crate::json::read_isize(err, "code") {
            Ok(v) => v,
            Err(e) => return Err(e),
        };
        let message = match crate::json::read_str(err, "msg") {
            Ok(v) => v,
            Err(e) => return Err(e),
        };
        Ok(Event::MessageError { reply_to, code, message })
    }
}

/// The outcome one frame determines: the typed branch when a string "type"
/// discriminant is present, the confirmation branch when it is absent.
pub open spec fn frame_of(j: Json) -> Outcome<EventV> {
    match str_opt(j, "type"@) {
        Outcome::Bad(f) => Outcome::Bad(f),
        Outcome::Good(Some(ty)) => typed_of(ty, j),
        Outcome::Good(None) => confirmation_of(j),
    }
}

/// What decoding one frame must return: the event the frame determines, or
/// exactly the schema failure the frame determines.
pub open spec fn decodes(j: Json, r: Result<Event, Error>) -> bool {
    outcome_matches(frame_of(j), r)
}

impl Event {
    /// Decodes one frame into exactly one event variant, or into the schema
    /// failure the frame determines.  The "type" discriminant is tried first;
    /// a frame without one is a confirmation frame.
    pub fn decode(frame: &Json) -> (r: Result<Event, Error>)
        ensures
            decodes(*frame, r),
            r is Ok <==> frame_of(*frame) is Good,
    {
        let ty_opt = match crate::json::read_str_opt(frame, "type") {
            Ok(v) => v,
            Err(e) => return Err(e),
        };
        match ty_opt {
            Some(ty) => decode_typed(ty.as_str(), frame),
            None => decode_confirmation(frame),
        }
    }
}

} // verus!
