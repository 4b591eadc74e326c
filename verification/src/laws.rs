//! General laws of the decoder, stated over the frame model and proved once
//! for every frame.
//!
//! Each law here quantifies over all frames of a given shape; the concrete
//! scenarios in the test suite exercise the same statements on sample
//! frames.

use vstd::prelude::*;

use crate::entities::{message_of, ItemV, MessageV};
use crate::error::{fail_matches, unknown_type_prefix, Error, SchemaError};
use crate::events::{
    bot_at, channel_at, comment_at, confirmation_of, file_at, frame_of, item_at, recognized,
    three_strs, two_strs, typed_annotation_of, typed_basic_of, typed_channel_of, typed_file_of,
    typed_im_group_of, typed_misc_of, typed_of, user_at, EventV,
};
use crate::json::{bool_req, isize_req, obj_req, spec_get, str_opt, str_req, Fail, Json, Outcome};

verus! {

/// A frame with no "type" field, `"ok": true`, and required `reply_to`,
/// `ts` and `text` fields decodes to exactly the send-confirmation event
/// carrying those values.
pub proof fn lemma_confirmation_sent(j: Json, n: int, ts: Seq<char>, text: Seq<char>)
    requires
        spec_get(j, "type"@) is None,
        spec_get(j, "ok"@) == Some(Json::Bool(true)),
        isize_req(j, "reply_to"@) == Outcome::<int>::Good(n),
        str_req(j, "ts"@) == Outcome::<Seq<char>>::Good(ts),
        str_req(j, "text"@) == Outcome::<Seq<char>>::Good(text),
    ensures
        frame_of(j) == Outcome::<EventV>::Good(EventV::MessageSent { reply_to: n, ts, text }),
{
}

/// A frame with no "type" field, `"ok": false`, a required `reply_to` and a
/// nested "error" object with `code` and `msg` decodes to exactly the
/// send-error event carrying those values.
pub proof fn lemma_confirmation_error(j: Json, err: Json, n: int, code: int, msg: Seq<char>)
    requires
        spec_get(j, "type"@) is None,
        spec_get(j, "ok"@) == Some(Json::Bool(false)),
        isize_req(j, "reply_to"@) == Outcome::<int>::Good(n),
        spec_get(j, "error"@) == Some(err),
        err matches Json::Obj(_),
        isize_req(err, "code"@) == Outcome::<int>::Good(code),
        str_req(err, "msg"@) == Outcome::<Seq<char>>::Good(msg),
    ensures
        frame_of(j) == Outcome::<EventV>::Good(
            EventV::MessageError { reply_to: n, code, message: msg },
        ),
{
}

/// A confirmation frame — no "type" field — whose required "ok" field is
/// absent fails with the schema failure naming "ok", never with an event.
pub proof fn lemma_confirmation_missing_ok(j: Json)
    requires
        spec_get(j, "type"@) is None,
        spec_get(j, "ok"@) is None,
    ensures
        frame_of(j) == Outcome::<EventV>::Bad(Fail::Missing("ok"@)),
{
}

/// A frame whose "type" string matches no recognized kind fails with the
/// unknown-discriminant failure carrying that very string.
pub proof fn lemma_unknown_type(j: Json, ty: Seq<char>)
    requires
        str_opt(j, "type"@) == Outcome::<Option<Seq<char>>>::Good(Some(ty)),
        !recognized(ty, j),
    ensures
        frame_of(j) == Outcome::<EventV>::Bad(Fail::UnknownType(ty)),
{
}

/// The error reported for an unknown discriminant spells the offending
/// string out: its message is the fixed prefix followed by the string.
pub proof fn lemma_unknown_type_names_it(t: Seq<char>, e: Error)
    requires
        fail_matches(Fail::UnknownType(t), e),
    ensures
        e matches Error::JsonDecode(SchemaError::Application(m)) && m@.len()
            == unknown_type_prefix().len() + t.len() && m@.skip(
            unknown_type_prefix().len() as int,
        ) == t,
{
    let m = e->JsonDecode_0->Application_0;
    assert(m@.skip(unknown_type_prefix().len() as int) =~= t);
}

/// A minimal frame of the payload-free greeting kind decodes to the
/// greeting event: no further field is required.
pub proof fn lemma_hello_frame(j: Json)
    requires
        str_opt(j, "type"@) == Outcome::<Option<Seq<char>>>::Good(Some("hello"@)),
    ensures
        frame_of(j) == Outcome::<EventV>::Good(EventV::Hello),
{
}

/// A typing-notification frame with its two required strings decodes to the
/// typing event carrying them.
pub proof fn lemma_user_typing_frame(j: Json, channel: Seq<char>, user: Seq<char>)
    requires
        str_opt(j, "type"@) == Outcome::<Option<Seq<char>>>::Good(Some("user_typing"@)),
        str_req(j, "channel"@) == Outcome::<Seq<char>>::Good(channel),
        str_req(j, "user"@) == Outcome::<Seq<char>>::Good(user),
    ensures
        frame_of(j) == Outcome::<EventV>::Good(EventV::UserTyping { channel, user }),
{
    reveal_strlit("hello");
    reveal_strlit("message");
    reveal_strlit("user_typing");
    assert("hello"@.len() == 5);
    assert("message"@.len() == 7);
    assert("user_typing"@.len() == 11);
}

/// A typing-notification frame missing its required "user" field fails with
/// the schema failure naming "user"; no partially-populated event appears.
pub proof fn lemma_user_typing_missing_user(j: Json, channel: Seq<char>)
    requires
        str_opt(j, "type"@) == Outcome::<Option<Seq<char>>>::Good(Some("user_typing"@)),
        str_req(j, "channel"@) == Outcome::<Seq<char>>::Good(channel),
        spec_get(j, "user"@) is None,
    ensures
        frame_of(j) == Outcome::<EventV>::Bad(Fail::Missing("user"@)),
{
    reveal_strlit("hello");
    reveal_strlit("message");
    reveal_strlit("user_typing");
    assert("hello"@.len() == 5);
    assert("message"@.len() == 7);
    assert("user_typing"@.len() == 11);
}

/// A message frame with no subtype and no optional field decodes to the
/// standard message whose only populated field is the required timestamp:
/// absent optional fields stay absent, they are never defaulted.
pub proof fn lemma_standard_message_minimal(j: Json, ts: Seq<char>)
    requires
        str_opt(j, "type"@) == Outcome::<Option<Seq<char>>>::Good(Some("message"@)),
        spec_get(j, "subtype"@) is None,
        str_req(j, "ts"@) == Outcome::<Seq<char>>::Good(ts),
        spec_get(j, "channel"@) is None,
        spec_get(j, "user"@) is None,
        spec_get(j, "text"@) is None,
        spec_get(j, "is_starred"@) is None,
        spec_get(j, "pinned_to"@) is None,
        spec_get(j, "reactions"@) is None,
        spec_get(j, "edited"@) is None,
        spec_get(j, "attachments"@) is None,
    ensures
        frame_of(j) == Outcome::<EventV>::Good(
            EventV::Message(
                MessageV::Standard {
                    ts,
                    channel: None,
                    user: None,
                    text: None,
                    is_starred: None,
                    pinned_to: None,
                    reactions: None,
                    edited: None,
                    attachments: None,
                },
            ),
        ),
{
    reveal_strlit("hello");
    reveal_strlit("message");
    assert("hello"@.len() == 5);
    assert("message"@.len() == 7);
}

/// A message frame with no subtype whose required timestamp is absent fails
/// with the schema failure naming "ts".
pub proof fn lemma_standard_message_missing_ts(j: Json)
    requires
        str_opt(j, "type"@) == Outcome::<Option<Seq<char>>>::Good(Some("message"@)),
        spec_get(j, "subtype"@) is None,
        spec_get(j, "ts"@) is None,
    ensures
        frame_of(j) == Outcome::<EventV>::Bad(Fail::Missing("ts"@)),
{
    reveal_strlit("hello");
    reveal_strlit("message");
    assert("hello"@.len() == 5);
    assert("message"@.len() == 7);
}

/// The "pin_added" discriminant falls through every group of kinds that is
/// tried before the annotation group.
proof fn lemma_pin_added_routing(j: Json)
    ensures
        typed_basic_of("pin_added"@, j) is None,
        typed_channel_of("pin_added"@, j) is None,
        typed_im_group_of("pin_added"@, j) is None,
        typed_file_of("pin_added"@, j) is None,
{
    reveal_strlit("pin_added");
    reveal_strlit("hello");
    reveal_strlit("message");
    reveal_strlit("user_typing");
    reveal_strlit("channel_marked");
    reveal_strlit("channel_created");
    reveal_strlit("channel_joined");
    reveal_strlit("channel_left");
    reveal_strlit("channel_deleted");
    reveal_strlit("channel_rename");
    reveal_strlit("channel_archive");
    reveal_strlit("channel_unarchive");
    reveal_strlit("channel_history_changed");
    reveal_strlit("im_created");
    reveal_strlit("im_open");
    reveal_strlit("im_close");
    reveal_strlit("im_marked");
    reveal_strlit("im_history_changed");
    reveal_strlit("group_joined");
    reveal_strlit("group_left");
    reveal_strlit("group_open");
    reveal_strlit("group_close");
    reveal_strlit("group_archive");
    reveal_strlit("group_unarchive");
    reveal_strlit("group_rename");
    reveal_strlit("group_marked");
    reveal_strlit("group_history_changed");
    reveal_strlit("file_created");
    reveal_strlit("file_shared");
    reveal_strlit("file_unshared");
    reveal_strlit("file_public");
    reveal_strlit("file_private");
    reveal_strlit("file_change");
    reveal_strlit("file_deleted");
    reveal_strlit("file_comment_added");
    reveal_strlit("file_comment_edited");
    reveal_strlit("file_comment_deleted");
    assert("pin_added"@.len() == 9);
    assert("hello"@.len() == 5);
    assert("message"@.len() == 7);
    assert("user_typing"@.len() == 11);
    assert("channel_marked"@.len() == 14);
    assert("channel_created"@.len() == 15);
    assert("channel_joined"@.len() == 14);
    assert("channel_left"@.len() == 12);
    assert("channel_deleted"@.len() == 15);
    assert("channel_rename"@.len() == 14);
    assert("channel_archive"@.len() == 15);
    assert("channel_unarchive"@.len() == 17);
    assert("channel_history_changed"@.len() == 23);
    assert("im_created"@.len() == 10);
    assert("im_open"@.len() == 7);
    assert("im_close"@.len() == 8);
    assert("im_marked"@.len() == 9);
    assert("im_history_changed"@.len() == 18);
    assert("group_joined"@.len() == 12);
    assert("group_left"@.len() == 10);
    assert("group_open"@.len() == 10);
    assert("group_close"@.len() == 11);
    assert("group_archive"@.len() == 13);
    assert("group_unarchive"@.len() == 15);
    assert("group_rename"@.len() == 12);
    assert("group_marked"@.len() == 12);
    assert("group_history_changed"@.len() == 21);
    assert("file_created"@.len() == 12);
    assert("file_shared"@.len() == 11);
    assert("file_unshared"@.len() == 13);
    assert("file_public"@.len() == 11);
    assert("file_private"@.len() == 12);
    assert("file_change"@.len() == 11);
    assert("file_deleted"@.len() == 12);
    assert("file_comment_added"@.len() == 18);
    assert("file_comment_edited"@.len() == 19);
    assert("file_comment_deleted"@.len() == 20);
    assert("pin_added"@[0] == 'p');
    assert("im_marked"@[0] == 'i');
}

/// An annotation frame — here a pin — with its required actor, channel,
/// item and timestamp decodes to the pin event carrying exactly them.
pub proof fn lemma_pin_added_frame(
    j: Json,
    user: Seq<char>,
    channel_id: Seq<char>,
    item: ItemV,
    event_ts: Seq<char>,
)
    requires
        str_opt(j, "type"@) == Outcome::<Option<Seq<char>>>::Good(Some("pin_added"@)),
        two_strs(j, "user"@, "channel_id"@) == Outcome::<(Seq<char>, Seq<char>)>::Good(
            (user, channel_id),
        ),
        item_at(j, "item"@) == Outcome::<ItemV>::Good(item),
        str_req(j, "event_ts"@) == Outcome::<Seq<char>>::Good(event_ts),
    ensures
        frame_of(j) == Outcome::<EventV>::Good(
            EventV::PinAdded { user, channel_id, item, event_ts },
        ),
{
    lemma_pin_added_routing(j);
}

/// An annotation frame whose required "item" field is absent fails with the
/// schema failure naming "item"; no partially-populated event appears.
pub proof fn lemma_pin_added_missing_item(j: Json, user: Seq<char>, channel_id: Seq<char>)
    requires
        str_opt(j, "type"@) == Outcome::<Option<Seq<char>>>::Good(Some("pin_added"@)),
        two_strs(j, "user"@, "channel_id"@) == Outcome::<(Seq<char>, Seq<char>)>::Good(
            (user, channel_id),
        ),
        spec_get(j, "item"@) is None,
    ensures
        frame_of(j) == Outcome::<EventV>::Bad(Fail::Missing("item"@)),
{
    lemma_pin_added_routing(j);
}

/// The "type" discriminant is tried first: a frame carrying one — whatever
/// else it carries, an "ok" field included — is routed through the typed
/// branch, and only a frame without one is read as a confirmation.
pub proof fn lemma_type_field_wins(j: Json, ty: Seq<char>)
    requires
        str_opt(j, "type"@) == Outcome::<Option<Seq<char>>>::Good(Some(ty)),
    ensures
        frame_of(j) == typed_of(ty, j),
{
}

/// A frame without a "type" field is read as a confirmation frame.
pub proof fn lemma_absent_type_means_confirmation(j: Json)
    requires
        spec_get(j, "type"@) is None,
    ensures
        frame_of(j) == confirmation_of(j),
{
}

/// Success and failure are exclusive and exhaustive: every frame determines
/// either exactly one event or exactly one schema failure, never both and
/// never neither.
pub proof fn lemma_one_outcome_per_frame(j: Json)
    ensures
        (frame_of(j) is Good) <==> !(frame_of(j) is Bad),
{
}

/// Which successful reads of the frame a typed event variant certifies: its
/// own discriminant string, and every field the variant requires read out of
/// the frame with exactly the value the event carries.  The two confirmation
/// variants never arise from the typed branch.
pub open spec fn sourced_typed(ty: Seq<char>, j: Json, ev: EventV) -> bool {
    match ev {
        EventV::Hello => ty == "hello"@,
        EventV::Message(m) => ty == "message"@ && message_of(j) == Outcome::Good(m),
        EventV::UserTyping { channel, user } => ty == "user_typing"@ && two_strs(
            j,
            "channel"@,
            "user"@,
        ) == Outcome::Good((channel, user)),
        EventV::ChannelMarked { channel, ts } => ty == "channel_marked"@ && two_strs(
            j,
            "channel"@,
            "ts"@,
        ) == Outcome::Good((channel, ts)),
        EventV::ChannelCreated { channel } => ty == "channel_created"@ && channel_at(
            j,
            "channel"@,
        ) == Outcome::Good(channel),
        EventV::ChannelJoined { channel } => ty == "channel_joined"@ && channel_at(
            j,
            "channel"@,
        ) == Outcome::Good(channel),
        EventV::ChannelLeft { channel } => ty == "channel_left"@ && str_req(j, "channel"@)
            == Outcome::Good(channel),
        EventV::ChannelDeleted { channel } => ty == "channel_deleted"@ && str_req(j, "channel"@)
            == Outcome::Good(channel),
        EventV::ChannelRename { channel } => ty == "channel_rename"@ && channel_at(
            j,
            "channel"@,
        ) == Outcome::Good(channel),
        EventV::ChannelArchive { channel, user } => ty == "channel_archive"@ && two_strs(
            j,
            "channel"@,
            "user"@,
        ) == Outcome::Good((channel, user)),
        EventV::ChannelUnArchive { channel, user } => ty == "channel_unarchive"@ && two_strs(
            j,
            "channel"@,
            "user"@,
        ) == Outcome::Good((channel, user)),
        EventV::ChannelHistoryChanged { latest, ts, event_ts } => ty
            == "channel_history_changed"@ && three_strs(j, "latest"@, "ts"@, "event_ts"@)
            == Outcome::Good((latest, ts, event_ts)),
        EventV::ImCreated { user, channel } => ty == "im_created"@ && str_req(j, "user"@)
            == Outcome::Good(user) && channel_at(j, "channel"@) == Outcome::Good(channel),
        EventV::ImOpen { user, channel } => ty == "im_open"@ && two_strs(j, "user"@, "channel"@)
            == Outcome::Good((user, channel)),
        EventV::ImClose { user, channel } => ty == "im_close"@ && two_strs(
            j,
            "user"@,
            "channel"@,
        ) == Outcome::Good((user, channel)),
        EventV::ImMarked { channel, ts } => ty == "im_marked"@ && two_strs(j, "channel"@, "ts"@)
            == Outcome::Good((channel, ts)),
        EventV::ImHistoryChanged { latest, ts, event_ts } => ty == "im_history_changed"@
            && three_strs(j, "latest"@, "ts"@, "event_ts"@) == Outcome::Good(
            (latest, ts, event_ts),
        ),
        EventV::GroupJoined { channel } => ty == "group_joined"@ && channel_at(j, "channel"@)
            == Outcome::Good(channel),
        EventV::GroupLeft { channel } => ty == "group_left"@ && channel_at(j, "channel"@)
            == Outcome::Good(channel),
        EventV::GroupOpen { user, channel } => ty == "group_open"@ && two_strs(
            j,
            "user"@,
            "channel"@,
        ) == Outcome::Good((user, channel)),
        EventV::GroupClose { user, channel } => ty == "group_close"@ && two_strs(
            j,
            "user"@,
            "channel"@,
        ) == Outcome::Good((user, channel)),
        EventV::GroupArchive { channel } => ty == "group_archive"@ && str_req(j, "channel"@)
            == Outcome::Good(channel),
        EventV::GroupUnArchive { channel } => ty == "group_unarchive"@ && str_req(j, "channel"@)
            == Outcome::Good(channel),
        EventV::GroupRename { channel } => ty == "group_rename"@ && channel_at(j, "channel"@)
            == Outcome::Good(channel),
        EventV::GroupMarked { channel, ts } => ty == "group_marked"@ && two_strs(
            j,
            "channel"@,
            "ts"@,
        ) == Outcome::Good((channel, ts)),
        EventV::GroupHistoryChanged { latest, ts, event_ts } => ty == "group_history_changed"@
            && three_strs(j, "latest"@, "ts"@, "event_ts"@) == Outcome::Good(
            (latest, ts, event_ts),
        ),
        EventV::FileCreated { file } => ty == "file_created"@ && file_at(j, "file"@)
            == Outcome::Good(file),
        EventV::FileShared { file } => ty == "file_shared"@ && file_at(j, "file"@)
            == Outcome::Good(file),
        EventV::FileUnShared { file } => ty == "file_unshared"@ && file_at(j, "file"@)
            == Outcome::Good(file),
        EventV::FilePublic { file } => ty == "file_public"@ && file_at(j, "file"@)
            == Outcome::Good(file),
        EventV::FilePrivate { file } => ty == "file_private"@ && str_req(j, "file"@)
            == Outcome::Good(file),
        EventV::FileChange { file } => ty == "file_change"@ && file_at(j, "file"@)
            == Outcome::Good(file),
        EventV::FileDeleted { file_id, event_ts } => ty == "file_deleted"@ && two_strs(
            j,
            "file_id"@,
            "event_ts"@,
        ) == Outcome::Good((file_id, event_ts)),
        EventV::FileCommentAdded { file, comment } => ty == "file_comment_added"@ && file_at(
            j,
            "file"@,
        ) == Outcome::Good(file) && comment_at(j, "comment"@) == Outcome::Good(comment),
        EventV::FileCommentEdited { file, comment } => ty == "file_comment_edited"@ && file_at(
            j,
            "file"@,
        ) == Outcome::Good(file) && comment_at(j, "comment"@) == Outcome::Good(comment),
        EventV::FileCommentDeleted { file, comment } => ty == "file_comment_deleted"@ && file_at(
            j,
            "file"@,
        ) == Outcome::Good(file) && str_req(j, "comment"@) == Outcome::Good(comment),
        EventV::PinAdded { user, channel_id, item, event_ts } => ty == "pin_added"@ && two_strs(
            j,
            "user"@,
            "channel_id"@,
        ) == Outcome::Good((user, channel_id)) && item_at(j, "item"@) == Outcome::Good(item)
            && str_req(j, "event_ts"@) == Outcome::Good(event_ts),
        EventV::PinRemoved { user, channel_id, item, has_pins, event_ts } => ty == "pin_removed"@
            && two_strs(j, "user"@, "channel_id"@) == Outcome::Good((user, channel_id))
            && item_at(j, "item"@) == Outcome::Good(item) && bool_req(j, "has_pins"@)
            == Outcome::Good(has_pins) && str_req(j, "event_ts"@) == Outcome::Good(event_ts),
        EventV::PresenceChange { user, presence } => ty == "presence_change"@ && two_strs(
            j,
            "user"@,
            "presence"@,
        ) == Outcome::Good((user, presence)),
        EventV::ManualPresenceChange { presence } => ty == "manual_presence_change"@ && str_req(
            j,
            "presence"@,
        ) == Outcome::Good(presence),
        EventV::PrefChange { name, value } => ty == "pref_change"@ && two_strs(
            j,
            "name"@,
            "value"@,
        ) == Outcome::Good((name, value)),
        EventV::UserChange { user } => ty == "user_change"@ && user_at(j, "user"@)
            == Outcome::Good(user),
        EventV::TeamJoin { user } => ty == "team_join"@ && user_at(j, "user"@) == Outcome::Good(
            user,
        ),
        EventV::StarAdded { user, item, event_ts } => ty == "star_added"@ && str_req(j, "user"@)
            == Outcome::Good(user) && item_at(j, "item"@) == Outcome::Good(item) && str_req(
            j,
            "event_ts"@,
        ) == Outcome::Good(event_ts),
        EventV::StarRemoved { user, item, event_ts } => ty == "star_removed"@ && str_req(
            j,
            "user"@,
        ) == Outcome::Good(user) && item_at(j, "item"@) == Outcome::Good(item) && str_req(
            j,
            "event_ts"@,
        ) == Outcome::Good(event_ts),
        EventV::ReactionAdded { user, reaction, item, item_user, event_ts } => ty
            == "reaction_added"@ && two_strs(j, "user"@, "name"@) == Outcome::Good(
            (user, reaction),
        ) && item_at(j, "item"@) == Outcome::Good(item) && two_strs(
            j,
            "item_user"@,
            "event_ts"@,
        ) == Outcome::Good((item_user, event_ts)),
        EventV::ReactionRemoved { user, reaction, item, item_user, event_ts } => ty
            == "reaction_removed"@ && two_strs(j, "user"@, "name"@) == Outcome::Good(
            (user, reaction),
        ) && item_at(j, "item"@) == Outcome::Good(item) && two_strs(
            j,
            "item_user"@,
            "event_ts"@,
        ) == Outcome::Good((item_user, event_ts)),
        EventV::EmojiChanged { event_ts } => ty == "emoji_changed"@ && str_req(j, "event_ts"@)
            == Outcome::Good(event_ts),
        EventV::CommandsChanged { event_ts } => ty == "commands_changed"@ && str_req(
            j,
            "event_ts"@,
        ) == Outcome::Good(event_ts),
        EventV::TeamPlanChange { plan } => ty == "team_plan_change"@ && str_req(j, "plan"@)
            == Outcome::Good(plan),
        EventV::TeamPrefChange { name, value } => ty == "team_pref_change"@ && str_req(
            j,
            "name"@,
        ) == Outcome::Good(name) && bool_req(j, "value"@) == Outcome::Good(value),
        EventV::TeamRename { name } => ty == "team_rename"@ && str_req(j, "name"@)
            == Outcome::Good(name),
        EventV::TeamDomainChange { url, domain } => ty == "team_domain_change"@ && two_strs(
            j,
            "url"@,
            "domain"@,
        ) == Outcome::Good((url, domain)),
        EventV::EmailDomainChanged { email_domain, event_ts } => ty == "email_domain_changeed"@
            && two_strs(j, "email_domain"@, "event_ts"@) == Outcome::Good(
            (email_domain, event_ts),
        ),
        EventV::BotAdded { bot } => ty == "bot_added"@ && bot_at(j, "bot"@) == Outcome::Good(bot),
        EventV::BotChanged { bot } => ty == "bot_changed"@ && bot_at(j, "bot"@) == Outcome::Good(
            bot,
        ),
        EventV::AccountsChanged => ty == "accounts_changed"@,
        EventV::TeamMigrationStarted => ty == "team_migration_started"@,
        EventV::ReconnectUrl => ty == "reconnect_url"@,
        EventV::MessageSent { .. } => false,
        EventV::MessageError { .. } => false,
    }
}

/// Which successful reads a confirmation event certifies: the "ok" boolean
/// with the matching polarity and every field its variant requires.  Only
/// the two confirmation variants arise from the confirmation branch.
pub open spec fn sourced_confirmation(j: Json, ev: EventV) -> bool {
    match ev {
        EventV::MessageSent { reply_to, ts, text } => bool_req(j, "ok"@) == Outcome::Good(true)
            && isize_req(j, "reply_to"@) == Outcome::Good(reply_to) && two_strs(
            j,
            "ts"@,
            "text"@,
        ) == Outcome::Good((ts, text)),
        EventV::MessageError { reply_to, code, message } => bool_req(j, "ok"@) == Outcome::Good(
            false,
        ) && isize_req(j, "reply_to"@) == Outcome::Good(reply_to) && (match obj_req(
            j,
            "error"@,
        ) {
            Outcome::Good(err) => isize_req(err, "code"@) == Outcome::Good(code) && str_req(
                err,
                "msg"@,
            ) == Outcome::Good(message),
            Outcome::Bad(_) => false,
        }),
        _ => false,
    }
}

proof fn lemma_sourced_basic(ty: Seq<char>, j: Json, ev: EventV)
    requires
        typed_basic_of(ty, j) == Some(Outcome::<EventV>::Good(ev)),
    ensures
        sourced_typed(ty, j, ev),
{
}

proof fn lemma_sourced_channel(ty: Seq<char>, j: Json, ev: EventV)
    requires
        typed_channel_of(ty, j) == Some(Outcome::<EventV>::Good(ev)),
    ensures
        sourced_typed(ty, j, ev),
{
}

proof fn lemma_sourced_im_group(ty: Seq<char>, j: Json, ev: EventV)
    requires
        typed_im_group_of(ty, j) == Some(Outcome::<EventV>::Good(ev)),
    ensures
        sourced_typed(ty, j, ev),
{
}

proof fn lemma_sourced_file(ty: Seq<char>, j: Json, ev: EventV)
    requires
        typed_file_of(ty, j) == Some(Outcome::<EventV>::Good(ev)),
    ensures
        sourced_typed(ty, j, ev),
{
}

proof fn lemma_sourced_annotation(ty: Seq<char>, j: Json, ev: EventV)
    requires
        typed_annotation_of(ty, j) == Some(Outcome::<EventV>::Good(ev)),
    ensures
        sourced_typed(ty, j, ev),
{
}

proof fn lemma_sourced_misc(ty: Seq<char>, j: Json, ev: EventV)
    requires
        typed_misc_of(ty, j) == Some(Outcome::<EventV>::Good(ev)),
    ensures
        sourced_typed(ty, j, ev),
{
}

proof fn lemma_sourced_of_typed(ty: Seq<char>, j: Json, ev: EventV)
    requires
        typed_of(ty, j) == Outcome::<EventV>::Good(ev),
    ensures
        sourced_typed(ty, j, ev),
{
    match typed_basic_of(ty, j) {
        Some(_) => lemma_sourced_basic(ty, j, ev),
        None => match typed_channel_of(ty, j) {
            Some(_) => lemma_sourced_channel(ty, j, ev),
            None => match typed_im_group_of(ty, j) {
                Some(_) => lemma_sourced_im_group(ty, j, ev),
                None => match typed_file_of(ty, j) {
                    Some(_) => lemma_sourced_file(ty, j, ev),
                    None => match typed_annotation_of(ty, j) {
                        Some(_) => lemma_sourced_annotation(ty, j, ev),
                        None => match typed_misc_of(ty, j) {
                            Some(_) => lemma_sourced_misc(ty, j, ev),
                            None => {},
                        },
                    },
                },
            },
        },
    }
}

proof fn lemma_sourced_of_confirmation(j: Json, ev: EventV)
    requires
        confirmation_of(j) == Outcome::<EventV>::Good(ev),
    ensures
        sourced_confirmation(j, ev),
{
}

/// No event is ever fabricated, whatever the frame and whichever of the
/// catalog's variants comes out: when a frame determines an event, every
/// field the matched variant requires was read out of the frame successfully
/// with exactly the value the event carries — never a default standing in
/// for a missing or malformed field — and the discriminant read agrees with
/// the variant produced.
pub proof fn lemma_no_defaults(j: Json)
    ensures
        frame_of(j) matches Outcome::Good(ev) ==> (match str_opt(j, "type"@) {
            Outcome::Good(Some(ty)) => sourced_typed(ty, j, ev),
            Outcome::Good(None) => sourced_confirmation(j, ev),
            Outcome::Bad(_) => false,
        }),
{
    match str_opt(j, "type"@) {
        Outcome::Good(Some(ty)) => {
            match typed_of(ty, j) {
                Outcome::Good(ev) => lemma_sourced_of_typed(ty, j, ev),
                Outcome::Bad(_) => {},
            }
        },
        Outcome::Good(None) => {
            match confirmation_of(j) {
                Outcome::Good(ev) => lemma_sourced_of_confirmation(j, ev),
                Outcome::Bad(_) => {},
            }
        },
        Outcome::Bad(_) => {},
    }
}

/// A frame whose discriminant is recognized but from which no variant's
/// required fields can all be read is rejected with a schema failure: the
/// decoder never invents an event to return instead.
pub proof fn lemma_unsatisfied_requirements_reject(j: Json, ty: Seq<char>)
    requires
        str_opt(j, "type"@) == Outcome::<Option<Seq<char>>>::Good(Some(ty)),
        forall|ev: EventV| !sourced_typed(ty, j, ev),
    ensures
        frame_of(j) is Bad,
{
    lemma_no_defaults(j);
    match frame_of(j) {
        Outcome::Good(ev) => {
            assert(sourced_typed(ty, j, ev));
            assert(!sourced_typed(ty, j, ev));
        },
        Outcome::Bad(_) => {},
    }
}

} // verus!
