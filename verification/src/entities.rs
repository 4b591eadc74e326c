//! The domain entities referenced inside events.
//!
//! Channels, users, files, comments, bots, messages and the polymorphic
//! "item" reference live outside this core; events only carry snapshots of
//! them.  Each entity here states its decode contract — which fields its
//! snapshot requires, which are optional — and decodes itself from the JSON
//! value of a frame, surfacing the same schema failures as the event decoder
//! itself.

use vstd::prelude::*;

use crate::error::{fail_matches, shape_mismatch, unknown_variant, Error};
use crate::json::{
    bool_opt, i64_req, kind_name, opt_str_view, read_bool_opt, read_i64, read_str, read_str_opt,
    read_strs, read_strs_opt, spec_get, str_eq, str_opt, str_req, strs_opt, strs_req, Fail, Json,
    Outcome,
};

verus! {

/// A channel snapshot: the identifier is required, the rest is whatever the
/// upstream protocol included for the particular change.
#[derive(Clone, Debug)]
pub struct Channel {
    pub id: String,
    pub name: Option<String>,
    pub created: Option<i64>,
    pub creator: Option<String>,
}

/// The mathematical model of a [`Channel`].
pub ghost struct ChannelV {
    pub id: Seq<char>,
    pub name: Option<Seq<char>>,
    pub created: Option<int>,
    pub creator: Option<Seq<char>>,
}

impl View for Channel {
    type V = ChannelV;

    open spec fn view(&self) -> ChannelV {
        ChannelV {
            id: self.id@,
            name: opt_str_view(self.name),
            created: crate::json::opt_i64_view(self.created),
            creator: opt_str_view(self.creator),
        }
    }
}

/// The decode contract of a channel snapshot.
pub open spec fn channel_of(j: Json) -> Outcome<ChannelV> {
    match str_req(j, "id"@) {
        Outcome::Bad(f) => Outcome::Bad(f),
        Outcome::Good(id) => match str_opt(j, "name"@) {
            Outcome::Bad(f) => Outcome::Bad(f),
            Outcome::Good(name) => match crate::json::i64_opt(j, "created"@) {
                Outcome::Bad(f) => Outcome::Bad(f),
                Outcome::Good(created) => match str_opt(j, "creator"@) {
                    Outcome::Bad(f) => Outcome::Bad(f),
                    Outcome::Good(creator) => Outcome::Good(
                        ChannelV { id, name, created, creator },
                    ),
                },
            },
        },
    }
}

impl Channel {
    /// Decodes a channel snapshot from the JSON value carried by a frame.
    pub fn decode(j: &Json) -> (r: Result<Channel, Error>)
        ensures
            match channel_of(*j) {
                Outcome::Good(c) => r matches Ok(v) && v@ == c,
                Outcome::Bad(f) => r matches Err(e) && fail_matches(f, e),
            },
    {
        let id = match read_str(j, "id") {
            Ok(v) => v,
            Err(e) => return Err(e),
        };
        let name = match read_str_opt(j, "name") {
            Ok(v) => v,
            Err(e) => return Err(e),
        };
        let created = match crate::json::read_i64_opt(j, "created") {
            Ok(v) => v,
            Err(e) => return Err(e),
        };
        let creator = match read_str_opt(j, "creator") {
            Ok(v) => v,
            Err(e) => return Err(e),
        };
        Ok(Channel { id, name, created, creator })
    }
}

/// A user snapshot.
#[derive(Clone, Debug)]
pub struct User {
    pub id: String,
    pub name: Option<String>,
}

/// The mathematical model of a [`User`].
pub ghost struct UserV {
    pub id: Seq<char>,
    pub name: Option<Seq<char>>,
}

impl View for User {
    type V = UserV;

    open spec fn view(&self) -> UserV {
        UserV { id: self.id@, name: opt_str_view(self.name) }
    }
}

/// The decode contract of a user snapshot.
pub open spec fn user_of(j: Json) -> Outcome<UserV> {
    match str_req(j, "id"@) {
        Outcome::Bad(f) => Outcome::Bad(f),
        Outcome::Good(id) => match str_opt(j, "name"@) {
            Outcome::Bad(f) => Outcome::Bad(f),
            Outcome::Good(name) => Outcome::Good(UserV { id, name }),
        },
    }
}

impl User {
    /// Decodes a user snapshot from the JSON value carried by a frame.
    pub fn decode(j: &Json) -> (r: Result<User, Error>)
        ensures
            match user_of(*j) {
                Outcome::Good(c) => r matches Ok(v) && v@ == c,
                Outcome::Bad(f) => r matches Err(e) && fail_matches(f, e),
            },
    {
        let id = match read_str(j, "id") {
            Ok(v) => v,
            Err(e) => return Err(e),
        };
        let name = match read_str_opt(j, "name") {
            Ok(v) => v,
            Err(e) => return Err(e),
        };
        Ok(User { id, name })
    }
}

/// A file snapshot.
#[derive(Clone, Debug)]
pub struct File {
    pub id: String,
    pub name: Option<String>,
}

/// The mathematical model of a [`File`].
pub ghost struct FileV {
    pub id: Seq<char>,
    pub name: Option<Seq<char>>,
}

impl View for File {
    type V = FileV;

    open spec fn view(&self) -> FileV {
        FileV { id: self.id@, name: opt_str_view(self.name) }
    }
}

/// The decode contract of a file snapshot.
pub open spec fn file_of(j: Json) -> Outcome<FileV> {
    match str_req(j, "id"@) {
        Outcome::Bad(f) => Outcome::Bad(f),
        Outcome::Good(id) => match str_opt(j, "name"@) {
            Outcome::Bad(f) => Outcome::Bad(f),
            Outcome::Good(name) => Outcome::Good(FileV { id, name }),
        },
    }
}

impl File {
    /// Decodes a file snapshot from the JSON value carried by a frame.
    pub fn decode(j: &Json) -> (r: Result<File, Error>)
        ensures
            match file_of(*j) {
                Outcome::Good(c) => r matches Ok(v) && v@ == c,
                Outcome::Bad(f) => r matches Err(e) && fail_matches(f, e),
            },
    {
        let id = match read_str(j, "id") {
            Ok(v) => v,
            Err(e) => return Err(e),
        };
        let name = match read_str_opt(j, "name") {
            Ok(v) => v,
            Err(e) => return Err(e),
        };
        Ok(File { id, name })
    }
}

/// A comment snapshot.
#[derive(Clone, Debug)]
pub struct Comment {
    pub id: String,
    pub user: Option<String>,
    pub comment: Option<String>,
}

/// The mathematical model of a [`Comment`].
pub ghost struct CommentV {
    pub id: Seq<char>,
    pub user: Option<Seq<char>>,
    pub comment: Option<Seq<char>>,
}

impl View for Comment {
    type V = CommentV;

    open spec fn view(&self) -> CommentV {
        CommentV {
            id: self.id@,
            user: opt_str_view(self.user),
            comment: opt_str_view(self.comment),
        }
    }
}

/// The decode contract of a comment snapshot.
pub open spec fn comment_of(j: Json) -> Outcome<CommentV> {
    match str_req(j, "id"@) {
        Outcome::Bad(f) => Outcome::Bad(f),
        Outcome::Good(id) => match str_opt(j, "user"@) {
            Outcome::Bad(f) => Outcome::Bad(f),
            Outcome::Good(user) => match str_opt(j, "comment"@) {
                Outcome::Bad(f) => Outcome::Bad(f),
                Outcome::Good(comment) => Outcome::Good(CommentV { id, user, comment }),
            },
        },
    }
}

impl Comment {
    /// Decodes a comment snapshot from the JSON value carried by a frame.
    pub fn decode(j: &Json) -> (r: Result<Comment, Error>)
        ensures
            match comment_of(*j) {
                Outcome::Good(c) => r matches Ok(v) && v@ == c,
                Outcome::Bad(f) => r matches Err(e) && fail_matches(f, e),
            },
    {
        let id = match read_str(j, "id") {
            Ok(v) => v,
            Err(e) => return Err(e),
        };
        let user = match read_str_opt(j, "user") {
            Ok(v) => v,
            Err(e) => return Err(e),
        };
        let comment = match read_str_opt(j, "comment") {
            Ok(v) => v,
            Err(e) => return Err(e),
        };
        Ok(Comment { id, user, comment })
    }
}

/// A bot snapshot.
#[derive(Clone, Debug)]
pub struct Bot {
    pub id: String,
    pub name: Option<String>,
}

/// The mathematical model of a [`Bot`].
pub ghost struct BotV {
    pub id: Seq<char>,
    pub name: Option<Seq<char>>,
}

impl View for Bot {
    type V = BotV;

    open spec fn view(&self) -> BotV {
        BotV { id: self.id@, name: opt_str_view(self.name) }
    }
}

/// The decode contract of a bot snapshot.
pub open spec fn bot_of(j: Json) -> Outcome<BotV> {
    match str_req(j, "id"@) {
        Outcome::Bad(f) => Outcome::Bad(f),
        Outcome::Good(id) => match str_opt(j, "name"@) {
            Outcome::Bad(f) => Outcome::Bad(f),
            Outcome::Good(name) => Outcome::Good(BotV { id, name }),
        },
    }
}

impl Bot {
    /// Decodes a bot snapshot from the JSON value carried by a frame.
    pub fn decode(j: &Json) -> (r: Result<Bot, Error>)
        ensures
            match bot_of(*j) {
                Outcome::Good(c) => r matches Ok(v) && v@ == c,
                Outcome::Bad(f) => r matches Err(e) && fail_matches(f, e),
            },
    {
        let id = match read_str(j, "id") {
            Ok(v) => v,
            Err(e) => return Err(e),
        };
        let name = match read_str_opt(j, "name") {
            Ok(v) => v,
            Err(e) => return Err(e),
        };
        Ok(Bot { id, name })
    }
}

/// The polymorphic reference used by pin, star and reaction events: the thing
/// acted on is a message, a file, or a file comment, discriminated by its own
/// "type" field.
#[derive(Clone, Debug)]
pub enum Item {
    Message { channel: String, ts: String },
    File { file: String },
    FileComment { file: String, comment: String },
}

/// The mathematical model of an [`Item`].
pub ghost enum ItemV {
    Message { channel: Seq<char>, ts: Seq<char> },
    File { file: Seq<char> },
    FileComment { file: Seq<char>, comment: Seq<char> },
}

impl View for Item {
    type V = ItemV;

    open spec fn view(&self) -> ItemV {
        match *self {
            Item::Message { ref channel, ref ts } => ItemV::Message {
                channel: channel@,
                ts: ts@,
            },
            Item::File { ref file } => ItemV::File { file: file@ },
            Item::FileComment { ref file, ref comment } => ItemV::FileComment {
                file: file@,
                comment: comment@,
            },
        }
    }
}

/// The decode contract of an item reference.
pub open spec fn item_of(j: Json) -> Outcome<ItemV> {
    match str_req(j, "type"@) {
        Outcome::Bad(f) => Outcome::Bad(f),
        Outcome::Good(ty) => if ty == "message"@ {
            match str_req(j, "channel"@) {
                Outcome::Bad(f) => Outcome::Bad(f),
                Outcome::Good(channel) => match str_req(j, "ts"@) {
                    Outcome::Bad(f) => Outcome::Bad(f),
                    Outcome::Good(ts) => Outcome::Good(ItemV::Message { channel, ts }),
                },
            }
        } else if ty == "file"@ {
            match str_req(j, "file"@) {
                Outcome::Bad(f) => Outcome::Bad(f),
                Outcome::Good(file) => Outcome::Good(ItemV::File { file }),
            }
        } else if ty == "file_comment"@ {
            match str_req(j, "file"@) {
                Outcome::Bad(f) => Outcome::Bad(f),
                Outcome::Good(file) => match str_req(j, "comment"@) {
                    Outcome::Bad(f) => Outcome::Bad(f),
                    Outcome::Good(comment) => Outcome::Good(ItemV::FileComment { file, comment }),
                },
            }
        } else {
            Outcome::Bad(Fail::UnknownVariant(ty))
        },
    }
}

impl Item {
    /// Decodes an item reference from the JSON value carried by a frame.
    pub fn decode(j: &Json) -> (r: Result<Item, Error>)
        ensures
            match item_of(*j) {
                Outcome::Good(c) => r matches Ok(v) && v@ == c,
                Outcome::Bad(f) => r matches Err(e) && fail_matches(f, e),
            },
    {
        let ty = match read_str(j, "type") {
            Ok(v) => v,
            Err(e) => return Err(e),
        };
        if str_eq(ty.as_str(), "message") {
            let channel = match read_str(j, "channel") {
                Ok(v) => v,
                Err(e) => return Err(e),
            };
            let ts = match read_str(j, "ts") {
                Ok(v) => v,
                Err(e) => return Err(e),
            };
            Ok(Item::Message { channel, ts })
        } else if str_eq(ty.as_str(), "file") {
            let file = match read_str(j, "file") {
                Ok(v) => v,
                Err(e) => return Err(e),
            };
            Ok(Item::File { file })
        } else if str_eq(ty.as_str(), "file_comment") {
            let file = match read_str(j, "file") {
                Ok(v) => v,
                Err(e) => return Err(e),
            };
            let comment = match read_str(j, "comment") {
                Ok(v) => v,
                Err(e) => return Err(e),
            };
            Ok(Item::FileComment { file, comment })
        } else {
            Err(unknown_variant(ty.as_str()))
        }
    }
}

/// One reaction attached to a message: the emoji name, how often it was
/// used, and who used it.
#[derive(Clone, Debug)]
pub struct Reaction {
    pub name: String,
    pub count: i64,
    pub users: Vec<String>,
}

/// The mathematical model of a [`Reaction`].
pub ghost struct ReactionV {
    pub name: Seq<char>,
    pub count: int,
    pub users: Seq<Seq<char>>,
}

impl View for Reaction {
    type V = ReactionV;

    open spec fn view(&self) -> ReactionV {
        ReactionV { name: self.name@, count: self.count as int, users: self.users.deep_view() }
    }
}

impl DeepView for Reaction {
    type V = ReactionV;

    open spec fn deep_view(&self) -> ReactionV {
        self.view()
    }
}

/// The decode contract of one reaction.
pub open spec fn reaction_of(j: Json) -> Outcome<ReactionV> {
    match str_req(j, "name"@) {
        Outcome::Bad(f) => Outcome::Bad(f),
        Outcome::Good(name) => match i64_req(j, "count"@) {
            Outcome::Bad(f) => Outcome::Bad(f),
            Outcome::Good(count) => match strs_req(j, "users"@) {
                Outcome::Bad(f) => Outcome::Bad(f),
                Outcome::Good(users) => Outcome::Good(ReactionV { name, count, users }),
            },
        },
    }
}

/// The decode contract of a reaction list, element by element.
pub open spec fn reactions_of(elems: Seq<Json>) -> Outcome<Seq<ReactionV>>
    decreases elems.len(),
{
    if elems.len() == 0 {
        Outcome::Good(Seq::empty())
    } else {
        match reaction_of(elems[0]) {
            Outcome::Bad(f) => Outcome::Bad(f),
            Outcome::Good(h) => match reactions_of(elems.skip(1)) {
                Outcome::Bad(f) => Outcome::Bad(f),
                Outcome::Good(t) => Outcome::Good(seq![h] + t),
            },
        }
    }
}

/// An optional field holding a reaction list.
pub open spec fn reactions_opt(j: Json, key: Seq<char>) -> Outcome<Option<Seq<ReactionV>>> {
    match spec_get(j, key) {
        None => Outcome::Good(None),
        Some(v) => match v {
            Json::Null => Outcome::Good(None),
            Json::Arr(elems) => match reactions_of(elems@) {
                Outcome::Good(t) => Outcome::Good(Some(t)),
                Outcome::Bad(f) => Outcome::Bad(f),
            },
            _ => Outcome::Bad(Fail::Mismatch { expected: "array"@, found: kind_name(v) }),
        },
    }
}

impl Reaction {
    /// Decodes one reaction from the JSON value carried by a frame.
    pub fn decode(j: &Json) -> (r: Result<Reaction, Error>)
        ensures
            match reaction_of(*j) {
                Outcome::Good(c) => r matches Ok(v) && v@ == c,
                Outcome::Bad(f) => r matches Err(e) && fail_matches(f, e),
            },
    {
        let name = match read_str(j, "name") {
            Ok(v) => v,
            Err(e) => return Err(e),
        };
        let count = match read_i64(j, "count") {
            Ok(v) => v,
            Err(e) => return Err(e),
        };
        let users = match read_strs(j, "users") {
            Ok(v) => v,
            Err(e) => return Err(e),
        };
        Ok(Reaction { name, count, users })
    }
}

/// Decodes the elements of a reaction list, from position `i` on.
fn decode_reactions(elems: &Vec<Json>, i: usize) -> (r: Result<Vec<Reaction>, Error>)
    requires
        i <= elems.len(),
    ensures
        match reactions_of(elems@.skip(i as int)) {
            Outcome::Good(t) => r matches Ok(v) && v.deep_view() == t,
            Outcome::Bad(f) => r matches Err(e) && fail_matches(f, e),
        },
    decreases elems.len() - i,
{
    if i == elems.len() {
        let out: Vec<Reaction> = Vec::new();
        proof {
            assert(elems@.skip(i as int) =~= Seq::<Json>::empty());
            assert(out.deep_view() =~= Seq::<ReactionV>::empty());
        }
        Ok(out)
    } else {
        proof {
            assert(elems@.skip(i as int)[0] == elems@[i as int]);
            assert(elems@.skip(i as int).skip(1) =~= elems@.skip(i as int + 1));
        }
        match Reaction::decode(&elems[i]) {
            Ok(head) => match decode_reactions(elems, i + 1) {
                Ok(mut tail) => {
                    let ghost tail0 = tail.deep_view();
                    let mut out: Vec<Reaction> = Vec::new();
                    out.push(head);
                    out.append(&mut tail);
                    proof {
                        assert(out.deep_view() =~= seq![out@[0]@] + tail0);
                    }
                    Ok(out)
                },
                Err(e) => Err(e),
            },
            Err(e) => Err(e),
        }
    }
}

/// Reads an optional field holding a reaction list.
fn read_reactions_opt(j: &Json, key: &str) -> (r: Result<Option<Vec<Reaction>>, Error>)
    ensures
        match reactions_opt(*j, key@) {
            Outcome::Good(t) => r matches Ok(v) && v.deep_view() == t,
            Outcome::Bad(f) => r matches Err(e) && fail_matches(f, e),
        },
{
    match crate::json::get_field(j, key) {
        None => Ok(None),
        Some(v) => match v {
            Json::Null => Ok(None),
            Json::Arr(elems) => {
                proof {
                    assert(elems@.skip(0) =~= elems@);
                }
                match decode_reactions(elems, 0) {
                    Ok(out) => Ok(Some(out)),
                    Err(e) => Err(e),
                }
            },
            _ => Err(shape_mismatch("array", crate::json::kind_of(v))),
        },
    }
}

/// The metadata of an edited message: who edited it and when.
#[derive(Clone, Debug)]
pub struct EditMetadata {
    pub user: String,
    pub ts: String,
}

/// The mathematical model of an [`EditMetadata`].
pub ghost struct EditMetadataV {
    pub user: Seq<char>,
    pub ts: Seq<char>,
}

impl View for EditMetadata {
    type V = EditMetadataV;

    open spec fn view(&self) -> EditMetadataV {
        EditMetadataV { user: self.user@, ts: self.ts@ }
    }
}

/// The decode contract of edit metadata.
pub open spec fn edit_of(j: Json) -> Outcome<EditMetadataV> {
    match str_req(j, "user"@) {
        Outcome::Bad(f) => Outcome::Bad(f),
        Outcome::Good(user) => match str_req(j, "ts"@) {
            Outcome::Bad(f) => Outcome::Bad(f),
            Outcome::Good(ts) => Outcome::Good(EditMetadataV { user, ts }),
        },
    }
}

/// An optional field holding edit metadata.
pub open spec fn edit_opt(j: Json, key: Seq<char>) -> Outcome<Option<EditMetadataV>> {
    match spec_get(j, key) {
        None => Outcome::Good(None),
        Some(v) => match v {
            Json::Null => Outcome::Good(None),
            Json::Obj(_) => match edit_of(v) {
                Outcome::Good(e) => Outcome::Good(Some(e)),
                Outcome::Bad(f) => Outcome::Bad(f),
            },
            _ => Outcome::Bad(Fail::Mismatch { expected: "object"@, found: kind_name(v) }),
        },
    }
}

impl EditMetadata {
    /// Decodes edit metadata from the JSON value carried by a frame.
    pub fn decode(j: &Json) -> (r: Result<EditMetadata, Error>)
        ensures
            match edit_of(*j) {
                Outcome::Good(c) => r matches Ok(v) && v@ == c,
                Outcome::Bad(f) => r matches Err(e) && fail_matches(f, e),
            },
    {
        let user = match read_str(j, "user") {
            Ok(v) => v,
            Err(e) => return Err(e),
        };
        let ts = match read_str(j, "ts") {
            Ok(v) => v,
            Err(e) => return Err(e),
        };
        Ok(EditMetadata { user, ts })
    }
}

/// The view of an optional edit metadata value.
pub open spec fn opt_edit_view(o: Option<EditMetadata>) -> Option<EditMetadataV> {
    match o {
        Some(e) => Some(e@),
        None => None,
    }
}

/// Reads an optional field holding edit metadata.
fn read_edit_opt(j: &Json, key: &str) -> (r: Result<Option<EditMetadata>, Error>)
    ensures
        match edit_opt(*j, key@) {
            Outcome::Good(t) => r matches Ok(v) && opt_edit_view(v) == t,
            Outcome::Bad(f) => r matches Err(e) && fail_matches(f, e),
        },
{
    match crate::json::get_field(j, key) {
        None => Ok(None),
        Some(v) => match v {
            Json::Null => Ok(None),
            Json::Obj(_) => match EditMetadata::decode(v) {
                Ok(e) => Ok(Some(e)),
                Err(e) => Err(e),
            },
            _ => Err(shape_mismatch("object", crate::json::kind_of(v))),
        },
    }
}

/// One titled field of an attachment.
#[derive(Clone, Debug)]
pub struct AttachmentField {
    pub title: String,
    pub value: String,
    pub short: Option<bool>,
}

/// The mathematical model of an [`AttachmentField`].
pub ghost struct AttachmentFieldV {
    pub title: Seq<char>,
    pub value: Seq<char>,
    pub short: Option<bool>,
}

impl View for AttachmentField {
    type V = AttachmentFieldV;

    open spec fn view(&self) -> AttachmentFieldV {
        AttachmentFieldV { title: self.title@, value: self.value@, short: self.short }
    }
}

impl DeepView for AttachmentField {
    type V = AttachmentFieldV;

    open spec fn deep_view(&self) -> AttachmentFieldV {
        self.view()
    }
}

/// The decode contract of one attachment field.
pub open spec fn attachment_field_of(j: Json) -> Outcome<AttachmentFieldV> {
    match str_req(j, "title"@) {
        Outcome::Bad(f) => Outcome::Bad(f),
        Outcome::Good(title) => match str_req(j, "value"@) {
            Outcome::Bad(f) => Outcome::Bad(f),
            Outcome::Good(value) => match bool_opt(j, "short"@) {
                Outcome::Bad(f) => Outcome::Bad(f),
                Outcome::Good(short) => Outcome::Good(AttachmentFieldV { title, value, short }),
            },
        },
    }
}

/// The decode contract of an attachment-field list, element by element.
pub open spec fn attachment_fields_of(elems: Seq<Json>) -> Outcome<Seq<AttachmentFieldV>>
    decreases elems.len(),
{
    if elems.len() == 0 {
        Outcome::Good(Seq::empty())
    } else {
        match attachment_field_of(elems[0]) {
            Outcome::Bad(f) => Outcome::Bad(f),
            Outcome::Good(h) => match attachment_fields_of(elems.skip(1)) {
                Outcome::Bad(f) => Outcome::Bad(f),
                Outcome::Good(t) => Outcome::Good(seq![h] + t),
            },
        }
    }
}

/// An optional field holding an attachment-field list.
pub open spec fn attachment_fields_opt(j: Json, key: Seq<char>) -> Outcome<
    Option<Seq<AttachmentFieldV>>,
> {
    match spec_get(j, key) {
        None => Outcome::Good(None),
        Some(v) => match v {
            Json::Null => Outcome::Good(None),
            Json::Arr(elems) => match attachment_fields_of(elems@) {
                Outcome::Good(t) => Outcome::Good(Some(t)),
                Outcome::Bad(f) => Outcome::Bad(f),
            },
            _ => Outcome::Bad(Fail::Mismatch { expected: "array"@, found: kind_name(v) }),
        },
    }
}

impl AttachmentField {
    /// Decodes one attachment field from the JSON value carried by a frame.
    pub fn decode(j: &Json) -> (r: Result<AttachmentField, Error>)
        ensures
            match attachment_field_of(*j) {
                Outcome::Good(c) => r matches Ok(v) && v@ == c,
                Outcome::Bad(f) => r matches Err(e) && fail_matches(f, e),
            },
    {
        let title = match read_str(j, "title") {
            Ok(v) => v,
            Err(e) => return Err(e),
        };
        let value = match read_str(j, "value") {
            Ok(v) => v,
            Err(e) => return Err(e),
        };
        let short = match read_bool_opt(j, "short") {
            Ok(v) => v,
            Err(e) => return Err(e),
        };
        Ok(AttachmentField { title, value, short })
    }
}

/// Decodes the elements of an attachment-field list, from position `i` on.
fn decode_attachment_fields(elems: &Vec<Json>, i: usize) -> (r: Result<
    Vec<AttachmentField>,
    Error,
>)
    requires
        i <= elems.len(),
    ensures
        match attachment_fields_of(elems@.skip(i as int)) {
            Outcome::Good(t) => r matches Ok(v) && v.deep_view() == t,
            Outcome::Bad(f) => r matches Err(e) && fail_matches(f, e),
        },
    decreases elems.len() - i,
{
    if i == elems.len() {
        let out: Vec<AttachmentField> = Vec::new();
        proof {
            assert(elems@.skip(i as int) =~= Seq::<Json>::empty());
            assert(out.deep_view() =~= Seq::<AttachmentFieldV>::empty());
        }
        Ok(out)
    } else {
        proof {
            assert(elems@.skip(i as int)[0] == elems@[i as int]);
            assert(elems@.skip(i as int).skip(1) =~= elems@.skip(i as int + 1));
        }
        match AttachmentField::decode(&elems[i]) {
            Ok(head) => match decode_attachment_fields(elems, i + 1) {
                Ok(mut tail) => {
                    let ghost tail0 = tail.deep_view();
                    let mut out: Vec<AttachmentField> = Vec::new();
                    out.push(head);
                    out.append(&mut tail);
                    proof {
                        assert(out.deep_view() =~= seq![out@[0]@] + tail0);
                    }
                    Ok(out)
                },
                Err(e) => Err(e),
            },
            Err(e) => Err(e),
        }
    }
}

/// Reads an optional field holding an attachment-field list.
fn read_attachment_fields_opt(j: &Json, key: &str) -> (r: Result<
    Option<Vec<AttachmentField>>,
    Error,
>)
    ensures
        match attachment_fields_opt(*j, key@) {
            Outcome::Good(t) => r matches Ok(v) && v.deep_view() == t,
            Outcome::Bad(f) => r matches Err(e) && fail_matches(f, e),
        },
{
    match crate::json::get_field(j, key) {
        None => Ok(None),
        Some(v) => match v {
            Json::Null => Ok(None),
            Json::Arr(elems) => {
                proof {
                    assert(elems@.skip(0) =~= elems@);
                }
                match decode_attachment_fields(elems, 0) {
                    Ok(out) => Ok(Some(out)),
                    Err(e) => Err(e),
                }
            },
            _ => Err(shape_mismatch("array", crate::json::kind_of(v))),
        },
    }
}

/// One attachment of a message.  Every field is optional on the wire.
#[derive(Clone, Debug)]
pub struct Attachment {
    pub fallback: Option<String>,
    pub color: Option<String>,
    pub pretext: Option<String>,
    pub author_name: Option<String>,
    pub author_link: Option<String>,
    pub author_icon: Option<String>,
    pub title: Option<String>,
    pub title_link: Option<String>,
    pub text: Option<String>,
    pub fields: Option<Vec<AttachmentField>>,
    pub image_url: Option<String>,
    pub thumb_url: Option<String>,
}

/// The mathematical model of an [`Attachment`].
pub ghost struct AttachmentV {
    pub fallback: Option<Seq<char>>,
    pub color: Option<Seq<char>>,
    pub pretext: Option<Seq<char>>,
    pub author_name: Option<Seq<char>>,
    pub author_link: Option<Seq<char>>,
    pub author_icon: Option<Seq<char>>,
    pub title: Option<Seq<char>>,
    pub title_link: Option<Seq<char>>,
    pub text: Option<Seq<char>>,
    pub fields: Option<Seq<AttachmentFieldV>>,
    pub image_url: Option<Seq<char>>,
    pub thumb_url: Option<Seq<char>>,
}

impl View for Attachment {
    type V = AttachmentV;

    open spec fn view(&self) -> AttachmentV {
        AttachmentV {
            fallback: opt_str_view(self.fallback),
            color: opt_str_view(self.color),
            pretext: opt_str_view(self.pretext),
            author_name: opt_str_view(self.author_name),
            author_link: opt_str_view(self.author_link),
            author_icon: opt_str_view(self.author_icon),
            title: opt_str_view(self.title),
            title_link: opt_str_view(self.title_link),
            text: opt_str_view(self.text),
            fields: self.fields.deep_view(),
            image_url: opt_str_view(self.image_url),
            thumb_url: opt_str_view(self.thumb_url),
        }
    }
}

impl DeepView for Attachment {
    type V = AttachmentV;

    open spec fn deep_view(&self) -> AttachmentV {
        self.view()
    }
}

/// The decode contract of one attachment.
pub open spec fn attachment_of(j: Json) -> Outcome<AttachmentV> {
    match str_opt(j, "fallback"@) {
        Outcome::Bad(f) => Outcome::Bad(f),
        Outcome::Good(fallback) => match str_opt(j, "color"@) {
            Outcome::Bad(f) => Outcome::Bad(f),
            Outcome::Good(color) => match str_opt(j, "pretext"@) {
                Outcome::Bad(f) => Outcome::Bad(f),
                Outcome::Good(pretext) => match str_opt(j, "author_name"@) {
                    Outcome::Bad(f) => Outcome::Bad(f),
                    Outcome::Good(author_name) => match str_opt(j, "author_link"@) {
                        Outcome::Bad(f) => Outcome::Bad(f),
                        Outcome::Good(author_link) => match str_opt(j, "author_icon"@) {
                            Outcome::Bad(f) => Outcome::Bad(f),
                            Outcome::Good(author_icon) => match str_opt(j, "title"@) {
                                Outcome::Bad(f) => Outcome::Bad(f),
                                Outcome::Good(title) => match str_opt(j, "title_link"@) {
                                    Outcome::Bad(f) => Outcome::Bad(f),
                                    Outcome::Good(title_link) => match str_opt(j, "text"@) {
                                        Outcome::Bad(f) => Outcome::Bad(f),
                                        Outcome::Good(text) => match attachment_fields_opt(
                                            j,
                                            "fields"@,
                                        ) {
                                            Outcome::Bad(f) => Outcome::Bad(f),
                                            Outcome::Good(fields) => match str_opt(
                                                j,
                                                "image_url"@,
                                            ) {
                                                Outcome::Bad(f) => Outcome::Bad(f),
                                                Outcome::Good(image_url) => match str_opt(
                                                    j,
                                                    "thumb_url"@,
                                                ) {
                                                    Outcome::Bad(f) => Outcome::Bad(f),
                                                    Outcome::Good(thumb_url) => Outcome::Good(
                                                        AttachmentV {
                                                            fallback,
                                                            color,
                                                            pretext,
                                                            author_name,
                                                            author_link,
                                                            author_icon,
                                                            title,
                                                            title_link,
                                                            text,
                                                            fields,
                                                            image_url,
                                                            thumb_url,
                                                        },
                                                    ),
                                                },
                                            },
                                        },
                                    },
                                },
                            },
                        },
                    },
                },
            },
        },
    }
}

/// The decode contract of an attachment list, element by element.
pub open spec fn attachments_of(elems: Seq<Json>) -> Outcome<Seq<AttachmentV>>
    decreases elems.len(),
{
    if elems.len() == 0 {
        Outcome::Good(Seq::empty())
    } else {
        match attachment_of(elems[0]) {
            Outcome::Bad(f) => Outcome::Bad(f),
            Outcome::Good(h) => match attachments_of(elems.skip(1)) {
                Outcome::Bad(f) => Outcome::Bad(f),
                Outcome::Good(t) => Outcome::Good(seq![h] + t),
            },
        }
    }
}

/// An optional field holding an attachment list.
pub open spec fn attachments_opt(j: Json, key: Seq<char>) -> Outcome<Option<Seq<AttachmentV>>> {
    match spec_get(j, key) {
        None => Outcome::Good(None),
        Some(v) => match v {
            Json::Null => Outcome::Good(None),
            Json::Arr(elems) => match attachments_of(elems@) {
                Outcome::Good(t) => Outcome::Good(Some(t)),
                Outcome::Bad(f) => Outcome::Bad(f),
            },
            _ => Outcome::Bad(Fail::Mismatch { expected: "array"@, found: kind_name(v) }),
        },
    }
}

impl Attachment {
    /// Decodes one attachment from the JSON value carried by a frame.
    pub fn decode(j: &Json) -> (r: Result<Attachment, Error>)
        ensures
            match attachment_of(*j) {
                Outcome::Good(c) => r matches Ok(v) && v@ == c,
                Outcome::Bad(f) => r matches Err(e) && fail_matches(f, e),
            },
    {
        let fallback = match read_str_opt(j, "fallback") {
            Ok(v) => v,
            Err(e) => return Err(e),
        };
        let color = match read_str_opt(j, "color") {
            Ok(v) => v,
            Err(e) => return Err(e),
        };
        let pretext = match read_str_opt(j, "pretext") {
            Ok(v) => v,
            Err(e) => return Err(e),
        };
        let author_name = match read_str_opt(j, "author_name") {
            Ok(v) => v,
            Err(e) => return Err(e),
        };
        let author_link = match read_str_opt(j, "author_link") {
            Ok(v) => v,
            Err(e) => return Err(e),
        };
        let author_icon = match read_str_opt(j, "author_icon") {
            Ok(v) => v,
            Err(e) => return Err(e),
        };
        let title = match read_str_opt(j, "title") {
            Ok(v) => v,
            Err(e) => return Err(e),
        };
        let title_link = match read_str_opt(j, "title_link") {
            Ok(v) => v,
            Err(e) => return Err(e),
        };
        let text = match read_str_opt(j, "text") {
            Ok(v) => v,
            Err(e) => return Err(e),
        };
        let fields = match read_attachment_fields_opt(j, "fields") {
            Ok(v) => v,
            Err(e) => return Err(e),
        };
        let image_url = match read_str_opt(j, "image_url") {
            Ok(v) => v,
            Err(e) => return Err(e),
        };
        let thumb_url = match read_str_opt(j, "thumb_url") {
            Ok(v) => v,
            Err(e) => return Err(e),
        };
        Ok(Attachment {
            fallback,
            color,
            pretext,
            author_name,
            author_link,
            author_icon,
            title,
            title_link,
            text,
            fields,
            image_url,
            thumb_url,
        })
    }
}

/// Decodes the elements of an attachment list, from position `i` on.
fn decode_attachments(elems: &Vec<Json>, i: usize) -> (r: Result<Vec<Attachment>, Error>)
    requires
        i <= elems.len(),
    ensures
        match attachments_of(elems@.skip(i as int)) {
            Outcome::Good(t) => r matches Ok(v) && v.deep_view() == t,
            Outcome::Bad(f) => r matches Err(e) && fail_matches(f, e),
        },
    decreases elems.len() - i,
{
    if i == elems.len() {
        let out: Vec<Attachment> = Vec::new();
        proof {
            assert(elems@.skip(i as int) =~= Seq::<Json>::empty());
            assert(out.deep_view() =~= Seq::<AttachmentV>::empty());
        }
        Ok(out)
    } else {
        proof {
            assert(elems@.skip(i as int)[0] == elems@[i as int]);
            assert(elems@.skip(i as int).skip(1) =~= elems@.skip(i as int + 1));
        }
        match Attachment::decode(&elems[i]) {
            Ok(head) => match decode_attachments(elems, i + 1) {
                Ok(mut tail) => {
                    let ghost tail0 = tail.deep_view();
                    let mut out: Vec<Attachment> = Vec::new();
                    out.push(head);
                    out.append(&mut tail);
                    proof {
                        assert(out.deep_view() =~= seq![out@[0]@] + tail0);
                    }
                    Ok(out)
                },
                Err(e) => Err(e),
            },
            Err(e) => Err(e),
        }
    }
}

/// Reads an optional field holding an attachment list.
fn read_attachments_opt(j: &Json, key: &str) -> (r: Result<Option<Vec<Attachment>>, Error>)
    ensures
        match attachments_opt(*j, key@) {
            Outcome::Good(t) => r matches Ok(v) && v.deep_view() == t,
            Outcome::Bad(f) => r matches Err(e) && fail_matches(f, e),
        },
{
    match crate::json::get_field(j, key) {
        None => Ok(None),
        Some(v) => match v {
            Json::Null => Ok(None),
            Json::Arr(elems) => {
                proof {
                    assert(elems@.skip(0) =~= elems@);
                }
                match decode_attachments(elems, 0) {
                    Ok(out) => Ok(Some(out)),
                    Err(e) => Err(e),
                }
            },
            _ => Err(shape_mismatch("array", crate::json::kind_of(v))),
        },
    }
}

/// A message entity: a union of message subtypes.  A frame without a
/// "subtype" field is a standard message; the "me_message" subtype is the
/// plain slash-me announcement.  Any other subtype is reported as an
/// unknown-variant schema failure.
#[derive(Clone, Debug)]
pub enum Message {
    Standard {
        ts: String,
        channel: Option<String>,
        user: Option<String>,
        text: Option<String>,
        is_starred: Option<bool>,
        pinned_to: Option<Vec<String>>,
        reactions: Option<Vec<Reaction>>,
        edited: Option<EditMetadata>,
        attachments: Option<Vec<Attachment>>,
    },
    MeMessage { ts: String, channel: String, user: String, text: String },
}

/// The mathematical model of a [`Message`].
pub ghost enum MessageV {
    Standard {
        ts: Seq<char>,
        channel: Option<Seq<char>>,
        user: Option<Seq<char>>,
        text: Option<Seq<char>>,
        is_starred: Option<bool>,
        pinned_to: Option<Seq<Seq<char>>>,
        reactions: Option<Seq<ReactionV>>,
        edited: Option<EditMetadataV>,
        attachments: Option<Seq<AttachmentV>>,
    },
    MeMessage { ts: Seq<char>, channel: Seq<char>, user: Seq<char>, text: Seq<char> },
}

impl View for Message {
    type V = MessageV;

    open spec fn view(&self) -> MessageV {
        match *self {
            Message::Standard {
                ref ts,
                ref channel,
                ref user,
                ref text,
                ref is_starred,
                ref pinned_to,
                ref reactions,
                ref edited,
                ref attachments,
            } => MessageV::Standard {
                ts: ts@,
                channel: opt_str_view(*channel),
                user: opt_str_view(*user),
                text: opt_str_view(*text),
                is_starred: *is_starred,
                pinned_to: pinned_to.deep_view(),
                reactions: reactions.deep_view(),
                edited: opt_edit_view(*edited),
                attachments: attachments.deep_view(),
            },
            Message::MeMessage { ref ts, ref channel, ref user, ref text } => MessageV::MeMessage {
                ts: ts@,
                channel: channel@,
                user: user@,
                text: text@,
            },
        }
    }
}

/// The decode contract of a standard message.
pub open spec fn standard_message_of(j: Json) -> Outcome<MessageV> {
    match str_req(j, "ts"@) {
        Outcome::Bad(f) => Outcome::Bad(f),
        Outcome::Good(ts) => match str_opt(j, "channel"@) {
            Outcome::Bad(f) => Outcome::Bad(f),
            Outcome::Good(channel) => match str_opt(j, "user"@) {
                Outcome::Bad(f) => Outcome::Bad(f),
                Outcome::Good(user) => match str_opt(j, "text"@) {
                    Outcome::Bad(f) => Outcome::Bad(f),
                    Outcome::Good(text) => match bool_opt(j, "is_starred"@) {
                        Outcome::Bad(f) => Outcome::Bad(f),
                        Outcome::Good(is_starred) => match strs_opt(j, "pinned_to"@) {
                            Outcome::Bad(f) => Outcome::Bad(f),
                            Outcome::Good(pinned_to) => match reactions_opt(j, "reactions"@) {
                                Outcome::Bad(f) => Outcome::Bad(f),
                                Outcome::Good(reactions) => match edit_opt(j, "edited"@) {
                                    Outcome::Bad(f) => Outcome::Bad(f),
                                    Outcome::Good(edited) => match attachments_opt(
                                        j,
                                        "attachments"@,
                                    ) {
                                        Outcome::Bad(f) => Outcome::Bad(f),
                                        Outcome::Good(attachments) => Outcome::Good(
                                            MessageV::Standard {
                                                ts,
                                                channel,
                                                user,
                                                text,
                                                is_starred,
                                                pinned_to,
                                                reactions,
                                                edited,
                                                attachments,
                                            },
                                        ),
                                    },
                                },
                            },
                        },
                    },
                },
            },
        },
    }
}

/// The decode contract of a "me_message" subtype message.
pub open spec fn me_message_of(j: Json) -> Outcome<MessageV> {
    match str_req(j, "ts"@) {
        Outcome::Bad(f) => Outcome::Bad(f),
        Outcome::Good(ts) => match str_req(j, "channel"@) {
            Outcome::Bad(f) => Outcome::Bad(f),
            Outcome::Good(channel) => match str_req(j, "user"@) {
                Outcome::Bad(f) => Outcome::Bad(f),
                Outcome::Good(user) => match str_req(j, "text"@) {
                    Outcome::Bad(f) => Outcome::Bad(f),
                    Outcome::Good(text) => Outcome::Good(
                        MessageV::MeMessage { ts, channel, user, text },
                    ),
                },
            },
        },
    }
}

/// The decode contract of a message entity: the "subtype" field selects the
/// variant, and its absence means a standard message.
pub open spec fn message_of(j: Json) -> Outcome<MessageV> {
    match str_opt(j, "subtype"@) {
        Outcome::Bad(f) => Outcome::Bad(f),
        Outcome::Good(None) => standard_message_of(j),
        Outcome::Good(Some(st)) => if st == "me_message"@ {
            me_message_of(j)
        } else {
            Outcome::Bad(Fail::UnknownVariant(st))
        },
    }
}

impl Message {
    /// Decodes a message entity from the JSON value carried by a frame.
    pub fn decode(j: &Json) -> (r: Result<Message, Error>)
        ensures
            match message_of(*j) {
                Outcome::Good(c) => r matches Ok(v) && v@ == c,
                Outcome::Bad(f) => r matches Err(e) && fail_matches(f, e),
            },
    {
        let subtype = match read_str_opt(j, "subtype") {
            Ok(v) => v,
            Err(e) => return Err(e),
        };
        match subtype {
            None => {
                let ts = match read_str(j, "ts") {
                    Ok(v) => v,
                    Err(e) => return Err(e),
                };
                let channel = match read_str_opt(j, "channel") {
                    Ok(v) => v,
                    Err(e) => return Err(e),
                };
                let user = match read_str_opt(j, "user") {
                    Ok(v) => v,
                    Err(e) => return Err(e),
                };
                let text = match read_str_opt(j, "text") {
                    Ok(v) => v,
                    Err(e) => return Err(e),
                };
                let is_starred = match read_bool_opt(j, "is_starred") {
                    Ok(v) => v,
                    Err(e) => return Err(e),
                };
                let pinned_to = match read_strs_opt(j, "pinned_to") {
                    Ok(v) => v,
                    Err(e) => return Err(e),
                };
                let reactions = match read_reactions_opt(j, "reactions") {
                    Ok(v) => v,
                    Err(e) => return Err(e),
                };
                let edited = match read_edit_opt(j, "edited") {
                    Ok(v) => v,
                    Err(e) => return Err(e),
                };
                let attachments = match read_attachments_opt(j, "attachments") {
                    Ok(v) => v,
                    Err(e) => return Err(e),
                };
                Ok(Message::Standard {
                    ts,
                    channel,
                    user,
                    text,
                    is_starred,
                    pinned_to,
                    reactions,
                    edited,
                    attachments,
                })
            },
            Some(st) => {
                if str_eq(st.as_str(), "me_message") {
                    let ts = match read_str(j, "ts") {
                        Ok(v) => v,
                        Err(e) => return Err(e),
                    };
                    let channel = match read_str(j, "channel") {
                        Ok(v) => v,
                        Err(e) => return Err(e),
                    };
                    let user = match read_str(j, "user") {
                        Ok(v) => v,
                        Err(e) => return Err(e),
                    };
                    let text = match read_str(j, "text") {
                        Ok(v) => v,
                        Err(e) => return Err(e),
                    };
                    Ok(Message::MeMessage { ts, channel, user, text })
                } else {
                    Err(unknown_variant(st.as_str()))
                }
            },
        }
    }
}

} // verus!
