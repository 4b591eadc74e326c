use slack::entities::{Item, Message};
use slack::error::{Error, SchemaError};
use slack::events::Event;
use slack::json::Json;

fn s(x: &str) -> Json {
    Json::Str(x.to_string())
}

fn obj(entries: Vec<(&str, Json)>) -> Json {
    Json::Obj(entries.into_iter().map(|(k, v)| (k.to_string(), v)).collect())
}

#[test]
fn decode_short_standard_message() {
    let event: Event = Event::decode(&obj(vec![
        ("type", s("message")),
        ("ts", s("1234567890.218332")),
        ("user", s("U12345678")),
        ("text", s("Hello world")),
        ("channel", s("C12345678")),
    ]))
    .unwrap();
    match event {
        Event::Message(message) => match message {
            Message::Standard {
                ts,
                channel: _,
                user,
                text,
                is_starred: _,
                pinned_to: _,
                reactions: _,
                edited: _,
                attachments: _,
            } => {
                assert_eq!(ts, "1234567890.218332");
                assert_eq!(text.unwrap(), "Hello world");
                assert_eq!(user.unwrap(), "U12345678");
            }
            _ => panic!("Message decoded into incorrect variant."),
        },
        _ => panic!("Event decoded into incorrect variant."),
    }
}

#[test]
fn decode_sent_ok() {
    let event: Event = Event::decode(&obj(vec![
        ("ok", Json::Bool(true)),
        ("reply_to", Json::U64(1)),
        ("ts", s("1234567890.218332")),
        ("text", s("Hello world")),
    ]))
    .unwrap();
    match event {
        Event::MessageSent { reply_to, ts, text } => {
            assert_eq!(reply_to, 1);
            assert_eq!(ts, "1234567890.218332");
            assert_eq!(text, "Hello world");
        }
        _ => panic!("Event decoded into incorrect variant."),
    }
}

#[test]
fn decode_sent_not_ok() {
    let event: Event = Event::decode(&obj(vec![
        ("ok", Json::Bool(false)),
        ("reply_to", Json::U64(1)),
        (
            "error",
            obj(vec![("code", Json::U64(2)), ("msg", s("message text is missing"))]),
        ),
    ]))
    .unwrap();
    match event {
        Event::MessageError { reply_to, code, message } => {
            assert_eq!(reply_to, 1);
            assert_eq!(code, 2);
            assert_eq!(message, "message text is missing");
        }
        _ => panic!("Event decoded into incorrect variant."),
    }
}

#[test]
fn decode_extended_standard_message() {
    let event: Event = Event::decode(&obj(vec![
        ("type", s("message")),
        ("ts", s("1234567890.218332")),
        ("user", s("U12345678")),
        ("text", s("Hello world")),
        ("channel", s("C12345678")),
        ("is_starred", Json::Bool(false)),
        ("pinned_to", Json::Arr(vec![s("C12345678")])),
        (
            "reactions",
            Json::Arr(vec![obj(vec![
                ("name", s("astonished")),
                ("count", Json::U64(5)),
                ("users", Json::Arr(vec![s("U12345678"), s("U87654321")])),
            ])]),
        ),
        (
            "edited",
            obj(vec![("user", s("U12345678")), ("ts", s("1234567890.218332"))]),
        ),
        (
            "attachments",
            Json::Arr(vec![obj(vec![
                ("fallback", s("Required plain-text summary of the attachment.")),
                ("color", s("#36a64f")),
                ("pretext", s("Optional text that appears above the attachment block")),
                ("author_name", s("Bobby Tables")),
                ("author_link", s("http://flickr.com/bobby/")),
                ("author_icon", s("http://flickr.com/icons/bobby.jpg")),
                ("title", s("Slack API Documentation")),
                ("title_link", s("https://api.slack.com/")),
                ("text", s("Optional text that appears within the attachment")),
                (
                    "fields",
                    Json::Arr(vec![obj(vec![
                        ("title", s("Priority")),
                        ("value", s("High")),
                        ("short", Json::Bool(false)),
                    ])]),
                ),
                ("image_url", s("http://my-website.com/path/to/image.jpg")),
                ("thumb_url", s("http://example.com/path/to/thumb.png")),
            ])]),
        ),
    ]))
    .unwrap();
    match event {
        Event::Message(message) => match message {
            Message::Standard {
                ts: _,
                channel: _,
                user: _,
                text: _,
                is_starred,
                pinned_to: _,
                reactions: _,
                edited: _,
                attachments,
            } => {
                assert_eq!(is_starred, Some(false));
                assert_eq!(attachments.unwrap()[0].color.as_ref().unwrap(), "#36a64f");
            }
            _ => panic!("Message decoded into incorrect variant."),
        },
        _ => panic!("Event decoded into incorrect variant."),
    }
}

#[test]
fn decode_singleton_kinds() {
    assert!(matches!(Event::decode(&obj(vec![("type", s("hello"))])), Ok(Event::Hello)));
    assert!(matches!(
        Event::decode(&obj(vec![("type", s("accounts_changed"))])),
        Ok(Event::AccountsChanged)
    ));
    assert!(matches!(
        Event::decode(&obj(vec![("type", s("team_migration_started"))])),
        Ok(Event::TeamMigrationStarted)
    ));
    assert!(matches!(
        Event::decode(&obj(vec![("type", s("reconnect_url"))])),
        Ok(Event::ReconnectUrl)
    ));
}

#[test]
fn decode_channel_kinds() {
    let ev = Event::decode(&obj(vec![
        ("type", s("user_typing")),
        ("channel", s("C1")),
        ("user", s("U1")),
    ]))
    .unwrap();
    match ev {
        Event::UserTyping { channel, user } => {
            assert_eq!(channel, "C1");
            assert_eq!(user, "U1");
        }
        _ => panic!("wrong variant"),
    }
    let ev = Event::decode(&obj(vec![
        ("type", s("channel_marked")),
        ("channel", s("C1")),
        ("ts", s("1.2")),
    ]))
    .unwrap();
    assert!(matches!(ev, Event::ChannelMarked { .. }));
    let snapshot = obj(vec![("id", s("C1")), ("name", s("general"))]);
    let ev = Event::decode(&obj(vec![("type", s("channel_created")), ("channel", snapshot)]))
        .unwrap();
    match ev {
        Event::ChannelCreated { channel } => {
            assert_eq!(channel.id, "C1");
            assert_eq!(channel.name.unwrap(), "general");
            assert!(channel.created.is_none());
            assert!(channel.creator.is_none());
        }
        _ => panic!("wrong variant"),
    }
    let snapshot = obj(vec![("id", s("C2"))]);
    assert!(matches!(
        Event::decode(&obj(vec![("type", s("channel_joined")), ("channel", snapshot)])),
        Ok(Event::ChannelJoined { .. })
    ));
    assert!(matches!(
        Event::decode(&obj(vec![("type", s("channel_left")), ("channel", s("C1"))])),
        Ok(Event::ChannelLeft { .. })
    ));
    assert!(matches!(
        Event::decode(&obj(vec![("type", s("channel_deleted")), ("channel", s("C1"))])),
        Ok(Event::ChannelDeleted { .. })
    ));
    let snapshot = obj(vec![("id", s("C2"))]);
    assert!(matches!(
        Event::decode(&obj(vec![("type", s("channel_rename")), ("channel", snapshot)])),
        Ok(Event::ChannelRename { .. })
    ));
    assert!(matches!(
        Event::decode(&obj(vec![
            ("type", s("channel_archive")),
            ("channel", s("C1")),
            ("user", s("U1"))
        ])),
        Ok(Event::ChannelArchive { .. })
    ));
    assert!(matches!(
        Event::decode(&obj(vec![
            ("type", s("channel_unarchive")),
            ("channel", s("C1")),
            ("user", s("U1"))
        ])),
        Ok(Event::ChannelUnArchive { .. })
    ));
    assert!(matches!(
        Event::decode(&obj(vec![
            ("type", s("channel_history_changed")),
            ("latest", s("3.0")),
            ("ts", s("2.0")),
            ("event_ts", s("1.0"))
        ])),
        Ok(Event::ChannelHistoryChanged { .. })
    ));
}

#[test]
fn decode_im_group_kinds() {
    let snapshot = obj(vec![("id", s("D1"))]);
    assert!(matches!(
        Event::decode(&obj(vec![
            ("type", s("im_created")),
            ("user", s("U1")),
            ("channel", snapshot)
        ])),
        Ok(Event::ImCreated { .. })
    ));
    assert!(matches!(
        Event::decode(&obj(vec![("type", s("im_open")), ("user", s("U1")), ("channel", s("D1"))])),
        Ok(Event::ImOpen { .. })
    ));
    assert!(matches!(
        Event::decode(&obj(vec![
            ("type", s("im_close")),
            ("user", s("U1")),
            ("channel", s("D1"))
        ])),
        Ok(Event::ImClose { .. })
    ));
    assert!(matches!(
        Event::decode(&obj(vec![("type", s("im_marked")), ("channel", s("D1")), ("ts", s("1"))])),
        Ok(Event::ImMarked { .. })
    ));
    assert!(matches!(
        Event::decode(&obj(vec![
            ("type", s("im_history_changed")),
            ("latest", s("3")),
            ("ts", s("2")),
            ("event_ts", s("1"))
        ])),
        Ok(Event::ImHistoryChanged { .. })
    ));
    let snapshot = obj(vec![("id", s("G1"))]);
    assert!(matches!(
        Event::decode(&obj(vec![("type", s("group_joined")), ("channel", snapshot)])),
        Ok(Event::GroupJoined { .. })
    ));
    let snapshot = obj(vec![("id", s("G1"))]);
    assert!(matches!(
        Event::decode(&obj(vec![("type", s("group_left")), ("channel", snapshot)])),
        Ok(Event::GroupLeft { .. })
    ));
    assert!(matches!(
        Event::decode(&obj(vec![
            ("type", s("group_open")),
            ("user", s("U1")),
            ("channel", s("G1"))
        ])),
        Ok(Event::GroupOpen { .. })
    ));
    assert!(matches!(
        Event::decode(&obj(vec![
            ("type", s("group_close")),
            ("user", s("U1")),
            ("channel", s("G1"))
        ])),
        Ok(Event::GroupClose { .. })
    ));
    assert!(matches!(
        Event::decode(&obj(vec![("type", s("group_archive")), ("channel", s("G1"))])),
        Ok(Event::GroupArchive { .. })
    ));
    assert!(matches!(
        Event::decode(&obj(vec![("type", s("group_unarchive")), ("channel", s("G1"))])),
        Ok(Event::GroupUnArchive { .. })
    ));
    let snapshot = obj(vec![("id", s("G1"))]);
    assert!(matches!(
        Event::decode(&obj(vec![("type", s("group_rename")), ("channel", snapshot)])),
        Ok(Event::GroupRename { .. })
    ));
    assert!(matches!(
        Event::decode(&obj(vec![
            ("type", s("group_marked")),
            ("channel", s("G1")),
            ("ts", s("1"))
        ])),
        Ok(Event::GroupMarked { .. })
    ));
    let ev = Event::decode(&obj(vec![
        ("type", s("group_history_changed")),
        ("latest", s("3")),
        ("ts", s("2")),
        ("event_ts", s("1")),
    ]))
    .unwrap();
    match ev {
        Event::GroupHistoryChanged { latest, ts, event_ts } => {
            assert_eq!(latest, "3");
            assert_eq!(ts, "2");
            assert_eq!(event_ts, "1");
        }
        _ => panic!("wrong variant"),
    }
}

#[test]
fn group_history_changed_requires_event_ts() {
    let err = Event::decode(&obj(vec![
        ("type", s("group_history_changed")),
        ("latest", s("3")),
        ("ts", s("2")),
        ("channel", s("G1")),
    ]))
    .unwrap_err();
    match err {
        Error::JsonDecode(SchemaError::MissingField(k)) => assert_eq!(k, "event_ts"),
        _ => panic!("wrong error variant"),
    }
}

#[test]
fn decode_file_kinds() {
    let snapshot = obj(vec![("id", s("F1")), ("name", s("notes.txt"))]);
    let ev = Event::decode(&obj(vec![("type", s("file_created")), ("file", snapshot)])).unwrap();
    match ev {
        Event::FileCreated { file } => assert_eq!(file.id, "F1"),
        _ => panic!("wrong variant"),
    }
    let snapshot = obj(vec![("id", s("F1"))]);
    assert!(matches!(
        Event::decode(&obj(vec![("type", s("file_shared")), ("file", snapshot)])),
        Ok(Event::FileShared { .. })
    ));
    let snapshot = obj(vec![("id", s("F1"))]);
    assert!(matches!(
        Event::decode(&obj(vec![("type", s("file_unshared")), ("file", snapshot)])),
        Ok(Event::FileUnShared { .. })
    ));
    let snapshot = obj(vec![("id", s("F1"))]);
    assert!(matches!(
        Event::decode(&obj(vec![("type", s("file_public")), ("file", snapshot)])),
        Ok(Event::FilePublic { .. })
    ));
    // The private-file event carries a bare identifier, not a snapshot.
    let ev = Event::decode(&obj(vec![("type", s("file_private")), ("file", s("F1"))])).unwrap();
    match ev {
        Event::FilePrivate { file } => assert_eq!(file, "F1"),
        _ => panic!("wrong variant"),
    }
    let snapshot = obj(vec![("id", s("F1"))]);
    assert!(matches!(
        Event::decode(&obj(vec![("type", s("file_change")), ("file", snapshot)])),
        Ok(Event::FileChange { .. })
    ));
    assert!(matches!(
        Event::decode(&obj(vec![
            ("type", s("file_deleted")),
            ("file_id", s("F1")),
            ("event_ts", s("1"))
        ])),
        Ok(Event::FileDeleted { .. })
    ));
    let snapshot = obj(vec![("id", s("F1"))]);
    let note = obj(vec![("id", s("Fc1")), ("comment", s("nice"))]);
    assert!(matches!(
        Event::decode(&obj(vec![
            ("type", s("file_comment_added")),
            ("file", snapshot),
            ("comment", note)
        ])),
        Ok(Event::FileCommentAdded { .. })
    ));
    let snapshot = obj(vec![("id", s("F1"))]);
    let note = obj(vec![("id", s("Fc1"))]);
    assert!(matches!(
        Event::decode(&obj(vec![
            ("type", s("file_comment_edited")),
            ("file", snapshot),
            ("comment", note)
        ])),
        Ok(Event::FileCommentEdited { .. })
    ));
    let snapshot = obj(vec![("id", s("F1"))]);
    assert!(matches!(
        Event::decode(&obj(vec![
            ("type", s("file_comment_deleted")),
            ("file", snapshot),
            ("comment", s("Fc1"))
        ])),
        Ok(Event::FileCommentDeleted { .. })
    ));
}

#[test]
fn decode_annotation_kinds() {
    let item = obj(vec![("type", s("message")), ("channel", s("C1")), ("ts", s("1.2"))]);
    let ev = Event::decode(&obj(vec![
        ("type", s("pin_added")),
        ("user", s("U1")),
        ("channel_id", s("C1")),
        ("item", item),
        ("event_ts", s("9.9")),
    ]))
    .unwrap();
    match ev {
        Event::PinAdded { user, channel_id, item, event_ts } => {
            assert_eq!(user, "U1");
            assert_eq!(channel_id, "C1");
            assert_eq!(event_ts, "9.9");
            match item {
                Item::Message { channel, ts } => {
                    assert_eq!(channel, "C1");
                    assert_eq!(ts, "1.2");
                }
                _ => panic!("wrong item variant"),
            }
        }
        _ => panic!("wrong variant"),
    }
    let item = obj(vec![("type", s("file")), ("file", s("F1"))]);
    let ev = Event::decode(&obj(vec![
        ("type", s("pin_removed")),
        ("user", s("U1")),
        ("channel_id", s("C1")),
        ("item", item),
        ("has_pins", Json::Bool(false)),
        ("event_ts", s("9.9")),
    ]))
    .unwrap();
    match ev {
        Event::PinRemoved { has_pins, item, .. } => {
            assert!(!has_pins);
            assert!(matches!(item, Item::File { .. }));
        }
        _ => panic!("wrong variant"),
    }
    let item = obj(vec![("type", s("file_comment")), ("file", s("F1")), ("comment", s("Fc1"))]);
    assert!(matches!(
        Event::decode(&obj(vec![
            ("type", s("star_added")),
            ("user", s("U1")),
            ("item", item),
            ("event_ts", s("1"))
        ])),
        Ok(Event::StarAdded { .. })
    ));
    let item = obj(vec![("type", s("message")), ("channel", s("C1")), ("ts", s("1"))]);
    assert!(matches!(
        Event::decode(&obj(vec![
            ("type", s("star_removed")),
            ("user", s("U1")),
            ("item", item),
            ("event_ts", s("1"))
        ])),
        Ok(Event::StarRemoved { .. })
    ));
    // The reaction's name arrives under the wire key "name" and lands in the
    // field called `reaction`.
    let item = obj(vec![("type", s("message")), ("channel", s("C1")), ("ts", s("1"))]);
    let ev = Event::decode(&obj(vec![
        ("type", s("reaction_added")),
        ("user", s("U1")),
        ("name", s("thumbsup")),
        ("item", item),
        ("item_user", s("U2")),
        ("event_ts", s("1")),
    ]))
    .unwrap();
    match ev {
        Event::ReactionAdded { reaction, item_user, .. } => {
            assert_eq!(reaction, "thumbsup");
            assert_eq!(item_user, "U2");
        }
        _ => panic!("wrong variant"),
    }
    let item = obj(vec![("type", s("message")), ("channel", s("C1")), ("ts", s("1"))]);
    let ev = Event::decode(&obj(vec![
        ("type", s("reaction_removed")),
        ("user", s("U1")),
        ("name", s("thumbsup")),
        ("item", item),
        ("item_user", s("U2")),
        ("event_ts", s("1")),
    ]))
    .unwrap();
    match ev {
        Event::ReactionRemoved { reaction, .. } => assert_eq!(reaction, "thumbsup"),
        _ => panic!("wrong variant"),
    }
}

#[test]
fn decode_misc_kinds() {
    assert!(matches!(
        Event::decode(&obj(vec![
            ("type", s("presence_change")),
            ("user", s("U1")),
            ("presence", s("away"))
        ])),
        Ok(Event::PresenceChange { .. })
    ));
    assert!(matches!(
        Event::decode(&obj(vec![("type", s("manual_presence_change")), ("presence", s("away"))])),
        Ok(Event::ManualPresenceChange { .. })
    ));
    assert!(matches!(
        Event::decode(&obj(vec![
            ("type", s("pref_change")),
            ("name", s("theme")),
            ("value", s("dark"))
        ])),
        Ok(Event::PrefChange { .. })
    ));
    let snapshot = obj(vec![("id", s("U1")), ("name", s("ada"))]);
    let ev = Event::decode(&obj(vec![("type", s("user_change")), ("user", snapshot)])).unwrap();
    match ev {
        Event::UserChange { user } => {
            assert_eq!(user.id, "U1");
            assert_eq!(user.name.unwrap(), "ada");
        }
        _ => panic!("wrong variant"),
    }
    let snapshot = obj(vec![("id", s("U2"))]);
    assert!(matches!(
        Event::decode(&obj(vec![("type", s("team_join")), ("user", snapshot)])),
        Ok(Event::TeamJoin { .. })
    ));
    assert!(matches!(
        Event::decode(&obj(vec![("type", s("emoji_changed")), ("event_ts", s("1"))])),
        Ok(Event::EmojiChanged { .. })
    ));
    assert!(matches!(
        Event::decode(&obj(vec![("type", s("commands_changed")), ("event_ts", s("1"))])),
        Ok(Event::CommandsChanged { .. })
    ));
    assert!(matches!(
        Event::decode(&obj(vec![("type", s("team_plan_change")), ("plan", s("std"))])),
        Ok(Event::TeamPlanChange { .. })
    ));
    let ev = Event::decode(&obj(vec![
        ("type", s("team_pref_change")),
        ("name", s("who_can_kick")),
        ("value", Json::Bool(true)),
    ]))
    .unwrap();
    match ev {
        Event::TeamPrefChange { name, value } => {
            assert_eq!(name, "who_can_kick");
            assert!(value);
        }
        _ => panic!("wrong variant"),
    }
    assert!(matches!(
        Event::decode(&obj(vec![("type", s("team_rename")), ("name", s("plumbers"))])),
        Ok(Event::TeamRename { .. })
    ));
    assert!(matches!(
        Event::decode(&obj(vec![
            ("type", s("team_domain_change")),
            ("url", s("https://x.example")),
            ("domain", s("x"))
        ])),
        Ok(Event::TeamDomainChange { .. })
    ));
    assert!(matches!(
        Event::decode(&obj(vec![
            ("type", s("email_domain_changeed")),
            ("email_domain", s("example.com")),
            ("event_ts", s("1"))
        ])),
        Ok(Event::EmailDomainChanged { .. })
    ));
    let snapshot = obj(vec![("id", s("B1")), ("name", s("deploybot"))]);
    let ev = Event::decode(&obj(vec![("type", s("bot_added")), ("bot", snapshot)])).unwrap();
    match ev {
        Event::BotAdded { bot } => assert_eq!(bot.id, "B1"),
        _ => panic!("wrong variant"),
    }
    let snapshot = obj(vec![("id", s("B1"))]);
    assert!(matches!(
        Event::decode(&obj(vec![("type", s("bot_changed")), ("bot", snapshot)])),
        Ok(Event::BotChanged { .. })
    ));
}

#[test]
fn decode_me_message_subtype() {
    let ev = Event::decode(&obj(vec![
        ("type", s("message")),
        ("subtype", s("me_message")),
        ("ts", s("1.2")),
        ("channel", s("C1")),
        ("user", s("U1")),
        ("text", s("waves")),
    ]))
    .unwrap();
    match ev {
        Event::Message(Message::MeMessage { ts, channel, user, text }) => {
            assert_eq!(ts, "1.2");
            assert_eq!(channel, "C1");
            assert_eq!(user, "U1");
            assert_eq!(text, "waves");
        }
        _ => panic!("wrong variant"),
    }
}

#[test]
fn unknown_type_is_named_in_the_error() {
    let err = Event::decode(&obj(vec![("type", s("wibble"))])).unwrap_err();
    match err {
        Error::JsonDecode(SchemaError::Application(m)) => {
            assert_eq!(m, "Unknown Message type: wibble");
            assert!(m.contains("wibble"));
        }
        _ => panic!("wrong error variant"),
    }
}

#[test]
fn unknown_type_display_names_the_string() {
    let err = Event::decode(&obj(vec![("type", s("wibble"))])).unwrap_err();
    assert_eq!(err.display_string(), "Json Decode Error: Unknown Message type: wibble");
}

#[test]
fn unknown_message_subtype_fails() {
    let err = Event::decode(&obj(vec![
        ("type", s("message")),
        ("subtype", s("channel_purpose")),
        ("ts", s("1.2")),
    ]))
    .unwrap_err();
    match err {
        Error::JsonDecode(SchemaError::UnknownVariant(m)) => assert_eq!(m, "channel_purpose"),
        _ => panic!("wrong error variant"),
    }
}

#[test]
fn missing_required_field_fails() {
    let err = Event::decode(&obj(vec![("type", s("user_typing")), ("channel", s("C1"))]))
        .unwrap_err();
    match err {
        Error::JsonDecode(SchemaError::MissingField(k)) => assert_eq!(k, "user"),
        _ => panic!("wrong error variant"),
    }
    let err = Event::decode(&obj(vec![("reply_to", Json::U64(1))])).unwrap_err();
    match err {
        Error::JsonDecode(SchemaError::MissingField(k)) => assert_eq!(k, "ok"),
        _ => panic!("wrong error variant"),
    }
    let err = Event::decode(&obj(vec![("type", s("message"))])).unwrap_err();
    match err {
        Error::JsonDecode(SchemaError::MissingField(k)) => assert_eq!(k, "ts"),
        _ => panic!("wrong error variant"),
    }
}

#[test]
fn wrong_shape_field_fails() {
    let err = Event::decode(&obj(vec![
        ("type", s("channel_marked")),
        ("channel", s("C1")),
        ("ts", Json::U64(7)),
    ]))
    .unwrap_err();
    match err {
        Error::JsonDecode(SchemaError::Expected { expected, found }) => {
            assert_eq!(expected, "string");
            assert_eq!(found, "integer");
        }
        _ => panic!("wrong error variant"),
    }
}

#[test]
fn optional_fields_stay_absent() {
    let ev = Event::decode(&obj(vec![("type", s("message")), ("ts", s("1.2"))])).unwrap();
    match ev {
        Event::Message(Message::Standard {
            ts,
            channel,
            user,
            text,
            is_starred,
            pinned_to,
            reactions,
            edited,
            attachments,
        }) => {
            assert_eq!(ts, "1.2");
            assert!(channel.is_none());
            assert!(user.is_none());
            assert!(text.is_none());
            assert!(is_starred.is_none());
            assert!(pinned_to.is_none());
            assert!(reactions.is_none());
            assert!(edited.is_none());
            assert!(attachments.is_none());
        }
        _ => panic!("wrong variant"),
    }
}

#[test]
fn type_field_wins_over_ok_field() {
    // A frame carrying both a "type" and an "ok" field is routed through the
    // type branch, not the confirmation branch.
    let ev = Event::decode(&obj(vec![("type", s("hello")), ("ok", Json::Bool(true))])).unwrap();
    assert!(matches!(ev, Event::Hello));
}

#[test]
fn duplicate_keys_take_the_first_binding() {
    let ev = Event::decode(&obj(vec![
        ("type", s("manual_presence_change")),
        ("presence", s("away")),
        ("presence", s("active")),
    ]))
    .unwrap();
    match ev {
        Event::ManualPresenceChange { presence } => assert_eq!(presence, "away"),
        _ => panic!("wrong variant"),
    }
}

#[test]
fn non_object_frame_fails() {
    let err = Event::decode(&s("hello")).unwrap_err();
    assert!(matches!(err, Error::JsonDecode(SchemaError::MissingField(_))));
}

#[test]
fn out_of_range_reply_to_fails() {
    let err = Event::decode(&obj(vec![
        ("ok", Json::Bool(true)),
        ("reply_to", Json::U64(u64::MAX)),
        ("ts", s("1")),
        ("text", s("x")),
    ]))
    .unwrap_err();
    match err {
        Error::JsonDecode(SchemaError::Expected { expected, found }) => {
            assert_eq!(expected, "integer");
            assert_eq!(found, "out-of-range integer");
        }
        _ => panic!("wrong error variant"),
    }
}
