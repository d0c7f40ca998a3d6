use minuteman::codec_item::{log_item_from_chars, log_item_to_chars};
use minuteman::header::HeaderBar;
use minuteman::ingest::{accept_attachment, archive_target, day_of_time, effective_time,
    fetch_candidates, find_biggest_photo, flatten_replies, has_attachment, store_attachment,
    store_user_photo, store_video_thumb, upsert_user_meta, write_message_block, MAX_FILE_SIZE};
use minuteman::jsonio::{json_from_chars, json_to_chars, Json};
use minuteman::keys::{build_chat_meta_key, build_index_key, build_msg_key, build_ref_key,
    build_rel_key, build_user_meta_key};
use minuteman::model::{ChannelMeta, ChatMeta, Entity, EntityKind, Forward, ForwardFrom,
    GroupMeta, InterMessage, LogItem, MessageKind, PhotoSize, UserMeta};
use minuteman::num::{dec_i64_chars, parse_i64_all};
use minuteman::render::{get_file, rewrite_media_files, unknown_file_request_message,
    FileRequestType, FileResponse};
use minuteman::resolve::{resolve_chat_name, resolve_user, resolve_user_meta,
    resolve_user_meta_with_id};
use minuteman::store::Store;
use minuteman::config::get_version;
use minuteman::dates::{day_text_round_trip, format_day, parse_day};
use minuteman::pages::{chat_days, find_latest_chat_day};

fn chars(s: &str) -> Vec<char> {
    s.chars().collect()
}

fn text(v: &Vec<char>) -> String {
    v.iter().collect()
}

fn sample_user() -> UserMeta {
    UserMeta {
        id: "42".to_string(),
        first_name: "Ada".to_string(),
        last_name: None,
        username: None,
        is_bot: false,
        language_code: None,
    }
}

fn group_chat() -> ChatMeta {
    ChatMeta::Group(GroupMeta {
        id: "-100".to_string(),
        title: "G".to_string(),
        all_members_are_administrators: false,
        invite_link: None,
    })
}

fn text_message(id: i64, date: i64, body: &str) -> InterMessage {
    InterMessage {
        id,
        from: Some(sample_user()),
        date,
        chat_id: -100,
        chat: group_chat(),
        forward: None,
        reply_to_message: None,
        edit_date: None,
        kind: MessageKind::Text { data: body.to_string(), entities: Vec::new() },
    }
}

#[test]
fn log_item_round_trips_through_its_stored_text() {
    let m = text_message(5, 1700000000, "hi");
    let item = minuteman::ingest::build_log_item(m, Vec::new(), None, None);
    let stored = log_item_to_chars(&item);
    let back = log_item_from_chars(stored.as_slice()).expect("stored text must decode");
    assert_eq!(back, item);
}

#[test]
fn log_item_with_markup_and_forward_round_trips() {
    let mut entities = Vec::new();
    entities.push(Entity { offset: 0, length: 2, kind: EntityKind::Bold });
    entities.push(Entity { offset: 3, length: 4, kind: EntityKind::TextLink("https://e".to_string()) });
    let inner = text_message(4, 1699999999, "context");
    let m = InterMessage {
        id: 9,
        from: Some(sample_user()),
        date: 1700000100,
        chat_id: 7,
        chat: ChatMeta::User(sample_user()),
        forward: Some(Forward {
            date: 1690000000,
            from: ForwardFrom::Channel {
                id: -200,
                channel: ChannelMeta {
                    id: "-200".to_string(),
                    title: "C".to_string(),
                    username: Some("chan".to_string()),
                    invite_link: None,
                },
                message_id: 77,
            },
        }),
        reply_to_message: Some(Box::new(inner)),
        edit_date: Some(1700000200),
        kind: MessageKind::Text { data: "quoted \"text\"\n".to_string(), entities },
    };
    let item = minuteman::ingest::build_log_item(m, Vec::new(), None, None);
    let stored = log_item_to_chars(&item);
    let back = log_item_from_chars(stored.as_slice()).expect("stored text must decode");
    assert_eq!(back, item);
}

#[test]
fn day_buckets_split_exactly_at_midnight() {
    let k = 19675i64;
    assert_eq!(day_of_time(86400 * k), k);
    assert_eq!(day_of_time(86400 * k - 1), k - 1);
    assert_eq!(day_of_time(1700000000), 19675);
}

#[test]
fn attachment_size_policy() {
    assert!(!accept_attachment(&None));
    assert!(accept_attachment(&Some(MAX_FILE_SIZE)));
    assert!(!accept_attachment(&Some(MAX_FILE_SIZE + 1)));
    assert!(accept_attachment(&Some(0)));
}

#[test]
fn forwarded_channel_post_is_archived_under_the_channel() {
    let m = InterMessage {
        id: 9,
        from: Some(sample_user()),
        date: 1700000100,
        chat_id: 7,
        chat: ChatMeta::User(sample_user()),
        forward: Some(Forward {
            date: 1690000000,
            from: ForwardFrom::Channel {
                id: -200,
                channel: ChannelMeta {
                    id: "-200".to_string(),
                    title: "C".to_string(),
                    username: None,
                    invite_link: None,
                },
                message_id: 77,
            },
        }),
        reply_to_message: None,
        edit_date: None,
        kind: MessageKind::Text { data: "x".to_string(), entities: Vec::new() },
    };
    assert_eq!(effective_time(&m), 1690000000);
    let (chat_id, meta) = archive_target(&m);
    assert_eq!(chat_id, -200);
    assert!(matches!(meta, ChatMeta::Channel(_)));
}

#[test]
fn group_messages_are_never_redirected() {
    let mut m = text_message(5, 1700000000, "hi");
    m.forward = Some(Forward {
        date: 1690000000,
        from: ForwardFrom::User { id: 42, user: sample_user() },
    });
    let (chat_id, meta) = archive_target(&m);
    assert_eq!(chat_id, -100);
    assert!(matches!(meta, ChatMeta::Group(_)));
}

#[test]
fn a_reply_is_ingested_before_the_replying_message() {
    let inner = text_message(4, 1699999999, "context");
    let mut outer = text_message(5, 1700000000, "answer");
    outer.reply_to_message = Some(Box::new(inner));
    let seq = flatten_replies(outer, 32);
    assert_eq!(seq.len(), 2);
    assert_eq!(seq[0].id, 4);
    assert_eq!(seq[1].id, 5);
    assert!(seq[1].reply_to_message.is_some());
}

#[test]
fn ingesting_a_text_message_writes_the_five_records() {
    let mut store = Store::new();
    let m = text_message(5, 1700000000, "hi");
    let item = minuteman::ingest::build_log_item(m, Vec::new(), None, None);
    let meta = group_chat();
    write_message_block(&mut store, -100, 5, 1700000000, &item, &meta);
    upsert_user_meta(&mut store, &sample_user());

    let record = store.get_text(&build_msg_key(-100, 1700000000)).expect("record");
    assert!(record.starts_with("{\"message\":{\"user_id\":\"42\",\"time\":1700000000,\"text\":\"hi\""));
    assert_eq!(store.get_text(&build_index_key(-100, 19675)).expect("day mark"), "\0");
    assert_eq!(store.get_text(&build_rel_key(-100)).expect("roster"), "\0");
    assert_eq!(store.get_text(&build_ref_key(-100, 5)).expect("reference"), "1700000000");
    let meta_text = store.get_text(&build_chat_meta_key(-100)).expect("chat meta");
    assert!(meta_text.starts_with("{\"Group\":"));
    let user_text = store.get_text(&build_user_meta_key("42")).expect("user meta");
    assert!(user_text.starts_with("{\"id\":\"42\""));

    let back = log_item_from_chars(chars(&record).as_slice()).expect("decodes");
    match back {
        LogItem::Message { user_id, time, text, source, .. } => {
            assert_eq!(user_id.as_deref(), Some("42"));
            assert_eq!(time, 1700000000);
            assert_eq!(text, "hi");
            assert_eq!(source.expect("source kept").id, 5);
        },
        other => panic!("unexpected record shape: {:?}", other),
    }
}

#[test]
fn unknown_file_kind_is_refused() {
    let store = Store::new();
    let r = get_file(&store, "thing", "abc");
    assert!(matches!(r, FileResponse::UnknownKind));
    assert_eq!(unknown_file_request_message(), "Unknown file request type");
    assert_eq!(FileRequestType::from_name("thing"), FileRequestType::Unknown);
    assert_eq!(FileRequestType::from_name("video_thumb"), FileRequestType::VideoThumb);
}

#[test]
fn stored_pictures_are_served_with_a_sniffed_content_type() {
    let mut store = Store::new();
    let png_magic: Vec<u8> = vec![0x89, 0x50, 0x4e, 0x47, 0x0d, 0x0a, 0x1a, 0x0a, 0, 0];
    // a PNG header is recognized by its magic even if the body is missing
    let stored = store_attachment(&mut store, "p1", png_magic.clone(), false);
    assert!(stored);
    assert!(has_attachment(&store, "p1"));
    match get_file(&store, "image", "p1") {
        FileResponse::Found { bytes, content_type } => {
            assert_eq!(bytes, png_magic);
            assert_eq!(content_type, "image/png");
        },
        _ => panic!("expected the blob back"),
    }
    match get_file(&store, "document", "p1") {
        FileResponse::Found { content_type, .. } => {
            assert_eq!(content_type, "application/octet-stream");
        },
        _ => panic!("expected the blob back"),
    }
    assert!(matches!(get_file(&store, "image", "p2"), FileResponse::NotFound));
}

#[test]
fn broken_pictures_are_dropped_by_the_integrity_check() {
    let mut store = Store::new();
    let garbage: Vec<u8> = vec![1, 2, 3, 4];
    let stored = store_attachment(&mut store, "bad", garbage, true);
    assert!(!stored);
    assert!(!has_attachment(&store, "bad"));
}

#[test]
fn the_biggest_photo_wins_and_ties_go_to_the_first() {
    let photos = vec![
        PhotoSize { file_id: "a".to_string(), width: 100, height: 100, file_size: Some(10) },
        PhotoSize { file_id: "b".to_string(), width: 800, height: 600, file_size: Some(20) },
    ];
    assert_eq!(find_biggest_photo(&photos).file_id, "b");
    let tied = vec![
        PhotoSize { file_id: "a".to_string(), width: 20, height: 30, file_size: None },
        PhotoSize { file_id: "b".to_string(), width: 30, height: 20, file_size: None },
    ];
    assert_eq!(find_biggest_photo(&tied).file_id, "a");
}

#[test]
fn the_resolution_ladder_is_applied_in_order() {
    let mut u = sample_user();
    assert_eq!(resolve_user_meta(&u), "Ada");
    u.last_name = Some("L".to_string());
    assert_eq!(resolve_user_meta(&u), "Ada L");
    u.username = Some("ada".to_string());
    assert_eq!(resolve_user_meta(&u), "ada");
    assert_eq!(resolve_user_meta_with_id(&u), "ada (42)");
}

#[test]
fn chat_names_resolve_from_the_stored_metadata() {
    let mut store = Store::new();
    let m = text_message(5, 1700000000, "hi");
    let item = minuteman::ingest::build_log_item(m, Vec::new(), None, None);
    write_message_block(&mut store, -100, 5, 1700000000, &item, &group_chat());
    assert_eq!(resolve_chat_name(&store, "-100"), "G (-100)");
    // an id without a stored record falls back to the user ladder, then the id
    assert_eq!(resolve_chat_name(&store, "-7"), "-7");
    upsert_user_meta(&mut store, &sample_user());
    assert_eq!(resolve_user(&store, "42", true), "Ada (42)");
    assert_eq!(resolve_chat_name(&store, "42"), "Ada (42)");
}

#[test]
fn numerals_print_and_parse_both_ways() {
    assert_eq!(text(&dec_i64_chars(0)), "0");
    assert_eq!(text(&dec_i64_chars(-42)), "-42");
    assert_eq!(text(&dec_i64_chars(1700000000)), "1700000000");
    assert_eq!(parse_i64_all(chars("-42").as_slice()), Some(-42));
    assert_eq!(parse_i64_all(chars("007").as_slice()), None);
    assert_eq!(parse_i64_all(chars("").as_slice()), None);
    assert_eq!(parse_i64_all(chars("12a").as_slice()), None);
    assert_eq!(parse_i64_all(chars("9223372036854775807").as_slice()), Some(i64::MAX));
    assert_eq!(parse_i64_all(chars("-9223372036854775808").as_slice()), Some(i64::MIN));
    assert_eq!(parse_i64_all(chars("9223372036854775808").as_slice()), None);
}

#[test]
fn json_texts_round_trip_with_escapes() {
    let mut fields: Vec<(Vec<char>, Json)> = Vec::new();
    fields.push((chars("a"), Json::Str(chars("line\nbreak \"q\" \\"))));
    fields.push((chars("b"), Json::Arr(vec![Json::Int(-5), Json::Null, Json::Bool(true)])));
    let doc = Json::Obj(fields);
    let out = json_to_chars(&doc);
    assert_eq!(
        text(&out),
        "{\"a\":\"line\\nbreak \\\"q\\\" \\\\\",\"b\":[-5,null,true]}"
    );
    assert!(json_from_chars(out.as_slice()).is_some());
    assert!(json_from_chars(chars("{\"a\":}").as_slice()).is_none());
}

#[test]
fn the_store_orders_and_scans_its_keys() {
    let mut store = Store::new();
    store.put_text(chars("chat_rel:-100"), "\0".to_string());
    store.put_text(chars("chat_rel:7"), "\0".to_string());
    store.put_text(chars("chat:meta:7"), "x".to_string());
    store.put_text(chars("chat_rel:-100"), "\0".to_string());
    let rows = store.scan_text_prefix(&chars("chat_rel:"));
    assert_eq!(rows.len(), 2);
    assert_eq!(text(&rows[0].0), "chat_rel:-100");
    assert_eq!(text(&rows[1].0), "chat_rel:7");
    assert_eq!(store.get_text(&chars("chat:meta:7")).as_deref(), Some("x"));
    assert_eq!(store.get_text(&chars("chat:meta:8")), None);
}

#[test]
fn the_header_bar_renders_titles_and_links() {
    let bar = HeaderBar::new()
        .with_link("<- home", Some("/".to_string()))
        .with_title("G - 2023-11-14".to_string())
        .with_link("previous", None);
    assert_eq!(
        bar.render(),
        "<div class=\"navigation\"><a href=\"/\"><- home</a> | \
         <span class=\"title\">G - 2023-11-14</span> | \
         <span class=\"nolink\">previous (none)</span></div>"
    );
    assert_eq!(get_version(), "v0.1.0");
}

/// A complete, decodable one-pixel 24-bit bitmap.
fn tiny_bmp() -> Vec<u8> {
    let mut b: Vec<u8> = Vec::new();
    b.extend_from_slice(b"BM");
    b.extend_from_slice(&58u32.to_le_bytes());
    b.extend_from_slice(&0u32.to_le_bytes());
    b.extend_from_slice(&54u32.to_le_bytes());
    b.extend_from_slice(&40u32.to_le_bytes());
    b.extend_from_slice(&1i32.to_le_bytes());
    b.extend_from_slice(&1i32.to_le_bytes());
    b.extend_from_slice(&1u16.to_le_bytes());
    b.extend_from_slice(&24u16.to_le_bytes());
    b.extend_from_slice(&0u32.to_le_bytes());
    b.extend_from_slice(&4u32.to_le_bytes());
    b.extend_from_slice(&2835u32.to_le_bytes());
    b.extend_from_slice(&2835u32.to_le_bytes());
    b.extend_from_slice(&0u32.to_le_bytes());
    b.extend_from_slice(&0u32.to_le_bytes());
    b.extend_from_slice(&[0xff, 0xff, 0xff, 0x00]);
    b
}

#[test]
fn only_the_biggest_photo_size_is_a_fetch_candidate() {
    let kind = MessageKind::Photo {
        data: vec![
            PhotoSize { file_id: "small".to_string(), width: 100, height: 100, file_size: Some(9) },
            PhotoSize { file_id: "big".to_string(), width: 800, height: 600, file_size: Some(99) },
        ],
        caption: None,
    };
    let candidates = fetch_candidates(&kind);
    assert_eq!(candidates.len(), 1);
    assert_eq!(candidates[0].0, "big");
    assert_eq!(candidates[0].1, Some(99));
    assert!(candidates[0].2);
}

#[test]
fn audio_is_fetched_unchecked_and_videos_are_not_fetched() {
    let audio = MessageKind::Audio {
        data: minuteman::model::AudioData {
            file_id: "a9".to_string(),
            duration: 3,
            performer: None,
            title: None,
            mime_type: None,
            file_size: Some(12),
        },
    };
    let candidates = fetch_candidates(&audio);
    assert_eq!(candidates.len(), 1);
    assert_eq!(candidates[0].0, "a9");
    assert!(!candidates[0].2);
    let text = MessageKind::Text { data: "x".to_string(), entities: Vec::new() };
    assert!(fetch_candidates(&text).is_empty());
    let video = MessageKind::Video {
        data: minuteman::model::VideoData {
            file_id: "v".to_string(),
            width: 1,
            height: 1,
            duration: 1,
            thumb: None,
            mime_type: None,
            file_size: Some(1),
        },
        caption: None,
    };
    assert!(fetch_candidates(&video).is_empty());
}

#[test]
fn picture_file_ids_are_rewritten_for_the_json_endpoint() {
    let media = LogItem::Media {
        user_id: Some("42".to_string()),
        time: 1700000000,
        caption: None,
        media_type: minuteman::model::LogItemMediaType::Image { width: 8, height: 6 },
        files: vec!["abc".to_string()],
        source: None,
    };
    match rewrite_media_files(media) {
        LogItem::Media { files, .. } => assert_eq!(files, vec!["/file/image/abc".to_string()]),
        other => panic!("unexpected record shape: {:?}", other),
    }
    let audio = LogItem::Media {
        user_id: None,
        time: 0,
        caption: None,
        media_type: minuteman::model::LogItemMediaType::Voice { duration: 2, mime_type: None },
        files: vec!["abc".to_string()],
        source: None,
    };
    match rewrite_media_files(audio) {
        LogItem::Media { files, .. } => assert_eq!(files, vec!["abc".to_string()]),
        other => panic!("unexpected record shape: {:?}", other),
    }
}

#[test]
fn thumbnails_and_profile_pictures_are_validated_and_namespaced() {
    let mut store = Store::new();
    assert!(!store_video_thumb(&mut store, "t1", vec![1, 2, 3]));
    assert!(store_video_thumb(&mut store, "t1", tiny_bmp()));
    match get_file(&store, "video_thumb", "t1") {
        FileResponse::Found { content_type, .. } => assert_eq!(content_type, "image/bmp"),
        _ => panic!("expected the thumbnail back"),
    }
    assert!(!store_user_photo(&mut store, "42", Vec::new()));
    assert!(store_user_photo(&mut store, "42", tiny_bmp()));
    match get_file(&store, "user", "42") {
        FileResponse::Found { content_type, .. } => assert_eq!(content_type, "image/bmp"),
        _ => panic!("expected the profile picture back"),
    }
}

#[test]
fn empty_attachments_are_never_stored() {
    let mut store = Store::new();
    assert!(!store_attachment(&mut store, "e", Vec::new(), false));
    assert!(!has_attachment(&store, "e"));
}

#[test]
fn latest_day_resolution_renders_the_newest_indexed_day() {
    let mut store = Store::new();
    for (mid, t) in [(1i64, 19670i64 * 86400 + 10), (2, 19675 * 86400 + 5)] {
        let msg = text_message(mid, t, "x");
        let item = minuteman::ingest::build_log_item(msg, Vec::new(), None, None);
        write_message_block(&mut store, -100, mid, t, &item, &group_chat());
    }
    assert_eq!(chat_days(&store, -100), vec![19670, 19675]);
    assert_eq!(find_latest_chat_day(&store, -100), Some(19675));
    assert_eq!(find_latest_chat_day(&store, -5), None);
    assert_eq!(format_day(19675), "2023-11-14");
    assert_eq!(parse_day("2023-11-14"), Some(19675));
    assert_eq!(parse_day("not-a-date"), None);
    assert_eq!(day_text_round_trip(19670), Some(19670));
    assert_eq!(minuteman::dates::format_clock(19675 * 86400 + 3661), "01:01:01");
}
