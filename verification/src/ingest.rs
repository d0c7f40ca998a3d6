//! The ingestion engine: chooses the effective timestamp and the archive
//! chat, expands reply chains, sizes attachments, builds the persisted
//! record, and performs the write block, preserving the schema invariants.
use vstd::prelude::*;

use crate::codec_item::{parse_log_item, ser_chat_meta, ser_log_item, ser_user_meta,
    chat_meta_to_chars, lemma_log_item_round_trip, log_item_to_chars, user_meta_to_chars};
use crate::keys::{build_chat_meta_key, build_file_chat_key, build_index_key, build_msg_key,
    build_ref_key, build_rel_key, build_user_meta_key, chat_meta_key, file_chat_key, index_key,
    lemma_index_key_disjoint, lemma_msg_key_disjoint, lemma_msg_key_inj, lemma_rel_key_disjoint,
    msg_key, ref_key, rel_key, user_meta_key};
use crate::model::{ChatMeta, InterMessage, LogItem, LogItemChatType, LogItemMediaType,
    LogItemMembershipType, LogItemSpecialType, MessageKind, PhotoSize, UserMeta};
use crate::num::{dec_i, lemma_dec_i_injective};
use crate::clones::{clone_channel, clone_chat, clone_entities, clone_location, clone_opt_str, clone_photo,
    clone_poll, clone_user, clone_venue};
use crate::store::Store;
use crate::text::string_from_chars;
use crate::views::{v_entities, v_inter, v_item, v_kind, v_opt_str, v_photo, v_photos, v_strings,
    v_user, ChatMetaV, ForwardFromV, InterMessageV, LogItemChatTypeV, LogItemMediaTypeV,
    LogItemMembershipTypeV, LogItemSpecialTypeV, LogItemV, MessageKindV, PhotoSizeV, UserMetaV};

verus! {

/// The largest attachment the archive stores, in bytes.
pub const MAX_FILE_SIZE: i64 = 1024 * 1024 * 50;

/// The day bucket of an effective timestamp: whole days since the epoch.
pub open spec fn day_of(t: int) -> int {
    t / 86400
}

/// The day bucket, computed.
pub fn day_of_time(t: i64) -> (d: i64)
    requires
        t >= 0,
    ensures
        d as int == day_of(t as int),
{
    t / 86400
}

/// A message at a whole multiple of a day lands in that day, not the one
/// before.
pub proof fn lemma_day_boundary(k: int)
    requires
        k >= 0,
    ensures
        day_of(86400 * k) == k,
        k > 0 ==> day_of(86400 * k - 1) == k - 1,
{
    assert(day_of(86400 * k) == k) by (nonlinear_arith)
        requires
            k >= 0,
    ;
    if k > 0 {
        assert((86400 * k - 1) / 86400 == k - 1) by (nonlinear_arith)
            requires
                k > 0,
        ;
    }
}

/// The effective timestamp of a message: the original date when the message
/// was forwarded, its own date otherwise.
pub open spec fn spec_effective_time(m: InterMessageV) -> i64 {
    match m.forward {
        Some(f) => f.date,
        None => m.date,
    }
}

/// Computes the effective timestamp.
pub fn effective_time(m: &InterMessage) -> (t: i64)
    ensures
        t == spec_effective_time(v_inter(*m)),
{
    match &m.forward {
        Some(f) => f.date,
        None => m.date,
    }
}

/// Whether the receiving chat is redirected to the forward origin: only a
/// private or unclassified chat, and only when the forward names a chat.
pub open spec fn spec_archive_chat_id(m: InterMessageV) -> i64 {
    if (m.chat is User || m.chat is Unknown) && m.forward is Some {
        match m.forward->0.from {
            ForwardFromV::User { id, user } => id,
            ForwardFromV::Channel { id, channel, message_id } => id,
            ForwardFromV::HiddenUser { name } => m.chat_id,
            ForwardFromFallback => m.chat_id,
        }
    } else {
        m.chat_id
    }
}

/// The metadata written for the archive chat: the forward origin's when
/// redirection applies, the receiving chat's otherwise.
pub open spec fn spec_archive_meta(m: InterMessageV) -> ChatMetaV {
    if (m.chat is User || m.chat is Unknown) && m.forward is Some {
        match m.forward->0.from {
            ForwardFromV::User { id, user } => ChatMetaV::User(user),
            ForwardFromV::Channel { id, channel, message_id } => ChatMetaV::Channel(channel),
            ForwardFromV::HiddenUser { name } => m.chat,
            ForwardFromFallback => m.chat,
        }
    } else {
        m.chat
    }
}

/// Computes the archive chat: its id and its metadata record.
pub fn archive_target(m: &InterMessage) -> (r: (i64, ChatMeta))
    ensures
        r.0 == spec_archive_chat_id(v_inter(*m)),
        crate::views::v_chat(r.1) == spec_archive_meta(v_inter(*m)),
{
    let receiving = matches!(m.chat, ChatMeta::User(_)) || matches!(m.chat, ChatMeta::Unknown(_));
    if receiving {
        match &m.forward {
            Some(f) => {
                match &f.from {
                    crate::model::ForwardFrom::User { id, user } => {
                        return (*id, ChatMeta::User(clone_user(user)));
                    },
                    crate::model::ForwardFrom::Channel { id, channel, message_id } => {
                        return (*id, ChatMeta::Channel(clone_channel(channel)));
                    },
                    _ => {
                        return (m.chat_id, clone_chat(&m.chat));
                    },
                }
            },
            None => {
                return (m.chat_id, clone_chat(&m.chat));
            },
        }
    }
    (m.chat_id, clone_chat(&m.chat))
}

/// Whether an attachment passes the size policy: a declared size is
/// required, and it must not exceed the ceiling.
pub fn accept_attachment(file_size: &Option<i64>) -> (r: bool)
    ensures
        r == (file_size matches Some(n) && n <= MAX_FILE_SIZE),
{
    match file_size {
        Some(n) => *n <= MAX_FILE_SIZE,
        None => false,
    }
}

/// The area of a photo size.
pub open spec fn photo_area(p: PhotoSizeV) -> int {
    p.width * p.height
}

/// Picks the photo size with the greatest area; an earlier photo wins a tie.
pub fn find_biggest_photo(photos: &Vec<PhotoSize>) -> (r: PhotoSize)
    requires
        photos@.len() >= 1,
        forall|i: int|
            0 <= i < photos@.len() ==> 0 <= (#[trigger] photos@[i]).width <= 0x7fffffff && 0
                <= photos@[i].height <= 0x7fffffff,
    ensures
        exists|i: int|
            0 <= i < photos@.len() && v_photo(r) == (#[trigger] v_photos(photos@)[i]) && (forall|
                j: int,
            |
                0 <= j < photos@.len() ==> photo_area(#[trigger] v_photos(photos@)[j])
                    <= photo_area(v_photos(photos@)[i])) && (forall|j: int|
                0 <= j < i ==> photo_area(#[trigger] v_photos(photos@)[j]) < photo_area(
                    v_photos(photos@)[i],
                )),
{
    let mut best: usize = 0;
    let mut k: usize = 1;
    proof {
        assert(photos@[0].width * photos@[0].height >= 0) by (nonlinear_arith)
            requires
                photos@[0].width >= 0 && photos@[0].height >= 0,
        ;
    }
    while k < photos.len()
        invariant
            1 <= k <= photos@.len(),
            0 <= best < k,
            forall|i: int|
                0 <= i < photos@.len() ==> 0 <= (#[trigger] photos@[i]).width <= 0x7fffffff && 0
                    <= photos@[i].height <= 0x7fffffff,
            forall|j: int|
                0 <= j < k ==> photo_area(#[trigger] v_photos(photos@)[j]) <= photo_area(
                    v_photos(photos@)[best as int],
                ),
            forall|j: int|
                0 <= j < best ==> photo_area(#[trigger] v_photos(photos@)[j]) < photo_area(
                    v_photos(photos@)[best as int],
                ),
        decreases photos@.len() - k,
    {
        proof {
            assert(photos@[k as int].width * photos@[k as int].height
                <= 0x7fffffff * 0x7fffffff) by (nonlinear_arith)
                requires
                    0 <= photos@[k as int].width <= 0x7fffffff,
                    0 <= photos@[k as int].height <= 0x7fffffff,
            ;
            assert(photos@[best as int].width * photos@[best as int].height
                <= 0x7fffffff * 0x7fffffff) by (nonlinear_arith)
                requires
                    0 <= photos@[best as int].width <= 0x7fffffff,
                    0 <= photos@[best as int].height <= 0x7fffffff,
            ;
        }
        let area_k = photos[k].width * photos[k].height;
        let area_b = photos[best].width * photos[best].height;
        if area_k > area_b {
            best = k;
        }
        k = k + 1;
    }
    let r = clone_photo(&photos[best]);
    proof {
        assert(v_photos(photos@)[best as int] == v_photo(photos@[best as int]));
        assert(v_photo(r) == v_photos(photos@)[best as int]);
    }
    r
}


/// The attachments the pipeline fetches for one message: the one audio or
/// voice attachment, the area-biggest photo size alone, and nothing for
/// video or any other kind. Each entry is the file id, the declared size,
/// and whether the bytes must validate as a picture.
pub fn fetch_candidates(kind: &MessageKind) -> (r: Vec<(String, Option<i64>, bool)>)
    requires
        kind matches MessageKind::Photo { data, .. } ==> data@.len() >= 1 && forall|i: int|
            0 <= i < data@.len() ==> 0 <= (#[trigger] data@[i]).width <= 0x7fffffff && 0
                <= data@[i].height <= 0x7fffffff,
    ensures
        kind matches MessageKind::Audio { data } ==> r@.len() == 1 && r@[0].0@ == data.file_id@
            && r@[0].1 == data.file_size && !r@[0].2,
        kind matches MessageKind::Voice { data } ==> r@.len() == 1 && r@[0].0@ == data.file_id@
            && r@[0].1 == data.file_size && !r@[0].2,
        kind matches MessageKind::Photo { data, .. } ==> r@.len() == 1 && r@[0].2 && exists|i: int|
            0 <= i < data@.len() && r@[0].0@ == (#[trigger] data@[i]).file_id@ && r@[0].1
                == data@[i].file_size && forall|j: int|
                0 <= j < data@.len() ==> photo_area(v_photos(data@)[j]) <= photo_area(
                    v_photos(data@)[i],
                ),
        !((kind matches MessageKind::Audio { .. }) || (kind matches MessageKind::Voice { .. }) || (
        kind matches MessageKind::Photo { .. })) ==> r@.len() == 0,
{
    let mut out: Vec<(String, Option<i64>, bool)> = Vec::new();
    match kind {
        MessageKind::Audio { data } => {
            let size: Option<i64> = match data.file_size {
                None => None,
                Some(n) => Some(n),
            };
            out.push((data.file_id.clone(), size, false));
        },
        MessageKind::Voice { data } => {
            let size: Option<i64> = match data.file_size {
                None => None,
                Some(n) => Some(n),
            };
            out.push((data.file_id.clone(), size, false));
        },
        MessageKind::Photo { data, .. } => {
            let big = find_biggest_photo(data);
            proof {
                let i = choose|i: int|
                    0 <= i < data@.len() && v_photo(big) == (#[trigger] v_photos(data@)[i]) && (
                    forall|j: int|
                        0 <= j < data@.len() ==> photo_area(#[trigger] v_photos(data@)[j])
                            <= photo_area(v_photos(data@)[i])) && (forall|j: int|
                        0 <= j < i ==> photo_area(#[trigger] v_photos(data@)[j]) < photo_area(
                            v_photos(data@)[i],
                        ));
                assert(big.file_id@ == data@[i].file_id@);
                assert(big.file_size == data@[i].file_size) by {
                    assert(v_photo(big).file_size == v_photos(data@)[i].file_size);
                }
            }
            out.push((big.file_id, big.file_size, true));
        },
        _ => {},
    }
    out
}

/// The user id a record carries: the sender's, where one is known.
pub open spec fn spec_item_user_id(m: InterMessageV) -> Option<Seq<char>> {
    match m.from {
        Some(u) => Some(u.id),
        None => None,
    }
}

/// The persisted record built from a normalized message: the effective
/// timestamp, the sender, the shape of its kind, the accepted attachment
/// ids, and the message itself preserved as the record's source.
pub open spec fn spec_build_log_item(
    m: InterMessageV,
    files: Seq<Seq<char>>,
    thumb: Option<Seq<char>>,
    new_photo: Option<Seq<char>>,
    biggest: PhotoSizeV,
) -> LogItemV {
    let user_id = spec_item_user_id(m);
    let time = spec_effective_time(m);
    let source = Some(m);
    match m.kind {
        MessageKindV::Text { data, entities } => LogItemV::Message {
            user_id,
            time,
            text: data,
            entities,
            source,
        },
        MessageKindV::Audio { data } => LogItemV::Media {
            user_id,
            time,
            caption: None,
            media_type: LogItemMediaTypeV::Audio {
                duration: data.duration,
                performer: data.performer,
                title: data.title,
                mime_type: data.mime_type,
            },
            files,
            source,
        },
        MessageKindV::Voice { data } => LogItemV::Media {
            user_id,
            time,
            caption: None,
            media_type: LogItemMediaTypeV::Voice {
                duration: data.duration,
                mime_type: data.mime_type,
            },
            files,
            source,
        },
        MessageKindV::Photo { data, caption } => LogItemV::Media {
            user_id,
            time,
            caption,
            media_type: LogItemMediaTypeV::Image {
                width: biggest.width,
                height: biggest.height,
            },
            files,
            source,
        },
        MessageKindV::Document { data, caption } => LogItemV::Media {
            user_id,
            time,
            caption,
            media_type: LogItemMediaTypeV::Document {
                file_name: data.file_name,
                mime_type: data.mime_type,
            },
            files,
            source,
        },
        MessageKindV::Sticker { data } => LogItemV::Media {
            user_id,
            time,
            caption: None,
            media_type: LogItemMediaTypeV::Sticker {
                emoji: data.emoji,
                set_name: data.set_name,
            },
            files,
            source,
        },
        MessageKindV::Video { data, caption } => LogItemV::Media {
            user_id,
            time,
            caption,
            media_type: LogItemMediaTypeV::Video {
                duration: data.duration,
                width: data.width,
                height: data.height,
                thumb_file_id: thumb,
                mime_type: data.mime_type,
            },
            files,
            source,
        },
        MessageKindV::VideoNote { data } => LogItemV::Media {
            user_id,
            time,
            caption: None,
            media_type: LogItemMediaTypeV::VideoNote {
                duration: data.duration,
                thumb_file_id: thumb,
            },
            files,
            source,
        },
        MessageKindV::Contact { data } => LogItemV::Special {
            user_id,
            time,
            special_type: LogItemSpecialTypeV::Contact {
                user_id: match data.user_id { None => None, Some(n) => Some(n) },
                phone_number: data.phone_number,
                first_name: data.first_name,
                last_name: data.last_name,
            },
            source,
        },
        MessageKindV::Location { data } => LogItemV::Special {
            user_id,
            time,
            special_type: LogItemSpecialTypeV::Location { data },
            source,
        },
        MessageKindV::Poll { data } => LogItemV::Special {
            user_id,
            time,
            special_type: LogItemSpecialTypeV::Poll { data },
            source,
        },
        MessageKindV::Venue { data } => LogItemV::Special {
            user_id,
            time,
            special_type: LogItemSpecialTypeV::Venue { data },
            source,
        },
        MessageKindV::NewChatMembers { data } => LogItemV::Membership {
            user_id,
            time,
            membership_type: LogItemMembershipTypeV::Joined,
            source,
        },
        MessageKindV::LeftChatMember { data } => LogItemV::Membership {
            user_id,
            time,
            membership_type: LogItemMembershipTypeV::Left,
            source,
        },
        MessageKindV::NewChatTitle { data } => LogItemV::Chat {
            user_id,
            time,
            chat_type: LogItemChatTypeV::NewTitle { title: data },
            source,
        },
        MessageKindV::NewChatPhoto { data } => LogItemV::Chat {
            user_id,
            time,
            chat_type: LogItemChatTypeV::NewPhoto { file_id: new_photo },
            source,
        },
        MessageKindV::DeleteChatPhoto => LogItemV::Chat {
            user_id,
            time,
            chat_type: LogItemChatTypeV::DeletePhoto,
            source,
        },
        MessageKindV::PinnedMessage { message_id, text } => LogItemV::Pin {
            user_id,
            time,
            message: text,
            message_id,
            source,
        },
        MessageKindV::GroupChatCreated => LogItemV::Unimplemented {
            tag: "GroupChatCreated"@,
            user_id,
            time,
            source,
        },
        MessageKindV::SupergroupChatCreated => LogItemV::Unimplemented {
            tag: "SupergroupChatCreated"@,
            user_id,
            time,
            source,
        },
        MessageKindV::ChannelChatCreated => LogItemV::Unimplemented {
            tag: "ChannelChatCreated"@,
            user_id,
            time,
            source,
        },
        MessageKindV::MigrateToChatId { data } => LogItemV::Unimplemented {
            tag: "MigrateToChatId"@,
            user_id,
            time,
            source,
        },
        MessageKindV::MigrateFromChatId { data } => LogItemV::Unimplemented {
            tag: "MigrateFromChatId"@,
            user_id,
            time,
            source,
        },
        MessageKindV::Unknown { tag } => LogItemV::Unimplemented {
            tag: "Unknown"@,
            user_id,
            time,
            source,
        },
    }
}

/// Builds the persisted record of one normalized message. `files` are the
/// attachment ids that survived the media policy; `thumb` and `new_photo`
/// are the stored thumbnail and chat-photo ids, where the pipeline kept one.
pub fn build_log_item(
    m: InterMessage,
    files: Vec<String>,
    thumb: Option<String>,
    new_photo: Option<String>,
) -> (r: LogItem)
    requires
        m.kind matches MessageKind::Photo { data, .. } ==> data@.len() >= 1 && forall|i: int|
            0 <= i < data@.len() ==> 0 <= (#[trigger] data@[i]).width <= 0x7fffffff && 0
                <= data@[i].height <= 0x7fffffff,
    ensures
        ({
            let mv = v_inter(m);
            (m.kind matches MessageKind::Photo { data, .. } ==> exists|i: int|
                0 <= i < data@.len() && v_item(r) == spec_build_log_item(
                    mv,
                    v_strings(files@),
                    v_opt_str(thumb),
                    v_opt_str(new_photo),
                    #[trigger] v_photos(data@)[i],
                ) && (forall|j: int|
                    0 <= j < data@.len() ==> photo_area(#[trigger] v_photos(data@)[j])
                        <= photo_area(v_photos(data@)[i]))) && (!(
            m.kind matches MessageKind::Photo { .. }) ==> v_item(r) == spec_build_log_item(
                mv,
                v_strings(files@),
                v_opt_str(thumb),
                v_opt_str(new_photo),
                PhotoSizeV { file_id: Seq::empty(), width: 0, height: 0, file_size: None },
            ))
        }),
{
    let user_id: Option<String> = match &m.from {
        Some(u) => Some(u.id.clone()),
        None => None,
    };
    let time = effective_time(&m);
    match &m.kind {
        MessageKind::Text { data, entities } => {
            let text = data.clone();
            let ents = clone_entities(entities);
            LogItem::Message { user_id, time, text, entities: ents, source: Some(Box::new(m)) }
        },
        MessageKind::Audio { data } => {
            let media_type = LogItemMediaType::Audio {
                duration: data.duration,
                performer: clone_opt_str(&data.performer),
                title: clone_opt_str(&data.title),
                mime_type: clone_opt_str(&data.mime_type),
            };
            LogItem::Media {
                user_id,
                time,
                caption: None,
                media_type,
                files,
                source: Some(Box::new(m)),
            }
        },
        MessageKind::Voice { data } => {
            let media_type = LogItemMediaType::Voice {
                duration: data.duration,
                mime_type: clone_opt_str(&data.mime_type),
            };
            LogItem::Media {
                user_id,
                time,
                caption: None,
                media_type,
                files,
                source: Some(Box::new(m)),
            }
        },
        MessageKind::Photo { data, caption } => {
            let big = find_biggest_photo(data);
            let media_type = LogItemMediaType::Image { width: big.width, height: big.height };
            let cap = clone_opt_str(caption);
            LogItem::Media {
                user_id,
                time,
                caption: cap,
                media_type,
                files,
                source: Some(Box::new(m)),
            }
        },
        MessageKind::Document { data, caption } => {
            let media_type = LogItemMediaType::Document {
                file_name: clone_opt_str(&data.file_name),
                mime_type: clone_opt_str(&data.mime_type),
            };
            let cap = clone_opt_str(caption);
            LogItem::Media {
                user_id,
                time,
                caption: cap,
                media_type,
                files,
                source: Some(Box::new(m)),
            }
        },
        MessageKind::Sticker { data } => {
            let media_type = LogItemMediaType::Sticker {
                emoji: clone_opt_str(&data.emoji),
                set_name: clone_opt_str(&data.set_name),
            };
            LogItem::Media {
                user_id,
                time,
                caption: None,
                media_type,
                files,
                source: Some(Box::new(m)),
            }
        },
        MessageKind::Video { data, caption } => {
            let media_type = LogItemMediaType::Video {
                duration: data.duration,
                width: data.width,
                height: data.height,
                thumb_file_id: thumb,
                mime_type: clone_opt_str(&data.mime_type),
            };
            let cap = clone_opt_str(caption);
            LogItem::Media {
                user_id,
                time,
                caption: cap,
                media_type,
                files,
                source: Some(Box::new(m)),
            }
        },
        MessageKind::VideoNote { data } => {
            let media_type = LogItemMediaType::VideoNote {
                duration: data.duration,
                thumb_file_id: thumb,
            };
            LogItem::Media {
                user_id,
                time,
                caption: None,
                media_type,
                files,
                source: Some(Box::new(m)),
            }
        },
        MessageKind::Contact { data } => {
            let special_type = LogItemSpecialType::Contact {
                user_id: match data.user_id { None => None, Some(n) => Some(n) },
                phone_number: data.phone_number.clone(),
                first_name: data.first_name.clone(),
                last_name: clone_opt_str(&data.last_name),
            };
            LogItem::Special { user_id, time, special_type, source: Some(Box::new(m)) }
        },
        MessageKind::Location { data } => {
            let special_type = LogItemSpecialType::Location { data: clone_location(data) };
            LogItem::Special { user_id, time, special_type, source: Some(Box::new(m)) }
        },
        MessageKind::Poll { data } => {
            let special_type = LogItemSpecialType::Poll { data: clone_poll(data) };
            LogItem::Special { user_id, time, special_type, source: Some(Box::new(m)) }
        },
        MessageKind::Venue { data } => {
            let special_type = LogItemSpecialType::Venue { data: clone_venue(data) };
            LogItem::Special { user_id, time, special_type, source: Some(Box::new(m)) }
        },
        MessageKind::NewChatMembers { data } => {
            LogItem::Membership {
                user_id,
                time,
                membership_type: LogItemMembershipType::Joined,
                source: Some(Box::new(m)),
            }
        },
        MessageKind::LeftChatMember { data } => {
            LogItem::Membership {
                user_id,
                time,
                membership_type: LogItemMembershipType::Left,
                source: Some(Box::new(m)),
            }
        },
        MessageKind::NewChatTitle { data } => {
            let chat_type = LogItemChatType::NewTitle { title: data.clone() };
            LogItem::Chat { user_id, time, chat_type, source: Some(Box::new(m)) }
        },
        MessageKind::NewChatPhoto { data } => {
            let chat_type = LogItemChatType::NewPhoto { file_id: new_photo };
            LogItem::Chat { user_id, time, chat_type, source: Some(Box::new(m)) }
        },
        MessageKind::DeleteChatPhoto => {
            LogItem::Chat {
                user_id,
                time,
                chat_type: LogItemChatType::DeletePhoto,
                source: Some(Box::new(m)),
            }
        },
        MessageKind::PinnedMessage { message_id, text } => {
            let message = clone_opt_str(text);
            let mid = *message_id;
            LogItem::Pin { user_id, time, message, message_id: mid, source: Some(Box::new(m)) }
        },
        MessageKind::GroupChatCreated => {
            let mut tc: Vec<char> = Vec::new();
            crate::text::push_str_chars(&mut tc, "GroupChatCreated");
            LogItem::Unimplemented {
                tag: string_from_chars(&tc),
                user_id,
                time,
                source: Some(Box::new(m)),
            }
        },
        MessageKind::SupergroupChatCreated => {
            let mut tc: Vec<char> = Vec::new();
            crate::text::push_str_chars(&mut tc, "SupergroupChatCreated");
            LogItem::Unimplemented {
                tag: string_from_chars(&tc),
                user_id,
                time,
                source: Some(Box::new(m)),
            }
        },
        MessageKind::ChannelChatCreated => {
            let mut tc: Vec<char> = Vec::new();
            crate::text::push_str_chars(&mut tc, "ChannelChatCreated");
            LogItem::Unimplemented {
                tag: string_from_chars(&tc),
                user_id,
                time,
                source: Some(Box::new(m)),
            }
        },
        MessageKind::MigrateToChatId { data } => {
            let mut tc: Vec<char> = Vec::new();
            crate::text::push_str_chars(&mut tc, "MigrateToChatId");
            LogItem::Unimplemented {
                tag: string_from_chars(&tc),
                user_id,
                time,
                source: Some(Box::new(m)),
            }
        },
        MessageKind::MigrateFromChatId { data } => {
            let mut tc: Vec<char> = Vec::new();
            crate::text::push_str_chars(&mut tc, "MigrateFromChatId");
            LogItem::Unimplemented {
                tag: string_from_chars(&tc),
                user_id,
                time,
                source: Some(Box::new(m)),
            }
        },
        MessageKind::Unknown { tag } => {
            let mut tc: Vec<char> = Vec::new();
            crate::text::push_str_chars(&mut tc, "Unknown");
            LogItem::Unimplemented {
                tag: string_from_chars(&tc),
                user_id,
                time,
                source: Some(Box::new(m)),
            }
        },
    }
}

/// Copies a normalized message, reply chain included.
pub fn clone_inter(m: &InterMessage) -> (r: InterMessage)
    ensures
        v_inter(r) == v_inter(*m),
    decreases *m,
{
    let from: Option<UserMeta> = match &m.from {
        None => None,
        Some(u) => Some(clone_user(u)),
    };
    let chat = clone_chat(&m.chat);
    let forward: Option<crate::model::Forward> = match &m.forward {
        None => None,
        Some(f) => Some(clone_forward(f)),
    };
    let reply_to_message: Option<Box<InterMessage>> = match &m.reply_to_message {
        None => None,
        Some(b) => Some(Box::new(clone_inter(b))),
    };
    let edit_date: Option<i64> = match m.edit_date {
        None => None,
        Some(n) => Some(n),
    };
    let kind = clone_kind(&m.kind);
    InterMessage {
        id: m.id,
        from,
        date: m.date,
        chat_id: m.chat_id,
        chat,
        forward,
        reply_to_message,
        edit_date,
        kind,
    }
}

/// Copies a forward mark.
pub fn clone_forward(f: &crate::model::Forward) -> (r: crate::model::Forward)
    ensures
        crate::views::v_forward(r) == crate::views::v_forward(*f),
{
    let from = match &f.from {
        crate::model::ForwardFrom::User { id, user } => crate::model::ForwardFrom::User {
            id: *id,
            user: clone_user(user),
        },
        crate::model::ForwardFrom::Channel { id, channel, message_id } => {
            crate::model::ForwardFrom::Channel {
                id: *id,
                channel: clone_channel(channel),
                message_id: *message_id,
            }
        },
        crate::model::ForwardFrom::HiddenUser { name } => crate::model::ForwardFrom::HiddenUser {
            name: name.clone(),
        },
        crate::model::ForwardFrom::HiddenGroupAdmin { chat_id, title } => {
            crate::model::ForwardFrom::HiddenGroupAdmin { chat_id: *chat_id, title: title.clone() }
        },
    };
    crate::model::Forward { date: f.date, from }
}

/// Copies a raw kind.
pub fn clone_kind(k: &MessageKind) -> (r: MessageKind)
    ensures
        v_kind(r) == v_kind(*k),
{
    match k {
        MessageKind::Text { data, entities } => MessageKind::Text {
            data: data.clone(),
            entities: clone_entities(entities),
        },
        MessageKind::Audio { data } => MessageKind::Audio {
            data: crate::model::AudioData {
                file_id: data.file_id.clone(),
                duration: data.duration,
                performer: clone_opt_str(&data.performer),
                title: clone_opt_str(&data.title),
                mime_type: clone_opt_str(&data.mime_type),
                file_size: match data.file_size {
                    None => None,
                    Some(n) => Some(n),
                },
            },
        },
        MessageKind::Voice { data } => MessageKind::Voice {
            data: crate::model::VoiceData {
                file_id: data.file_id.clone(),
                duration: data.duration,
                mime_type: clone_opt_str(&data.mime_type),
                file_size: match data.file_size {
                    None => None,
                    Some(n) => Some(n),
                },
            },
        },
        MessageKind::Photo { data, caption } => MessageKind::Photo {
            data: clone_photos(data),
            caption: clone_opt_str(caption),
        },
        MessageKind::Document { data, caption } => MessageKind::Document {
            data: crate::model::DocumentData {
                file_id: data.file_id.clone(),
                file_name: clone_opt_str(&data.file_name),
                mime_type: clone_opt_str(&data.mime_type),
                file_size: match data.file_size {
                    None => None,
                    Some(n) => Some(n),
                },
            },
            caption: clone_opt_str(caption),
        },
        MessageKind::Sticker { data } => MessageKind::Sticker {
            data: crate::model::StickerData {
                file_id: data.file_id.clone(),
                width: data.width,
                height: data.height,
                emoji: clone_opt_str(&data.emoji),
                set_name: clone_opt_str(&data.set_name),
                file_size: match data.file_size {
                    None => None,
                    Some(n) => Some(n),
                },
            },
        },
        MessageKind::Video { data, caption } => MessageKind::Video {
            data: crate::model::VideoData {
                file_id: data.file_id.clone(),
                width: data.width,
                height: data.height,
                duration: data.duration,
                thumb: match &data.thumb {
                    None => None,
                    Some(p) => Some(clone_photo(p)),
                },
                mime_type: clone_opt_str(&data.mime_type),
                file_size: match data.file_size {
                    None => None,
                    Some(n) => Some(n),
                },
            },
            caption: clone_opt_str(caption),
        },
        MessageKind::VideoNote { data } => MessageKind::VideoNote {
            data: crate::model::VideoNoteData {
                file_id: data.file_id.clone(),
                duration: data.duration,
                thumb: match &data.thumb {
                    None => None,
                    Some(p) => Some(clone_photo(p)),
                },
                file_size: match data.file_size {
                    None => None,
                    Some(n) => Some(n),
                },
            },
        },
        MessageKind::Contact { data } => MessageKind::Contact {
            data: crate::model::ContactData {
                phone_number: data.phone_number.clone(),
                first_name: data.first_name.clone(),
                last_name: clone_opt_str(&data.last_name),
                user_id: match data.user_id {
                    None => None,
                    Some(n) => Some(n),
                },
            },
        },
        MessageKind::Location { data } => MessageKind::Location { data: clone_location(data) },
        MessageKind::Poll { data } => MessageKind::Poll { data: clone_poll(data) },
        MessageKind::Venue { data } => MessageKind::Venue { data: clone_venue(data) },
        MessageKind::NewChatMembers { data } => MessageKind::NewChatMembers {
            data: clone_users(data),
        },
        MessageKind::LeftChatMember { data } => MessageKind::LeftChatMember {
            data: clone_user(data),
        },
        MessageKind::NewChatTitle { data } => MessageKind::NewChatTitle { data: data.clone() },
        MessageKind::NewChatPhoto { data } => MessageKind::NewChatPhoto {
            data: clone_photos(data),
        },
        MessageKind::DeleteChatPhoto => MessageKind::DeleteChatPhoto,
        MessageKind::PinnedMessage { message_id, text } => MessageKind::PinnedMessage {
            message_id: *message_id,
            text: clone_opt_str(text),
        },
        MessageKind::GroupChatCreated => MessageKind::GroupChatCreated,
        MessageKind::SupergroupChatCreated => MessageKind::SupergroupChatCreated,
        MessageKind::ChannelChatCreated => MessageKind::ChannelChatCreated,
        MessageKind::MigrateToChatId { data } => MessageKind::MigrateToChatId { data: *data },
        MessageKind::MigrateFromChatId { data } => MessageKind::MigrateFromChatId { data: *data },
        MessageKind::Unknown { tag } => MessageKind::Unknown { tag: tag.clone() },
    }
}

/// Copies a photo list.
pub fn clone_photos(ps: &Vec<PhotoSize>) -> (r: Vec<PhotoSize>)
    ensures
        v_photos(r@) == v_photos(ps@),
{
    let mut out: Vec<PhotoSize> = Vec::new();
    let mut i: usize = 0;
    while i < ps.len()
        invariant
            i <= ps@.len(),
            out@.len() == i,
            forall|j: int| 0 <= j < i ==> v_photo(#[trigger] out@[j]) == v_photo(ps@[j]),
        decreases ps@.len() - i,
    {
        out.push(clone_photo(&ps[i]));
        i = i + 1;
    }
    proof {
        assert(v_photos(out@) =~= v_photos(ps@));
    }
    out
}

/// Copies a user list.
pub fn clone_users(us: &Vec<UserMeta>) -> (r: Vec<UserMeta>)
    ensures
        crate::views::v_users(r@) == crate::views::v_users(us@),
{
    let mut out: Vec<UserMeta> = Vec::new();
    let mut i: usize = 0;
    while i < us.len()
        invariant
            i <= us@.len(),
            out@.len() == i,
            forall|j: int| 0 <= j < i ==> v_user(#[trigger] out@[j]) == v_user(us@[j]),
        decreases us@.len() - i,
    {
        out.push(clone_user(&us[i]));
        i = i + 1;
    }
    proof {
        assert(crate::views::v_users(out@) =~= crate::views::v_users(us@));
    }
    out
}

/// The chain of messages ingested for one message: its reply context first,
/// then the message itself, cut off below the given depth.
pub open spec fn reply_chain(m: InterMessageV, depth: nat) -> Seq<InterMessageV>
    decreases depth,
{
    if depth == 0 {
        seq![m]
    } else {
        match m.reply_to_message {
            None => seq![m],
            Some(b) => reply_chain(*b, (depth - 1) as nat) + seq![m],
        }
    }
}

/// Every replied-to message stands directly before the message that replies
/// to it, so a scan of the chain meets the context first.
pub proof fn lemma_reply_chain_order(m: InterMessageV, depth: nat)
    ensures
        reply_chain(m, depth).len() >= 1,
        reply_chain(m, depth).last() == m,
        forall|i: int|
            0 < i < reply_chain(m, depth).len() ==> ((#[trigger] reply_chain(m, depth)[i]).reply_to_message
                matches Some(b) && *b == reply_chain(m, depth)[i - 1]),
    decreases depth,
{
    if depth > 0 {
        match m.reply_to_message {
            None => {},
            Some(b) => {
                lemma_reply_chain_order(*b, (depth - 1) as nat);
                let inner = reply_chain(*b, (depth - 1) as nat);
                let whole = reply_chain(m, depth);
                assert forall|i: int|
                    0 < i < whole.len() implies ((#[trigger] whole[i]).reply_to_message matches Some(
                    b2,
                ) && *b2 == whole[i - 1]) by {
                    if i < inner.len() {
                        assert(whole[i] == inner[i]);
                        assert(whole[i - 1] == inner[i - 1]);
                    } else {
                        assert(whole[i] == m);
                        assert(whole[i - 1] == inner.last());
                    }
                }
            },
        }
    }
}

/// The views of a message list.
pub open spec fn v_inters(s: Seq<InterMessage>) -> Seq<InterMessageV> {
    Seq::new(s.len(), |i: int| v_inter(s[i]))
}

/// Expands a message into the list in which it is ingested: replied-to
/// context first, the message last, at most `depth` levels of context.
pub fn flatten_replies(m: InterMessage, depth: usize) -> (r: Vec<InterMessage>)
    ensures
        v_inters(r@) == reply_chain(v_inter(m), depth as nat),
    decreases depth,
{
    if depth == 0 {
        let mut out: Vec<InterMessage> = Vec::new();
        let ghost mv = v_inter(m);
        out.push(m);
        proof {
            assert(v_inters(out@) =~= seq![mv]);
        }
        out
    } else {
        match &m.reply_to_message {
            None => {
                let mut out: Vec<InterMessage> = Vec::new();
                let ghost mv = v_inter(m);
                out.push(m);
                proof {
                    assert(v_inters(out@) =~= seq![mv]);
                }
                out
            },
            Some(b) => {
                let inner = clone_inter(b);
                let mut out = flatten_replies(inner, depth - 1);
                let ghost pre = out@;
                let ghost mv = v_inter(m);
                out.push(m);
                proof {
                    assert(v_inters(out@) =~= v_inters(pre) + seq![mv]);
                }
                out
            },
        }
    }
}

/// The marker value of presence keys.
pub fn marker_string() -> (s: String)
    ensures
        s@ == seq!['\u{0}'],
{
    let mut v: Vec<char> = Vec::new();
    v.push('\u{0}');
    string_from_chars(&v)
}

/// The day-index invariant of the store: every message record has its day
/// marked and its chat in the roster.
pub open spec fn index_inv(m: Map<Seq<char>, Seq<char>>) -> bool {
    forall|c: int, t: int|
        #[trigger] m.contains_key(msg_key(c, t)) ==> m.contains_key(index_key(c, day_of(t)))
            && m.contains_key(rel_key(c))
}

/// The reference invariant of the store: a message-id reference holds the
/// numeral of an effective timestamp under which a record is stored, and
/// that record's preserved source carries the same message id.
pub open spec fn ref_inv(m: Map<Seq<char>, Seq<char>>) -> bool {
    forall|c: int, mid: int|
        #[trigger] m.contains_key(ref_key(c, mid)) ==> exists|t: int|
            m[ref_key(c, mid)] == dec_i(t) && #[trigger] m.contains_key(msg_key(c, t)) && (
            match stored_item(m[msg_key(c, t)]) {
                Some(x) => item_source_id(x) == Some(mid as i64),
                None => false,
            })
}

/// The record a stored text denotes. Opaque: the invariants below quantify
/// over it, and only the round-trip law is needed of it there.
#[verifier::opaque]
pub open spec fn stored_item(v: Seq<char>) -> Option<LogItemV> {
    parse_log_item(v)
}

/// The opaque reading agrees with the parser.
pub proof fn lemma_stored_item_of_ser(x: LogItemV)
    ensures
        stored_item(ser_log_item(x)) == Some(x),
{
    reveal(stored_item);
    lemma_log_item_round_trip(x);
}

/// The message id preserved in a record's source.
pub open spec fn item_source_id(x: LogItemV) -> Option<i64> {
    match item_source(x) {
        Some(s) => Some(s.id),
        None => None,
    }
}

/// The preserved source of a record.
pub open spec fn item_source(x: LogItemV) -> Option<InterMessageV> {
    match x {
        LogItemV::Message { source, .. } => source,
        LogItemV::Media { source, .. } => source,
        LogItemV::Special { source, .. } => source,
        LogItemV::Membership { source, .. } => source,
        LogItemV::Chat { source, .. } => source,
        LogItemV::Pin { source, .. } => source,
        LogItemV::Unimplemented { source, .. } => source,
    }
}

/// The media invariant of the store: every file id in a stored media record
/// has its blob present.
pub open spec fn media_inv(tm: Map<Seq<char>, Seq<char>>, bm: Map<Seq<char>, Seq<u8>>) -> bool {
    forall|c: int, t: int|
        #[trigger] tm.contains_key(msg_key(c, t)) ==> (match stored_item(tm[msg_key(c, t)]) {
            Some(LogItemV::Media { files, .. }) => forall|i: int|
                0 <= i < files.len() ==> bm.contains_key(file_chat_key(#[trigger] files[i])),
            _ => true,
        })
}

/// Stores a message attachment blob under its file id, validating pictures
/// by decoding them. Returns whether the blob was stored; it is stored
/// exactly when it is nonempty and either no picture check was asked for or
/// the bytes decode, so a stored blob is never empty.
pub fn store_attachment(store: &mut Store, file_id: &str, bytes: Vec<u8>, check_image: bool) -> (stored:
    bool)
    requires
        old(store).wf(),
    ensures
        final(store).wf(),
        stored == (bytes@.len() > 0 && (!check_image || crate::imagefmt::is_valid_image(bytes@))),
        stored ==> final(store).blob_map() == old(store).blob_map().insert(
            file_chat_key(file_id@),
            bytes@,
        ) && final(store).text_map() == old(store).text_map(),
        !stored ==> *final(store) == *old(store),
{
    if bytes.len() == 0 {
        return false;
    }
    if check_image {
        let ok = crate::imagefmt::image_ok(bytes.as_slice());
        if !ok {
            return false;
        }
    }
    let key = build_file_chat_key(file_id);
    store.put_blob(key, bytes);
    true
}

/// Stores a video or chat-photo thumbnail under its file id; the bytes must
/// be nonempty and decode as a picture.
pub fn store_video_thumb(store: &mut Store, file_id: &str, bytes: Vec<u8>) -> (stored: bool)
    requires
        old(store).wf(),
    ensures
        final(store).wf(),
        stored == (bytes@.len() > 0 && crate::imagefmt::is_valid_image(bytes@)),
        stored ==> final(store).blob_map() == old(store).blob_map().insert(
            crate::keys::file_video_thumb_key(file_id@),
            bytes@,
        ) && final(store).text_map() == old(store).text_map(),
        !stored ==> *final(store) == *old(store),
{
    if bytes.len() == 0 {
        return false;
    }
    let ok = crate::imagefmt::image_ok(bytes.as_slice());
    if !ok {
        return false;
    }
    let key = crate::keys::build_file_video_thumb_key(file_id);
    store.put_blob(key, bytes);
    true
}

/// Stores a user's profile picture under the user id; the bytes must be
/// nonempty and decode as a picture.
pub fn store_user_photo(store: &mut Store, user_id: &str, bytes: Vec<u8>) -> (stored: bool)
    requires
        old(store).wf(),
    ensures
        final(store).wf(),
        stored == (bytes@.len() > 0 && crate::imagefmt::is_valid_image(bytes@)),
        stored ==> final(store).blob_map() == old(store).blob_map().insert(
            crate::keys::file_user_key(user_id@),
            bytes@,
        ) && final(store).text_map() == old(store).text_map(),
        !stored ==> *final(store) == *old(store),
{
    if bytes.len() == 0 {
        return false;
    }
    let ok = crate::imagefmt::image_ok(bytes.as_slice());
    if !ok {
        return false;
    }
    let key = crate::keys::build_file_user_key(user_id);
    store.put_blob(key, bytes);
    true
}

/// Whether a blob already exists for this file id; downloads are skipped
/// when it does.
pub fn has_attachment(store: &Store, file_id: &str) -> (r: bool)
    requires
        store.wf(),
    ensures
        r == store.blob_map().contains_key(file_chat_key(file_id@)),
{
    let key = build_file_chat_key(file_id);
    store.has_blob(&key)
}

/// Writes the record block of one ingested message: the record, its day
/// mark, its roster entry, its message-id reference, and the chat metadata,
/// all under the archive chat.
pub fn write_message_block(
    store: &mut Store,
    chat_id: i64,
    message_id: i64,
    time: i64,
    item: &LogItem,
    meta: &ChatMeta,
)
    requires
        old(store).wf(),
        time >= 0,
    ensures
        final(store).wf(),
        final(store).text_map() == old(store).text_map().insert(
            msg_key(chat_id as int, time as int),
            ser_log_item(v_item(*item)),
        ).insert(
            index_key(chat_id as int, day_of(time as int)),
            seq!['\u{0}'],
        ).insert(rel_key(chat_id as int), seq!['\u{0}']).insert(
            ref_key(chat_id as int, message_id as int),
            dec_i(time as int),
        ).insert(chat_meta_key(chat_id as int), ser_chat_meta(crate::views::v_chat(*meta))),
        final(store).blob_map() == old(store).blob_map(),
{
    let item_text = log_item_to_chars(item);
    store.put_text(build_msg_key(chat_id, time), string_from_chars(&item_text));
    let day = day_of_time(time);
    store.put_text(build_index_key(chat_id, day), marker_string());
    store.put_text(build_rel_key(chat_id), marker_string());
    let tchars = crate::num::dec_i64_chars(time);
    store.put_text(build_ref_key(chat_id, message_id), string_from_chars(&tchars));
    let meta_text = chat_meta_to_chars(meta);
    store.put_text(build_chat_meta_key(chat_id), string_from_chars(&meta_text));
}

/// The write block of one message keeps the day-index invariant: the new
/// record's day mark and roster entry are written beside it, and every older
/// record keeps its own.
pub proof fn lemma_index_inv_step(
    m0: Map<Seq<char>, Seq<char>>,
    c: int,
    t: int,
    rec: Seq<char>,
    mid: int,
    metav: Seq<char>,
)
    requires
        index_inv(m0),
    ensures
        index_inv(
            m0.insert(msg_key(c, t), rec).insert(index_key(c, day_of(t)), seq!['\u{0}']).insert(
                rel_key(c),
                seq!['\u{0}'],
            ).insert(ref_key(c, mid), dec_i(t)).insert(chat_meta_key(c), metav),
        ),
{
    let m5 = m0.insert(msg_key(c, t), rec).insert(index_key(c, day_of(t)), seq!['\u{0}']).insert(
        rel_key(c),
        seq!['\u{0}'],
    ).insert(ref_key(c, mid), dec_i(t)).insert(chat_meta_key(c), metav);
    lemma_msg_key_disjoint(c, t);
    lemma_index_key_disjoint(c, day_of(t));
    lemma_rel_key_disjoint(c);
    assert forall|c2: int, t2: int| #[trigger] m5.contains_key(msg_key(c2, t2)) implies
        m5.contains_key(index_key(c2, day_of(t2))) && m5.contains_key(rel_key(c2)) by {
        lemma_msg_key_disjoint(c2, t2);
        if msg_key(c2, t2) == msg_key(c, t) {
            lemma_msg_key_inj(c2, t2, c, t);
        } else {
            assert(m0.contains_key(msg_key(c2, t2)));
        }
    }
}

/// The write block of one message keeps the media invariant, provided every
/// file id of the new record has its blob stored already.
pub proof fn lemma_media_inv_step(
    m0: Map<Seq<char>, Seq<char>>,
    bm: Map<Seq<char>, Seq<u8>>,
    c: int,
    t: int,
    x: LogItemV,
    mid: int,
    metav: Seq<char>,
)
    requires
        media_inv(m0, bm),
        x matches LogItemV::Media { files, .. } ==> forall|i: int|
            0 <= i < files.len() ==> bm.contains_key(file_chat_key(#[trigger] files[i])),
    ensures
        media_inv(
            m0.insert(msg_key(c, t), ser_log_item(x)).insert(
                index_key(c, day_of(t)),
                seq!['\u{0}'],
            ).insert(rel_key(c), seq!['\u{0}']).insert(ref_key(c, mid), dec_i(t)).insert(
                chat_meta_key(c),
                metav,
            ),
            bm,
        ),
{
    let m5 = m0.insert(msg_key(c, t), ser_log_item(x)).insert(
        index_key(c, day_of(t)),
        seq!['\u{0}'],
    ).insert(rel_key(c), seq!['\u{0}']).insert(ref_key(c, mid), dec_i(t)).insert(
        chat_meta_key(c),
        metav,
    );
    lemma_msg_key_disjoint(c, t);
    lemma_index_key_disjoint(c, day_of(t));
    lemma_rel_key_disjoint(c);
    assert forall|c2: int, t2: int| #[trigger] m5.contains_key(msg_key(c2, t2)) implies (
    match stored_item(m5[msg_key(c2, t2)]) {
        Some(LogItemV::Media { files, .. }) => forall|i: int|
            0 <= i < files.len() ==> bm.contains_key(file_chat_key(#[trigger] files[i])),
        _ => true,
    }) by {
        lemma_msg_key_disjoint(c2, t2);
        if msg_key(c2, t2) == msg_key(c, t) {
            lemma_msg_key_inj(c2, t2, c, t);
            lemma_stored_item_of_ser(x);
            assert(m5[msg_key(c, t)] == ser_log_item(x));
        } else {
            assert(m0.contains_key(msg_key(c2, t2)));
            assert(m5[msg_key(c2, t2)] == m0[msg_key(c2, t2)]);
        }
    }
}

/// The write block of one message keeps the reference invariant, provided
/// the record's slot is fresh and the record preserves its source under the
/// written message id. Two forwards of one original share an effective
/// timestamp and so a slot; such an overwrite of an occupied slot is the key
/// layout's own open corner, and this lemma says nothing about it.
#[verifier::rlimit(100)]
pub proof fn lemma_ref_inv_step(
    m0: Map<Seq<char>, Seq<char>>,
    c: int,
    t: int,
    x: LogItemV,
    mid: int,
    metav: Seq<char>,
)
    requires
        ref_inv(m0),
        !m0.contains_key(msg_key(c, t)),
        item_source_id(x) matches Some(i) && i as int == mid,
    ensures
        ref_inv(
            m0.insert(msg_key(c, t), ser_log_item(x)).insert(
                index_key(c, day_of(t)),
                seq!['\u{0}'],
            ).insert(rel_key(c), seq!['\u{0}']).insert(ref_key(c, mid), dec_i(t)).insert(
                chat_meta_key(c),
                metav,
            ),
        ),
{
    let m5 = m0.insert(msg_key(c, t), ser_log_item(x)).insert(
        index_key(c, day_of(t)),
        seq!['\u{0}'],
    ).insert(rel_key(c), seq!['\u{0}']).insert(ref_key(c, mid), dec_i(t)).insert(
        chat_meta_key(c),
        metav,
    );
    lemma_msg_key_disjoint(c, t);
    lemma_index_key_disjoint(c, day_of(t));
    lemma_rel_key_disjoint(c);
    crate::keys::lemma_ref_key_ne_meta(c, mid);
    crate::keys::lemma_chat_meta_key_disjoint(c);
    assert forall|c2: int, mid2: int| #[trigger] m5.contains_key(ref_key(c2, mid2)) implies
        exists|t2: int|
        m5[ref_key(c2, mid2)] == dec_i(t2) && #[trigger] m5.contains_key(msg_key(c2, t2)) && (
        match stored_item(m5[msg_key(c2, t2)]) {
            Some(x2) => item_source_id(x2) == Some(mid2 as i64),
            None => false,
        }) by {
        if ref_key(c2, mid2) == ref_key(c, mid) {
            crate::keys::lemma_ref_key_inj(c2, mid2, c, mid);
            lemma_stored_item_of_ser(x);
            assert(m5[ref_key(c, mid)] == dec_i(t));
            assert(m5.contains_key(msg_key(c, t)));
            assert(m5[msg_key(c, t)] == ser_log_item(x));
        } else {
            assert(m0.contains_key(ref_key(c2, mid2)));
            let t2 = choose|t2: int|
                m0[ref_key(c2, mid2)] == dec_i(t2) && #[trigger] m0.contains_key(
                    msg_key(c2, t2),
                ) && (match stored_item(m0[msg_key(c2, t2)]) {
                    Some(x2) => item_source_id(x2) == Some(mid2 as i64),
                    None => false,
                });
            lemma_msg_key_disjoint(c2, t2);
            assert(m5[ref_key(c2, mid2)] == m0[ref_key(c2, mid2)]);
            assert(msg_key(c2, t2) != msg_key(c, t));
            assert(m5.contains_key(msg_key(c2, t2)));
            assert(m5[msg_key(c2, t2)] == m0[msg_key(c2, t2)]);
        }
    }
}

/// Writes the identity snapshot of a user.
pub fn upsert_user_meta(store: &mut Store, user: &UserMeta)
    requires
        old(store).wf(),
    ensures
        final(store).wf(),
        final(store).text_map() == old(store).text_map().insert(
            user_meta_key(user.id@),
            ser_user_meta(v_user(*user)),
        ),
        final(store).blob_map() == old(store).blob_map(),
        index_inv(old(store).text_map()) ==> index_inv(final(store).text_map()),
{
    let key = build_user_meta_key(user.id.as_str());
    let text = user_meta_to_chars(user);
    store.put_text(key, string_from_chars(&text));
    proof {
        if index_inv(old(store).text_map()) {
            let m0 = old(store).text_map();
            let m1 = store.text_map();
            assert forall|c2: int, t2: int| #[trigger]
                m1.contains_key(msg_key(c2, t2)) implies m1.contains_key(
                index_key(c2, day_of(t2)),
            ) && m1.contains_key(rel_key(c2)) by {
                lemma_msg_key_disjoint(c2, t2);
                assert(m0.contains_key(msg_key(c2, t2)));
            }
        }
    }
}

} // verus!
