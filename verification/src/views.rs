//! Mathematical views of the data model: the same shapes over `Seq<char>`
//! and `Seq`, which the contracts, the codec and the laws quantify over.
use vstd::prelude::*;

use crate::model::{AudioData, ChannelMeta, ChatMeta, ContactData, DocumentData, Entity, EntityKind,
    Forward, ForwardFrom, GroupMeta, InterMessage, LocationData, LogItem, LogItemChatType,
    LogItemMediaType, LogItemMembershipType, LogItemSpecialType, MessageKind, PhotoSize, PollData,
    PollOption, RawChatMeta, StickerData, SuperGroupMeta, UserMeta, VenueData, VideoData,
    VideoNoteData, VoiceData};

verus! {

#[verifier::ext_equal]
pub struct UserMetaV {
    pub id: Seq<char>,
    pub first_name: Seq<char>,
    pub last_name: Option<Seq<char>>,
    pub username: Option<Seq<char>>,
    pub is_bot: bool,
    pub language_code: Option<Seq<char>>,
}

#[verifier::ext_equal]
pub struct GroupMetaV {
    pub id: Seq<char>,
    pub title: Seq<char>,
    pub all_members_are_administrators: bool,
    pub invite_link: Option<Seq<char>>,
}

#[verifier::ext_equal]
pub struct SuperGroupMetaV {
    pub id: Seq<char>,
    pub title: Seq<char>,
    pub username: Option<Seq<char>>,
    pub invite_link: Option<Seq<char>>,
}

#[verifier::ext_equal]
pub struct ChannelMetaV {
    pub id: Seq<char>,
    pub title: Seq<char>,
    pub username: Option<Seq<char>>,
    pub invite_link: Option<Seq<char>>,
}

#[verifier::ext_equal]
pub struct RawChatMetaV {
    pub id: Seq<char>,
    pub chat_type: Seq<char>,
    pub title: Option<Seq<char>>,
    pub username: Option<Seq<char>>,
    pub first_name: Option<Seq<char>>,
    pub last_name: Option<Seq<char>>,
    pub invite_link: Option<Seq<char>>,
    pub language_code: Option<Seq<char>>,
    pub all_members_are_administrators: Option<bool>,
}

#[verifier::ext_equal]
pub enum ChatMetaV {
    User(UserMetaV),
    Group(GroupMetaV),
    SuperGroup(SuperGroupMetaV),
    Channel(ChannelMetaV),
    Unknown(RawChatMetaV),
}

#[verifier::ext_equal]
pub enum EntityKindV {
    Mention,
    Hashtag,
    BotCommand,
    Url,
    Email,
    Bold,
    Italic,
    Code,
    Pre,
    TextLink(Seq<char>),
    TextMention(Seq<char>),
    Unknown,
}

#[verifier::ext_equal]
pub struct EntityV {
    pub offset: i64,
    pub length: i64,
    pub kind: EntityKindV,
}

#[verifier::ext_equal]
pub struct PhotoSizeV {
    pub file_id: Seq<char>,
    pub width: i64,
    pub height: i64,
    pub file_size: Option<i64>,
}

#[verifier::ext_equal]
pub struct AudioDataV {
    pub file_id: Seq<char>,
    pub duration: i64,
    pub performer: Option<Seq<char>>,
    pub title: Option<Seq<char>>,
    pub mime_type: Option<Seq<char>>,
    pub file_size: Option<i64>,
}

#[verifier::ext_equal]
pub struct VoiceDataV {
    pub file_id: Seq<char>,
    pub duration: i64,
    pub mime_type: Option<Seq<char>>,
    pub file_size: Option<i64>,
}

#[verifier::ext_equal]
pub struct VideoDataV {
    pub file_id: Seq<char>,
    pub width: i64,
    pub height: i64,
    pub duration: i64,
    pub thumb: Option<PhotoSizeV>,
    pub mime_type: Option<Seq<char>>,
    pub file_size: Option<i64>,
}

#[verifier::ext_equal]
pub struct VideoNoteDataV {
    pub file_id: Seq<char>,
    pub duration: i64,
    pub thumb: Option<PhotoSizeV>,
    pub file_size: Option<i64>,
}

#[verifier::ext_equal]
pub struct DocumentDataV {
    pub file_id: Seq<char>,
    pub file_name: Option<Seq<char>>,
    pub mime_type: Option<Seq<char>>,
    pub file_size: Option<i64>,
}

#[verifier::ext_equal]
pub struct StickerDataV {
    pub file_id: Seq<char>,
    pub width: i64,
    pub height: i64,
    pub emoji: Option<Seq<char>>,
    pub set_name: Option<Seq<char>>,
    pub file_size: Option<i64>,
}

#[verifier::ext_equal]
pub struct ContactDataV {
    pub phone_number: Seq<char>,
    pub first_name: Seq<char>,
    pub last_name: Option<Seq<char>>,
    pub user_id: Option<i64>,
}

#[verifier::ext_equal]
pub struct LocationDataV {
    pub latitude: Seq<char>,
    pub longitude: Seq<char>,
}

#[verifier::ext_equal]
pub struct VenueDataV {
    pub location: LocationDataV,
    pub title: Seq<char>,
    pub address: Seq<char>,
    pub foursquare_id: Option<Seq<char>>,
}

#[verifier::ext_equal]
pub struct PollOptionV {
    pub text: Seq<char>,
    pub voter_count: i64,
}

#[verifier::ext_equal]
pub struct PollDataV {
    pub id: Seq<char>,
    pub question: Seq<char>,
    pub options: Seq<PollOptionV>,
    pub total_voter_count: i64,
    pub is_closed: bool,
    pub is_anonymous: bool,
    pub poll_type: Seq<char>,
    pub allows_multiple_answers: bool,
    pub correct_option_id: Option<i64>,
    pub explanation: Option<Seq<char>>,
    pub explanation_entities: Option<Seq<EntityV>>,
    pub open_period: Option<i64>,
    pub close_date: Option<i64>,
}

#[verifier::ext_equal]
pub enum MessageKindV {
    Text { data: Seq<char>, entities: Seq<EntityV> },
    Audio { data: AudioDataV },
    Voice { data: VoiceDataV },
    Photo { data: Seq<PhotoSizeV>, caption: Option<Seq<char>> },
    Document { data: DocumentDataV, caption: Option<Seq<char>> },
    Sticker { data: StickerDataV },
    Video { data: VideoDataV, caption: Option<Seq<char>> },
    VideoNote { data: VideoNoteDataV },
    Contact { data: ContactDataV },
    Location { data: LocationDataV },
    Poll { data: PollDataV },
    Venue { data: VenueDataV },
    NewChatMembers { data: Seq<UserMetaV> },
    LeftChatMember { data: UserMetaV },
    NewChatTitle { data: Seq<char> },
    NewChatPhoto { data: Seq<PhotoSizeV> },
    DeleteChatPhoto,
    PinnedMessage { message_id: i64, text: Option<Seq<char>> },
    GroupChatCreated,
    SupergroupChatCreated,
    ChannelChatCreated,
    MigrateToChatId { data: i64 },
    MigrateFromChatId { data: i64 },
    Unknown { tag: Seq<char> },
}

#[verifier::ext_equal]
pub enum ForwardFromV {
    User { id: i64, user: UserMetaV },
    Channel { id: i64, channel: ChannelMetaV, message_id: i64 },
    HiddenUser { name: Seq<char> },
    HiddenGroupAdmin { chat_id: i64, title: Seq<char> },
}

#[verifier::ext_equal]
pub struct ForwardV {
    pub date: i64,
    pub from: ForwardFromV,
}

#[verifier::ext_equal]
pub struct InterMessageV {
    pub id: i64,
    pub from: Option<UserMetaV>,
    pub date: i64,
    pub chat_id: i64,
    pub chat: ChatMetaV,
    pub forward: Option<ForwardV>,
    pub reply_to_message: Option<Box<InterMessageV>>,
    pub edit_date: Option<i64>,
    pub kind: MessageKindV,
}

#[verifier::ext_equal]
pub enum LogItemMediaTypeV {
    Image { width: i64, height: i64 },
    Video {
        duration: i64,
        width: i64,
        height: i64,
        thumb_file_id: Option<Seq<char>>,
        mime_type: Option<Seq<char>>,
    },
    Audio {
        duration: i64,
        performer: Option<Seq<char>>,
        title: Option<Seq<char>>,
        mime_type: Option<Seq<char>>,
    },
    Voice { duration: i64, mime_type: Option<Seq<char>> },
    VideoNote { duration: i64, thumb_file_id: Option<Seq<char>> },
    Document { file_name: Option<Seq<char>>, mime_type: Option<Seq<char>> },
    Sticker { emoji: Option<Seq<char>>, set_name: Option<Seq<char>> },
}

#[verifier::ext_equal]
pub enum LogItemSpecialTypeV {
    Contact {
        user_id: Option<i64>,
        phone_number: Seq<char>,
        first_name: Seq<char>,
        last_name: Option<Seq<char>>,
    },
    Location { data: LocationDataV },
    Venue { data: VenueDataV },
    Poll { data: PollDataV },
    PinnedMessage,
}

#[verifier::ext_equal]
pub enum LogItemChatTypeV {
    NewTitle { title: Seq<char> },
    NewPhoto { file_id: Option<Seq<char>> },
    DeletePhoto,
}

#[verifier::ext_equal]
pub enum LogItemV {
    Message {
        user_id: Option<Seq<char>>,
        time: i64,
        text: Seq<char>,
        entities: Seq<EntityV>,
        source: Option<InterMessageV>,
    },
    Media {
        user_id: Option<Seq<char>>,
        time: i64,
        caption: Option<Seq<char>>,
        media_type: LogItemMediaTypeV,
        files: Seq<Seq<char>>,
        source: Option<InterMessageV>,
    },
    Special {
        user_id: Option<Seq<char>>,
        time: i64,
        special_type: LogItemSpecialTypeV,
        source: Option<InterMessageV>,
    },
    Membership {
        user_id: Option<Seq<char>>,
        time: i64,
        membership_type: LogItemMembershipTypeV,
        source: Option<InterMessageV>,
    },
    Chat {
        user_id: Option<Seq<char>>,
        time: i64,
        chat_type: LogItemChatTypeV,
        source: Option<InterMessageV>,
    },
    Pin {
        user_id: Option<Seq<char>>,
        time: i64,
        message: Option<Seq<char>>,
        message_id: i64,
        source: Option<InterMessageV>,
    },
    Unimplemented {
        tag: Seq<char>,
        user_id: Option<Seq<char>>,
        time: i64,
        source: Option<InterMessageV>,
    },
}

#[verifier::ext_equal]
pub enum LogItemMembershipTypeV {
    Left,
    Joined,
}

/// View of an optional text.
pub open spec fn v_opt_str(o: Option<String>) -> Option<Seq<char>> {
    match o {
        None => None,
        Some(s) => Some(s@),
    }
}

pub open spec fn v_user(u: UserMeta) -> UserMetaV {
    UserMetaV {
        id: u.id@,
        first_name: u.first_name@,
        last_name: v_opt_str(u.last_name),
        username: v_opt_str(u.username),
        is_bot: u.is_bot,
        language_code: v_opt_str(u.language_code),
    }
}

pub open spec fn v_group(g: GroupMeta) -> GroupMetaV {
    GroupMetaV {
        id: g.id@,
        title: g.title@,
        all_members_are_administrators: g.all_members_are_administrators,
        invite_link: v_opt_str(g.invite_link),
    }
}

pub open spec fn v_super_group(g: SuperGroupMeta) -> SuperGroupMetaV {
    SuperGroupMetaV {
        id: g.id@,
        title: g.title@,
        username: v_opt_str(g.username),
        invite_link: v_opt_str(g.invite_link),
    }
}

pub open spec fn v_channel(c: ChannelMeta) -> ChannelMetaV {
    ChannelMetaV {
        id: c.id@,
        title: c.title@,
        username: v_opt_str(c.username),
        invite_link: v_opt_str(c.invite_link),
    }
}

pub open spec fn v_raw_chat(r: RawChatMeta) -> RawChatMetaV {
    RawChatMetaV {
        id: r.id@,
        chat_type: r.chat_type@,
        title: v_opt_str(r.title),
        username: v_opt_str(r.username),
        first_name: v_opt_str(r.first_name),
        last_name: v_opt_str(r.last_name),
        invite_link: v_opt_str(r.invite_link),
        language_code: v_opt_str(r.language_code),
        all_members_are_administrators: r.all_members_are_administrators,
    }
}

pub open spec fn v_chat(c: ChatMeta) -> ChatMetaV {
    match c {
        ChatMeta::User(u) => ChatMetaV::User(v_user(u)),
        ChatMeta::Group(g) => ChatMetaV::Group(v_group(g)),
        ChatMeta::SuperGroup(g) => ChatMetaV::SuperGroup(v_super_group(g)),
        ChatMeta::Channel(ch) => ChatMetaV::Channel(v_channel(ch)),
        ChatMeta::Unknown(r) => ChatMetaV::Unknown(v_raw_chat(r)),
    }
}

pub open spec fn v_entity_kind(k: EntityKind) -> EntityKindV {
    match k {
        EntityKind::Mention => EntityKindV::Mention,
        EntityKind::Hashtag => EntityKindV::Hashtag,
        EntityKind::BotCommand => EntityKindV::BotCommand,
        EntityKind::Url => EntityKindV::Url,
        EntityKind::Email => EntityKindV::Email,
        EntityKind::Bold => EntityKindV::Bold,
        EntityKind::Italic => EntityKindV::Italic,
        EntityKind::Code => EntityKindV::Code,
        EntityKind::Pre => EntityKindV::Pre,
        EntityKind::TextLink(s) => EntityKindV::TextLink(s@),
        EntityKind::TextMention(s) => EntityKindV::TextMention(s@),
        EntityKind::Unknown => EntityKindV::Unknown,
    }
}

pub open spec fn v_entity(e: Entity) -> EntityV {
    EntityV { offset: e.offset, length: e.length, kind: v_entity_kind(e.kind) }
}

pub open spec fn v_entities(s: Seq<Entity>) -> Seq<EntityV> {
    Seq::new(s.len(), |i: int| v_entity(s[i]))
}

pub open spec fn v_photo(p: PhotoSize) -> PhotoSizeV {
    PhotoSizeV { file_id: p.file_id@, width: p.width, height: p.height, file_size: p.file_size }
}

pub open spec fn v_photos(s: Seq<PhotoSize>) -> Seq<PhotoSizeV> {
    Seq::new(s.len(), |i: int| v_photo(s[i]))
}

pub open spec fn v_opt_photo(o: Option<PhotoSize>) -> Option<PhotoSizeV> {
    match o {
        None => None,
        Some(p) => Some(v_photo(p)),
    }
}

pub open spec fn v_audio(a: AudioData) -> AudioDataV {
    AudioDataV {
        file_id: a.file_id@,
        duration: a.duration,
        performer: v_opt_str(a.performer),
        title: v_opt_str(a.title),
        mime_type: v_opt_str(a.mime_type),
        file_size: a.file_size,
    }
}

pub open spec fn v_voice(v: VoiceData) -> VoiceDataV {
    VoiceDataV {
        file_id: v.file_id@,
        duration: v.duration,
        mime_type: v_opt_str(v.mime_type),
        file_size: v.file_size,
    }
}

pub open spec fn v_video(v: VideoData) -> VideoDataV {
    VideoDataV {
        file_id: v.file_id@,
        width: v.width,
        height: v.height,
        duration: v.duration,
        thumb: v_opt_photo(v.thumb),
        mime_type: v_opt_str(v.mime_type),
        file_size: v.file_size,
    }
}

pub open spec fn v_video_note(v: VideoNoteData) -> VideoNoteDataV {
    VideoNoteDataV {
        file_id: v.file_id@,
        duration: v.duration,
        thumb: v_opt_photo(v.thumb),
        file_size: v.file_size,
    }
}

pub open spec fn v_document(d: DocumentData) -> DocumentDataV {
    DocumentDataV {
        file_id: d.file_id@,
        file_name: v_opt_str(d.file_name),
        mime_type: v_opt_str(d.mime_type),
        file_size: d.file_size,
    }
}

pub open spec fn v_sticker(s: StickerData) -> StickerDataV {
    StickerDataV {
        file_id: s.file_id@,
        width: s.width,
        height: s.height,
        emoji: v_opt_str(s.emoji),
        set_name: v_opt_str(s.set_name),
        file_size: s.file_size,
    }
}

pub open spec fn v_contact(c: ContactData) -> ContactDataV {
    ContactDataV {
        phone_number: c.phone_number@,
        first_name: c.first_name@,
        last_name: v_opt_str(c.last_name),
        user_id: c.user_id,
    }
}

pub open spec fn v_location(l: LocationData) -> LocationDataV {
    LocationDataV { latitude: l.latitude@, longitude: l.longitude@ }
}

pub open spec fn v_venue(v: VenueData) -> VenueDataV {
    VenueDataV {
        location: v_location(v.location),
        title: v.title@,
        address: v.address@,
        foursquare_id: v_opt_str(v.foursquare_id),
    }
}

pub open spec fn v_poll_option(o: PollOption) -> PollOptionV {
    PollOptionV { text: o.text@, voter_count: o.voter_count }
}

pub open spec fn v_poll_options(s: Seq<PollOption>) -> Seq<PollOptionV> {
    Seq::new(s.len(), |i: int| v_poll_option(s[i]))
}

pub open spec fn v_poll(p: PollData) -> PollDataV {
    PollDataV {
        id: p.id@,
        question: p.question@,
        options: v_poll_options(p.options@),
        total_voter_count: p.total_voter_count,
        is_closed: p.is_closed,
        is_anonymous: p.is_anonymous,
        poll_type: p.poll_type@,
        allows_multiple_answers: p.allows_multiple_answers,
        correct_option_id: p.correct_option_id,
        explanation: v_opt_str(p.explanation),
        explanation_entities: match p.explanation_entities {
            None => None,
            Some(es) => Some(v_entities(es@)),
        },
        open_period: p.open_period,
        close_date: p.close_date,
    }
}

pub open spec fn v_users(s: Seq<UserMeta>) -> Seq<UserMetaV> {
    Seq::new(s.len(), |i: int| v_user(s[i]))
}

pub open spec fn v_kind(k: MessageKind) -> MessageKindV {
    match k {
        MessageKind::Text { data, entities } => MessageKindV::Text {
            data: data@,
            entities: v_entities(entities@),
        },
        MessageKind::Audio { data } => MessageKindV::Audio { data: v_audio(data) },
        MessageKind::Voice { data } => MessageKindV::Voice { data: v_voice(data) },
        MessageKind::Photo { data, caption } => MessageKindV::Photo {
            data: v_photos(data@),
            caption: v_opt_str(caption),
        },
        MessageKind::Document { data, caption } => MessageKindV::Document {
            data: v_document(data),
            caption: v_opt_str(caption),
        },
        MessageKind::Sticker { data } => MessageKindV::Sticker { data: v_sticker(data) },
        MessageKind::Video { data, caption } => MessageKindV::Video {
            data: v_video(data),
            caption: v_opt_str(caption),
        },
        MessageKind::VideoNote { data } => MessageKindV::VideoNote { data: v_video_note(data) },
        MessageKind::Contact { data } => MessageKindV::Contact { data: v_contact(data) },
        MessageKind::Location { data } => MessageKindV::Location { data: v_location(data) },
        MessageKind::Poll { data } => MessageKindV::Poll { data: v_poll(data) },
        MessageKind::Venue { data } => MessageKindV::Venue { data: v_venue(data) },
        MessageKind::NewChatMembers { data } => MessageKindV::NewChatMembers {
            data: v_users(data@),
        },
        MessageKind::LeftChatMember { data } => MessageKindV::LeftChatMember { data: v_user(data) },
        MessageKind::NewChatTitle { data } => MessageKindV::NewChatTitle { data: data@ },
        MessageKind::NewChatPhoto { data } => MessageKindV::NewChatPhoto { data: v_photos(data@) },
        MessageKind::DeleteChatPhoto => MessageKindV::DeleteChatPhoto,
        MessageKind::PinnedMessage { message_id, text } => MessageKindV::PinnedMessage {
            message_id: message_id,
            text: v_opt_str(text),
        },
        MessageKind::GroupChatCreated => MessageKindV::GroupChatCreated,
        MessageKind::SupergroupChatCreated => MessageKindV::SupergroupChatCreated,
        MessageKind::ChannelChatCreated => MessageKindV::ChannelChatCreated,
        MessageKind::MigrateToChatId { data } => MessageKindV::MigrateToChatId { data: data },
        MessageKind::MigrateFromChatId { data } => MessageKindV::MigrateFromChatId { data: data },
        MessageKind::Unknown { tag } => MessageKindV::Unknown { tag: tag@ },
    }
}

pub open spec fn v_forward_from(f: ForwardFrom) -> ForwardFromV {
    match f {
        ForwardFrom::User { id, user } => ForwardFromV::User { id: id, user: v_user(user) },
        ForwardFrom::Channel { id, channel, message_id } => ForwardFromV::Channel {
            id: id,
            channel: v_channel(channel),
            message_id: message_id,
        },
        ForwardFrom::HiddenUser { name } => ForwardFromV::HiddenUser { name: name@ },
        ForwardFrom::HiddenGroupAdmin { chat_id, title } => ForwardFromV::HiddenGroupAdmin {
            chat_id: chat_id,
            title: title@,
        },
    }
}

pub open spec fn v_forward(f: Forward) -> ForwardV {
    ForwardV { date: f.date, from: v_forward_from(f.from) }
}

pub open spec fn v_opt_user(o: Option<UserMeta>) -> Option<UserMetaV> {
    match o {
        None => None,
        Some(u) => Some(v_user(u)),
    }
}

pub open spec fn v_inter(m: InterMessage) -> InterMessageV
    decreases m,
{
    InterMessageV {
        id: m.id,
        from: v_opt_user(m.from),
        date: m.date,
        chat_id: m.chat_id,
        chat: v_chat(m.chat),
        forward: match m.forward {
            None => None,
            Some(f) => Some(v_forward(f)),
        },
        reply_to_message: match m.reply_to_message {
            None => None,
            Some(b) => Some(Box::new(v_inter(*b))),
        },
        edit_date: m.edit_date,
        kind: v_kind(m.kind),
    }
}

pub open spec fn v_opt_source(o: Option<Box<InterMessage>>) -> Option<InterMessageV> {
    match o {
        None => None,
        Some(b) => Some(v_inter(*b)),
    }
}

pub open spec fn v_media_type(m: LogItemMediaType) -> LogItemMediaTypeV {
    match m {
        LogItemMediaType::Image { width, height } => LogItemMediaTypeV::Image {
            width: width,
            height: height,
        },
        LogItemMediaType::Video { duration, width, height, thumb_file_id, mime_type } => {
            LogItemMediaTypeV::Video {
                duration: duration,
                width: width,
                height: height,
                thumb_file_id: v_opt_str(thumb_file_id),
                mime_type: v_opt_str(mime_type),
            }
        },
        LogItemMediaType::Audio { duration, performer, title, mime_type } => {
            LogItemMediaTypeV::Audio {
                duration: duration,
                performer: v_opt_str(performer),
                title: v_opt_str(title),
                mime_type: v_opt_str(mime_type),
            }
        },
        LogItemMediaType::Voice { duration, mime_type } => LogItemMediaTypeV::Voice {
            duration: duration,
            mime_type: v_opt_str(mime_type),
        },
        LogItemMediaType::VideoNote { duration, thumb_file_id } => LogItemMediaTypeV::VideoNote {
            duration: duration,
            thumb_file_id: v_opt_str(thumb_file_id),
        },
        LogItemMediaType::Document { file_name, mime_type } => LogItemMediaTypeV::Document {
            file_name: v_opt_str(file_name),
            mime_type: v_opt_str(mime_type),
        },
        LogItemMediaType::Sticker { emoji, set_name } => LogItemMediaTypeV::Sticker {
            emoji: v_opt_str(emoji),
            set_name: v_opt_str(set_name),
        },
    }
}

pub open spec fn v_membership(m: LogItemMembershipType) -> LogItemMembershipTypeV {
    match m {
        LogItemMembershipType::Left => LogItemMembershipTypeV::Left,
        LogItemMembershipType::Joined => LogItemMembershipTypeV::Joined,
    }
}

pub open spec fn v_special(s: LogItemSpecialType) -> LogItemSpecialTypeV {
    match s {
        LogItemSpecialType::Contact { user_id, phone_number, first_name, last_name } => {
            LogItemSpecialTypeV::Contact {
                user_id: user_id,
                phone_number: phone_number@,
                first_name: first_name@,
                last_name: v_opt_str(last_name),
            }
        },
        LogItemSpecialType::Location { data } => LogItemSpecialTypeV::Location {
            data: v_location(data),
        },
        LogItemSpecialType::Venue { data } => LogItemSpecialTypeV::Venue { data: v_venue(data) },
        LogItemSpecialType::Poll { data } => LogItemSpecialTypeV::Poll { data: v_poll(data) },
        LogItemSpecialType::PinnedMessage => LogItemSpecialTypeV::PinnedMessage,
    }
}

pub open spec fn v_chat_type(c: LogItemChatType) -> LogItemChatTypeV {
    match c {
        LogItemChatType::NewTitle { title } => LogItemChatTypeV::NewTitle { title: title@ },
        LogItemChatType::NewPhoto { file_id } => LogItemChatTypeV::NewPhoto {
            file_id: v_opt_str(file_id),
        },
        LogItemChatType::DeletePhoto => LogItemChatTypeV::DeletePhoto,
    }
}

pub open spec fn v_strings(s: Seq<String>) -> Seq<Seq<char>> {
    Seq::new(s.len(), |i: int| s[i]@)
}

pub open spec fn v_item(x: LogItem) -> LogItemV {
    match x {
        LogItem::Message { user_id, time, text, entities, source } => LogItemV::Message {
            user_id: v_opt_str(user_id),
            time: time,
            text: text@,
            entities: v_entities(entities@),
            source: v_opt_source(source),
        },
        LogItem::Media { user_id, time, caption, media_type, files, source } => LogItemV::Media {
            user_id: v_opt_str(user_id),
            time: time,
            caption: v_opt_str(caption),
            media_type: v_media_type(media_type),
            files: v_strings(files@),
            source: v_opt_source(source),
        },
        LogItem::Special { user_id, time, special_type, source } => LogItemV::Special {
            user_id: v_opt_str(user_id),
            time: time,
            special_type: v_special(special_type),
            source: v_opt_source(source),
        },
        LogItem::Membership { user_id, time, membership_type, source } => LogItemV::Membership {
            user_id: v_opt_str(user_id),
            time: time,
            membership_type: v_membership(membership_type),
            source: v_opt_source(source),
        },
        LogItem::Chat { user_id, time, chat_type, source } => LogItemV::Chat {
            user_id: v_opt_str(user_id),
            time: time,
            chat_type: v_chat_type(chat_type),
            source: v_opt_source(source),
        },
        LogItem::Pin { user_id, time, message, message_id, source } => LogItemV::Pin {
            user_id: v_opt_str(user_id),
            time: time,
            message: v_opt_str(message),
            message_id: message_id,
            source: v_opt_source(source),
        },
        LogItem::Unimplemented { tag, user_id, time, source } => LogItemV::Unimplemented {
            tag: tag@,
            user_id: v_opt_str(user_id),
            time: time,
            source: v_opt_source(source),
        },
    }
}

} // verus!
