//! The archive's data model: identity snapshots, chat metadata, the
//! normalized form of an upstream message, and the persisted log record.
//! Each type has a mathematical view that the contracts and the JSON codec
//! speak about.
use vstd::prelude::*;

verus! {

/// Identity snapshot of a user; written on every observed appearance.
#[derive(Debug, Clone, PartialEq)]
pub struct UserMeta {
    pub id: String,
    pub first_name: String,
    pub last_name: Option<String>,
    pub username: Option<String>,
    pub is_bot: bool,
    pub language_code: Option<String>,
}

/// Metadata of a basic group.
#[derive(Debug, Clone, PartialEq)]
pub struct GroupMeta {
    pub id: String,
    pub title: String,
    pub all_members_are_administrators: bool,
    pub invite_link: Option<String>,
}

/// Metadata of a supergroup.
#[derive(Debug, Clone, PartialEq)]
pub struct SuperGroupMeta {
    pub id: String,
    pub title: String,
    pub username: Option<String>,
    pub invite_link: Option<String>,
}

/// Metadata of a channel.
#[derive(Debug, Clone, PartialEq)]
pub struct ChannelMeta {
    pub id: String,
    pub title: String,
    pub username: Option<String>,
    pub invite_link: Option<String>,
}

/// Metadata of a chat whose kind the upstream left open.
#[derive(Debug, Clone, PartialEq)]
pub struct RawChatMeta {
    pub id: String,
    pub chat_type: String,
    pub title: Option<String>,
    pub username: Option<String>,
    pub first_name: Option<String>,
    pub last_name: Option<String>,
    pub invite_link: Option<String>,
    pub language_code: Option<String>,
    pub all_members_are_administrators: Option<bool>,
}

/// The conversation a record belongs to; the id of any variant is the
/// partition key of the archive.
#[derive(Debug, Clone, PartialEq)]
pub enum ChatMeta {
    User(UserMeta),
    Group(GroupMeta),
    SuperGroup(SuperGroupMeta),
    Channel(ChannelMeta),
    Unknown(RawChatMeta),
}

/// One inline-markup span kind.
#[derive(Debug, Clone, PartialEq)]
pub enum EntityKind {
    Mention,
    Hashtag,
    BotCommand,
    Url,
    Email,
    Bold,
    Italic,
    Code,
    Pre,
    TextLink(String),
    TextMention(String),
    Unknown,
}

/// One inline-markup span.
#[derive(Debug, Clone, PartialEq)]
pub struct Entity {
    pub offset: i64,
    pub length: i64,
    pub kind: EntityKind,
}

/// One size of a photo.
#[derive(Debug, Clone, PartialEq)]
pub struct PhotoSize {
    pub file_id: String,
    pub width: i64,
    pub height: i64,
    pub file_size: Option<i64>,
}

/// An audio attachment.
#[derive(Debug, Clone, PartialEq)]
pub struct AudioData {
    pub file_id: String,
    pub duration: i64,
    pub performer: Option<String>,
    pub title: Option<String>,
    pub mime_type: Option<String>,
    pub file_size: Option<i64>,
}

/// A voice-note attachment.
#[derive(Debug, Clone, PartialEq)]
pub struct VoiceData {
    pub file_id: String,
    pub duration: i64,
    pub mime_type: Option<String>,
    pub file_size: Option<i64>,
}

/// A video attachment.
#[derive(Debug, Clone, PartialEq)]
pub struct VideoData {
    pub file_id: String,
    pub width: i64,
    pub height: i64,
    pub duration: i64,
    pub thumb: Option<PhotoSize>,
    pub mime_type: Option<String>,
    pub file_size: Option<i64>,
}

/// A video-note attachment.
#[derive(Debug, Clone, PartialEq)]
pub struct VideoNoteData {
    pub file_id: String,
    pub duration: i64,
    pub thumb: Option<PhotoSize>,
    pub file_size: Option<i64>,
}

/// A general file attachment.
#[derive(Debug, Clone, PartialEq)]
pub struct DocumentData {
    pub file_id: String,
    pub file_name: Option<String>,
    pub mime_type: Option<String>,
    pub file_size: Option<i64>,
}

/// A sticker attachment.
#[derive(Debug, Clone, PartialEq)]
pub struct StickerData {
    pub file_id: String,
    pub width: i64,
    pub height: i64,
    pub emoji: Option<String>,
    pub set_name: Option<String>,
    pub file_size: Option<i64>,
}

/// A shared contact.
#[derive(Debug, Clone, PartialEq)]
pub struct ContactData {
    pub phone_number: String,
    pub first_name: String,
    pub last_name: Option<String>,
    pub user_id: Option<i64>,
}

/// A geographic point, held as the decimal text of its coordinates.
#[derive(Debug, Clone, PartialEq)]
pub struct LocationData {
    pub latitude: String,
    pub longitude: String,
}

/// A venue.
#[derive(Debug, Clone, PartialEq)]
pub struct VenueData {
    pub location: LocationData,
    pub title: String,
    pub address: String,
    pub foursquare_id: Option<String>,
}

/// One option of a poll.
#[derive(Debug, Clone, PartialEq)]
pub struct PollOption {
    pub text: String,
    pub voter_count: i64,
}

/// A poll.
#[derive(Debug, Clone, PartialEq)]
pub struct PollData {
    pub id: String,
    pub question: String,
    pub options: Vec<PollOption>,
    pub total_voter_count: i64,
    pub is_closed: bool,
    pub is_anonymous: bool,
    pub poll_type: String,
    pub allows_multiple_answers: bool,
    pub correct_option_id: Option<i64>,
    pub explanation: Option<String>,
    pub explanation_entities: Option<Vec<Entity>>,
    pub open_period: Option<i64>,
    pub close_date: Option<i64>,
}

/// The raw kind of an upstream message.
#[derive(Debug, Clone, PartialEq)]
pub enum MessageKind {
    Text { data: String, entities: Vec<Entity> },
    Audio { data: AudioData },
    Voice { data: VoiceData },
    Photo { data: Vec<PhotoSize>, caption: Option<String> },
    Document { data: DocumentData, caption: Option<String> },
    Sticker { data: StickerData },
    Video { data: VideoData, caption: Option<String> },
    VideoNote { data: VideoNoteData },
    Contact { data: ContactData },
    Location { data: LocationData },
    Poll { data: PollData },
    Venue { data: VenueData },
    NewChatMembers { data: Vec<UserMeta> },
    LeftChatMember { data: UserMeta },
    NewChatTitle { data: String },
    NewChatPhoto { data: Vec<PhotoSize> },
    DeleteChatPhoto,
    PinnedMessage { message_id: i64, text: Option<String> },
    GroupChatCreated,
    SupergroupChatCreated,
    ChannelChatCreated,
    MigrateToChatId { data: i64 },
    MigrateFromChatId { data: i64 },
    Unknown { tag: String },
}

/// The origin of a forwarded message.
#[derive(Debug, Clone, PartialEq)]
pub enum ForwardFrom {
    User { id: i64, user: UserMeta },
    Channel { id: i64, channel: ChannelMeta, message_id: i64 },
    HiddenUser { name: String },
    HiddenGroupAdmin { chat_id: i64, title: String },
}

/// A forward mark: the original date and source.
#[derive(Debug, Clone, PartialEq)]
pub struct Forward {
    pub date: i64,
    pub from: ForwardFrom,
}

/// The normalized form of one upstream message or channel post.
#[derive(Debug, PartialEq)]
pub struct InterMessage {
    pub id: i64,
    pub from: Option<UserMeta>,
    pub date: i64,
    pub chat_id: i64,
    pub chat: ChatMeta,
    pub forward: Option<Forward>,
    pub reply_to_message: Option<Box<InterMessage>>,
    pub edit_date: Option<i64>,
    pub kind: MessageKind,
}

/// The media shape of a persisted record.
#[derive(Debug, Clone, PartialEq)]
pub enum LogItemMediaType {
    Image { width: i64, height: i64 },
    Video {
        duration: i64,
        width: i64,
        height: i64,
        thumb_file_id: Option<String>,
        mime_type: Option<String>,
    },
    Audio { duration: i64, performer: Option<String>, title: Option<String>, mime_type: Option<String> },
    Voice { duration: i64, mime_type: Option<String> },
    VideoNote { duration: i64, thumb_file_id: Option<String> },
    Document { file_name: Option<String>, mime_type: Option<String> },
    Sticker { emoji: Option<String>, set_name: Option<String> },
}

/// Joining or leaving a chat.
#[derive(Debug, Clone, PartialEq)]
pub enum LogItemMembershipType {
    Left,
    Joined,
}

/// The special shapes of a persisted record.
#[derive(Debug, Clone, PartialEq)]
pub enum LogItemSpecialType {
    Contact {
        user_id: Option<i64>,
        phone_number: String,
        first_name: String,
        last_name: Option<String>,
    },
    Location { data: LocationData },
    Venue { data: VenueData },
    Poll { data: PollData },
    PinnedMessage,
}

/// Changes to a chat itself.
#[derive(Debug, Clone, PartialEq)]
pub enum LogItemChatType {
    NewTitle { title: String },
    NewPhoto { file_id: Option<String> },
    DeletePhoto,
}

/// The canonical persisted record of the archive.
#[derive(Debug, PartialEq)]
pub enum LogItem {
    Message {
        user_id: Option<String>,
        time: i64,
        text: String,
        entities: Vec<Entity>,
        source: Option<Box<InterMessage>>,
    },
    Media {
        user_id: Option<String>,
        time: i64,
        caption: Option<String>,
        media_type: LogItemMediaType,
        files: Vec<String>,
        source: Option<Box<InterMessage>>,
    },
    Special {
        user_id: Option<String>,
        time: i64,
        special_type: LogItemSpecialType,
        source: Option<Box<InterMessage>>,
    },
    Membership {
        user_id: Option<String>,
        time: i64,
        membership_type: LogItemMembershipType,
        source: Option<Box<InterMessage>>,
    },
    Chat {
        user_id: Option<String>,
        time: i64,
        chat_type: LogItemChatType,
        source: Option<Box<InterMessage>>,
    },
    Pin {
        user_id: Option<String>,
        time: i64,
        message: Option<String>,
        message_id: i64,
        source: Option<Box<InterMessage>>,
    },
    Unimplemented {
        tag: String,
        user_id: Option<String>,
        time: i64,
        source: Option<Box<InterMessage>>,
    },
}

} // verus!
