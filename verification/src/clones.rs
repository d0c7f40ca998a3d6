//! Copying helpers with contracts: Verus gives no meaning to a derived
//! `Clone` on types with owned text, so the library copies its values
//! through these functions, each proved to preserve the view.
use vstd::prelude::*;

use crate::model::{ChannelMeta, ChatMeta, Entity, EntityKind, GroupMeta, LocationData, PhotoSize,
    PollData, PollOption, RawChatMeta, SuperGroupMeta, UserMeta, VenueData};
use crate::views::{v_channel, v_chat, v_entities, v_entity, v_entity_kind, v_group, v_location,
    v_opt_str, v_photo, v_poll, v_poll_option, v_poll_options, v_raw_chat, v_super_group, v_user,
    v_venue};

verus! {

/// Copies an optional text.
pub fn clone_opt_str(o: &Option<String>) -> (r: Option<String>)
    ensures
        v_opt_str(r) == v_opt_str(*o),
{
    match o {
        None => None,
        Some(s) => Some(s.clone()),
    }
}

/// Copies a user snapshot.
pub fn clone_user(u: &UserMeta) -> (r: UserMeta)
    ensures
        v_user(r) == v_user(*u),
{
    UserMeta {
        id: u.id.clone(),
        first_name: u.first_name.clone(),
        last_name: clone_opt_str(&u.last_name),
        username: clone_opt_str(&u.username),
        is_bot: u.is_bot,
        language_code: clone_opt_str(&u.language_code),
    }
}

/// Copies a group record.
pub fn clone_group(g: &GroupMeta) -> (r: GroupMeta)
    ensures
        v_group(r) == v_group(*g),
{
    GroupMeta {
        id: g.id.clone(),
        title: g.title.clone(),
        all_members_are_administrators: g.all_members_are_administrators,
        invite_link: clone_opt_str(&g.invite_link),
    }
}

/// Copies a supergroup record.
pub fn clone_super_group(g: &SuperGroupMeta) -> (r: SuperGroupMeta)
    ensures
        v_super_group(r) == v_super_group(*g),
{
    SuperGroupMeta {
        id: g.id.clone(),
        title: g.title.clone(),
        username: clone_opt_str(&g.username),
        invite_link: clone_opt_str(&g.invite_link),
    }
}

/// Copies a channel record.
pub fn clone_channel(c: &ChannelMeta) -> (r: ChannelMeta)
    ensures
        v_channel(r) == v_channel(*c),
{
    ChannelMeta {
        id: c.id.clone(),
        title: c.title.clone(),
        username: clone_opt_str(&c.username),
        invite_link: clone_opt_str(&c.invite_link),
    }
}

/// Copies an unclassified chat record.
pub fn clone_raw_chat(c: &RawChatMeta) -> (r: RawChatMeta)
    ensures
        v_raw_chat(r) == v_raw_chat(*c),
{
    RawChatMeta {
        id: c.id.clone(),
        chat_type: c.chat_type.clone(),
        title: clone_opt_str(&c.title),
        username: clone_opt_str(&c.username),
        first_name: clone_opt_str(&c.first_name),
        last_name: clone_opt_str(&c.last_name),
        invite_link: clone_opt_str(&c.invite_link),
        language_code: clone_opt_str(&c.language_code),
        all_members_are_administrators: match c.all_members_are_administrators {
            None => None,
            Some(b) => Some(b),
        },
    }
}

/// Copies a chat record.
pub fn clone_chat(c: &ChatMeta) -> (r: ChatMeta)
    ensures
        v_chat(r) == v_chat(*c),
{
    match c {
        ChatMeta::User(u) => ChatMeta::User(clone_user(u)),
        ChatMeta::Group(g) => ChatMeta::Group(clone_group(g)),
        ChatMeta::SuperGroup(g) => ChatMeta::SuperGroup(clone_super_group(g)),
        ChatMeta::Channel(ch) => ChatMeta::Channel(clone_channel(ch)),
        ChatMeta::Unknown(rc) => ChatMeta::Unknown(clone_raw_chat(rc)),
    }
}

/// Copies a span kind.
pub fn clone_entity_kind(k: &EntityKind) -> (r: EntityKind)
    ensures
        v_entity_kind(r) == v_entity_kind(*k),
{
    match k {
        EntityKind::Mention => EntityKind::Mention,
        EntityKind::Hashtag => EntityKind::Hashtag,
        EntityKind::BotCommand => EntityKind::BotCommand,
        EntityKind::Url => EntityKind::Url,
        EntityKind::Email => EntityKind::Email,
        EntityKind::Bold => EntityKind::Bold,
        EntityKind::Italic => EntityKind::Italic,
        EntityKind::Code => EntityKind::Code,
        EntityKind::Pre => EntityKind::Pre,
        EntityKind::TextLink(u) => EntityKind::TextLink(u.clone()),
        EntityKind::TextMention(u) => EntityKind::TextMention(u.clone()),
        EntityKind::Unknown => EntityKind::Unknown,
    }
}

/// Copies a span.
pub fn clone_entity(e: &Entity) -> (r: Entity)
    ensures
        v_entity(r) == v_entity(*e),
{
    Entity { offset: e.offset, length: e.length, kind: clone_entity_kind(&e.kind) }
}

/// Copies a span list.
pub fn clone_entities(es: &Vec<Entity>) -> (r: Vec<Entity>)
    ensures
        v_entities(r@) == v_entities(es@),
{
    let mut out: Vec<Entity> = Vec::new();
    let mut i: usize = 0;
    while i < es.len()
        invariant
            i <= es@.len(),
            out@.len() == i,
            forall|j: int| 0 <= j < i ==> v_entity(#[trigger] out@[j]) == v_entity(es@[j]),
        decreases es@.len() - i,
    {
        out.push(clone_entity(&es[i]));
        i = i + 1;
    }
    proof {
        assert(v_entities(out@) =~= v_entities(es@));
    }
    out
}

/// Copies a photo size.
pub fn clone_photo(p: &PhotoSize) -> (r: PhotoSize)
    ensures
        v_photo(r) == v_photo(*p),
{
    PhotoSize {
        file_id: p.file_id.clone(),
        width: p.width,
        height: p.height,
        file_size: match p.file_size {
            None => None,
            Some(n) => Some(n),
        },
    }
}

/// Copies a geographic point.
pub fn clone_location(l: &LocationData) -> (r: LocationData)
    ensures
        v_location(r) == v_location(*l),
{
    LocationData { latitude: l.latitude.clone(), longitude: l.longitude.clone() }
}

/// Copies a venue.
pub fn clone_venue(v: &VenueData) -> (r: VenueData)
    ensures
        v_venue(r) == v_venue(*v),
{
    VenueData {
        location: clone_location(&v.location),
        title: v.title.clone(),
        address: v.address.clone(),
        foursquare_id: clone_opt_str(&v.foursquare_id),
    }
}

/// Copies one poll option.
pub fn clone_poll_option(o: &PollOption) -> (r: PollOption)
    ensures
        v_poll_option(r) == v_poll_option(*o),
{
    PollOption { text: o.text.clone(), voter_count: o.voter_count }
}

/// Copies a poll.
pub fn clone_poll(p: &PollData) -> (r: PollData)
    ensures
        v_poll(r) == v_poll(*p),
{
    let mut options: Vec<PollOption> = Vec::new();
    let mut i: usize = 0;
    while i < p.options.len()
        invariant
            i <= p.options@.len(),
            options@.len() == i,
            forall|j: int|
                0 <= j < i ==> v_poll_option(#[trigger] options@[j]) == v_poll_option(
                    p.options@[j],
                ),
        decreases p.options@.len() - i,
    {
        options.push(clone_poll_option(&p.options[i]));
        i = i + 1;
    }
    proof {
        assert(v_poll_options(options@) =~= v_poll_options(p.options@));
    }
    let explanation_entities: Option<Vec<Entity>> = match &p.explanation_entities {
        None => None,
        Some(es) => Some(clone_entities(es)),
    };
    let r = PollData {
        id: p.id.clone(),
        question: p.question.clone(),
        options,
        total_voter_count: p.total_voter_count,
        is_closed: p.is_closed,
        is_anonymous: p.is_anonymous,
        poll_type: p.poll_type.clone(),
        allows_multiple_answers: p.allows_multiple_answers,
        correct_option_id: match p.correct_option_id {
            None => None,
            Some(n) => Some(n),
        },
        explanation: clone_opt_str(&p.explanation),
        explanation_entities,
        open_period: match p.open_period {
            None => None,
            Some(n) => Some(n),
        },
        close_date: match p.close_date {
            None => None,
            Some(n) => Some(n),
        },
    };
    proof {
        assert(v_poll(r) =~= v_poll(*p));
    }
    r
}

} // verus!
