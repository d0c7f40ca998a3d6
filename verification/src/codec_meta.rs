//! JSON codec of the identity and chat-metadata records, with the round
//! trip proved for every value.
use vstd::prelude::*;

use crate::codec_base::{bool_of_jv, ex_bool_of, ex_opt_bool_of, ex_opt_str_of, ex_str_json,
    ex_str_of, ex_opt_str_json, ex_opt_bool_json, opt_bool_jv, opt_bool_of_jv, opt_str_jv,
    opt_str_of_jv, str_of_jv};
use crate::json::JsonV;
use crate::jsonio::{jfs, jv, lemma_jfs_index, Json};
use crate::model::{ChannelMeta, ChatMeta, GroupMeta, RawChatMeta, SuperGroupMeta, UserMeta};
use crate::text::{chars_eq_str, str_to_chars};
use crate::views::{v_channel, v_chat, v_group, v_raw_chat, v_super_group, v_user, ChannelMetaV,
    ChatMetaV, GroupMetaV, RawChatMetaV, SuperGroupMetaV, UserMetaV};

verus! {

/// The JSON form of a user snapshot.
pub open spec fn user_meta_jv(u: UserMetaV) -> JsonV {
    JsonV::Obj(
        seq![
            ("id"@, JsonV::Str(u.id)),
            ("first_name"@, JsonV::Str(u.first_name)),
            ("last_name"@, opt_str_jv(u.last_name)),
            ("username"@, opt_str_jv(u.username)),
            ("is_bot"@, JsonV::Bool(u.is_bot)),
            ("language_code"@, opt_str_jv(u.language_code)),
        ],
    )
}

/// Strict decoding of a user snapshot.
pub open spec fn user_meta_of_jv(j: JsonV) -> Option<UserMetaV> {
    match j {
        JsonV::Obj(fs) => if fs.len() == 6 && fs[0].0 == "id"@ && fs[1].0 == "first_name"@
            && fs[2].0 == "last_name"@ && fs[3].0 == "username"@ && fs[4].0 == "is_bot"@ && fs[5].0
            == "language_code"@ {
            match (
                str_of_jv(fs[0].1),
                str_of_jv(fs[1].1),
                opt_str_of_jv(fs[2].1),
                opt_str_of_jv(fs[3].1),
                bool_of_jv(fs[4].1),
                opt_str_of_jv(fs[5].1),
            ) {
                (
                    Some(id),
                    Some(first_name),
                    Some(last_name),
                    Some(username),
                    Some(is_bot),
                    Some(language_code),
                ) => Some(
                    UserMetaV { id, first_name, last_name, username, is_bot, language_code },
                ),
                _ => None,
            }
        } else {
            None
        },
        _ => None,
    }
}

/// Encode, then decode: the identity, for every user snapshot.
pub proof fn lemma_user_meta_rt(u: UserMetaV)
    ensures
        user_meta_of_jv(user_meta_jv(u)) == Some(u),
{
    assert(user_meta_of_jv(user_meta_jv(u)) == Some(u)) by {
        let r = user_meta_of_jv(user_meta_jv(u));
        assert(r matches Some(u2) && u2 =~= u);
    }
}

/// Builds the JSON record of a user snapshot.
pub fn user_meta_to_json(u: &UserMeta) -> (j: Json)
    ensures
        jv(j) == user_meta_jv(v_user(*u)),
{
    let mut fs: Vec<(Vec<char>, Json)> = Vec::new();
    fs.push((str_to_chars("id"), ex_str_json(u.id.as_str())));
    fs.push((str_to_chars("first_name"), ex_str_json(u.first_name.as_str())));
    fs.push((str_to_chars("last_name"), ex_opt_str_json(&u.last_name)));
    fs.push((str_to_chars("username"), ex_opt_str_json(&u.username)));
    fs.push((str_to_chars("is_bot"), Json::Bool(u.is_bot)));
    fs.push((str_to_chars("language_code"), ex_opt_str_json(&u.language_code)));
    let j = Json::Obj(fs);
    proof {
        let fsv = j->Obj_0@;
        lemma_jfs_index(fsv);
        assert(jfs(fsv) =~= user_meta_jv(v_user(*u))->Obj_0);
    }
    j
}

/// Reads a user snapshot back from its JSON record.
pub fn user_meta_of_json(j: &Json) -> (r: Option<UserMeta>)
    ensures
        match r {
            Some(u) => user_meta_of_jv(jv(*j)) == Some(v_user(u)),
            None => user_meta_of_jv(jv(*j)) is None,
        },
{
    let fs = match j {
        Json::Obj(fs) => fs,
        _ => {
            return None;
        },
    };
    proof {
        lemma_jfs_index(fs@);
    }
    if fs.len() != 6 {
        return None;
    }
    if !(chars_eq_str(&fs[0].0, "id") && chars_eq_str(&fs[1].0, "first_name") && chars_eq_str(
        &fs[2].0,
        "last_name",
    ) && chars_eq_str(&fs[3].0, "username") && chars_eq_str(&fs[4].0, "is_bot") && chars_eq_str(
        &fs[5].0,
        "language_code",
    )) {
        return None;
    }
    let id = match ex_str_of(&fs[0].1) {
        Some(x) => x,
        None => {
            return None;
        },
    };
    let first_name = match ex_str_of(&fs[1].1) {
        Some(x) => x,
        None => {
            return None;
        },
    };
    let last_name = match ex_opt_str_of(&fs[2].1) {
        Some(x) => x,
        None => {
            return None;
        },
    };
    let username = match ex_opt_str_of(&fs[3].1) {
        Some(x) => x,
        None => {
            return None;
        },
    };
    let is_bot = match ex_bool_of(&fs[4].1) {
        Some(x) => x,
        None => {
            return None;
        },
    };
    let language_code = match ex_opt_str_of(&fs[5].1) {
        Some(x) => x,
        None => {
            return None;
        },
    };
    Some(UserMeta { id, first_name, last_name, username, is_bot, language_code })
}


/// The JSON form of a group record.
pub open spec fn group_meta_jv(g: GroupMetaV) -> JsonV {
    JsonV::Obj(
        seq![
            ("id"@, JsonV::Str(g.id)),
            ("title"@, JsonV::Str(g.title)),
            ("all_members_are_administrators"@, JsonV::Bool(g.all_members_are_administrators)),
            ("invite_link"@, opt_str_jv(g.invite_link)),
        ],
    )
}

/// Strict decoding of a group record.
pub open spec fn group_meta_of_jv(j: JsonV) -> Option<GroupMetaV> {
    match j {
        JsonV::Obj(fs) => if fs.len() == 4 && fs[0].0 == "id"@ && fs[1].0 == "title"@ && fs[2].0
            == "all_members_are_administrators"@ && fs[3].0 == "invite_link"@ {
            match (str_of_jv(fs[0].1), str_of_jv(fs[1].1), bool_of_jv(fs[2].1), opt_str_of_jv(fs[3].1)) {
                (Some(id), Some(title), Some(ama), Some(invite_link)) => Some(
                    GroupMetaV { id, title, all_members_are_administrators: ama, invite_link },
                ),
                _ => None,
            }
        } else {
            None
        },
        _ => None,
    }
}

/// Encode, then decode: the identity, for every group record.
pub proof fn lemma_group_meta_rt(g: GroupMetaV)
    ensures
        group_meta_of_jv(group_meta_jv(g)) == Some(g),
{
    let r = group_meta_of_jv(group_meta_jv(g));
    assert(r matches Some(g2) && g2 =~= g);
}

/// Builds the JSON record of a group.
pub fn group_meta_to_json(g: &GroupMeta) -> (j: Json)
    ensures
        jv(j) == group_meta_jv(v_group(*g)),
{
    let mut fs: Vec<(Vec<char>, Json)> = Vec::new();
    fs.push((str_to_chars("id"), ex_str_json(g.id.as_str())));
    fs.push((str_to_chars("title"), ex_str_json(g.title.as_str())));
    fs.push(
        (str_to_chars("all_members_are_administrators"), Json::Bool(
            g.all_members_are_administrators,
        )),
    );
    fs.push((str_to_chars("invite_link"), ex_opt_str_json(&g.invite_link)));
    let j = Json::Obj(fs);
    proof {
        let fsv = j->Obj_0@;
        lemma_jfs_index(fsv);
        assert(jfs(fsv) =~= group_meta_jv(v_group(*g))->Obj_0);
    }
    j
}

/// Reads a group record back.
pub fn group_meta_of_json(j: &Json) -> (r: Option<GroupMeta>)
    ensures
        match r {
            Some(g) => group_meta_of_jv(jv(*j)) == Some(v_group(g)),
            None => group_meta_of_jv(jv(*j)) is None,
        },
{
    let fs = match j {
        Json::Obj(fs) => fs,
        _ => {
            return None;
        },
    };
    proof {
        lemma_jfs_index(fs@);
    }
    if fs.len() != 4 {
        return None;
    }
    if !(chars_eq_str(&fs[0].0, "id") && chars_eq_str(&fs[1].0, "title") && chars_eq_str(
        &fs[2].0,
        "all_members_are_administrators",
    ) && chars_eq_str(&fs[3].0, "invite_link")) {
        return None;
    }
    let id = match ex_str_of(&fs[0].1) {
        Some(x) => x,
        None => {
            return None;
        },
    };
    let title = match ex_str_of(&fs[1].1) {
        Some(x) => x,
        None => {
            return None;
        },
    };
    let ama = match ex_bool_of(&fs[2].1) {
        Some(x) => x,
        None => {
            return None;
        },
    };
    let invite_link = match ex_opt_str_of(&fs[3].1) {
        Some(x) => x,
        None => {
            return None;
        },
    };
    Some(GroupMeta { id, title, all_members_are_administrators: ama, invite_link })
}

/// The JSON form of a supergroup record.
pub open spec fn super_group_meta_jv(g: SuperGroupMetaV) -> JsonV {
    JsonV::Obj(
        seq![
            ("id"@, JsonV::Str(g.id)),
            ("title"@, JsonV::Str(g.title)),
            ("username"@, opt_str_jv(g.username)),
            ("invite_link"@, opt_str_jv(g.invite_link)),
        ],
    )
}

/// Strict decoding of a supergroup record.
pub open spec fn super_group_meta_of_jv(j: JsonV) -> Option<SuperGroupMetaV> {
    match j {
        JsonV::Obj(fs) => if fs.len() == 4 && fs[0].0 == "id"@ && fs[1].0 == "title"@ && fs[2].0
            == "username"@ && fs[3].0 == "invite_link"@ {
            match (str_of_jv(fs[0].1), str_of_jv(fs[1].1), opt_str_of_jv(fs[2].1), opt_str_of_jv(fs[3].1)) {
                (Some(id), Some(title), Some(username), Some(invite_link)) => Some(
                    SuperGroupMetaV { id, title, username, invite_link },
                ),
                _ => None,
            }
        } else {
            None
        },
        _ => None,
    }
}

/// Encode, then decode: the identity, for every supergroup record.
pub proof fn lemma_super_group_meta_rt(g: SuperGroupMetaV)
    ensures
        super_group_meta_of_jv(super_group_meta_jv(g)) == Some(g),
{
    let r = super_group_meta_of_jv(super_group_meta_jv(g));
    assert(r matches Some(g2) && g2 =~= g);
}

/// Builds the JSON record of a supergroup.
pub fn super_group_meta_to_json(g: &SuperGroupMeta) -> (j: Json)
    ensures
        jv(j) == super_group_meta_jv(v_super_group(*g)),
{
    let mut fs: Vec<(Vec<char>, Json)> = Vec::new();
    fs.push((str_to_chars("id"), ex_str_json(g.id.as_str())));
    fs.push((str_to_chars("title"), ex_str_json(g.title.as_str())));
    fs.push((str_to_chars("username"), ex_opt_str_json(&g.username)));
    fs.push((str_to_chars("invite_link"), ex_opt_str_json(&g.invite_link)));
    let j = Json::Obj(fs);
    proof {
        let fsv = j->Obj_0@;
        lemma_jfs_index(fsv);
        assert(jfs(fsv) =~= super_group_meta_jv(v_super_group(*g))->Obj_0);
    }
    j
}

/// Reads a supergroup record back.
pub fn super_group_meta_of_json(j: &Json) -> (r: Option<SuperGroupMeta>)
    ensures
        match r {
            Some(g) => super_group_meta_of_jv(jv(*j)) == Some(v_super_group(g)),
            None => super_group_meta_of_jv(jv(*j)) is None,
        },
{
    let fs = match j {
        Json::Obj(fs) => fs,
        _ => {
            return None;
        },
    };
    proof {
        lemma_jfs_index(fs@);
    }
    if fs.len() != 4 {
        return None;
    }
    if !(chars_eq_str(&fs[0].0, "id") && chars_eq_str(&fs[1].0, "title") && chars_eq_str(
        &fs[2].0,
        "username",
    ) && chars_eq_str(&fs[3].0, "invite_link")) {
        return None;
    }
    let id = match ex_str_of(&fs[0].1) {
        Some(x) => x,
        None => {
            return None;
        },
    };
    let title = match ex_str_of(&fs[1].1) {
        Some(x) => x,
        None => {
            return None;
        },
    };
    let username = match ex_opt_str_of(&fs[2].1) {
        Some(x) => x,
        None => {
            return None;
        },
    };
    let invite_link = match ex_opt_str_of(&fs[3].1) {
        Some(x) => x,
        None => {
            return None;
        },
    };
    Some(SuperGroupMeta { id, title, username, invite_link })
}

/// The JSON form of a channel record.
pub open spec fn channel_meta_jv(c: ChannelMetaV) -> JsonV {
    JsonV::Obj(
        seq![
            ("id"@, JsonV::Str(c.id)),
            ("title"@, JsonV::Str(c.title)),
            ("username"@, opt_str_jv(c.username)),
            ("invite_link"@, opt_str_jv(c.invite_link)),
        ],
    )
}

/// Strict decoding of a channel record.
pub open spec fn channel_meta_of_jv(j: JsonV) -> Option<ChannelMetaV> {
    match j {
        JsonV::Obj(fs) => if fs.len() == 4 && fs[0].0 == "id"@ && fs[1].0 == "title"@ && fs[2].0
            == "username"@ && fs[3].0 == "invite_link"@ {
            match (str_of_jv(fs[0].1), str_of_jv(fs[1].1), opt_str_of_jv(fs[2].1), opt_str_of_jv(fs[3].1)) {
                (Some(id), Some(title), Some(username), Some(invite_link)) => Some(
                    ChannelMetaV { id, title, username, invite_link },
                ),
                _ => None,
            }
        } else {
            None
        },
        _ => None,
    }
}

/// Encode, then decode: the identity, for every channel record.
pub proof fn lemma_channel_meta_rt(c: ChannelMetaV)
    ensures
        channel_meta_of_jv(channel_meta_jv(c)) == Some(c),
{
    let r = channel_meta_of_jv(channel_meta_jv(c));
    assert(r matches Some(c2) && c2 =~= c);
}

/// Builds the JSON record of a channel.
pub fn channel_meta_to_json(c: &ChannelMeta) -> (j: Json)
    ensures
        jv(j) == channel_meta_jv(v_channel(*c)),
{
    let mut fs: Vec<(Vec<char>, Json)> = Vec::new();
    fs.push((str_to_chars("id"), ex_str_json(c.id.as_str())));
    fs.push((str_to_chars("title"), ex_str_json(c.title.as_str())));
    fs.push((str_to_chars("username"), ex_opt_str_json(&c.username)));
    fs.push((str_to_chars("invite_link"), ex_opt_str_json(&c.invite_link)));
    let j = Json::Obj(fs);
    proof {
        let fsv = j->Obj_0@;
        lemma_jfs_index(fsv);
        assert(jfs(fsv) =~= channel_meta_jv(v_channel(*c))->Obj_0);
    }
    j
}

/// Reads a channel record back.
pub fn channel_meta_of_json(j: &Json) -> (r: Option<ChannelMeta>)
    ensures
        match r {
            Some(c) => channel_meta_of_jv(jv(*j)) == Some(v_channel(c)),
            None => channel_meta_of_jv(jv(*j)) is None,
        },
{
    let fs = match j {
        Json::Obj(fs) => fs,
        _ => {
            return None;
        },
    };
    proof {
        lemma_jfs_index(fs@);
    }
    if fs.len() != 4 {
        return None;
    }
    if !(chars_eq_str(&fs[0].0, "id") && chars_eq_str(&fs[1].0, "title") && chars_eq_str(
        &fs[2].0,
        "username",
    ) && chars_eq_str(&fs[3].0, "invite_link")) {
        return None;
    }
    let id = match ex_str_of(&fs[0].1) {
        Some(x) => x,
        None => {
            return None;
        },
    };
    let title = match ex_str_of(&fs[1].1) {
        Some(x) => x,
        None => {
            return None;
        },
    };
    let username = match ex_opt_str_of(&fs[2].1) {
        Some(x) => x,
        None => {
            return None;
        },
    };
    let invite_link = match ex_opt_str_of(&fs[3].1) {
        Some(x) => x,
        None => {
            return None;
        },
    };
    Some(ChannelMeta { id, title, username, invite_link })
}

/// The JSON form of an unclassified chat record.
pub open spec fn raw_chat_meta_jv(c: RawChatMetaV) -> JsonV {
    JsonV::Obj(
        seq![
            ("id"@, JsonV::Str(c.id)),
            ("chat_type"@, JsonV::Str(c.chat_type)),
            ("title"@, opt_str_jv(c.title)),
            ("username"@, opt_str_jv(c.username)),
            ("first_name"@, opt_str_jv(c.first_name)),
            ("last_name"@, opt_str_jv(c.last_name)),
            ("invite_link"@, opt_str_jv(c.invite_link)),
            ("language_code"@, opt_str_jv(c.language_code)),
            ("all_members_are_administrators"@, opt_bool_jv(c.all_members_are_administrators)),
        ],
    )
}

/// Strict decoding of an unclassified chat record.
pub open spec fn raw_chat_meta_of_jv(j: JsonV) -> Option<RawChatMetaV> {
    match j {
        JsonV::Obj(fs) => if fs.len() == 9 && fs[0].0 == "id"@ && fs[1].0 == "chat_type"@
            && fs[2].0 == "title"@ && fs[3].0 == "username"@ && fs[4].0 == "first_name"@
            && fs[5].0 == "last_name"@ && fs[6].0 == "invite_link"@ && fs[7].0 == "language_code"@
            && fs[8].0 == "all_members_are_administrators"@ {
            match (
                str_of_jv(fs[0].1),
                str_of_jv(fs[1].1),
                opt_str_of_jv(fs[2].1),
                opt_str_of_jv(fs[3].1),
                opt_str_of_jv(fs[4].1),
                opt_str_of_jv(fs[5].1),
                opt_str_of_jv(fs[6].1),
                opt_str_of_jv(fs[7].1),
                opt_bool_of_jv(fs[8].1),
            ) {
                (
                    Some(id),
                    Some(chat_type),
                    Some(title),
                    Some(username),
                    Some(first_name),
                    Some(last_name),
                    Some(invite_link),
                    Some(language_code),
                    Some(ama),
                ) => Some(
                    RawChatMetaV {
                        id,
                        chat_type,
                        title,
                        username,
                        first_name,
                        last_name,
                        invite_link,
                        language_code,
                        all_members_are_administrators: ama,
                    },
                ),
                _ => None,
            }
        } else {
            None
        },
        _ => None,
    }
}

/// Encode, then decode: the identity, for every unclassified chat record.
pub proof fn lemma_raw_chat_meta_rt(c: RawChatMetaV)
    ensures
        raw_chat_meta_of_jv(raw_chat_meta_jv(c)) == Some(c),
{
    let r = raw_chat_meta_of_jv(raw_chat_meta_jv(c));
    assert(r matches Some(c2) && c2 =~= c);
}

/// Builds the JSON record of an unclassified chat.
pub fn raw_chat_meta_to_json(c: &RawChatMeta) -> (j: Json)
    ensures
        jv(j) == raw_chat_meta_jv(v_raw_chat(*c)),
{
    let mut fs: Vec<(Vec<char>, Json)> = Vec::new();
    fs.push((str_to_chars("id"), ex_str_json(c.id.as_str())));
    fs.push((str_to_chars("chat_type"), ex_str_json(c.chat_type.as_str())));
    fs.push((str_to_chars("title"), ex_opt_str_json(&c.title)));
    fs.push((str_to_chars("username"), ex_opt_str_json(&c.username)));
    fs.push((str_to_chars("first_name"), ex_opt_str_json(&c.first_name)));
    fs.push((str_to_chars("last_name"), ex_opt_str_json(&c.last_name)));
    fs.push((str_to_chars("invite_link"), ex_opt_str_json(&c.invite_link)));
    fs.push((str_to_chars("language_code"), ex_opt_str_json(&c.language_code)));
    fs.push(
        (str_to_chars("all_members_are_administrators"), ex_opt_bool_json(
            &c.all_members_are_administrators,
        )),
    );
    let j = Json::Obj(fs);
    proof {
        let fsv = j->Obj_0@;
        lemma_jfs_index(fsv);
        assert(jfs(fsv) =~= raw_chat_meta_jv(v_raw_chat(*c))->Obj_0);
    }
    j
}

/// Reads an unclassified chat record back.
pub fn raw_chat_meta_of_json(j: &Json) -> (r: Option<RawChatMeta>)
    ensures
        match r {
            Some(c) => raw_chat_meta_of_jv(jv(*j)) == Some(v_raw_chat(c)),
            None => raw_chat_meta_of_jv(jv(*j)) is None,
        },
{
    let fs = match j {
        Json::Obj(fs) => fs,
        _ => {
            return None;
        },
    };
    proof {
        lemma_jfs_index(fs@);
    }
    if fs.len() != 9 {
        return None;
    }
    if !(chars_eq_str(&fs[0].0, "id") && chars_eq_str(&fs[1].0, "chat_type") && chars_eq_str(
        &fs[2].0,
        "title",
    ) && chars_eq_str(&fs[3].0, "username") && chars_eq_str(&fs[4].0, "first_name")
        && chars_eq_str(&fs[5].0, "last_name") && chars_eq_str(&fs[6].0, "invite_link")
        && chars_eq_str(&fs[7].0, "language_code") && chars_eq_str(
        &fs[8].0,
        "all_members_are_administrators",
    )) {
        return None;
    }
    let id = match ex_str_of(&fs[0].1) {
        Some(x) => x,
        None => {
            return None;
        },
    };
    let chat_type = match ex_str_of(&fs[1].1) {
        Some(x) => x,
        None => {
            return None;
        },
    };
    let title = match ex_opt_str_of(&fs[2].1) {
        Some(x) => x,
        None => {
            return None;
        },
    };
    let username = match ex_opt_str_of(&fs[3].1) {
        Some(x) => x,
        None => {
            return None;
        },
    };
    let first_name = match ex_opt_str_of(&fs[4].1) {
        Some(x) => x,
        None => {
            return None;
        },
    };
    let last_name = match ex_opt_str_of(&fs[5].1) {
        Some(x) => x,
        None => {
            return None;
        },
    };
    let invite_link = match ex_opt_str_of(&fs[6].1) {
        Some(x) => x,
        None => {
            return None;
        },
    };
    let language_code = match ex_opt_str_of(&fs[7].1) {
        Some(x) => x,
        None => {
            return None;
        },
    };
    let ama = match ex_opt_bool_of(&fs[8].1) {
        Some(x) => x,
        None => {
            return None;
        },
    };
    Some(
        RawChatMeta {
            id,
            chat_type,
            title,
            username,
            first_name,
            last_name,
            invite_link,
            language_code,
            all_members_are_administrators: ama,
        },
    )
}

/// The JSON form of a chat record: one field, named after the variant.
pub open spec fn chat_meta_jv(c: ChatMetaV) -> JsonV {
    match c {
        ChatMetaV::User(u) => JsonV::Obj(seq![("User"@, user_meta_jv(u))]),
        ChatMetaV::Group(g) => JsonV::Obj(seq![("Group"@, group_meta_jv(g))]),
        ChatMetaV::SuperGroup(g) => JsonV::Obj(seq![("SuperGroup"@, super_group_meta_jv(g))]),
        ChatMetaV::Channel(ch) => JsonV::Obj(seq![("Channel"@, channel_meta_jv(ch))]),
        ChatMetaV::Unknown(r) => JsonV::Obj(seq![("Unknown"@, raw_chat_meta_jv(r))]),
    }
}

/// Strict decoding of a chat record.
pub open spec fn chat_meta_of_jv(j: JsonV) -> Option<ChatMetaV> {
    match j {
        JsonV::Obj(fs) => if fs.len() == 1 {
            if fs[0].0 == "User"@ {
                match user_meta_of_jv(fs[0].1) {
                    Some(u) => Some(ChatMetaV::User(u)),
                    None => None,
                }
            } else if fs[0].0 == "Group"@ {
                match group_meta_of_jv(fs[0].1) {
                    Some(g) => Some(ChatMetaV::Group(g)),
                    None => None,
                }
            } else if fs[0].0 == "SuperGroup"@ {
                match super_group_meta_of_jv(fs[0].1) {
                    Some(g) => Some(ChatMetaV::SuperGroup(g)),
                    None => None,
                }
            } else if fs[0].0 == "Channel"@ {
                match channel_meta_of_jv(fs[0].1) {
                    Some(c) => Some(ChatMetaV::Channel(c)),
                    None => None,
                }
            } else if fs[0].0 == "Unknown"@ {
                match raw_chat_meta_of_jv(fs[0].1) {
                    Some(r) => Some(ChatMetaV::Unknown(r)),
                    None => None,
                }
            } else {
                None
            }
        } else {
            None
        },
        _ => None,
    }
}

/// Encode, then decode: the identity, for every chat record.
pub proof fn lemma_chat_meta_rt(c: ChatMetaV)
    ensures
        chat_meta_of_jv(chat_meta_jv(c)) == Some(c),
{
    reveal_strlit("User");
    reveal_strlit("Group");
    reveal_strlit("SuperGroup");
    reveal_strlit("Channel");
    reveal_strlit("Unknown");
    lemma_meta_tags_distinct();
    match c {
        ChatMetaV::User(u) => {
            lemma_user_meta_rt(u);
        },
        ChatMetaV::Group(g) => {
            lemma_group_meta_rt(g);
        },
        ChatMetaV::SuperGroup(g) => {
            lemma_super_group_meta_rt(g);
        },
        ChatMetaV::Channel(ch) => {
            lemma_channel_meta_rt(ch);
        },
        ChatMetaV::Unknown(r) => {
            lemma_raw_chat_meta_rt(r);
        },
    }
}

/// The five variant tags of a chat record differ pairwise.
pub proof fn lemma_meta_tags_distinct()
    ensures
        "User"@ != "Group"@,
        "User"@ != "SuperGroup"@,
        "User"@ != "Channel"@,
        "User"@ != "Unknown"@,
        "Group"@ != "SuperGroup"@,
        "Group"@ != "Channel"@,
        "Group"@ != "Unknown"@,
        "SuperGroup"@ != "Channel"@,
        "SuperGroup"@ != "Unknown"@,
        "Channel"@ != "Unknown"@,
{
    reveal_strlit("User");
    reveal_strlit("Group");
    reveal_strlit("SuperGroup");
    reveal_strlit("Channel");
    reveal_strlit("Unknown");
    assert("User"@.len() == 4 && "Group"@.len() == 5 && "SuperGroup"@.len() == 10 && "Channel"@.len()
        == 7 && "Unknown"@.len() == 7);
    assert("Channel"@[0] == 'C' && "Unknown"@[0] == 'U');
    assert('C' as u32 == 67 && 'U' as u32 == 85);
}

/// Builds the JSON record of a chat.
pub fn chat_meta_to_json(c: &ChatMeta) -> (j: Json)
    ensures
        jv(j) == chat_meta_jv(v_chat(*c)),
{
    let mut fs: Vec<(Vec<char>, Json)> = Vec::new();
    match c {
        ChatMeta::User(u) => {
            fs.push((str_to_chars("User"), user_meta_to_json(u)));
        },
        ChatMeta::Group(g) => {
            fs.push((str_to_chars("Group"), group_meta_to_json(g)));
        },
        ChatMeta::SuperGroup(g) => {
            fs.push((str_to_chars("SuperGroup"), super_group_meta_to_json(g)));
        },
        ChatMeta::Channel(ch) => {
            fs.push((str_to_chars("Channel"), channel_meta_to_json(ch)));
        },
        ChatMeta::Unknown(r) => {
            fs.push((str_to_chars("Unknown"), raw_chat_meta_to_json(r)));
        },
    }
    let j = Json::Obj(fs);
    proof {
        let fsv = j->Obj_0@;
        lemma_jfs_index(fsv);
        assert(jfs(fsv) =~= chat_meta_jv(v_chat(*c))->Obj_0);
    }
    j
}

/// Reads a chat record back.
pub fn chat_meta_of_json(j: &Json) -> (r: Option<ChatMeta>)
    ensures
        match r {
            Some(c) => chat_meta_of_jv(jv(*j)) == Some(v_chat(c)),
            None => chat_meta_of_jv(jv(*j)) is None,
        },
{
    let fs = match j {
        Json::Obj(fs) => fs,
        _ => {
            return None;
        },
    };
    proof {
        lemma_jfs_index(fs@);
    }
    if fs.len() != 1 {
        return None;
    }
    if chars_eq_str(&fs[0].0, "User") {
        match user_meta_of_json(&fs[0].1) {
            Some(u) => Some(ChatMeta::User(u)),
            None => None,
        }
    } else if chars_eq_str(&fs[0].0, "Group") {
        match group_meta_of_json(&fs[0].1) {
            Some(g) => Some(ChatMeta::Group(g)),
            None => None,
        }
    } else if chars_eq_str(&fs[0].0, "SuperGroup") {
        match super_group_meta_of_json(&fs[0].1) {
            Some(g) => Some(ChatMeta::SuperGroup(g)),
            None => None,
        }
    } else if chars_eq_str(&fs[0].0, "Channel") {
        match channel_meta_of_json(&fs[0].1) {
            Some(c) => Some(ChatMeta::Channel(c)),
            None => None,
        }
    } else if chars_eq_str(&fs[0].0, "Unknown") {
        match raw_chat_meta_of_json(&fs[0].1) {
            Some(r) => Some(ChatMeta::Unknown(r)),
            None => None,
        }
    } else {
        None
    }
}

} // verus!
