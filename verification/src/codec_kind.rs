//! JSON codec of the normalized upstream message: inline entities, the
//! attachment payloads, the raw message kind, forward marks, and the
//! normalized message itself, with the round trip proved for every value.
use vstd::prelude::*;

use crate::codec_base::{bool_of_jv, ex_bool_of, ex_int_of, ex_opt_int_json, ex_opt_int_of,
    ex_opt_str_json, ex_opt_str_of, ex_str_json, ex_str_of, int_of_jv, opt_int_jv, opt_int_of_jv,
    opt_str_jv, opt_str_of_jv, str_of_jv};
use crate::codec_meta::{lemma_channel_meta_rt, lemma_chat_meta_rt, lemma_user_meta_rt, channel_meta_jv, channel_meta_of_json, channel_meta_of_jv,
    channel_meta_to_json, chat_meta_jv, chat_meta_of_json, chat_meta_of_jv, chat_meta_to_json,
    user_meta_jv, user_meta_of_json, user_meta_of_jv, user_meta_to_json};
use crate::json::JsonV;
use crate::jsonio::{jfs, jv, jvs, lemma_jfs_index, lemma_jvs_index, Json};
use crate::model::{AudioData, ContactData, DocumentData, Entity, EntityKind, Forward, ForwardFrom,
    InterMessage, LocationData, MessageKind, PhotoSize, PollData, PollOption, StickerData,
    UserMeta, VenueData, VideoData, VideoNoteData, VoiceData};
use crate::text::{chars_eq_str, str_to_chars};
use crate::views::{v_audio, v_contact, v_document, v_entities, v_entity, v_entity_kind, v_forward,
    v_forward_from, v_inter, v_kind, v_location, v_opt_photo, v_opt_str, v_opt_user, v_photo,
    v_photos, v_poll, v_poll_option, v_poll_options, v_sticker, v_user, v_users, v_venue, v_video,
    v_video_note, v_voice, AudioDataV, ContactDataV, DocumentDataV, EntityKindV, EntityV, ForwardFromV,
    ForwardV, InterMessageV, LocationDataV, MessageKindV, PhotoSizeV, PollDataV, PollOptionV,
    StickerDataV, UserMetaV, VenueDataV, VideoDataV, VideoNoteDataV, VoiceDataV};

verus! {

/// The JSON form of an inline-markup kind: a tag, with the link target or
/// the mentioned user beside it where one exists.
pub open spec fn entity_kind_jv(k: EntityKindV) -> JsonV {
    match k {
        EntityKindV::Mention => JsonV::Str("mention"@),
        EntityKindV::Hashtag => JsonV::Str("hashtag"@),
        EntityKindV::BotCommand => JsonV::Str("botcommand"@),
        EntityKindV::Url => JsonV::Str("url"@),
        EntityKindV::Email => JsonV::Str("email"@),
        EntityKindV::Bold => JsonV::Str("bold"@),
        EntityKindV::Italic => JsonV::Str("italic"@),
        EntityKindV::Code => JsonV::Str("code"@),
        EntityKindV::Pre => JsonV::Str("pre"@),
        EntityKindV::TextLink(u) => JsonV::Obj(seq![("textlink"@, JsonV::Str(u))]),
        EntityKindV::TextMention(u) => JsonV::Obj(seq![("textmention"@, JsonV::Str(u))]),
        EntityKindV::Unknown => JsonV::Str("unknown"@),
    }
}

/// Strict decoding of an inline-markup kind.
pub open spec fn entity_kind_of_jv(j: JsonV) -> Option<EntityKindV> {
    match j {
        JsonV::Str(t) => if t == "mention"@ {
            Some(EntityKindV::Mention)
        } else if t == "hashtag"@ {
            Some(EntityKindV::Hashtag)
        } else if t == "botcommand"@ {
            Some(EntityKindV::BotCommand)
        } else if t == "url"@ {
            Some(EntityKindV::Url)
        } else if t == "email"@ {
            Some(EntityKindV::Email)
        } else if t == "bold"@ {
            Some(EntityKindV::Bold)
        } else if t == "italic"@ {
            Some(EntityKindV::Italic)
        } else if t == "code"@ {
            Some(EntityKindV::Code)
        } else if t == "pre"@ {
            Some(EntityKindV::Pre)
        } else if t == "unknown"@ {
            Some(EntityKindV::Unknown)
        } else {
            None
        },
        JsonV::Obj(fs) => if fs.len() == 1 && fs[0].0 == "textlink"@ {
            match str_of_jv(fs[0].1) {
                Some(u) => Some(EntityKindV::TextLink(u)),
                None => None,
            }
        } else if fs.len() == 1 && fs[0].0 == "textmention"@ {
            match str_of_jv(fs[0].1) {
                Some(u) => Some(EntityKindV::TextMention(u)),
                None => None,
            }
        } else {
            None
        },
        _ => None,
    }
}

/// The markup tags differ pairwise.
pub proof fn lemma_entity_tags_distinct()
    ensures
        "mention"@ != "hashtag"@ && "mention"@ != "botcommand"@ && "mention"@ != "url"@
            && "mention"@ != "email"@ && "mention"@ != "bold"@ && "mention"@ != "italic"@
            && "mention"@ != "code"@ && "mention"@ != "pre"@ && "mention"@ != "unknown"@,
        "hashtag"@ != "botcommand"@ && "hashtag"@ != "url"@ && "hashtag"@ != "email"@ && "hashtag"@
            != "bold"@ && "hashtag"@ != "italic"@ && "hashtag"@ != "code"@ && "hashtag"@ != "pre"@
            && "hashtag"@ != "unknown"@,
        "botcommand"@ != "url"@ && "botcommand"@ != "email"@ && "botcommand"@ != "bold"@
            && "botcommand"@ != "italic"@ && "botcommand"@ != "code"@ && "botcommand"@ != "pre"@
            && "botcommand"@ != "unknown"@,
        "url"@ != "email"@ && "url"@ != "bold"@ && "url"@ != "italic"@ && "url"@ != "code"@
            && "url"@ != "pre"@ && "url"@ != "unknown"@,
        "email"@ != "bold"@ && "email"@ != "italic"@ && "email"@ != "code"@ && "email"@ != "pre"@
            && "email"@ != "unknown"@,
        "bold"@ != "italic"@ && "bold"@ != "code"@ && "bold"@ != "pre"@ && "bold"@ != "unknown"@,
        "italic"@ != "code"@ && "italic"@ != "pre"@ && "italic"@ != "unknown"@,
        "code"@ != "pre"@ && "code"@ != "unknown"@,
        "pre"@ != "unknown"@,
        "textlink"@ != "textmention"@,
{
    reveal_strlit("mention");
    reveal_strlit("hashtag");
    reveal_strlit("botcommand");
    reveal_strlit("url");
    reveal_strlit("email");
    reveal_strlit("bold");
    reveal_strlit("italic");
    reveal_strlit("code");
    reveal_strlit("pre");
    reveal_strlit("unknown");
    reveal_strlit("textlink");
    reveal_strlit("textmention");
    assert("bold"@.len() == 4 && "code"@.len() == 4 && "bold"@[0] == 'b' && "code"@[0] == 'c');
    assert("mention"@.len() == 7 && "hashtag"@.len() == 7 && "unknown"@.len() == 7 && "italic"@.len()
        == 6 && "url"@.len() == 3 && "pre"@.len() == 3 && "email"@.len() == 5 && "botcommand"@.len()
        == 10 && "textlink"@.len() == 8 && "textmention"@.len() == 11);
    assert("mention"@[0] == 'm' && "hashtag"@[0] == 'h' && "unknown"@[0] == 'u' && "url"@[0] == 'u'
        && "pre"@[0] == 'p');
    assert("url"@[1] == 'r' && "pre"@[1] == 'r');
    assert("url"@[0] != "pre"@[0]) by {
        assert('u' as u32 == 117 && 'p' as u32 == 112);
    }
    assert('m' as u32 == 109 && 'h' as u32 == 104 && 'u' as u32 == 117 && 'b' as u32 == 98
        && 'c' as u32 == 99);
}

/// Encode, then decode: the identity, for every inline-markup kind.
pub proof fn lemma_entity_kind_rt(k: EntityKindV)
    ensures
        entity_kind_of_jv(entity_kind_jv(k)) == Some(k),
{
    lemma_entity_tags_distinct();
}

/// Builds the JSON of an inline-markup kind.
pub fn entity_kind_to_json(k: &EntityKind) -> (j: Json)
    ensures
        jv(j) == entity_kind_jv(v_entity_kind(*k)),
{
    match k {
        EntityKind::Mention => ex_str_json("mention"),
        EntityKind::Hashtag => ex_str_json("hashtag"),
        EntityKind::BotCommand => ex_str_json("botcommand"),
        EntityKind::Url => ex_str_json("url"),
        EntityKind::Email => ex_str_json("email"),
        EntityKind::Bold => ex_str_json("bold"),
        EntityKind::Italic => ex_str_json("italic"),
        EntityKind::Code => ex_str_json("code"),
        EntityKind::Pre => ex_str_json("pre"),
        EntityKind::TextLink(u) => {
            let mut fs: Vec<(Vec<char>, Json)> = Vec::new();
            fs.push((str_to_chars("textlink"), ex_str_json(u.as_str())));
            let j = Json::Obj(fs);
            proof {
                let fsv = j->Obj_0@;
                lemma_jfs_index(fsv);
                assert(jfs(fsv) =~= entity_kind_jv(v_entity_kind(*k))->Obj_0);
            }
            j
        },
        EntityKind::TextMention(u) => {
            let mut fs: Vec<(Vec<char>, Json)> = Vec::new();
            fs.push((str_to_chars("textmention"), ex_str_json(u.as_str())));
            let j = Json::Obj(fs);
            proof {
                let fsv = j->Obj_0@;
                lemma_jfs_index(fsv);
                assert(jfs(fsv) =~= entity_kind_jv(v_entity_kind(*k))->Obj_0);
            }
            j
        },
        EntityKind::Unknown => ex_str_json("unknown"),
    }
}

/// Reads an inline-markup kind back.
pub fn entity_kind_of_json(j: &Json) -> (r: Option<EntityKind>)
    ensures
        match r {
            Some(k) => entity_kind_of_jv(jv(*j)) == Some(v_entity_kind(k)),
            None => entity_kind_of_jv(jv(*j)) is None,
        },
{
    proof {
        lemma_entity_tags_distinct();
    }
    match j {
        Json::Str(t) => {
            if chars_eq_str(t, "mention") {
                Some(EntityKind::Mention)
            } else if chars_eq_str(t, "hashtag") {
                Some(EntityKind::Hashtag)
            } else if chars_eq_str(t, "botcommand") {
                Some(EntityKind::BotCommand)
            } else if chars_eq_str(t, "url") {
                Some(EntityKind::Url)
            } else if chars_eq_str(t, "email") {
                Some(EntityKind::Email)
            } else if chars_eq_str(t, "bold") {
                Some(EntityKind::Bold)
            } else if chars_eq_str(t, "italic") {
                Some(EntityKind::Italic)
            } else if chars_eq_str(t, "code") {
                Some(EntityKind::Code)
            } else if chars_eq_str(t, "pre") {
                Some(EntityKind::Pre)
            } else if chars_eq_str(t, "unknown") {
                Some(EntityKind::Unknown)
            } else {
                None
            }
        },
        Json::Obj(fs) => {
            proof {
                lemma_jfs_index(fs@);
            }
            if fs.len() != 1 {
                return None;
            }
            if chars_eq_str(&fs[0].0, "textlink") {
                match ex_str_of(&fs[0].1) {
                    Some(u) => Some(EntityKind::TextLink(u)),
                    None => None,
                }
            } else if chars_eq_str(&fs[0].0, "textmention") {
                match ex_str_of(&fs[0].1) {
                    Some(u) => Some(EntityKind::TextMention(u)),
                    None => None,
                }
            } else {
                None
            }
        },
        _ => None,
    }
}

/// The JSON form of one inline-markup span.
pub open spec fn entity_jv(e: EntityV) -> JsonV {
    JsonV::Obj(
        seq![
            ("offset"@, JsonV::Int(e.offset as int)),
            ("length"@, JsonV::Int(e.length as int)),
            ("kind"@, entity_kind_jv(e.kind)),
        ],
    )
}

/// Strict decoding of one inline-markup span.
pub open spec fn entity_of_jv(j: JsonV) -> Option<EntityV> {
    match j {
        JsonV::Obj(fs) => if fs.len() == 3 && fs[0].0 == "offset"@ && fs[1].0 == "length"@
            && fs[2].0 == "kind"@ {
            match (int_of_jv(fs[0].1), int_of_jv(fs[1].1), entity_kind_of_jv(fs[2].1)) {
                (Some(offset), Some(length), Some(kind)) => Some(EntityV { offset, length, kind }),
                _ => None,
            }
        } else {
            None
        },
        _ => None,
    }
}

/// Encode, then decode: the identity, for every inline-markup span.
pub proof fn lemma_entity_rt(e: EntityV)
    ensures
        entity_of_jv(entity_jv(e)) == Some(e),
{
    lemma_entity_kind_rt(e.kind);
    let r = entity_of_jv(entity_jv(e));
    assert(r matches Some(e2) && e2 =~= e);
}

/// Builds the JSON of one inline-markup span.
pub fn entity_to_json(e: &Entity) -> (j: Json)
    ensures
        jv(j) == entity_jv(v_entity(*e)),
{
    let mut fs: Vec<(Vec<char>, Json)> = Vec::new();
    fs.push((str_to_chars("offset"), Json::Int(e.offset)));
    fs.push((str_to_chars("length"), Json::Int(e.length)));
    fs.push((str_to_chars("kind"), entity_kind_to_json(&e.kind)));
    let j = Json::Obj(fs);
    proof {
        let fsv = j->Obj_0@;
        lemma_jfs_index(fsv);
        assert(jfs(fsv) =~= entity_jv(v_entity(*e))->Obj_0);
    }
    j
}

/// Reads one inline-markup span back.
pub fn entity_of_json(j: &Json) -> (r: Option<Entity>)
    ensures
        match r {
            Some(e) => entity_of_jv(jv(*j)) == Some(v_entity(e)),
            None => entity_of_jv(jv(*j)) is None,
        },
{
    let fs = match j {
        Json::Obj(fs) => fs,
        _ => {
            return None;
        },
    };
    proof {
        lemma_jfs_index(fs@);
    }
    if fs.len() != 3 {
        return None;
    }
    if !(chars_eq_str(&fs[0].0, "offset") && chars_eq_str(&fs[1].0, "length") && chars_eq_str(
        &fs[2].0,
        "kind",
    )) {
        return None;
    }
    let offset = match ex_int_of(&fs[0].1) {
        Some(x) => x,
        None => {
            return None;
        },
    };
    let length = match ex_int_of(&fs[1].1) {
        Some(x) => x,
        None => {
            return None;
        },
    };
    let kind = match entity_kind_of_json(&fs[2].1) {
        Some(x) => x,
        None => {
            return None;
        },
    };
    Some(Entity { offset, length, kind })
}

/// The JSON form of a list of spans.
pub open spec fn entities_jv(s: Seq<EntityV>) -> Seq<JsonV> {
    Seq::new(s.len(), |i: int| entity_jv(s[i]))
}

/// Strict decoding of a list of spans.
pub open spec fn entities_of_jv(js: Seq<JsonV>) -> Option<Seq<EntityV>>
    decreases js.len(),
{
    if js.len() == 0 {
        Some(Seq::empty())
    } else {
        match (entity_of_jv(js[0]), entities_of_jv(js.skip(1))) {
            (Some(e), Some(rest)) => Some(seq![e] + rest),
            _ => None,
        }
    }
}

/// Encode, then decode: the identity, for every list of spans.
pub proof fn lemma_entities_rt(s: Seq<EntityV>)
    ensures
        entities_of_jv(entities_jv(s)) == Some(s),
    decreases s.len(),
{
    if s.len() == 0 {
        assert(entities_jv(s) =~= Seq::<JsonV>::empty());
        assert(s =~= Seq::<EntityV>::empty());
    } else {
        lemma_entity_rt(s[0]);
        lemma_entities_rt(s.skip(1));
        assert(entities_jv(s).skip(1) =~= entities_jv(s.skip(1)));
        assert(entities_jv(s)[0] == entity_jv(s[0]));
        assert(seq![s[0]] + s.skip(1) =~= s);
    }
}

/// Builds the JSON of a list of spans.
pub fn entities_to_json(es: &Vec<Entity>) -> (j: Json)
    ensures
        jv(j) == JsonV::Arr(entities_jv(v_entities(es@))),
{
    let mut out: Vec<Json> = Vec::new();
    let mut i: usize = 0;
    while i < es.len()
        invariant
            i <= es@.len(),
            jvs(out@) =~= entities_jv(v_entities(es@)).subrange(0, i as int),
            out@.len() == i,
        decreases es@.len() - i,
    {
        let ghost pre = out@;
        out.push(entity_to_json(&es[i]));
        i = i + 1;
        proof {
            lemma_jvs_index(out@);
            lemma_jvs_index(pre);
            assert forall|x: int| 0 <= x < i implies jvs(out@)[x] == entities_jv(v_entities(es@)).subrange(
                0,
                i as int,
            )[x] by {
                if x < i - 1 {
                    assert(jvs(out@)[x] == jv(out@[x]));
                    assert(jvs(pre)[x] == jv(pre[x]));
                }
            }
            assert(jvs(out@) =~= entities_jv(v_entities(es@)).subrange(0, i as int));
        }
    }
    proof {
        assert(entities_jv(v_entities(es@)).subrange(0, es@.len() as int) =~= entities_jv(
            v_entities(es@),
        ));
    }
    let j = Json::Arr(out);
    proof {
        assert(jv(j) == JsonV::Arr(jvs(j->Arr_0@)));
    }
    j
}

/// Reads a list of spans back.
pub fn entities_of_json(vs: &Vec<Json>) -> (r: Option<Vec<Entity>>)
    ensures
        match r {
            Some(es) => entities_of_jv(jvs(vs@)) == Some(v_entities(es@)),
            None => entities_of_jv(jvs(vs@)) is None,
        },
{
    let mut out: Vec<Entity> = Vec::new();
    let mut i: usize = 0;
    proof {
        lemma_jvs_index(vs@);
        assert(jvs(vs@).skip(0) =~= jvs(vs@));
        assert(v_entities(out@) =~= Seq::<EntityV>::empty());
        match entities_of_jv(jvs(vs@)) {
            Some(rest) => {
                assert(v_entities(out@) + rest =~= rest);
            },
            None => {},
        }
    }
    while i < vs.len()
        invariant
            i <= vs@.len(),
            out@.len() == i,
            entities_of_jv(jvs(vs@)) == (match entities_of_jv(jvs(vs@).skip(i as int)) {
                Some(rest) => Some(v_entities(out@) + rest),
                None => None::<Seq<EntityV>>,
            }),
        decreases vs@.len() - i,
    {
        proof {
            lemma_jvs_index(vs@);
            assert(jvs(vs@).skip(i as int)[0] == jvs(vs@)[i as int]);
        }
        let e = match entity_of_json(&vs[i]) {
            Some(e) => e,
            None => {
                proof {
                    assert(entities_of_jv(jvs(vs@).skip(i as int)) is None);
                }
                return None;
            },
        };
        let ghost pre = out@;
        out.push(e);
        i = i + 1;
        proof {
            assert(jvs(vs@).skip(i as int - 1).skip(1) =~= jvs(vs@).skip(i as int));
            assert(v_entities(out@) =~= v_entities(pre).push(v_entity(e)));
            match entities_of_jv(jvs(vs@).skip(i as int)) {
                Some(rest) => {
                    assert(v_entities(pre) + (seq![v_entity(e)] + rest) =~= v_entities(out@)
                        + rest);
                },
                None => {},
            }
        }
    }
    proof {
        assert(jvs(vs@).skip(vs@.len() as int) =~= Seq::<JsonV>::empty());
        assert(v_entities(out@) + Seq::<EntityV>::empty() =~= v_entities(out@));
    }
    Some(out)
}


/// The JSON form of one photo size.
pub open spec fn photo_jv(p: PhotoSizeV) -> JsonV {
    JsonV::Obj(
        seq![
            ("file_id"@, JsonV::Str(p.file_id)),
            ("width"@, JsonV::Int(p.width as int)),
            ("height"@, JsonV::Int(p.height as int)),
            ("file_size"@, opt_int_jv(p.file_size)),
        ],
    )
}

/// Strict decoding of one photo size.
pub open spec fn photo_of_jv(j: JsonV) -> Option<PhotoSizeV> {
    match j {
        JsonV::Obj(fs) => if fs.len() == 4 && fs[0].0 == "file_id"@ && fs[1].0 == "width"@
            && fs[2].0 == "height"@ && fs[3].0 == "file_size"@ {
            match (str_of_jv(fs[0].1), int_of_jv(fs[1].1), int_of_jv(fs[2].1), opt_int_of_jv(fs[3].1)) {
                (Some(file_id), Some(width), Some(height), Some(file_size)) => Some(
                    PhotoSizeV { file_id, width, height, file_size },
                ),
                _ => None,
            }
        } else {
            None
        },
        _ => None,
    }
}

/// Encode, then decode: the identity, for every photo size.
pub proof fn lemma_photo_rt(p: PhotoSizeV)
    ensures
        photo_of_jv(photo_jv(p)) == Some(p),
{
    let r = photo_of_jv(photo_jv(p));
    assert(r matches Some(p2) && p2 =~= p);
}

/// Builds the JSON of one photo size.
pub fn photo_to_json(p: &PhotoSize) -> (j: Json)
    ensures
        jv(j) == photo_jv(v_photo(*p)),
{
    let mut fs: Vec<(Vec<char>, Json)> = Vec::new();
    fs.push((str_to_chars("file_id"), ex_str_json(p.file_id.as_str())));
    fs.push((str_to_chars("width"), Json::Int(p.width)));
    fs.push((str_to_chars("height"), Json::Int(p.height)));
    fs.push((str_to_chars("file_size"), ex_opt_int_json(&p.file_size)));
    let j = Json::Obj(fs);
    proof {
        let fsv = j->Obj_0@;
        lemma_jfs_index(fsv);
        assert(jfs(fsv) =~= photo_jv(v_photo(*p))->Obj_0);
    }
    j
}

/// Reads one photo size back.
pub fn photo_of_json(j: &Json) -> (r: Option<PhotoSize>)
    ensures
        match r {
            Some(p) => photo_of_jv(jv(*j)) == Some(v_photo(p)),
            None => photo_of_jv(jv(*j)) is None,
        },
{
    let fs = match j {
        Json::Obj(fs) => fs,
        _ => {
            return None;
        },
    };
    proof {
        lemma_jfs_index(fs@);
    }
    if fs.len() != 4 {
        return None;
    }
    if !(chars_eq_str(&fs[0].0, "file_id") && chars_eq_str(&fs[1].0, "width") && chars_eq_str(
        &fs[2].0,
        "height",
    ) && chars_eq_str(&fs[3].0, "file_size")) {
        return None;
    }
    let file_id = match ex_str_of(&fs[0].1) {
        Some(x) => x,
        None => {
            return None;
        },
    };
    let width = match ex_int_of(&fs[1].1) {
        Some(x) => x,
        None => {
            return None;
        },
    };
    let height = match ex_int_of(&fs[2].1) {
        Some(x) => x,
        None => {
            return None;
        },
    };
    let file_size = match ex_opt_int_of(&fs[3].1) {
        Some(x) => x,
        None => {
            return None;
        },
    };
    Some(PhotoSize { file_id, width, height, file_size })
}

/// The JSON form of a list of photo sizes.
pub open spec fn photos_jv(s: Seq<PhotoSizeV>) -> Seq<JsonV> {
    Seq::new(s.len(), |i: int| photo_jv(s[i]))
}

/// Strict decoding of a list of photo sizes.
pub open spec fn photos_of_jv(js: Seq<JsonV>) -> Option<Seq<PhotoSizeV>>
    decreases js.len(),
{
    if js.len() == 0 {
        Some(Seq::empty())
    } else {
        match (photo_of_jv(js[0]), photos_of_jv(js.skip(1))) {
            (Some(p), Some(rest)) => Some(seq![p] + rest),
            _ => None,
        }
    }
}

/// Encode, then decode: the identity, for every list of photo sizes.
pub proof fn lemma_photos_rt(s: Seq<PhotoSizeV>)
    ensures
        photos_of_jv(photos_jv(s)) == Some(s),
    decreases s.len(),
{
    if s.len() == 0 {
        assert(photos_jv(s) =~= Seq::<JsonV>::empty());
        assert(s =~= Seq::<PhotoSizeV>::empty());
    } else {
        lemma_photo_rt(s[0]);
        lemma_photos_rt(s.skip(1));
        assert(photos_jv(s).skip(1) =~= photos_jv(s.skip(1)));
        assert(photos_jv(s)[0] == photo_jv(s[0]));
        assert(seq![s[0]] + s.skip(1) =~= s);
    }
}

/// Builds the JSON of a list of photo sizes.
pub fn photos_to_json(ps: &Vec<PhotoSize>) -> (j: Json)
    ensures
        jv(j) == JsonV::Arr(photos_jv(v_photos(ps@))),
{
    let mut out: Vec<Json> = Vec::new();
    let mut i: usize = 0;
    while i < ps.len()
        invariant
            i <= ps@.len(),
            jvs(out@) =~= photos_jv(v_photos(ps@)).subrange(0, i as int),
            out@.len() == i,
        decreases ps@.len() - i,
    {
        let ghost pre = out@;
        out.push(photo_to_json(&ps[i]));
        i = i + 1;
        proof {
            lemma_jvs_index(out@);
            lemma_jvs_index(pre);
            assert forall|x: int| 0 <= x < i implies jvs(out@)[x] == photos_jv(v_photos(ps@)).subrange(
                0,
                i as int,
            )[x] by {
                if x < i - 1 {
                    assert(jvs(out@)[x] == jv(out@[x]));
                    assert(jvs(pre)[x] == jv(pre[x]));
                }
            }
            assert(jvs(out@) =~= photos_jv(v_photos(ps@)).subrange(0, i as int));
        }
    }
    proof {
        assert(photos_jv(v_photos(ps@)).subrange(0, ps@.len() as int) =~= photos_jv(
            v_photos(ps@),
        ));
    }
    let j = Json::Arr(out);
    proof {
        assert(jv(j) == JsonV::Arr(jvs(j->Arr_0@)));
    }
    j
}

/// Reads a list of photo sizes back.
pub fn photos_of_json(vs: &Vec<Json>) -> (r: Option<Vec<PhotoSize>>)
    ensures
        match r {
            Some(ps) => photos_of_jv(jvs(vs@)) == Some(v_photos(ps@)),
            None => photos_of_jv(jvs(vs@)) is None,
        },
{
    let mut out: Vec<PhotoSize> = Vec::new();
    let mut i: usize = 0;
    proof {
        lemma_jvs_index(vs@);
        assert(jvs(vs@).skip(0) =~= jvs(vs@));
        assert(v_photos(out@) =~= Seq::<PhotoSizeV>::empty());
        match photos_of_jv(jvs(vs@)) {
            Some(rest) => {
                assert(v_photos(out@) + rest =~= rest);
            },
            None => {},
        }
    }
    while i < vs.len()
        invariant
            i <= vs@.len(),
            out@.len() == i,
            photos_of_jv(jvs(vs@)) == (match photos_of_jv(jvs(vs@).skip(i as int)) {
                Some(rest) => Some(v_photos(out@) + rest),
                None => None::<Seq<PhotoSizeV>>,
            }),
        decreases vs@.len() - i,
    {
        proof {
            lemma_jvs_index(vs@);
            assert(jvs(vs@).skip(i as int)[0] == jvs(vs@)[i as int]);
        }
        let e = match photo_of_json(&vs[i]) {
            Some(e) => e,
            None => {
                proof {
                    assert(photos_of_jv(jvs(vs@).skip(i as int)) is None);
                }
                return None;
            },
        };
        let ghost pre = out@;
        out.push(e);
        i = i + 1;
        proof {
            assert(jvs(vs@).skip(i as int - 1).skip(1) =~= jvs(vs@).skip(i as int));
            assert(v_photos(out@) =~= v_photos(pre).push(v_photo(e)));
            match photos_of_jv(jvs(vs@).skip(i as int)) {
                Some(rest) => {
                    assert(v_photos(pre) + (seq![v_photo(e)] + rest) =~= v_photos(out@) + rest);
                },
                None => {},
            }
        }
    }
    proof {
        assert(jvs(vs@).skip(vs@.len() as int) =~= Seq::<JsonV>::empty());
        assert(v_photos(out@) + Seq::<PhotoSizeV>::empty() =~= v_photos(out@));
    }
    Some(out)
}

/// The JSON form of an optional photo size: the record, or null.
pub open spec fn opt_photo_jv(o: Option<PhotoSizeV>) -> JsonV {
    match o {
        None => JsonV::Null,
        Some(p) => photo_jv(p),
    }
}

/// Strict decoding of an optional photo size.
pub open spec fn opt_photo_of_jv(j: JsonV) -> Option<Option<PhotoSizeV>> {
    match j {
        JsonV::Null => Some(None),
        JsonV::Obj(_) => match photo_of_jv(j) {
            Some(p) => Some(Some(p)),
            None => None,
        },
        _ => None,
    }
}

/// Encode, then decode: the identity, for every optional photo size.
pub proof fn lemma_opt_photo_rt(o: Option<PhotoSizeV>)
    ensures
        opt_photo_of_jv(opt_photo_jv(o)) == Some(o),
{
    match o {
        None => {},
        Some(p) => {
            lemma_photo_rt(p);
        },
    }
}

/// Builds the JSON of an optional photo size.
pub fn opt_photo_to_json(o: &Option<PhotoSize>) -> (j: Json)
    ensures
        jv(j) == opt_photo_jv(v_opt_photo(*o)),
{
    match o {
        None => Json::Null,
        Some(p) => photo_to_json(p),
    }
}

/// Reads an optional photo size back.
pub fn opt_photo_of_json(j: &Json) -> (r: Option<Option<PhotoSize>>)
    ensures
        match r {
            Some(o) => opt_photo_of_jv(jv(*j)) == Some(v_opt_photo(o)),
            None => opt_photo_of_jv(jv(*j)) is None,
        },
{
    match j {
        Json::Null => Some(None),
        Json::Obj(_) => match photo_of_json(j) {
            Some(p) => Some(Some(p)),
            None => None,
        },
        _ => None,
    }
}

/// The JSON form of one `LocationData` record.
pub open spec fn location_jv(v: LocationDataV) -> JsonV {
    JsonV::Obj(
        seq![
            ("latitude"@, JsonV::Str(v.latitude)),
            ("longitude"@, JsonV::Str(v.longitude)),
        ],
    )
}

/// Strict decoding of one `LocationData` record.
pub open spec fn location_of_jv(j: JsonV) -> Option<LocationDataV> {
    match j {
        JsonV::Obj(fs) => if fs.len() == 2 && fs[0].0 == "latitude"@ && fs[1].0 == "longitude"@ {
            match (
                str_of_jv(fs[0].1),
                str_of_jv(fs[1].1),
            ) {
                (Some(latitude), Some(longitude)) => Some(LocationDataV { latitude, longitude }),
                _ => None,
            }
        } else {
            None
        },
        _ => None,
    }
}

/// Encode, then decode: the identity, for every `LocationData` record.
pub proof fn lemma_location_rt(v: LocationDataV)
    ensures
        location_of_jv(location_jv(v)) == Some(v),
{
    let r = location_of_jv(location_jv(v));
    assert(r matches Some(v2) && v2 =~= v);
}

/// Builds the JSON of one `LocationData` record.
pub fn location_to_json(x: &LocationData) -> (j: Json)
    ensures
        jv(j) == location_jv(v_location(*x)),
{
    let mut fs: Vec<(Vec<char>, Json)> = Vec::new();
    fs.push((str_to_chars("latitude"), ex_str_json(x.latitude.as_str())));
    fs.push((str_to_chars("longitude"), ex_str_json(x.longitude.as_str())));
    let j = Json::Obj(fs);
    proof {
        let fsv = j->Obj_0@;
        lemma_jfs_index(fsv);
        assert(jfs(fsv) =~= location_jv(v_location(*x))->Obj_0);
    }
    j
}

/// Reads one `LocationData` record back.
pub fn location_of_json(j: &Json) -> (r: Option<LocationData>)
    ensures
        match r {
            Some(x) => location_of_jv(jv(*j)) == Some(v_location(x)),
            None => location_of_jv(jv(*j)) is None,
        },
{
    let fs = match j {
        Json::Obj(fs) => fs,
        _ => {
            return None;
        },
    };
    proof {
        lemma_jfs_index(fs@);
    }
    if fs.len() != 2 {
        return None;
    }
    if !(chars_eq_str(&fs[0].0, "latitude") && chars_eq_str(&fs[1].0, "longitude")) {
        return None;
    }
    let latitude = match ex_str_of(&fs[0].1) {
        Some(x) => x,
        None => {
            return None;
        },
    };
    let longitude = match ex_str_of(&fs[1].1) {
        Some(x) => x,
        None => {
            return None;
        },
    };
    Some(LocationData { latitude, longitude })
}

/// The JSON form of one `AudioData` record.
pub open spec fn audio_jv(v: AudioDataV) -> JsonV {
    JsonV::Obj(
        seq![
            ("file_id"@, JsonV::Str(v.file_id)),
            ("duration"@, JsonV::Int(v.duration as int)),
            ("performer"@, opt_str_jv(v.performer)),
            ("title"@, opt_str_jv(v.title)),
            ("mime_type"@, opt_str_jv(v.mime_type)),
            ("file_size"@, opt_int_jv(v.file_size)),
        ],
    )
}

/// Strict decoding of one `AudioData` record.
pub open spec fn audio_of_jv(j: JsonV) -> Option<AudioDataV> {
    match j {
        JsonV::Obj(fs) => if fs.len() == 6 && fs[0].0 == "file_id"@ && fs[1].0 == "duration"@ && fs[2].0 == "performer"@ && fs[3].0 == "title"@ && fs[4].0 == "mime_type"@ && fs[5].0 == "file_size"@ {
            match (
                str_of_jv(fs[0].1),
                int_of_jv(fs[1].1),
                opt_str_of_jv(fs[2].1),
                opt_str_of_jv(fs[3].1),
                opt_str_of_jv(fs[4].1),
                opt_int_of_jv(fs[5].1),
            ) {
                (Some(file_id), Some(duration), Some(performer), Some(title), Some(mime_type), Some(file_size)) => Some(AudioDataV { file_id, duration, performer, title, mime_type, file_size }),
                _ => None,
            }
        } else {
            None
        },
        _ => None,
    }
}

/// Encode, then decode: the identity, for every `AudioData` record.
pub proof fn lemma_audio_rt(v: AudioDataV)
    ensures
        audio_of_jv(audio_jv(v)) == Some(v),
{
    let r = audio_of_jv(audio_jv(v));
    assert(r matches Some(v2) && v2 =~= v);
}

/// Builds the JSON of one `AudioData` record.
pub fn audio_to_json(x: &AudioData) -> (j: Json)
    ensures
        jv(j) == audio_jv(v_audio(*x)),
{
    let mut fs: Vec<(Vec<char>, Json)> = Vec::new();
    fs.push((str_to_chars("file_id"), ex_str_json(x.file_id.as_str())));
    fs.push((str_to_chars("duration"), Json::Int(x.duration)));
    fs.push((str_to_chars("performer"), ex_opt_str_json(&x.performer)));
    fs.push((str_to_chars("title"), ex_opt_str_json(&x.title)));
    fs.push((str_to_chars("mime_type"), ex_opt_str_json(&x.mime_type)));
    fs.push((str_to_chars("file_size"), ex_opt_int_json(&x.file_size)));
    let j = Json::Obj(fs);
    proof {
        let fsv = j->Obj_0@;
        lemma_jfs_index(fsv);
        assert(jfs(fsv) =~= audio_jv(v_audio(*x))->Obj_0);
    }
    j
}

/// Reads one `AudioData` record back.
pub fn audio_of_json(j: &Json) -> (r: Option<AudioData>)
    ensures
        match r {
            Some(x) => audio_of_jv(jv(*j)) == Some(v_audio(x)),
            None => audio_of_jv(jv(*j)) is None,
        },
{
    let fs = match j {
        Json::Obj(fs) => fs,
        _ => {
            return None;
        },
    };
    proof {
        lemma_jfs_index(fs@);
    }
    if fs.len() != 6 {
        return None;
    }
    if !(chars_eq_str(&fs[0].0, "file_id") && chars_eq_str(&fs[1].0, "duration") && chars_eq_str(&fs[2].0, "performer") && chars_eq_str(&fs[3].0, "title") && chars_eq_str(&fs[4].0, "mime_type") && chars_eq_str(&fs[5].0, "file_size")) {
        return None;
    }
    let file_id = match ex_str_of(&fs[0].1) {
        Some(x) => x,
        None => {
            return None;
        },
    };
    let duration = match ex_int_of(&fs[1].1) {
        Some(x) => x,
        None => {
            return None;
        },
    };
    let performer = match ex_opt_str_of(&fs[2].1) {
        Some(x) => x,
        None => {
            return None;
        },
    };
    let title = match ex_opt_str_of(&fs[3].1) {
        Some(x) => x,
        None => {
            return None;
        },
    };
    let mime_type = match ex_opt_str_of(&fs[4].1) {
        Some(x) => x,
        None => {
            return None;
        },
    };
    let file_size = match ex_opt_int_of(&fs[5].1) {
        Some(x) => x,
        None => {
            return None;
        },
    };
    Some(AudioData { file_id, duration, performer, title, mime_type, file_size })
}

/// The JSON form of one `VoiceData` record.
pub open spec fn voice_jv(v: VoiceDataV) -> JsonV {
    JsonV::Obj(
        seq![
            ("file_id"@, JsonV::Str(v.file_id)),
            ("duration"@, JsonV::Int(v.duration as int)),
            ("mime_type"@, opt_str_jv(v.mime_type)),
            ("file_size"@, opt_int_jv(v.file_size)),
        ],
    )
}

/// Strict decoding of one `VoiceData` record.
pub open spec fn voice_of_jv(j: JsonV) -> Option<VoiceDataV> {
    match j {
        JsonV::Obj(fs) => if fs.len() == 4 && fs[0].0 == "file_id"@ && fs[1].0 == "duration"@ && fs[2].0 == "mime_type"@ && fs[3].0 == "file_size"@ {
            match (
                str_of_jv(fs[0].1),
                int_of_jv(fs[1].1),
                opt_str_of_jv(fs[2].1),
                opt_int_of_jv(fs[3].1),
            ) {
                (Some(file_id), Some(duration), Some(mime_type), Some(file_size)) => Some(VoiceDataV { file_id, duration, mime_type, file_size }),
                _ => None,
            }
        } else {
            None
        },
        _ => None,
    }
}

/// Encode, then decode: the identity, for every `VoiceData` record.
pub proof fn lemma_voice_rt(v: VoiceDataV)
    ensures
        voice_of_jv(voice_jv(v)) == Some(v),
{
    let r = voice_of_jv(voice_jv(v));
    assert(r matches Some(v2) && v2 =~= v);
}

/// Builds the JSON of one `VoiceData` record.
pub fn voice_to_json(x: &VoiceData) -> (j: Json)
    ensures
        jv(j) == voice_jv(v_voice(*x)),
{
    let mut fs: Vec<(Vec<char>, Json)> = Vec::new();
    fs.push((str_to_chars("file_id"), ex_str_json(x.file_id.as_str())));
    fs.push((str_to_chars("duration"), Json::Int(x.duration)));
    fs.push((str_to_chars("mime_type"), ex_opt_str_json(&x.mime_type)));
    fs.push((str_to_chars("file_size"), ex_opt_int_json(&x.file_size)));
    let j = Json::Obj(fs);
    proof {
        let fsv = j->Obj_0@;
        lemma_jfs_index(fsv);
        assert(jfs(fsv) =~= voice_jv(v_voice(*x))->Obj_0);
    }
    j
}

/// Reads one `VoiceData` record back.
pub fn voice_of_json(j: &Json) -> (r: Option<VoiceData>)
    ensures
        match r {
            Some(x) => voice_of_jv(jv(*j)) == Some(v_voice(x)),
            None => voice_of_jv(jv(*j)) is None,
        },
{
    let fs = match j {
        Json::Obj(fs) => fs,
        _ => {
            return None;
        },
    };
    proof {
        lemma_jfs_index(fs@);
    }
    if fs.len() != 4 {
        return None;
    }
    if !(chars_eq_str(&fs[0].0, "file_id") && chars_eq_str(&fs[1].0, "duration") && chars_eq_str(&fs[2].0, "mime_type") && chars_eq_str(&fs[3].0, "file_size")) {
        return None;
    }
    let file_id = match ex_str_of(&fs[0].1) {
        Some(x) => x,
        None => {
            return None;
        },
    };
    let duration = match ex_int_of(&fs[1].1) {
        Some(x) => x,
        None => {
            return None;
        },
    };
    let mime_type = match ex_opt_str_of(&fs[2].1) {
        Some(x) => x,
        None => {
            return None;
        },
    };
    let file_size = match ex_opt_int_of(&fs[3].1) {
        Some(x) => x,
        None => {
            return None;
        },
    };
    Some(VoiceData { file_id, duration, mime_type, file_size })
}

/// The JSON form of one `VideoData` record.
pub open spec fn video_jv(v: VideoDataV) -> JsonV {
    JsonV::Obj(
        seq![
            ("file_id"@, JsonV::Str(v.file_id)),
            ("width"@, JsonV::Int(v.width as int)),
            ("height"@, JsonV::Int(v.height as int)),
            ("duration"@, JsonV::Int(v.duration as int)),
            ("thumb"@, opt_photo_jv(v.thumb)),
            ("mime_type"@, opt_str_jv(v.mime_type)),
            ("file_size"@, opt_int_jv(v.file_size)),
        ],
    )
}

/// Strict decoding of one `VideoData` record.
pub open spec fn video_of_jv(j: JsonV) -> Option<VideoDataV> {
    match j {
        JsonV::Obj(fs) => if fs.len() == 7 && fs[0].0 == "file_id"@ && fs[1].0 == "width"@ && fs[2].0 == "height"@ && fs[3].0 == "duration"@ && fs[4].0 == "thumb"@ && fs[5].0 == "mime_type"@ && fs[6].0 == "file_size"@ {
            match (
                str_of_jv(fs[0].1),
                int_of_jv(fs[1].1),
                int_of_jv(fs[2].1),
                int_of_jv(fs[3].1),
                opt_photo_of_jv(fs[4].1),
                opt_str_of_jv(fs[5].1),
                opt_int_of_jv(fs[6].1),
            ) {
                (Some(file_id), Some(width), Some(height), Some(duration), Some(thumb), Some(mime_type), Some(file_size)) => Some(VideoDataV { file_id, width, height, duration, thumb, mime_type, file_size }),
                _ => None,
            }
        } else {
            None
        },
        _ => None,
    }
}

/// Encode, then decode: the identity, for every `VideoData` record.
pub proof fn lemma_video_rt(v: VideoDataV)
    ensures
        video_of_jv(video_jv(v)) == Some(v),
{
    lemma_opt_photo_rt(v.thumb);
    let r = video_of_jv(video_jv(v));
    assert(r matches Some(v2) && v2 =~= v);
}

/// Builds the JSON of one `VideoData` record.
pub fn video_to_json(x: &VideoData) -> (j: Json)
    ensures
        jv(j) == video_jv(v_video(*x)),
{
    let mut fs: Vec<(Vec<char>, Json)> = Vec::new();
    fs.push((str_to_chars("file_id"), ex_str_json(x.file_id.as_str())));
    fs.push((str_to_chars("width"), Json::Int(x.width)));
    fs.push((str_to_chars("height"), Json::Int(x.height)));
    fs.push((str_to_chars("duration"), Json::Int(x.duration)));
    fs.push((str_to_chars("thumb"), opt_photo_to_json(&x.thumb)));
    fs.push((str_to_chars("mime_type"), ex_opt_str_json(&x.mime_type)));
    fs.push((str_to_chars("file_size"), ex_opt_int_json(&x.file_size)));
    let j = Json::Obj(fs);
    proof {
        let fsv = j->Obj_0@;
        lemma_jfs_index(fsv);
        assert(jfs(fsv) =~= video_jv(v_video(*x))->Obj_0);
    }
    j
}

/// Reads one `VideoData` record back.
pub fn video_of_json(j: &Json) -> (r: Option<VideoData>)
    ensures
        match r {
            Some(x) => video_of_jv(jv(*j)) == Some(v_video(x)),
            None => video_of_jv(jv(*j)) is None,
        },
{
    let fs = match j {
        Json::Obj(fs) => fs,
        _ => {
            return None;
        },
    };
    proof {
        lemma_jfs_index(fs@);
    }
    if fs.len() != 7 {
        return None;
    }
    if !(chars_eq_str(&fs[0].0, "file_id") && chars_eq_str(&fs[1].0, "width") && chars_eq_str(&fs[2].0, "height") && chars_eq_str(&fs[3].0, "duration") && chars_eq_str(&fs[4].0, "thumb") && chars_eq_str(&fs[5].0, "mime_type") && chars_eq_str(&fs[6].0, "file_size")) {
        return None;
    }
    let file_id = match ex_str_of(&fs[0].1) {
        Some(x) => x,
        None => {
            return None;
        },
    };
    let width = match ex_int_of(&fs[1].1) {
        Some(x) => x,
        None => {
            return None;
        },
    };
    let height = match ex_int_of(&fs[2].1) {
        Some(x) => x,
        None => {
            return None;
        },
    };
    let duration = match ex_int_of(&fs[3].1) {
        Some(x) => x,
        None => {
            return None;
        },
    };
    let thumb = match opt_photo_of_json(&fs[4].1) {
        Some(x) => x,
        None => {
            return None;
        },
    };
    let mime_type = match ex_opt_str_of(&fs[5].1) {
        Some(x) => x,
        None => {
            return None;
        },
    };
    let file_size = match ex_opt_int_of(&fs[6].1) {
        Some(x) => x,
        None => {
            return None;
        },
    };
    Some(VideoData { file_id, width, height, duration, thumb, mime_type, file_size })
}

/// The JSON form of one `VideoNoteData` record.
pub open spec fn video_note_jv(v: VideoNoteDataV) -> JsonV {
    JsonV::Obj(
        seq![
            ("file_id"@, JsonV::Str(v.file_id)),
            ("duration"@, JsonV::Int(v.duration as int)),
            ("thumb"@, opt_photo_jv(v.thumb)),
            ("file_size"@, opt_int_jv(v.file_size)),
        ],
    )
}

/// Strict decoding of one `VideoNoteData` record.
pub open spec fn video_note_of_jv(j: JsonV) -> Option<VideoNoteDataV> {
    match j {
        JsonV::Obj(fs) => if fs.len() == 4 && fs[0].0 == "file_id"@ && fs[1].0 == "duration"@ && fs[2].0 == "thumb"@ && fs[3].0 == "file_size"@ {
            match (
                str_of_jv(fs[0].1),
                int_of_jv(fs[1].1),
                opt_photo_of_jv(fs[2].1),
                opt_int_of_jv(fs[3].1),
            ) {
                (Some(file_id), Some(duration), Some(thumb), Some(file_size)) => Some(VideoNoteDataV { file_id, duration, thumb, file_size }),
                _ => None,
            }
        } else {
            None
        },
        _ => None,
    }
}

/// Encode, then decode: the identity, for every `VideoNoteData` record.
pub proof fn lemma_video_note_rt(v: VideoNoteDataV)
    ensures
        video_note_of_jv(video_note_jv(v)) == Some(v),
{
    lemma_opt_photo_rt(v.thumb);
    let r = video_note_of_jv(video_note_jv(v));
    assert(r matches Some(v2) && v2 =~= v);
}

/// Builds the JSON of one `VideoNoteData` record.
pub fn video_note_to_json(x: &VideoNoteData) -> (j: Json)
    ensures
        jv(j) == video_note_jv(v_video_note(*x)),
{
    let mut fs: Vec<(Vec<char>, Json)> = Vec::new();
    fs.push((str_to_chars("file_id"), ex_str_json(x.file_id.as_str())));
    fs.push((str_to_chars("duration"), Json::Int(x.duration)));
    fs.push((str_to_chars("thumb"), opt_photo_to_json(&x.thumb)));
    fs.push((str_to_chars("file_size"), ex_opt_int_json(&x.file_size)));
    let j = Json::Obj(fs);
    proof {
        let fsv = j->Obj_0@;
        lemma_jfs_index(fsv);
        assert(jfs(fsv) =~= video_note_jv(v_video_note(*x))->Obj_0);
    }
    j
}

/// Reads one `VideoNoteData` record back.
pub fn video_note_of_json(j: &Json) -> (r: Option<VideoNoteData>)
    ensures
        match r {
            Some(x) => video_note_of_jv(jv(*j)) == Some(v_video_note(x)),
            None => video_note_of_jv(jv(*j)) is None,
        },
{
    let fs = match j {
        Json::Obj(fs) => fs,
        _ => {
            return None;
        },
    };
    proof {
        lemma_jfs_index(fs@);
    }
    if fs.len() != 4 {
        return None;
    }
    if !(chars_eq_str(&fs[0].0, "file_id") && chars_eq_str(&fs[1].0, "duration") && chars_eq_str(&fs[2].0, "thumb") && chars_eq_str(&fs[3].0, "file_size")) {
        return None;
    }
    let file_id = match ex_str_of(&fs[0].1) {
        Some(x) => x,
        None => {
            return None;
        },
    };
    let duration = match ex_int_of(&fs[1].1) {
        Some(x) => x,
        None => {
            return None;
        },
    };
    let thumb = match opt_photo_of_json(&fs[2].1) {
        Some(x) => x,
        None => {
            return None;
        },
    };
    let file_size = match ex_opt_int_of(&fs[3].1) {
        Some(x) => x,
        None => {
            return None;
        },
    };
    Some(VideoNoteData { file_id, duration, thumb, file_size })
}

/// The JSON form of one `DocumentData` record.
pub open spec fn document_jv(v: DocumentDataV) -> JsonV {
    JsonV::Obj(
        seq![
            ("file_id"@, JsonV::Str(v.file_id)),
            ("file_name"@, opt_str_jv(v.file_name)),
            ("mime_type"@, opt_str_jv(v.mime_type)),
            ("file_size"@, opt_int_jv(v.file_size)),
        ],
    )
}

/// Strict decoding of one `DocumentData` record.
pub open spec fn document_of_jv(j: JsonV) -> Option<DocumentDataV> {
    match j {
        JsonV::Obj(fs) => if fs.len() == 4 && fs[0].0 == "file_id"@ && fs[1].0 == "file_name"@ && fs[2].0 == "mime_type"@ && fs[3].0 == "file_size"@ {
            match (
                str_of_jv(fs[0].1),
                opt_str_of_jv(fs[1].1),
                opt_str_of_jv(fs[2].1),
                opt_int_of_jv(fs[3].1),
            ) {
                (Some(file_id), Some(file_name), Some(mime_type), Some(file_size)) => Some(DocumentDataV { file_id, file_name, mime_type, file_size }),
                _ => None,
            }
        } else {
            None
        },
        _ => None,
    }
}

/// Encode, then decode: the identity, for every `DocumentData` record.
pub proof fn lemma_document_rt(v: DocumentDataV)
    ensures
        document_of_jv(document_jv(v)) == Some(v),
{
    let r = document_of_jv(document_jv(v));
    assert(r matches Some(v2) && v2 =~= v);
}

/// Builds the JSON of one `DocumentData` record.
pub fn document_to_json(x: &DocumentData) -> (j: Json)
    ensures
        jv(j) == document_jv(v_document(*x)),
{
    let mut fs: Vec<(Vec<char>, Json)> = Vec::new();
    fs.push((str_to_chars("file_id"), ex_str_json(x.file_id.as_str())));
    fs.push((str_to_chars("file_name"), ex_opt_str_json(&x.file_name)));
    fs.push((str_to_chars("mime_type"), ex_opt_str_json(&x.mime_type)));
    fs.push((str_to_chars("file_size"), ex_opt_int_json(&x.file_size)));
    let j = Json::Obj(fs);
    proof {
        let fsv = j->Obj_0@;
        lemma_jfs_index(fsv);
        assert(jfs(fsv) =~= document_jv(v_document(*x))->Obj_0);
    }
    j
}

/// Reads one `DocumentData` record back.
pub fn document_of_json(j: &Json) -> (r: Option<DocumentData>)
    ensures
        match r {
            Some(x) => document_of_jv(jv(*j)) == Some(v_document(x)),
            None => document_of_jv(jv(*j)) is None,
        },
{
    let fs = match j {
        Json::Obj(fs) => fs,
        _ => {
            return None;
        },
    };
    proof {
        lemma_jfs_index(fs@);
    }
    if fs.len() != 4 {
        return None;
    }
    if !(chars_eq_str(&fs[0].0, "file_id") && chars_eq_str(&fs[1].0, "file_name") && chars_eq_str(&fs[2].0, "mime_type") && chars_eq_str(&fs[3].0, "file_size")) {
        return None;
    }
    let file_id = match ex_str_of(&fs[0].1) {
        Some(x) => x,
        None => {
            return None;
        },
    };
    let file_name = match ex_opt_str_of(&fs[1].1) {
        Some(x) => x,
        None => {
            return None;
        },
    };
    let mime_type = match ex_opt_str_of(&fs[2].1) {
        Some(x) => x,
        None => {
            return None;
        },
    };
    let file_size = match ex_opt_int_of(&fs[3].1) {
        Some(x) => x,
        None => {
            return None;
        },
    };
    Some(DocumentData { file_id, file_name, mime_type, file_size })
}

/// The JSON form of one `StickerData` record.
pub open spec fn sticker_jv(v: StickerDataV) -> JsonV {
    JsonV::Obj(
        seq![
            ("file_id"@, JsonV::Str(v.file_id)),
            ("width"@, JsonV::Int(v.width as int)),
            ("height"@, JsonV::Int(v.height as int)),
            ("emoji"@, opt_str_jv(v.emoji)),
            ("set_name"@, opt_str_jv(v.set_name)),
            ("file_size"@, opt_int_jv(v.file_size)),
        ],
    )
}

/// Strict decoding of one `StickerData` record.
pub open spec fn sticker_of_jv(j: JsonV) -> Option<StickerDataV> {
    match j {
        JsonV::Obj(fs) => if fs.len() == 6 && fs[0].0 == "file_id"@ && fs[1].0 == "width"@ && fs[2].0 == "height"@ && fs[3].0 == "emoji"@ && fs[4].0 == "set_name"@ && fs[5].0 == "file_size"@ {
            match (
                str_of_jv(fs[0].1),
                int_of_jv(fs[1].1),
                int_of_jv(fs[2].1),
                opt_str_of_jv(fs[3].1),
                opt_str_of_jv(fs[4].1),
                opt_int_of_jv(fs[5].1),
            ) {
                (Some(file_id), Some(width), Some(height), Some(emoji), Some(set_name), Some(file_size)) => Some(StickerDataV { file_id, width, height, emoji, set_name, file_size }),
                _ => None,
            }
        } else {
            None
        },
        _ => None,
    }
}

/// Encode, then decode: the identity, for every `StickerData` record.
pub proof fn lemma_sticker_rt(v: StickerDataV)
    ensures
        sticker_of_jv(sticker_jv(v)) == Some(v),
{
    let r = sticker_of_jv(sticker_jv(v));
    assert(r matches Some(v2) && v2 =~= v);
}

/// Builds the JSON of one `StickerData` record.
pub fn sticker_to_json(x: &StickerData) -> (j: Json)
    ensures
        jv(j) == sticker_jv(v_sticker(*x)),
{
    let mut fs: Vec<(Vec<char>, Json)> = Vec::new();
    fs.push((str_to_chars("file_id"), ex_str_json(x.file_id.as_str())));
    fs.push((str_to_chars("width"), Json::Int(x.width)));
    fs.push((str_to_chars("height"), Json::Int(x.height)));
    fs.push((str_to_chars("emoji"), ex_opt_str_json(&x.emoji)));
    fs.push((str_to_chars("set_name"), ex_opt_str_json(&x.set_name)));
    fs.push((str_to_chars("file_size"), ex_opt_int_json(&x.file_size)));
    let j = Json::Obj(fs);
    proof {
        let fsv = j->Obj_0@;
        lemma_jfs_index(fsv);
        assert(jfs(fsv) =~= sticker_jv(v_sticker(*x))->Obj_0);
    }
    j
}

/// Reads one `StickerData` record back.
pub fn sticker_of_json(j: &Json) -> (r: Option<StickerData>)
    ensures
        match r {
            Some(x) => sticker_of_jv(jv(*j)) == Some(v_sticker(x)),
            None => sticker_of_jv(jv(*j)) is None,
        },
{
    let fs = match j {
        Json::Obj(fs) => fs,
        _ => {
            return None;
        },
    };
    proof {
        lemma_jfs_index(fs@);
    }
    if fs.len() != 6 {
        return None;
    }
    if !(chars_eq_str(&fs[0].0, "file_id") && chars_eq_str(&fs[1].0, "width") && chars_eq_str(&fs[2].0, "height") && chars_eq_str(&fs[3].0, "emoji") && chars_eq_str(&fs[4].0, "set_name") && chars_eq_str(&fs[5].0, "file_size")) {
        return None;
    }
    let file_id = match ex_str_of(&fs[0].1) {
        Some(x) => x,
        None => {
            return None;
        },
    };
    let width = match ex_int_of(&fs[1].1) {
        Some(x) => x,
        None => {
            return None;
        },
    };
    let height = match ex_int_of(&fs[2].1) {
        Some(x) => x,
        None => {
            return None;
        },
    };
    let emoji = match ex_opt_str_of(&fs[3].1) {
        Some(x) => x,
        None => {
            return None;
        },
    };
    let set_name = match ex_opt_str_of(&fs[4].1) {
        Some(x) => x,
        None => {
            return None;
        },
    };
    let file_size = match ex_opt_int_of(&fs[5].1) {
        Some(x) => x,
        None => {
            return None;
        },
    };
    Some(StickerData { file_id, width, height, emoji, set_name, file_size })
}

/// The JSON form of one `ContactData` record.
pub open spec fn contact_jv(v: ContactDataV) -> JsonV {
    JsonV::Obj(
        seq![
            ("phone_number"@, JsonV::Str(v.phone_number)),
            ("first_name"@, JsonV::Str(v.first_name)),
            ("last_name"@, opt_str_jv(v.last_name)),
            ("user_id"@, opt_int_jv(v.user_id)),
        ],
    )
}

/// Strict decoding of one `ContactData` record.
pub open spec fn contact_of_jv(j: JsonV) -> Option<ContactDataV> {
    match j {
        JsonV::Obj(fs) => if fs.len() == 4 && fs[0].0 == "phone_number"@ && fs[1].0 == "first_name"@ && fs[2].0 == "last_name"@ && fs[3].0 == "user_id"@ {
            match (
                str_of_jv(fs[0].1),
                str_of_jv(fs[1].1),
                opt_str_of_jv(fs[2].1),
                opt_int_of_jv(fs[3].1),
            ) {
                (Some(phone_number), Some(first_name), Some(last_name), Some(user_id)) => Some(ContactDataV { phone_number, first_name, last_name, user_id }),
                _ => None,
            }
        } else {
            None
        },
        _ => None,
    }
}

/// Encode, then decode: the identity, for every `ContactData` record.
pub proof fn lemma_contact_rt(v: ContactDataV)
    ensures
        contact_of_jv(contact_jv(v)) == Some(v),
{
    let r = contact_of_jv(contact_jv(v));
    assert(r matches Some(v2) && v2 =~= v);
}

/// Builds the JSON of one `ContactData` record.
pub fn contact_to_json(x: &ContactData) -> (j: Json)
    ensures
        jv(j) == contact_jv(v_contact(*x)),
{
    let mut fs: Vec<(Vec<char>, Json)> = Vec::new();
    fs.push((str_to_chars("phone_number"), ex_str_json(x.phone_number.as_str())));
    fs.push((str_to_chars("first_name"), ex_str_json(x.first_name.as_str())));
    fs.push((str_to_chars("last_name"), ex_opt_str_json(&x.last_name)));
    fs.push((str_to_chars("user_id"), ex_opt_int_json(&x.user_id)));
    let j = Json::Obj(fs);
    proof {
        let fsv = j->Obj_0@;
        lemma_jfs_index(fsv);
        assert(jfs(fsv) =~= contact_jv(v_contact(*x))->Obj_0);
    }
    j
}

/// Reads one `ContactData` record back.
pub fn contact_of_json(j: &Json) -> (r: Option<ContactData>)
    ensures
        match r {
            Some(x) => contact_of_jv(jv(*j)) == Some(v_contact(x)),
            None => contact_of_jv(jv(*j)) is None,
        },
{
    let fs = match j {
        Json::Obj(fs) => fs,
        _ => {
            return None;
        },
    };
    proof {
        lemma_jfs_index(fs@);
    }
    if fs.len() != 4 {
        return None;
    }
    if !(chars_eq_str(&fs[0].0, "phone_number") && chars_eq_str(&fs[1].0, "first_name") && chars_eq_str(&fs[2].0, "last_name") && chars_eq_str(&fs[3].0, "user_id")) {
        return None;
    }
    let phone_number = match ex_str_of(&fs[0].1) {
        Some(x) => x,
        None => {
            return None;
        },
    };
    let first_name = match ex_str_of(&fs[1].1) {
        Some(x) => x,
        None => {
            return None;
        },
    };
    let last_name = match ex_opt_str_of(&fs[2].1) {
        Some(x) => x,
        None => {
            return None;
        },
    };
    let user_id = match ex_opt_int_of(&fs[3].1) {
        Some(x) => x,
        None => {
            return None;
        },
    };
    Some(ContactData { phone_number, first_name, last_name, user_id })
}

/// The JSON form of one `VenueData` record.
pub open spec fn venue_jv(v: VenueDataV) -> JsonV {
    JsonV::Obj(
        seq![
            ("location"@, location_jv(v.location)),
            ("title"@, JsonV::Str(v.title)),
            ("address"@, JsonV::Str(v.address)),
            ("foursquare_id"@, opt_str_jv(v.foursquare_id)),
        ],
    )
}

/// Strict decoding of one `VenueData` record.
pub open spec fn venue_of_jv(j: JsonV) -> Option<VenueDataV> {
    match j {
        JsonV::Obj(fs) => if fs.len() == 4 && fs[0].0 == "location"@ && fs[1].0 == "title"@ && fs[2].0 == "address"@ && fs[3].0 == "foursquare_id"@ {
            match (
                location_of_jv(fs[0].1),
                str_of_jv(fs[1].1),
                str_of_jv(fs[2].1),
                opt_str_of_jv(fs[3].1),
            ) {
                (Some(location), Some(title), Some(address), Some(foursquare_id)) => Some(VenueDataV { location, title, address, foursquare_id }),
                _ => None,
            }
        } else {
            None
        },
        _ => None,
    }
}

/// Encode, then decode: the identity, for every `VenueData` record.
pub proof fn lemma_venue_rt(v: VenueDataV)
    ensures
        venue_of_jv(venue_jv(v)) == Some(v),
{
    lemma_location_rt(v.location);
    let r = venue_of_jv(venue_jv(v));
    assert(r matches Some(v2) && v2 =~= v);
}

/// Builds the JSON of one `VenueData` record.
pub fn venue_to_json(x: &VenueData) -> (j: Json)
    ensures
        jv(j) == venue_jv(v_venue(*x)),
{
    let mut fs: Vec<(Vec<char>, Json)> = Vec::new();
    fs.push((str_to_chars("location"), location_to_json(&x.location)));
    fs.push((str_to_chars("title"), ex_str_json(x.title.as_str())));
    fs.push((str_to_chars("address"), ex_str_json(x.address.as_str())));
    fs.push((str_to_chars("foursquare_id"), ex_opt_str_json(&x.foursquare_id)));
    let j = Json::Obj(fs);
    proof {
        let fsv = j->Obj_0@;
        lemma_jfs_index(fsv);
        assert(jfs(fsv) =~= venue_jv(v_venue(*x))->Obj_0);
    }
    j
}

/// Reads one `VenueData` record back.
pub fn venue_of_json(j: &Json) -> (r: Option<VenueData>)
    ensures
        match r {
            Some(x) => venue_of_jv(jv(*j)) == Some(v_venue(x)),
            None => venue_of_jv(jv(*j)) is None,
        },
{
    let fs = match j {
        Json::Obj(fs) => fs,
        _ => {
            return None;
        },
    };
    proof {
        lemma_jfs_index(fs@);
    }
    if fs.len() != 4 {
        return None;
    }
    if !(chars_eq_str(&fs[0].0, "location") && chars_eq_str(&fs[1].0, "title") && chars_eq_str(&fs[2].0, "address") && chars_eq_str(&fs[3].0, "foursquare_id")) {
        return None;
    }
    let location = match location_of_json(&fs[0].1) {
        Some(x) => x,
        None => {
            return None;
        },
    };
    let title = match ex_str_of(&fs[1].1) {
        Some(x) => x,
        None => {
            return None;
        },
    };
    let address = match ex_str_of(&fs[2].1) {
        Some(x) => x,
        None => {
            return None;
        },
    };
    let foursquare_id = match ex_opt_str_of(&fs[3].1) {
        Some(x) => x,
        None => {
            return None;
        },
    };
    Some(VenueData { location, title, address, foursquare_id })
}

/// The JSON form of one `PollOption` record.
pub open spec fn poll_option_jv(v: PollOptionV) -> JsonV {
    JsonV::Obj(
        seq![
            ("text"@, JsonV::Str(v.text)),
            ("voter_count"@, JsonV::Int(v.voter_count as int)),
        ],
    )
}

/// Strict decoding of one `PollOption` record.
pub open spec fn poll_option_of_jv(j: JsonV) -> Option<PollOptionV> {
    match j {
        JsonV::Obj(fs) => if fs.len() == 2 && fs[0].0 == "text"@ && fs[1].0 == "voter_count"@ {
            match (
                str_of_jv(fs[0].1),
                int_of_jv(fs[1].1),
            ) {
                (Some(text), Some(voter_count)) => Some(PollOptionV { text, voter_count }),
                _ => None,
            }
        } else {
            None
        },
        _ => None,
    }
}

/// Encode, then decode: the identity, for every `PollOption` record.
pub proof fn lemma_poll_option_rt(v: PollOptionV)
    ensures
        poll_option_of_jv(poll_option_jv(v)) == Some(v),
{
    let r = poll_option_of_jv(poll_option_jv(v));
    assert(r matches Some(v2) && v2 =~= v);
}

/// Builds the JSON of one `PollOption` record.
pub fn poll_option_to_json(x: &PollOption) -> (j: Json)
    ensures
        jv(j) == poll_option_jv(v_poll_option(*x)),
{
    let mut fs: Vec<(Vec<char>, Json)> = Vec::new();
    fs.push((str_to_chars("text"), ex_str_json(x.text.as_str())));
    fs.push((str_to_chars("voter_count"), Json::Int(x.voter_count)));
    let j = Json::Obj(fs);
    proof {
        let fsv = j->Obj_0@;
        lemma_jfs_index(fsv);
        assert(jfs(fsv) =~= poll_option_jv(v_poll_option(*x))->Obj_0);
    }
    j
}

/// Reads one `PollOption` record back.
pub fn poll_option_of_json(j: &Json) -> (r: Option<PollOption>)
    ensures
        match r {
            Some(x) => poll_option_of_jv(jv(*j)) == Some(v_poll_option(x)),
            None => poll_option_of_jv(jv(*j)) is None,
        },
{
    let fs = match j {
        Json::Obj(fs) => fs,
        _ => {
            return None;
        },
    };
    proof {
        lemma_jfs_index(fs@);
    }
    if fs.len() != 2 {
        return None;
    }
    if !(chars_eq_str(&fs[0].0, "text") && chars_eq_str(&fs[1].0, "voter_count")) {
        return None;
    }
    let text = match ex_str_of(&fs[0].1) {
        Some(x) => x,
        None => {
            return None;
        },
    };
    let voter_count = match ex_int_of(&fs[1].1) {
        Some(x) => x,
        None => {
            return None;
        },
    };
    Some(PollOption { text, voter_count })
}

/// The JSON forms of a list of `PollOption` records.
pub open spec fn poll_options_jv(s: Seq<PollOptionV>) -> Seq<JsonV> {
    Seq::new(s.len(), |i: int| poll_option_jv(s[i]))
}

/// Strict decoding of a list of `PollOption` records.
pub open spec fn poll_options_of_jv(js: Seq<JsonV>) -> Option<Seq<PollOptionV>>
    decreases js.len(),
{
    if js.len() == 0 {
        Some(Seq::empty())
    } else {
        match (poll_option_of_jv(js[0]), poll_options_of_jv(js.skip(1))) {
            (Some(p), Some(rest)) => Some(seq![p] + rest),
            _ => None,
        }
    }
}

/// Encode, then decode: the identity, for every list of `PollOption` records.
pub proof fn lemma_poll_options_rt(s: Seq<PollOptionV>)
    ensures
        poll_options_of_jv(poll_options_jv(s)) == Some(s),
    decreases s.len(),
{
    if s.len() == 0 {
        assert(poll_options_jv(s) =~= Seq::<JsonV>::empty());
        assert(s =~= Seq::<PollOptionV>::empty());
    } else {
        lemma_poll_option_rt(s[0]);
        lemma_poll_options_rt(s.skip(1));
        assert(poll_options_jv(s).skip(1) =~= poll_options_jv(s.skip(1)));
        assert(poll_options_jv(s)[0] == poll_option_jv(s[0]));
        assert(seq![s[0]] + s.skip(1) =~= s);
    }
}

/// Builds the JSON of a list of `PollOption` records.
pub fn poll_options_to_json(ps: &Vec<PollOption>) -> (j: Json)
    ensures
        jv(j) == JsonV::Arr(poll_options_jv(v_poll_options(ps@))),
{
    let mut out: Vec<Json> = Vec::new();
    let mut i: usize = 0;
    while i < ps.len()
        invariant
            i <= ps@.len(),
            jvs(out@) =~= poll_options_jv(v_poll_options(ps@)).subrange(0, i as int),
            out@.len() == i,
        decreases ps@.len() - i,
    {
        let ghost pre = out@;
        out.push(poll_option_to_json(&ps[i]));
        i = i + 1;
        proof {
            lemma_jvs_index(out@);
            lemma_jvs_index(pre);
            assert forall|x: int| 0 <= x < i implies jvs(out@)[x] == poll_options_jv(v_poll_options(ps@)).subrange(
                0,
                i as int,
            )[x] by {
                if x < i - 1 {
                    assert(jvs(out@)[x] == jv(out@[x]));
                    assert(jvs(pre)[x] == jv(pre[x]));
                }
            }
            assert(jvs(out@) =~= poll_options_jv(v_poll_options(ps@)).subrange(0, i as int));
        }
    }
    proof {
        assert(poll_options_jv(v_poll_options(ps@)).subrange(0, ps@.len() as int) =~= poll_options_jv(v_poll_options(ps@)));
    }
    let j = Json::Arr(out);
    proof {
        assert(jv(j) == JsonV::Arr(jvs(j->Arr_0@)));
    }
    j
}

/// Reads a list of `PollOption` records back.
pub fn poll_options_of_json(vs: &Vec<Json>) -> (r: Option<Vec<PollOption>>)
    ensures
        match r {
            Some(ps) => poll_options_of_jv(jvs(vs@)) == Some(v_poll_options(ps@)),
            None => poll_options_of_jv(jvs(vs@)) is None,
        },
{
    let mut out: Vec<PollOption> = Vec::new();
    let mut i: usize = 0;
    proof {
        lemma_jvs_index(vs@);
        assert(jvs(vs@).skip(0) =~= jvs(vs@));
        assert(v_poll_options(out@) =~= Seq::<PollOptionV>::empty());
        match poll_options_of_jv(jvs(vs@)) {
            Some(rest) => {
                assert(v_poll_options(out@) + rest =~= rest);
            },
            None => {},
        }
    }
    while i < vs.len()
        invariant
            i <= vs@.len(),
            out@.len() == i,
            poll_options_of_jv(jvs(vs@)) == (match poll_options_of_jv(jvs(vs@).skip(i as int)) {
                Some(rest) => Some(v_poll_options(out@) + rest),
                None => None::<Seq<PollOptionV>>,
            }),
        decreases vs@.len() - i,
    {
        proof {
            lemma_jvs_index(vs@);
            assert(jvs(vs@).skip(i as int)[0] == jvs(vs@)[i as int]);
        }
        let e = match poll_option_of_json(&vs[i]) {
            Some(e) => e,
            None => {
                proof {
                    assert(poll_options_of_jv(jvs(vs@).skip(i as int)) is None);
                }
                return None;
            },
        };
        let ghost pre = out@;
        out.push(e);
        i = i + 1;
        proof {
            assert(jvs(vs@).skip(i as int - 1).skip(1) =~= jvs(vs@).skip(i as int));
            assert(v_poll_options(out@) =~= v_poll_options(pre).push(v_poll_option(e)));
            match poll_options_of_jv(jvs(vs@).skip(i as int)) {
                Some(rest) => {
                    assert(v_poll_options(pre) + (seq![v_poll_option(e)] + rest) =~= v_poll_options(out@) + rest);
                },
                None => {},
            }
        }
    }
    proof {
        assert(jvs(vs@).skip(vs@.len() as int) =~= Seq::<JsonV>::empty());
        assert(v_poll_options(out@) + Seq::<PollOptionV>::empty() =~= v_poll_options(out@));
    }
    Some(out)
}


/// The JSON forms of a list of `UserMeta` records.
pub open spec fn user_metas_jv(s: Seq<UserMetaV>) -> Seq<JsonV> {
    Seq::new(s.len(), |i: int| user_meta_jv(s[i]))
}

/// Strict decoding of a list of `UserMeta` records.
pub open spec fn user_metas_of_jv(js: Seq<JsonV>) -> Option<Seq<UserMetaV>>
    decreases js.len(),
{
    if js.len() == 0 {
        Some(Seq::empty())
    } else {
        match (user_meta_of_jv(js[0]), user_metas_of_jv(js.skip(1))) {
            (Some(p), Some(rest)) => Some(seq![p] + rest),
            _ => None,
        }
    }
}

/// Encode, then decode: the identity, for every list of `UserMeta` records.
pub proof fn lemma_user_metas_rt(s: Seq<UserMetaV>)
    ensures
        user_metas_of_jv(user_metas_jv(s)) == Some(s),
    decreases s.len(),
{
    if s.len() == 0 {
        assert(user_metas_jv(s) =~= Seq::<JsonV>::empty());
        assert(s =~= Seq::<UserMetaV>::empty());
    } else {
        lemma_user_meta_rt(s[0]);
        lemma_user_metas_rt(s.skip(1));
        assert(user_metas_jv(s).skip(1) =~= user_metas_jv(s.skip(1)));
        assert(user_metas_jv(s)[0] == user_meta_jv(s[0]));
        assert(seq![s[0]] + s.skip(1) =~= s);
    }
}

/// Builds the JSON of a list of `UserMeta` records.
pub fn user_metas_to_json(ps: &Vec<UserMeta>) -> (j: Json)
    ensures
        jv(j) == JsonV::Arr(user_metas_jv(v_users(ps@))),
{
    let mut out: Vec<Json> = Vec::new();
    let mut i: usize = 0;
    while i < ps.len()
        invariant
            i <= ps@.len(),
            jvs(out@) =~= user_metas_jv(v_users(ps@)).subrange(0, i as int),
            out@.len() == i,
        decreases ps@.len() - i,
    {
        let ghost pre = out@;
        out.push(user_meta_to_json(&ps[i]));
        i = i + 1;
        proof {
            lemma_jvs_index(out@);
            lemma_jvs_index(pre);
            assert forall|x: int| 0 <= x < i implies jvs(out@)[x] == user_metas_jv(v_users(ps@)).subrange(
                0,
                i as int,
            )[x] by {
                if x < i - 1 {
                    assert(jvs(out@)[x] == jv(out@[x]));
                    assert(jvs(pre)[x] == jv(pre[x]));
                }
            }
            assert(jvs(out@) =~= user_metas_jv(v_users(ps@)).subrange(0, i as int));
        }
    }
    proof {
        assert(user_metas_jv(v_users(ps@)).subrange(0, ps@.len() as int) =~= user_metas_jv(v_users(ps@)));
    }
    let j = Json::Arr(out);
    proof {
        assert(jv(j) == JsonV::Arr(jvs(j->Arr_0@)));
    }
    j
}

/// Reads a list of `UserMeta` records back.
pub fn user_metas_of_json(vs: &Vec<Json>) -> (r: Option<Vec<UserMeta>>)
    ensures
        match r {
            Some(ps) => user_metas_of_jv(jvs(vs@)) == Some(v_users(ps@)),
            None => user_metas_of_jv(jvs(vs@)) is None,
        },
{
    let mut out: Vec<UserMeta> = Vec::new();
    let mut i: usize = 0;
    proof {
        lemma_jvs_index(vs@);
        assert(jvs(vs@).skip(0) =~= jvs(vs@));
        assert(v_users(out@) =~= Seq::<UserMetaV>::empty());
        match user_metas_of_jv(jvs(vs@)) {
            Some(rest) => {
                assert(v_users(out@) + rest =~= rest);
            },
            None => {},
        }
    }
    while i < vs.len()
        invariant
            i <= vs@.len(),
            out@.len() == i,
            user_metas_of_jv(jvs(vs@)) == (match user_metas_of_jv(jvs(vs@).skip(i as int)) {
                Some(rest) => Some(v_users(out@) + rest),
                None => None::<Seq<UserMetaV>>,
            }),
        decreases vs@.len() - i,
    {
        proof {
            lemma_jvs_index(vs@);
            assert(jvs(vs@).skip(i as int)[0] == jvs(vs@)[i as int]);
        }
        let e = match user_meta_of_json(&vs[i]) {
            Some(e) => e,
            None => {
                proof {
                    assert(user_metas_of_jv(jvs(vs@).skip(i as int)) is None);
                }
                return None;
            },
        };
        let ghost pre = out@;
        out.push(e);
        i = i + 1;
        proof {
            assert(jvs(vs@).skip(i as int - 1).skip(1) =~= jvs(vs@).skip(i as int));
            assert(v_users(out@) =~= v_users(pre).push(v_user(e)));
            match user_metas_of_jv(jvs(vs@).skip(i as int)) {
                Some(rest) => {
                    assert(v_users(pre) + (seq![v_user(e)] + rest) =~= v_users(out@) + rest);
                },
                None => {},
            }
        }
    }
    proof {
        assert(jvs(vs@).skip(vs@.len() as int) =~= Seq::<JsonV>::empty());
        assert(v_users(out@) + Seq::<UserMetaV>::empty() =~= v_users(out@));
    }
    Some(out)
}


/// The JSON form of an optional list of spans: the array, or null.
pub open spec fn opt_entities_jv(o: Option<Seq<EntityV>>) -> JsonV {
    match o {
        None => JsonV::Null,
        Some(es) => JsonV::Arr(entities_jv(es)),
    }
}

/// Strict decoding of an optional list of spans.
pub open spec fn opt_entities_of_jv(j: JsonV) -> Option<Option<Seq<EntityV>>> {
    match j {
        JsonV::Null => Some(None),
        JsonV::Arr(js) => match entities_of_jv(js) {
            Some(es) => Some(Some(es)),
            None => None,
        },
        _ => None,
    }
}

/// Encode, then decode: the identity, for every optional list of spans.
pub proof fn lemma_opt_entities_rt(o: Option<Seq<EntityV>>)
    ensures
        opt_entities_of_jv(opt_entities_jv(o)) == Some(o),
{
    match o {
        None => {},
        Some(es) => {
            lemma_entities_rt(es);
        },
    }
}

/// The view of an optional list of spans.
pub open spec fn v_opt_entities(o: Option<Vec<Entity>>) -> Option<Seq<EntityV>> {
    match o {
        None => None,
        Some(es) => Some(v_entities(es@)),
    }
}

/// Builds the JSON of an optional list of spans.
pub fn opt_entities_to_json(o: &Option<Vec<Entity>>) -> (j: Json)
    ensures
        jv(j) == opt_entities_jv(v_opt_entities(*o)),
{
    match o {
        None => Json::Null,
        Some(es) => entities_to_json(es),
    }
}

/// Reads an optional list of spans back.
pub fn opt_entities_of_json(j: &Json) -> (r: Option<Option<Vec<Entity>>>)
    ensures
        match r {
            Some(o) => opt_entities_of_jv(jv(*j)) == Some(v_opt_entities(o)),
            None => opt_entities_of_jv(jv(*j)) is None,
        },
{
    match j {
        Json::Null => Some(None),
        Json::Arr(js) => match entities_of_json(js) {
            Some(es) => Some(Some(es)),
            None => None,
        },
        _ => None,
    }
}


/// Strict decoding of the option list of a poll, from an array value.
pub open spec fn arr_options_of_jv(j: JsonV) -> Option<Seq<PollOptionV>> {
    match j {
        JsonV::Arr(js) => poll_options_of_jv(js),
        _ => None,
    }
}

/// Reads a poll option array back.
pub fn arr_options_of_json(j: &Json) -> (r: Option<Vec<PollOption>>)
    ensures
        match r {
            Some(ps) => arr_options_of_jv(jv(*j)) == Some(v_poll_options(ps@)),
            None => arr_options_of_jv(jv(*j)) is None,
        },
{
    match j {
        Json::Arr(js) => poll_options_of_json(js),
        _ => None,
    }
}

/// The JSON form of one `PollData` record.
pub open spec fn poll_jv(v: PollDataV) -> JsonV {
    JsonV::Obj(
        seq![
            ("id"@, JsonV::Str(v.id)),
            ("question"@, JsonV::Str(v.question)),
            ("options"@, JsonV::Arr(poll_options_jv(v.options))),
            ("total_voter_count"@, JsonV::Int(v.total_voter_count as int)),
            ("is_closed"@, JsonV::Bool(v.is_closed)),
            ("is_anonymous"@, JsonV::Bool(v.is_anonymous)),
            ("poll_type"@, JsonV::Str(v.poll_type)),
            ("allows_multiple_answers"@, JsonV::Bool(v.allows_multiple_answers)),
            ("correct_option_id"@, opt_int_jv(v.correct_option_id)),
            ("explanation"@, opt_str_jv(v.explanation)),
            ("explanation_entities"@, opt_entities_jv(v.explanation_entities)),
            ("open_period"@, opt_int_jv(v.open_period)),
            ("close_date"@, opt_int_jv(v.close_date)),
        ],
    )
}

/// Strict decoding of one `PollData` record.
pub open spec fn poll_of_jv(j: JsonV) -> Option<PollDataV> {
    match j {
        JsonV::Obj(fs) => if fs.len() == 13 && fs[0].0 == "id"@ && fs[1].0 == "question"@ && fs[2].0 == "options"@ && fs[3].0 == "total_voter_count"@ && fs[4].0 == "is_closed"@ && fs[5].0 == "is_anonymous"@ && fs[6].0 == "poll_type"@ && fs[7].0 == "allows_multiple_answers"@ && fs[8].0 == "correct_option_id"@ && fs[9].0 == "explanation"@ && fs[10].0 == "explanation_entities"@ && fs[11].0 == "open_period"@ && fs[12].0 == "close_date"@ {
            match (
                str_of_jv(fs[0].1),
                str_of_jv(fs[1].1),
                arr_options_of_jv(fs[2].1),
                int_of_jv(fs[3].1),
                bool_of_jv(fs[4].1),
                bool_of_jv(fs[5].1),
                str_of_jv(fs[6].1),
                bool_of_jv(fs[7].1),
                opt_int_of_jv(fs[8].1),
                opt_str_of_jv(fs[9].1),
                opt_entities_of_jv(fs[10].1),
                opt_int_of_jv(fs[11].1),
                opt_int_of_jv(fs[12].1),
            ) {
                (Some(id), Some(question), Some(options), Some(total_voter_count), Some(is_closed), Some(is_anonymous), Some(poll_type), Some(allows_multiple_answers), Some(correct_option_id), Some(explanation), Some(explanation_entities), Some(open_period), Some(close_date)) => Some(PollDataV { id, question, options, total_voter_count, is_closed, is_anonymous, poll_type, allows_multiple_answers, correct_option_id, explanation, explanation_entities, open_period, close_date }),
                _ => None,
            }
        } else {
            None
        },
        _ => None,
    }
}

/// Encode, then decode: the identity, for every `PollData` record.
pub proof fn lemma_poll_rt(v: PollDataV)
    ensures
        poll_of_jv(poll_jv(v)) == Some(v),
{
    lemma_poll_options_rt(v.options);
    lemma_opt_entities_rt(v.explanation_entities);
    let r = poll_of_jv(poll_jv(v));
    assert(r matches Some(v2) && v2 =~= v);
}

/// Builds the JSON of one `PollData` record.
pub fn poll_to_json(x: &PollData) -> (j: Json)
    ensures
        jv(j) == poll_jv(v_poll(*x)),
{
    let mut fs: Vec<(Vec<char>, Json)> = Vec::new();
    fs.push((str_to_chars("id"), ex_str_json(x.id.as_str())));
    fs.push((str_to_chars("question"), ex_str_json(x.question.as_str())));
    fs.push((str_to_chars("options"), poll_options_to_json(&x.options)));
    fs.push((str_to_chars("total_voter_count"), Json::Int(x.total_voter_count)));
    fs.push((str_to_chars("is_closed"), Json::Bool(x.is_closed)));
    fs.push((str_to_chars("is_anonymous"), Json::Bool(x.is_anonymous)));
    fs.push((str_to_chars("poll_type"), ex_str_json(x.poll_type.as_str())));
    fs.push((str_to_chars("allows_multiple_answers"), Json::Bool(x.allows_multiple_answers)));
    fs.push((str_to_chars("correct_option_id"), ex_opt_int_json(&x.correct_option_id)));
    fs.push((str_to_chars("explanation"), ex_opt_str_json(&x.explanation)));
    fs.push((str_to_chars("explanation_entities"), opt_entities_to_json(&x.explanation_entities)));
    fs.push((str_to_chars("open_period"), ex_opt_int_json(&x.open_period)));
    fs.push((str_to_chars("close_date"), ex_opt_int_json(&x.close_date)));
    let j = Json::Obj(fs);
    proof {
        let fsv = j->Obj_0@;
        lemma_jfs_index(fsv);
        assert(jfs(fsv) =~= poll_jv(v_poll(*x))->Obj_0);
    }
    j
}

/// Reads one `PollData` record back.
pub fn poll_of_json(j: &Json) -> (r: Option<PollData>)
    ensures
        match r {
            Some(x) => poll_of_jv(jv(*j)) == Some(v_poll(x)),
            None => poll_of_jv(jv(*j)) is None,
        },
{
    let fs = match j {
        Json::Obj(fs) => fs,
        _ => {
            return None;
        },
    };
    proof {
        lemma_jfs_index(fs@);
    }
    if fs.len() != 13 {
        return None;
    }
    if !(chars_eq_str(&fs[0].0, "id") && chars_eq_str(&fs[1].0, "question") && chars_eq_str(&fs[2].0, "options") && chars_eq_str(&fs[3].0, "total_voter_count") && chars_eq_str(&fs[4].0, "is_closed") && chars_eq_str(&fs[5].0, "is_anonymous") && chars_eq_str(&fs[6].0, "poll_type") && chars_eq_str(&fs[7].0, "allows_multiple_answers") && chars_eq_str(&fs[8].0, "correct_option_id") && chars_eq_str(&fs[9].0, "explanation") && chars_eq_str(&fs[10].0, "explanation_entities") && chars_eq_str(&fs[11].0, "open_period") && chars_eq_str(&fs[12].0, "close_date")) {
        return None;
    }
    let id = match ex_str_of(&fs[0].1) {
        Some(x) => x,
        None => {
            return None;
        },
    };
    let question = match ex_str_of(&fs[1].1) {
        Some(x) => x,
        None => {
            return None;
        },
    };
    let options = match arr_options_of_json(&fs[2].1) {
        Some(x) => x,
        None => {
            return None;
        },
    };
    let total_voter_count = match ex_int_of(&fs[3].1) {
        Some(x) => x,
        None => {
            return None;
        },
    };
    let is_closed = match ex_bool_of(&fs[4].1) {
        Some(x) => x,
        None => {
            return None;
        },
    };
    let is_anonymous = match ex_bool_of(&fs[5].1) {
        Some(x) => x,
        None => {
            return None;
        },
    };
    let poll_type = match ex_str_of(&fs[6].1) {
        Some(x) => x,
        None => {
            return None;
        },
    };
    let allows_multiple_answers = match ex_bool_of(&fs[7].1) {
        Some(x) => x,
        None => {
            return None;
        },
    };
    let correct_option_id = match ex_opt_int_of(&fs[8].1) {
        Some(x) => x,
        None => {
            return None;
        },
    };
    let explanation = match ex_opt_str_of(&fs[9].1) {
        Some(x) => x,
        None => {
            return None;
        },
    };
    let explanation_entities = match opt_entities_of_json(&fs[10].1) {
        Some(x) => x,
        None => {
            return None;
        },
    };
    let open_period = match ex_opt_int_of(&fs[11].1) {
        Some(x) => x,
        None => {
            return None;
        },
    };
    let close_date = match ex_opt_int_of(&fs[12].1) {
        Some(x) => x,
        None => {
            return None;
        },
    };
    Some(PollData { id, question, options, total_voter_count, is_closed, is_anonymous, poll_type, allows_multiple_answers, correct_option_id, explanation, explanation_entities, open_period, close_date })
}


/// The JSON form of an optional user snapshot.
pub open spec fn opt_user_jv(o: Option<UserMetaV>) -> JsonV {
    match o {
        None => JsonV::Null,
        Some(u) => user_meta_jv(u),
    }
}

/// Strict decoding of an optional user snapshot.
pub open spec fn opt_user_of_jv(j: JsonV) -> Option<Option<UserMetaV>> {
    match j {
        JsonV::Null => Some(None),
        JsonV::Obj(_) => match user_meta_of_jv(j) {
            Some(u) => Some(Some(u)),
            None => None,
        },
        _ => None,
    }
}

/// Encode, then decode: the identity, for every optional user snapshot.
pub proof fn lemma_opt_user_rt(o: Option<UserMetaV>)
    ensures
        opt_user_of_jv(opt_user_jv(o)) == Some(o),
{
    match o {
        None => {},
        Some(u) => {
            lemma_user_meta_rt(u);
        },
    }
}

/// Builds the JSON of an optional user snapshot.
pub fn opt_user_to_json(o: &Option<UserMeta>) -> (j: Json)
    ensures
        jv(j) == opt_user_jv(v_opt_user(*o)),
{
    match o {
        None => Json::Null,
        Some(u) => user_meta_to_json(u),
    }
}

/// Reads an optional user snapshot back.
pub fn opt_user_of_json(j: &Json) -> (r: Option<Option<UserMeta>>)
    ensures
        match r {
            Some(o) => opt_user_of_jv(jv(*j)) == Some(v_opt_user(o)),
            None => opt_user_of_jv(jv(*j)) is None,
        },
{
    match j {
        Json::Null => Some(None),
        Json::Obj(_) => match user_meta_of_json(j) {
            Some(u) => Some(Some(u)),
            None => None,
        },
        _ => None,
    }
}

/// The JSON form of the raw kind of a message: one field named after the
/// variant, or the bare variant name for a variant without data.
pub open spec fn kind_jv(k: MessageKindV) -> JsonV {
    match k {
        MessageKindV::Text { data, entities } => JsonV::Obj(
            seq![
                ("Text"@, JsonV::Obj(
                    seq![("data"@, JsonV::Str(data)), ("entities"@, JsonV::Arr(entities_jv(entities)))],
                )),
            ],
        ),
        MessageKindV::Audio { data } => JsonV::Obj(seq![("Audio"@, audio_jv(data))]),
        MessageKindV::Voice { data } => JsonV::Obj(seq![("Voice"@, voice_jv(data))]),
        MessageKindV::Photo { data, caption } => JsonV::Obj(
            seq![
                ("Photo"@, JsonV::Obj(
                    seq![("data"@, JsonV::Arr(photos_jv(data))), ("caption"@, opt_str_jv(caption))],
                )),
            ],
        ),
        MessageKindV::Document { data, caption } => JsonV::Obj(
            seq![
                ("Document"@, JsonV::Obj(
                    seq![("data"@, document_jv(data)), ("caption"@, opt_str_jv(caption))],
                )),
            ],
        ),
        MessageKindV::Sticker { data } => JsonV::Obj(seq![("Sticker"@, sticker_jv(data))]),
        MessageKindV::Video { data, caption } => JsonV::Obj(
            seq![
                ("Video"@, JsonV::Obj(
                    seq![("data"@, video_jv(data)), ("caption"@, opt_str_jv(caption))],
                )),
            ],
        ),
        MessageKindV::VideoNote { data } => JsonV::Obj(seq![("VideoNote"@, video_note_jv(data))]),
        MessageKindV::Contact { data } => JsonV::Obj(seq![("Contact"@, contact_jv(data))]),
        MessageKindV::Location { data } => JsonV::Obj(seq![("Location"@, location_jv(data))]),
        MessageKindV::Poll { data } => JsonV::Obj(seq![("Poll"@, poll_jv(data))]),
        MessageKindV::Venue { data } => JsonV::Obj(seq![("Venue"@, venue_jv(data))]),
        MessageKindV::NewChatMembers { data } => JsonV::Obj(
            seq![("NewChatMembers"@, JsonV::Arr(user_metas_jv(data)))],
        ),
        MessageKindV::LeftChatMember { data } => JsonV::Obj(
            seq![("LeftChatMember"@, user_meta_jv(data))],
        ),
        MessageKindV::NewChatTitle { data } => JsonV::Obj(
            seq![("NewChatTitle"@, JsonV::Str(data))],
        ),
        MessageKindV::NewChatPhoto { data } => JsonV::Obj(
            seq![("NewChatPhoto"@, JsonV::Arr(photos_jv(data)))],
        ),
        MessageKindV::DeleteChatPhoto => JsonV::Str("DeleteChatPhoto"@),
        MessageKindV::PinnedMessage { message_id, text } => JsonV::Obj(
            seq![
                ("PinnedMessage"@, JsonV::Obj(
                    seq![("message_id"@, JsonV::Int(message_id as int)), ("text"@, opt_str_jv(text))],
                )),
            ],
        ),
        MessageKindV::GroupChatCreated => JsonV::Str("GroupChatCreated"@),
        MessageKindV::SupergroupChatCreated => JsonV::Str("SupergroupChatCreated"@),
        MessageKindV::ChannelChatCreated => JsonV::Str("ChannelChatCreated"@),
        MessageKindV::MigrateToChatId { data } => JsonV::Obj(
            seq![("MigrateToChatId"@, JsonV::Int(data as int))],
        ),
        MessageKindV::MigrateFromChatId { data } => JsonV::Obj(
            seq![("MigrateFromChatId"@, JsonV::Int(data as int))],
        ),
        MessageKindV::Unknown { tag } => JsonV::Obj(seq![("Unknown"@, JsonV::Str(tag))]),
    }
}

/// Strict decoding of the raw kind of a message.
pub open spec fn kind_of_jv(j: JsonV) -> Option<MessageKindV> {
    match j {
        JsonV::Str(t) => if t == "DeleteChatPhoto"@ {
            Some(MessageKindV::DeleteChatPhoto)
        } else if t == "GroupChatCreated"@ {
            Some(MessageKindV::GroupChatCreated)
        } else if t == "SupergroupChatCreated"@ {
            Some(MessageKindV::SupergroupChatCreated)
        } else if t == "ChannelChatCreated"@ {
            Some(MessageKindV::ChannelChatCreated)
        } else {
            None
        },
        JsonV::Obj(fs) => if fs.len() != 1 {
            None
        } else if fs[0].0 == "Text"@ {
            match fs[0].1 {
                JsonV::Obj(g) => if g.len() == 2 && g[0].0 == "data"@ && g[1].0 == "entities"@ {
                    match (str_of_jv(g[0].1), g[1].1) {
                        (Some(data), JsonV::Arr(es)) => match entities_of_jv(es) {
                            Some(entities) => Some(MessageKindV::Text { data, entities }),
                            None => None,
                        },
                        _ => None,
                    }
                } else {
                    None
                },
                _ => None,
            }
        } else if fs[0].0 == "Audio"@ {
            match audio_of_jv(fs[0].1) {
                Some(data) => Some(MessageKindV::Audio { data }),
                None => None,
            }
        } else if fs[0].0 == "Voice"@ {
            match voice_of_jv(fs[0].1) {
                Some(data) => Some(MessageKindV::Voice { data }),
                None => None,
            }
        } else if fs[0].0 == "Photo"@ {
            match fs[0].1 {
                JsonV::Obj(g) => if g.len() == 2 && g[0].0 == "data"@ && g[1].0 == "caption"@ {
                    match (g[0].1, opt_str_of_jv(g[1].1)) {
                        (JsonV::Arr(ps), Some(caption)) => match photos_of_jv(ps) {
                            Some(data) => Some(MessageKindV::Photo { data, caption }),
                            None => None,
                        },
                        _ => None,
                    }
                } else {
                    None
                },
                _ => None,
            }
        } else if fs[0].0 == "Document"@ {
            match fs[0].1 {
                JsonV::Obj(g) => if g.len() == 2 && g[0].0 == "data"@ && g[1].0 == "caption"@ {
                    match (document_of_jv(g[0].1), opt_str_of_jv(g[1].1)) {
                        (Some(data), Some(caption)) => Some(
                            MessageKindV::Document { data, caption },
                        ),
                        _ => None,
                    }
                } else {
                    None
                },
                _ => None,
            }
        } else if fs[0].0 == "Sticker"@ {
            match sticker_of_jv(fs[0].1) {
                Some(data) => Some(MessageKindV::Sticker { data }),
                None => None,
            }
        } else if fs[0].0 == "Video"@ {
            match fs[0].1 {
                JsonV::Obj(g) => if g.len() == 2 && g[0].0 == "data"@ && g[1].0 == "caption"@ {
                    match (video_of_jv(g[0].1), opt_str_of_jv(g[1].1)) {
                        (Some(data), Some(caption)) => Some(MessageKindV::Video { data, caption }),
                        _ => None,
                    }
                } else {
                    None
                },
                _ => None,
            }
        } else if fs[0].0 == "VideoNote"@ {
            match video_note_of_jv(fs[0].1) {
                Some(data) => Some(MessageKindV::VideoNote { data }),
                None => None,
            }
        } else if fs[0].0 == "Contact"@ {
            match contact_of_jv(fs[0].1) {
                Some(data) => Some(MessageKindV::Contact { data }),
                None => None,
            }
        } else if fs[0].0 == "Location"@ {
            match location_of_jv(fs[0].1) {
                Some(data) => Some(MessageKindV::Location { data }),
                None => None,
            }
        } else if fs[0].0 == "Poll"@ {
            match poll_of_jv(fs[0].1) {
                Some(data) => Some(MessageKindV::Poll { data }),
                None => None,
            }
        } else if fs[0].0 == "Venue"@ {
            match venue_of_jv(fs[0].1) {
                Some(data) => Some(MessageKindV::Venue { data }),
                None => None,
            }
        } else if fs[0].0 == "NewChatMembers"@ {
            match fs[0].1 {
                JsonV::Arr(us) => match user_metas_of_jv(us) {
                    Some(data) => Some(MessageKindV::NewChatMembers { data }),
                    None => None,
                },
                _ => None,
            }
        } else if fs[0].0 == "LeftChatMember"@ {
            match user_meta_of_jv(fs[0].1) {
                Some(data) => Some(MessageKindV::LeftChatMember { data }),
                None => None,
            }
        } else if fs[0].0 == "NewChatTitle"@ {
            match str_of_jv(fs[0].1) {
                Some(data) => Some(MessageKindV::NewChatTitle { data }),
                None => None,
            }
        } else if fs[0].0 == "NewChatPhoto"@ {
            match fs[0].1 {
                JsonV::Arr(ps) => match photos_of_jv(ps) {
                    Some(data) => Some(MessageKindV::NewChatPhoto { data }),
                    None => None,
                },
                _ => None,
            }
        } else if fs[0].0 == "PinnedMessage"@ {
            match fs[0].1 {
                JsonV::Obj(g) => if g.len() == 2 && g[0].0 == "message_id"@ && g[1].0 == "text"@ {
                    match (int_of_jv(g[0].1), opt_str_of_jv(g[1].1)) {
                        (Some(message_id), Some(text)) => Some(
                            MessageKindV::PinnedMessage { message_id, text },
                        ),
                        _ => None,
                    }
                } else {
                    None
                },
                _ => None,
            }
        } else if fs[0].0 == "MigrateToChatId"@ {
            match int_of_jv(fs[0].1) {
                Some(data) => Some(MessageKindV::MigrateToChatId { data }),
                None => None,
            }
        } else if fs[0].0 == "MigrateFromChatId"@ {
            match int_of_jv(fs[0].1) {
                Some(data) => Some(MessageKindV::MigrateFromChatId { data }),
                None => None,
            }
        } else if fs[0].0 == "Unknown"@ {
            match str_of_jv(fs[0].1) {
                Some(tag) => Some(MessageKindV::Unknown { tag }),
                None => None,
            }
        } else {
            None
        },
        _ => None,
    }
}


/// The kind tags have the listed lengths, and tags of equal length differ.
pub proof fn lemma_kind_tags_distinct()
    ensures
        "Text"@.len() == 4 && "Audio"@.len() == 5 && "Voice"@.len() == 5 && "Photo"@.len() == 5 && "Document"@.len() == 8 && "Sticker"@.len() == 7 && "Video"@.len() == 5 && "VideoNote"@.len() == 9 && "Contact"@.len() == 7 && "Location"@.len() == 8 && "Poll"@.len() == 4 && "Venue"@.len() == 5 && "NewChatMembers"@.len() == 14 && "LeftChatMember"@.len() == 14 && "NewChatTitle"@.len() == 12 && "NewChatPhoto"@.len() == 12 && "DeleteChatPhoto"@.len() == 15 && "PinnedMessage"@.len() == 13 && "GroupChatCreated"@.len() == 16 && "SupergroupChatCreated"@.len() == 21 && "ChannelChatCreated"@.len() == 18 && "MigrateToChatId"@.len() == 15 && "MigrateFromChatId"@.len() == 17 && "Unknown"@.len() == 7,
        "Text"@ != "Poll"@,
        "Audio"@ != "Voice"@,
        "Audio"@ != "Photo"@,
        "Audio"@ != "Video"@,
        "Audio"@ != "Venue"@,
        "Voice"@ != "Photo"@,
        "Voice"@ != "Video"@,
        "Voice"@ != "Venue"@,
        "Photo"@ != "Video"@,
        "Photo"@ != "Venue"@,
        "Document"@ != "Location"@,
        "Sticker"@ != "Contact"@,
        "Sticker"@ != "Unknown"@,
        "Video"@ != "Venue"@,
        "Contact"@ != "Unknown"@,
        "NewChatMembers"@ != "LeftChatMember"@,
        "NewChatTitle"@ != "NewChatPhoto"@,
        "DeleteChatPhoto"@ != "MigrateToChatId"@,
{
    reveal_strlit("Text");
    reveal_strlit("Audio");
    reveal_strlit("Voice");
    reveal_strlit("Photo");
    reveal_strlit("Document");
    reveal_strlit("Sticker");
    reveal_strlit("Video");
    reveal_strlit("VideoNote");
    reveal_strlit("Contact");
    reveal_strlit("Location");
    reveal_strlit("Poll");
    reveal_strlit("Venue");
    reveal_strlit("NewChatMembers");
    reveal_strlit("LeftChatMember");
    reveal_strlit("NewChatTitle");
    reveal_strlit("NewChatPhoto");
    reveal_strlit("DeleteChatPhoto");
    reveal_strlit("PinnedMessage");
    reveal_strlit("GroupChatCreated");
    reveal_strlit("SupergroupChatCreated");
    reveal_strlit("ChannelChatCreated");
    reveal_strlit("MigrateToChatId");
    reveal_strlit("MigrateFromChatId");
    reveal_strlit("Unknown");
    assert("Text"@ != "Poll"@) by {
        assert("Text"@[0] == 'T' && "Poll"@[0] == 'P');
        assert('T' as u32 == 84 && 'P' as u32 == 80);
    }
    assert("Audio"@ != "Voice"@) by {
        assert("Audio"@[0] == 'A' && "Voice"@[0] == 'V');
        assert('A' as u32 == 65 && 'V' as u32 == 86);
    }
    assert("Audio"@ != "Photo"@) by {
        assert("Audio"@[0] == 'A' && "Photo"@[0] == 'P');
        assert('A' as u32 == 65 && 'P' as u32 == 80);
    }
    assert("Audio"@ != "Video"@) by {
        assert("Audio"@[0] == 'A' && "Video"@[0] == 'V');
        assert('A' as u32 == 65 && 'V' as u32 == 86);
    }
    assert("Audio"@ != "Venue"@) by {
        assert("Audio"@[0] == 'A' && "Venue"@[0] == 'V');
        assert('A' as u32 == 65 && 'V' as u32 == 86);
    }
    assert("Voice"@ != "Photo"@) by {
        assert("Voice"@[0] == 'V' && "Photo"@[0] == 'P');
        assert('V' as u32 == 86 && 'P' as u32 == 80);
    }
    assert("Voice"@ != "Video"@) by {
        assert("Voice"@[1] == 'o' && "Video"@[1] == 'i');
        assert('o' as u32 == 111 && 'i' as u32 == 105);
    }
    assert("Voice"@ != "Venue"@) by {
        assert("Voice"@[1] == 'o' && "Venue"@[1] == 'e');
        assert('o' as u32 == 111 && 'e' as u32 == 101);
    }
    assert("Photo"@ != "Video"@) by {
        assert("Photo"@[0] == 'P' && "Video"@[0] == 'V');
        assert('P' as u32 == 80 && 'V' as u32 == 86);
    }
    assert("Photo"@ != "Venue"@) by {
        assert("Photo"@[0] == 'P' && "Venue"@[0] == 'V');
        assert('P' as u32 == 80 && 'V' as u32 == 86);
    }
    assert("Document"@ != "Location"@) by {
        assert("Document"@[0] == 'D' && "Location"@[0] == 'L');
        assert('D' as u32 == 68 && 'L' as u32 == 76);
    }
    assert("Sticker"@ != "Contact"@) by {
        assert("Sticker"@[0] == 'S' && "Contact"@[0] == 'C');
        assert('S' as u32 == 83 && 'C' as u32 == 67);
    }
    assert("Sticker"@ != "Unknown"@) by {
        assert("Sticker"@[0] == 'S' && "Unknown"@[0] == 'U');
        assert('S' as u32 == 83 && 'U' as u32 == 85);
    }
    assert("Video"@ != "Venue"@) by {
        assert("Video"@[1] == 'i' && "Venue"@[1] == 'e');
        assert('i' as u32 == 105 && 'e' as u32 == 101);
    }
    assert("Contact"@ != "Unknown"@) by {
        assert("Contact"@[0] == 'C' && "Unknown"@[0] == 'U');
        assert('C' as u32 == 67 && 'U' as u32 == 85);
    }
    assert("NewChatMembers"@ != "LeftChatMember"@) by {
        assert("NewChatMembers"@[0] == 'N' && "LeftChatMember"@[0] == 'L');
        assert('N' as u32 == 78 && 'L' as u32 == 76);
    }
    assert("NewChatTitle"@ != "NewChatPhoto"@) by {
        assert("NewChatTitle"@[7] == 'T' && "NewChatPhoto"@[7] == 'P');
        assert('T' as u32 == 84 && 'P' as u32 == 80);
    }
    assert("DeleteChatPhoto"@ != "MigrateToChatId"@) by {
        assert("DeleteChatPhoto"@[0] == 'D' && "MigrateToChatId"@[0] == 'M');
        assert('D' as u32 == 68 && 'M' as u32 == 77);
    }
}

/// Encode, then decode: the identity, for every raw kind.
pub proof fn lemma_kind_rt(k: MessageKindV)
    ensures
        kind_of_jv(kind_jv(k)) == Some(k),
{
    reveal_strlit("Text");
    reveal_strlit("Audio");
    reveal_strlit("Voice");
    reveal_strlit("Photo");
    reveal_strlit("Document");
    reveal_strlit("Sticker");
    reveal_strlit("Video");
    reveal_strlit("VideoNote");
    reveal_strlit("Contact");
    reveal_strlit("Location");
    reveal_strlit("Poll");
    reveal_strlit("Venue");
    reveal_strlit("NewChatMembers");
    reveal_strlit("LeftChatMember");
    reveal_strlit("NewChatTitle");
    reveal_strlit("NewChatPhoto");
    reveal_strlit("DeleteChatPhoto");
    reveal_strlit("PinnedMessage");
    reveal_strlit("GroupChatCreated");
    reveal_strlit("SupergroupChatCreated");
    reveal_strlit("ChannelChatCreated");
    reveal_strlit("MigrateToChatId");
    reveal_strlit("MigrateFromChatId");
    reveal_strlit("Unknown");
    lemma_kind_tags_distinct();
    match k {
        MessageKindV::Text { data, entities } => {
            lemma_entities_rt(entities);
        },
        MessageKindV::Audio { data } => {
            lemma_audio_rt(data);
        },
        MessageKindV::Voice { data } => {
            lemma_voice_rt(data);
        },
        MessageKindV::Photo { data, caption } => {
            lemma_photos_rt(data);
        },
        MessageKindV::Document { data, caption } => {
            lemma_document_rt(data);
        },
        MessageKindV::Sticker { data } => {
            lemma_sticker_rt(data);
        },
        MessageKindV::Video { data, caption } => {
            lemma_video_rt(data);
        },
        MessageKindV::VideoNote { data } => {
            lemma_video_note_rt(data);
        },
        MessageKindV::Contact { data } => {
            lemma_contact_rt(data);
        },
        MessageKindV::Location { data } => {
            lemma_location_rt(data);
        },
        MessageKindV::Poll { data } => {
            lemma_poll_rt(data);
        },
        MessageKindV::Venue { data } => {
            lemma_venue_rt(data);
        },
        MessageKindV::NewChatMembers { data } => {
            lemma_user_metas_rt(data);
        },
        MessageKindV::LeftChatMember { data } => {
            lemma_user_meta_rt(data);
        },
        MessageKindV::NewChatPhoto { data } => {
            lemma_photos_rt(data);
        },
        _ => {},
    }
}

/// Builds the JSON of a raw kind.
pub fn kind_to_json(k: &MessageKind) -> (j: Json)
    ensures
        jv(j) == kind_jv(v_kind(*k)),
{
    match k {
        MessageKind::Text { data, entities } => {
            let mut g: Vec<(Vec<char>, Json)> = Vec::new();
            g.push((str_to_chars("data"), ex_str_json(data.as_str())));
            g.push((str_to_chars("entities"), entities_to_json(entities)));
            let inner = Json::Obj(g);
            proof {
                let gv = inner->Obj_0@;
                lemma_jfs_index(gv);
                assert(jfs(gv) =~= kind_jv(v_kind(*k))->Obj_0[0].1->Obj_0);
            }
            let mut fs: Vec<(Vec<char>, Json)> = Vec::new();
            fs.push((str_to_chars("Text"), inner));
            let j = Json::Obj(fs);
            proof {
                let fsv = j->Obj_0@;
                lemma_jfs_index(fsv);
                assert(jfs(fsv) =~= kind_jv(v_kind(*k))->Obj_0);
            }
            j
        },
        MessageKind::Audio { data } => tag_json("Audio", audio_to_json(data)),
        MessageKind::Voice { data } => tag_json("Voice", voice_to_json(data)),
        MessageKind::Photo { data, caption } => {
            let mut g: Vec<(Vec<char>, Json)> = Vec::new();
            g.push((str_to_chars("data"), photos_to_json(data)));
            g.push((str_to_chars("caption"), ex_opt_str_json(caption)));
            let inner = Json::Obj(g);
            proof {
                let gv = inner->Obj_0@;
                lemma_jfs_index(gv);
                assert(jfs(gv) =~= kind_jv(v_kind(*k))->Obj_0[0].1->Obj_0);
            }
            tag_json("Photo", inner)
        },
        MessageKind::Document { data, caption } => {
            let mut g: Vec<(Vec<char>, Json)> = Vec::new();
            g.push((str_to_chars("data"), document_to_json(data)));
            g.push((str_to_chars("caption"), ex_opt_str_json(caption)));
            let inner = Json::Obj(g);
            proof {
                let gv = inner->Obj_0@;
                lemma_jfs_index(gv);
                assert(jfs(gv) =~= kind_jv(v_kind(*k))->Obj_0[0].1->Obj_0);
            }
            tag_json("Document", inner)
        },
        MessageKind::Sticker { data } => tag_json("Sticker", sticker_to_json(data)),
        MessageKind::Video { data, caption } => {
            let mut g: Vec<(Vec<char>, Json)> = Vec::new();
            g.push((str_to_chars("data"), video_to_json(data)));
            g.push((str_to_chars("caption"), ex_opt_str_json(caption)));
            let inner = Json::Obj(g);
            proof {
                let gv = inner->Obj_0@;
                lemma_jfs_index(gv);
                assert(jfs(gv) =~= kind_jv(v_kind(*k))->Obj_0[0].1->Obj_0);
            }
            tag_json("Video", inner)
        },
        MessageKind::VideoNote { data } => tag_json("VideoNote", video_note_to_json(data)),
        MessageKind::Contact { data } => tag_json("Contact", contact_to_json(data)),
        MessageKind::Location { data } => tag_json("Location", location_to_json(data)),
        MessageKind::Poll { data } => tag_json("Poll", poll_to_json(data)),
        MessageKind::Venue { data } => tag_json("Venue", venue_to_json(data)),
        MessageKind::NewChatMembers { data } => tag_json("NewChatMembers", user_metas_to_json(data)),
        MessageKind::LeftChatMember { data } => tag_json("LeftChatMember", user_meta_to_json(data)),
        MessageKind::NewChatTitle { data } => tag_json("NewChatTitle", ex_str_json(data.as_str())),
        MessageKind::NewChatPhoto { data } => tag_json("NewChatPhoto", photos_to_json(data)),
        MessageKind::DeleteChatPhoto => ex_str_json("DeleteChatPhoto"),
        MessageKind::PinnedMessage { message_id, text } => {
            let mut g: Vec<(Vec<char>, Json)> = Vec::new();
            g.push((str_to_chars("message_id"), Json::Int(*message_id)));
            g.push((str_to_chars("text"), ex_opt_str_json(text)));
            let inner = Json::Obj(g);
            proof {
                let gv = inner->Obj_0@;
                lemma_jfs_index(gv);
                assert(jfs(gv) =~= kind_jv(v_kind(*k))->Obj_0[0].1->Obj_0);
            }
            tag_json("PinnedMessage", inner)
        },
        MessageKind::GroupChatCreated => ex_str_json("GroupChatCreated"),
        MessageKind::SupergroupChatCreated => ex_str_json("SupergroupChatCreated"),
        MessageKind::ChannelChatCreated => ex_str_json("ChannelChatCreated"),
        MessageKind::MigrateToChatId { data } => tag_json("MigrateToChatId", Json::Int(*data)),
        MessageKind::MigrateFromChatId { data } => tag_json("MigrateFromChatId", Json::Int(*data)),
        MessageKind::Unknown { tag } => tag_json("Unknown", ex_str_json(tag.as_str())),
    }
}

/// Wraps a value as the single field of an object, named by the tag.
pub fn tag_json(tag: &str, inner: Json) -> (j: Json)
    ensures
        jv(j) == JsonV::Obj(seq![(tag@, jv(inner))]),
{
    let ghost iv = jv(inner);
    let mut fs: Vec<(Vec<char>, Json)> = Vec::new();
    fs.push((str_to_chars(tag), inner));
    let j = Json::Obj(fs);
    proof {
        let fsv = j->Obj_0@;
        lemma_jfs_index(fsv);
        assert(jfs(fsv) =~= seq![(tag@, iv)]);
    }
    j
}


/// Reads a raw kind back.
pub fn kind_of_json(j: &Json) -> (r: Option<MessageKind>)
    ensures
        match r {
            Some(k) => kind_of_jv(jv(*j)) == Some(v_kind(k)),
            None => kind_of_jv(jv(*j)) is None,
        },
{
    proof {
        lemma_kind_tags_distinct();
    }
    match j {
        Json::Str(t) => {
            if chars_eq_str(t, "DeleteChatPhoto") {
                Some(MessageKind::DeleteChatPhoto)
            } else if chars_eq_str(t, "GroupChatCreated") {
                Some(MessageKind::GroupChatCreated)
            } else if chars_eq_str(t, "SupergroupChatCreated") {
                Some(MessageKind::SupergroupChatCreated)
            } else if chars_eq_str(t, "ChannelChatCreated") {
                Some(MessageKind::ChannelChatCreated)
            } else {
                None
            }
        },
        Json::Obj(fs) => {
            proof {
                lemma_jfs_index(fs@);
            }
            if fs.len() != 1 {
                return None;
            }
            if chars_eq_str(&fs[0].0, "Text") {
                let g = match &fs[0].1 {
                    Json::Obj(g) => g,
                    _ => {
                        return None;
                    },
                };
                proof {
                    lemma_jfs_index(g@);
                }
                if g.len() != 2 {
                    return None;
                }
                if !(chars_eq_str(&g[0].0, "data") && chars_eq_str(&g[1].0, "entities")) {
                    return None;
                }
                let data = match ex_str_of(&g[0].1) {
                    Some(x) => x,
                    None => {
                        return None;
                    },
                };
                let es = match &g[1].1 {
                    Json::Arr(es) => es,
                    _ => {
                        return None;
                    },
                };
                let entities = match entities_of_json(es) {
                    Some(x) => x,
                    None => {
                        return None;
                    },
                };
                Some(MessageKind::Text { data, entities })
            } else if chars_eq_str(&fs[0].0, "Audio") {
                match audio_of_json(&fs[0].1) {
                    Some(data) => Some(MessageKind::Audio { data }),
                    None => None,
                }
            } else if chars_eq_str(&fs[0].0, "Voice") {
                match voice_of_json(&fs[0].1) {
                    Some(data) => Some(MessageKind::Voice { data }),
                    None => None,
                }
            } else if chars_eq_str(&fs[0].0, "Photo") {
                let g = match &fs[0].1 {
                    Json::Obj(g) => g,
                    _ => {
                        return None;
                    },
                };
                proof {
                    lemma_jfs_index(g@);
                }
                if g.len() != 2 {
                    return None;
                }
                if !(chars_eq_str(&g[0].0, "data") && chars_eq_str(&g[1].0, "caption")) {
                    return None;
                }
                let ps = match &g[0].1 {
                    Json::Arr(ps) => ps,
                    _ => {
                        return None;
                    },
                };
                let data = match photos_of_json(ps) {
                    Some(x) => x,
                    None => {
                        return None;
                    },
                };
                let caption = match ex_opt_str_of(&g[1].1) {
                    Some(x) => x,
                    None => {
                        return None;
                    },
                };
                Some(MessageKind::Photo { data, caption })
            } else if chars_eq_str(&fs[0].0, "Document") {
                let g = match &fs[0].1 {
                    Json::Obj(g) => g,
                    _ => {
                        return None;
                    },
                };
                proof {
                    lemma_jfs_index(g@);
                }
                if g.len() != 2 {
                    return None;
                }
                if !(chars_eq_str(&g[0].0, "data") && chars_eq_str(&g[1].0, "caption")) {
                    return None;
                }
                let data = match document_of_json(&g[0].1) {
                    Some(x) => x,
                    None => {
                        return None;
                    },
                };
                let caption = match ex_opt_str_of(&g[1].1) {
                    Some(x) => x,
                    None => {
                        return None;
                    },
                };
                Some(MessageKind::Document { data, caption })
            } else if chars_eq_str(&fs[0].0, "Sticker") {
                match sticker_of_json(&fs[0].1) {
                    Some(data) => Some(MessageKind::Sticker { data }),
                    None => None,
                }
            } else if chars_eq_str(&fs[0].0, "Video") {
                let g = match &fs[0].1 {
                    Json::Obj(g) => g,
                    _ => {
                        return None;
                    },
                };
                proof {
                    lemma_jfs_index(g@);
                }
                if g.len() != 2 {
                    return None;
                }
                if !(chars_eq_str(&g[0].0, "data") && chars_eq_str(&g[1].0, "caption")) {
                    return None;
                }
                let data = match video_of_json(&g[0].1) {
                    Some(x) => x,
                    None => {
                        return None;
                    },
                };
                let caption = match ex_opt_str_of(&g[1].1) {
                    Some(x) => x,
                    None => {
                        return None;
                    },
                };
                Some(MessageKind::Video { data, caption })
            } else if chars_eq_str(&fs[0].0, "VideoNote") {
                match video_note_of_json(&fs[0].1) {
                    Some(data) => Some(MessageKind::VideoNote { data }),
                    None => None,
                }
            } else if chars_eq_str(&fs[0].0, "Contact") {
                match contact_of_json(&fs[0].1) {
                    Some(data) => Some(MessageKind::Contact { data }),
                    None => None,
                }
            } else if chars_eq_str(&fs[0].0, "Location") {
                match location_of_json(&fs[0].1) {
                    Some(data) => Some(MessageKind::Location { data }),
                    None => None,
                }
            } else if chars_eq_str(&fs[0].0, "Poll") {
                match poll_of_json(&fs[0].1) {
                    Some(data) => Some(MessageKind::Poll { data }),
                    None => None,
                }
            } else if chars_eq_str(&fs[0].0, "Venue") {
                match venue_of_json(&fs[0].1) {
                    Some(data) => Some(MessageKind::Venue { data }),
                    None => None,
                }
            } else if chars_eq_str(&fs[0].0, "NewChatMembers") {
                let us = match &fs[0].1 {
                    Json::Arr(us) => us,
                    _ => {
                        return None;
                    },
                };
                match user_metas_of_json(us) {
                    Some(data) => Some(MessageKind::NewChatMembers { data }),
                    None => None,
                }
            } else if chars_eq_str(&fs[0].0, "LeftChatMember") {
                match user_meta_of_json(&fs[0].1) {
                    Some(data) => Some(MessageKind::LeftChatMember { data }),
                    None => None,
                }
            } else if chars_eq_str(&fs[0].0, "NewChatTitle") {
                match ex_str_of(&fs[0].1) {
                    Some(data) => Some(MessageKind::NewChatTitle { data }),
                    None => None,
                }
            } else if chars_eq_str(&fs[0].0, "NewChatPhoto") {
                let ps = match &fs[0].1 {
                    Json::Arr(ps) => ps,
                    _ => {
                        return None;
                    },
                };
                match photos_of_json(ps) {
                    Some(data) => Some(MessageKind::NewChatPhoto { data }),
                    None => None,
                }
            } else if chars_eq_str(&fs[0].0, "PinnedMessage") {
                let g = match &fs[0].1 {
                    Json::Obj(g) => g,
                    _ => {
                        return None;
                    },
                };
                proof {
                    lemma_jfs_index(g@);
                }
                if g.len() != 2 {
                    return None;
                }
                if !(chars_eq_str(&g[0].0, "message_id") && chars_eq_str(&g[1].0, "text")) {
                    return None;
                }
                let message_id = match ex_int_of(&g[0].1) {
                    Some(x) => x,
                    None => {
                        return None;
                    },
                };
                let text = match ex_opt_str_of(&g[1].1) {
                    Some(x) => x,
                    None => {
                        return None;
                    },
                };
                Some(MessageKind::PinnedMessage { message_id, text })
            } else if chars_eq_str(&fs[0].0, "MigrateToChatId") {
                match ex_int_of(&fs[0].1) {
                    Some(data) => Some(MessageKind::MigrateToChatId { data }),
                    None => None,
                }
            } else if chars_eq_str(&fs[0].0, "MigrateFromChatId") {
                match ex_int_of(&fs[0].1) {
                    Some(data) => Some(MessageKind::MigrateFromChatId { data }),
                    None => None,
                }
            } else if chars_eq_str(&fs[0].0, "Unknown") {
                match ex_str_of(&fs[0].1) {
                    Some(tag) => Some(MessageKind::Unknown { tag }),
                    None => None,
                }
            } else {
                None
            }
        },
        _ => None,
    }
}

/// The JSON form of the origin of a forward.
pub open spec fn forward_from_jv(f: ForwardFromV) -> JsonV {
    match f {
        ForwardFromV::User { id, user } => JsonV::Obj(
            seq![
                ("User"@, JsonV::Obj(
                    seq![("id"@, JsonV::Int(id as int)), ("user"@, user_meta_jv(user))],
                )),
            ],
        ),
        ForwardFromV::Channel { id, channel, message_id } => JsonV::Obj(
            seq![
                ("Channel"@, JsonV::Obj(
                    seq![
                        ("id"@, JsonV::Int(id as int)),
                        ("channel"@, channel_meta_jv(channel)),
                        ("message_id"@, JsonV::Int(message_id as int)),
                    ],
                )),
            ],
        ),
        ForwardFromV::HiddenUser { name } => JsonV::Obj(seq![("HiddenUser"@, JsonV::Str(name))]),
        ForwardFromV::HiddenGroupAdmin { chat_id, title } => JsonV::Obj(
            seq![
                ("HiddenGroupAdmin"@, JsonV::Obj(
                    seq![("chat_id"@, JsonV::Int(chat_id as int)), ("title"@, JsonV::Str(title))],
                )),
            ],
        ),
    }
}

/// Strict decoding of the origin of a forward.
pub open spec fn forward_from_of_jv(j: JsonV) -> Option<ForwardFromV> {
    match j {
        JsonV::Obj(fs) => if fs.len() != 1 {
            None
        } else if fs[0].0 == "User"@ {
            match fs[0].1 {
                JsonV::Obj(g) => if g.len() == 2 && g[0].0 == "id"@ && g[1].0 == "user"@ {
                    match (int_of_jv(g[0].1), user_meta_of_jv(g[1].1)) {
                        (Some(id), Some(user)) => Some(ForwardFromV::User { id, user }),
                        _ => None,
                    }
                } else {
                    None
                },
                _ => None,
            }
        } else if fs[0].0 == "Channel"@ {
            match fs[0].1 {
                JsonV::Obj(g) => if g.len() == 3 && g[0].0 == "id"@ && g[1].0 == "channel"@
                    && g[2].0 == "message_id"@ {
                    match (int_of_jv(g[0].1), channel_meta_of_jv(g[1].1), int_of_jv(g[2].1)) {
                        (Some(id), Some(channel), Some(message_id)) => Some(
                            ForwardFromV::Channel { id, channel, message_id },
                        ),
                        _ => None,
                    }
                } else {
                    None
                },
                _ => None,
            }
        } else if fs[0].0 == "HiddenUser"@ {
            match str_of_jv(fs[0].1) {
                Some(name) => Some(ForwardFromV::HiddenUser { name }),
                None => None,
            }
        } else if fs[0].0 == "HiddenGroupAdmin"@ {
            match fs[0].1 {
                JsonV::Obj(g) => if g.len() == 2 && g[0].0 == "chat_id"@ && g[1].0 == "title"@ {
                    match (int_of_jv(g[0].1), str_of_jv(g[1].1)) {
                        (Some(chat_id), Some(title)) => Some(
                            ForwardFromV::HiddenGroupAdmin { chat_id, title },
                        ),
                        _ => None,
                    }
                } else {
                    None
                },
                _ => None,
            }
        } else {
            None
        },
        _ => None,
    }
}

/// The four origin tags differ pairwise.
pub proof fn lemma_forward_tags_distinct()
    ensures
        "User"@.len() == 4,
        "Channel"@.len() == 7,
        "HiddenUser"@.len() == 10,
        "HiddenGroupAdmin"@.len() == 16,
{
    reveal_strlit("User");
    reveal_strlit("Channel");
    reveal_strlit("HiddenUser");
    reveal_strlit("HiddenGroupAdmin");
}

/// Encode, then decode: the identity, for every forward origin.
pub proof fn lemma_forward_from_rt(f: ForwardFromV)
    ensures
        forward_from_of_jv(forward_from_jv(f)) == Some(f),
{
    lemma_forward_tags_distinct();
    match f {
        ForwardFromV::User { id, user } => {
            lemma_user_meta_rt(user);
        },
        ForwardFromV::Channel { id, channel, message_id } => {
            lemma_channel_meta_rt(channel);
        },
        _ => {},
    }
}

/// Builds the JSON of a forward origin.
pub fn forward_from_to_json(f: &ForwardFrom) -> (j: Json)
    ensures
        jv(j) == forward_from_jv(v_forward_from(*f)),
{
    match f {
        ForwardFrom::User { id, user } => {
            let mut g: Vec<(Vec<char>, Json)> = Vec::new();
            g.push((str_to_chars("id"), Json::Int(*id)));
            g.push((str_to_chars("user"), user_meta_to_json(user)));
            let inner = Json::Obj(g);
            proof {
                let gv = inner->Obj_0@;
                lemma_jfs_index(gv);
                assert(jfs(gv) =~= forward_from_jv(v_forward_from(*f))->Obj_0[0].1->Obj_0);
            }
            tag_json("User", inner)
        },
        ForwardFrom::Channel { id, channel, message_id } => {
            let mut g: Vec<(Vec<char>, Json)> = Vec::new();
            g.push((str_to_chars("id"), Json::Int(*id)));
            g.push((str_to_chars("channel"), channel_meta_to_json(channel)));
            g.push((str_to_chars("message_id"), Json::Int(*message_id)));
            let inner = Json::Obj(g);
            proof {
                let gv = inner->Obj_0@;
                lemma_jfs_index(gv);
                assert(jfs(gv) =~= forward_from_jv(v_forward_from(*f))->Obj_0[0].1->Obj_0);
            }
            tag_json("Channel", inner)
        },
        ForwardFrom::HiddenUser { name } => tag_json("HiddenUser", ex_str_json(name.as_str())),
        ForwardFrom::HiddenGroupAdmin { chat_id, title } => {
            let mut g: Vec<(Vec<char>, Json)> = Vec::new();
            g.push((str_to_chars("chat_id"), Json::Int(*chat_id)));
            g.push((str_to_chars("title"), ex_str_json(title.as_str())));
            let inner = Json::Obj(g);
            proof {
                let gv = inner->Obj_0@;
                lemma_jfs_index(gv);
                assert(jfs(gv) =~= forward_from_jv(v_forward_from(*f))->Obj_0[0].1->Obj_0);
            }
            tag_json("HiddenGroupAdmin", inner)
        },
    }
}

/// Reads a forward origin back.
pub fn forward_from_of_json(j: &Json) -> (r: Option<ForwardFrom>)
    ensures
        match r {
            Some(f) => forward_from_of_jv(jv(*j)) == Some(v_forward_from(f)),
            None => forward_from_of_jv(jv(*j)) is None,
        },
{
    proof {
        lemma_forward_tags_distinct();
    }
    let fs = match j {
        Json::Obj(fs) => fs,
        _ => {
            return None;
        },
    };
    proof {
        lemma_jfs_index(fs@);
    }
    if fs.len() != 1 {
        return None;
    }
    if chars_eq_str(&fs[0].0, "User") {
        let g = match &fs[0].1 {
            Json::Obj(g) => g,
            _ => {
                return None;
            },
        };
        proof {
            lemma_jfs_index(g@);
        }
        if g.len() != 2 {
            return None;
        }
        if !(chars_eq_str(&g[0].0, "id") && chars_eq_str(&g[1].0, "user")) {
            return None;
        }
        let id = match ex_int_of(&g[0].1) {
            Some(x) => x,
            None => {
                return None;
            },
        };
        let user = match user_meta_of_json(&g[1].1) {
            Some(x) => x,
            None => {
                return None;
            },
        };
        Some(ForwardFrom::User { id, user })
    } else if chars_eq_str(&fs[0].0, "Channel") {
        let g = match &fs[0].1 {
            Json::Obj(g) => g,
            _ => {
                return None;
            },
        };
        proof {
            lemma_jfs_index(g@);
        }
        if g.len() != 3 {
            return None;
        }
        if !(chars_eq_str(&g[0].0, "id") && chars_eq_str(&g[1].0, "channel") && chars_eq_str(
            &g[2].0,
            "message_id",
        )) {
            return None;
        }
        let id = match ex_int_of(&g[0].1) {
            Some(x) => x,
            None => {
                return None;
            },
        };
        let channel = match channel_meta_of_json(&g[1].1) {
            Some(x) => x,
            None => {
                return None;
            },
        };
        let message_id = match ex_int_of(&g[2].1) {
            Some(x) => x,
            None => {
                return None;
            },
        };
        Some(ForwardFrom::Channel { id, channel, message_id })
    } else if chars_eq_str(&fs[0].0, "HiddenUser") {
        match ex_str_of(&fs[0].1) {
            Some(name) => Some(ForwardFrom::HiddenUser { name }),
            None => None,
        }
    } else if chars_eq_str(&fs[0].0, "HiddenGroupAdmin") {
        let g = match &fs[0].1 {
            Json::Obj(g) => g,
            _ => {
                return None;
            },
        };
        proof {
            lemma_jfs_index(g@);
        }
        if g.len() != 2 {
            return None;
        }
        if !(chars_eq_str(&g[0].0, "chat_id") && chars_eq_str(&g[1].0, "title")) {
            return None;
        }
        let chat_id = match ex_int_of(&g[0].1) {
            Some(x) => x,
            None => {
                return None;
            },
        };
        let title = match ex_str_of(&g[1].1) {
            Some(x) => x,
            None => {
                return None;
            },
        };
        Some(ForwardFrom::HiddenGroupAdmin { chat_id, title })
    } else {
        None
    }
}

/// The JSON form of a forward mark.
pub open spec fn forward_jv(f: ForwardV) -> JsonV {
    JsonV::Obj(
        seq![("date"@, JsonV::Int(f.date as int)), ("from"@, forward_from_jv(f.from))],
    )
}

/// Strict decoding of a forward mark.
pub open spec fn forward_of_jv(j: JsonV) -> Option<ForwardV> {
    match j {
        JsonV::Obj(fs) => if fs.len() == 2 && fs[0].0 == "date"@ && fs[1].0 == "from"@ {
            match (int_of_jv(fs[0].1), forward_from_of_jv(fs[1].1)) {
                (Some(date), Some(from)) => Some(ForwardV { date, from }),
                _ => None,
            }
        } else {
            None
        },
        _ => None,
    }
}

/// Encode, then decode: the identity, for every forward mark.
pub proof fn lemma_forward_rt(f: ForwardV)
    ensures
        forward_of_jv(forward_jv(f)) == Some(f),
{
    lemma_forward_from_rt(f.from);
    let r = forward_of_jv(forward_jv(f));
    assert(r matches Some(f2) && f2 =~= f);
}

/// Builds the JSON of a forward mark.
pub fn forward_to_json(f: &Forward) -> (j: Json)
    ensures
        jv(j) == forward_jv(v_forward(*f)),
{
    let mut fs: Vec<(Vec<char>, Json)> = Vec::new();
    fs.push((str_to_chars("date"), Json::Int(f.date)));
    fs.push((str_to_chars("from"), forward_from_to_json(&f.from)));
    let j = Json::Obj(fs);
    proof {
        let fsv = j->Obj_0@;
        lemma_jfs_index(fsv);
        assert(jfs(fsv) =~= forward_jv(v_forward(*f))->Obj_0);
    }
    j
}

/// Reads a forward mark back.
pub fn forward_of_json(j: &Json) -> (r: Option<Forward>)
    ensures
        match r {
            Some(f) => forward_of_jv(jv(*j)) == Some(v_forward(f)),
            None => forward_of_jv(jv(*j)) is None,
        },
{
    let fs = match j {
        Json::Obj(fs) => fs,
        _ => {
            return None;
        },
    };
    proof {
        lemma_jfs_index(fs@);
    }
    if fs.len() != 2 {
        return None;
    }
    if !(chars_eq_str(&fs[0].0, "date") && chars_eq_str(&fs[1].0, "from")) {
        return None;
    }
    let date = match ex_int_of(&fs[0].1) {
        Some(x) => x,
        None => {
            return None;
        },
    };
    let from = match forward_from_of_json(&fs[1].1) {
        Some(x) => x,
        None => {
            return None;
        },
    };
    Some(Forward { date, from })
}

/// The JSON form of an optional forward mark.
pub open spec fn opt_forward_jv(o: Option<ForwardV>) -> JsonV {
    match o {
        None => JsonV::Null,
        Some(f) => forward_jv(f),
    }
}

/// Strict decoding of an optional forward mark.
pub open spec fn opt_forward_of_jv(j: JsonV) -> Option<Option<ForwardV>> {
    match j {
        JsonV::Null => Some(None),
        JsonV::Obj(_) => match forward_of_jv(j) {
            Some(f) => Some(Some(f)),
            None => None,
        },
        _ => None,
    }
}

/// The view of an optional forward mark.
pub open spec fn v_opt_forward(o: Option<Forward>) -> Option<ForwardV> {
    match o {
        None => None,
        Some(f) => Some(v_forward(f)),
    }
}

/// Builds the JSON of an optional forward mark.
pub fn opt_forward_to_json(o: &Option<Forward>) -> (j: Json)
    ensures
        jv(j) == opt_forward_jv(v_opt_forward(*o)),
{
    match o {
        None => Json::Null,
        Some(f) => forward_to_json(f),
    }
}

/// Reads an optional forward mark back.
pub fn opt_forward_of_json(j: &Json) -> (r: Option<Option<Forward>>)
    ensures
        match r {
            Some(o) => opt_forward_of_jv(jv(*j)) == Some(v_opt_forward(o)),
            None => opt_forward_of_jv(jv(*j)) is None,
        },
{
    match j {
        Json::Null => Some(None),
        Json::Obj(_) => match forward_of_json(j) {
            Some(f) => Some(Some(f)),
            None => None,
        },
        _ => None,
    }
}

/// The JSON form of a normalized message.
pub open spec fn inter_jv(m: InterMessageV) -> JsonV
    decreases m,
{
    JsonV::Obj(
        seq![
            ("id"@, JsonV::Int(m.id as int)),
            ("from"@, opt_user_jv(m.from)),
            ("date"@, JsonV::Int(m.date as int)),
            ("chat_id"@, JsonV::Int(m.chat_id as int)),
            ("chat"@, chat_meta_jv(m.chat)),
            ("forward"@, opt_forward_jv(m.forward)),
            ("reply_to_message"@, match m.reply_to_message {
                None => JsonV::Null,
                Some(b) => inter_jv(*b),
            }),
            ("edit_date"@, opt_int_jv(m.edit_date)),
            ("kind"@, kind_jv(m.kind)),
        ],
    )
}

/// Strict decoding of a normalized message.
pub open spec fn inter_of_jv(j: JsonV) -> Option<InterMessageV>
    decreases j,
{
    match j {
        JsonV::Obj(fs) => if fs.len() == 9 && fs[0].0 == "id"@ && fs[1].0 == "from"@ && fs[2].0
            == "date"@ && fs[3].0 == "chat_id"@ && fs[4].0 == "chat"@ && fs[5].0 == "forward"@
            && fs[6].0 == "reply_to_message"@ && fs[7].0 == "edit_date"@ && fs[8].0 == "kind"@ {
            let reply = if fs[6].1 is Null {
                Some(None)
            } else {
                match inter_of_jv(fs[6].1) {
                    Some(m) => Some(Some(Box::new(m))),
                    None => None,
                }
            };
            match (
                int_of_jv(fs[0].1),
                opt_user_of_jv(fs[1].1),
                int_of_jv(fs[2].1),
                int_of_jv(fs[3].1),
                chat_meta_of_jv(fs[4].1),
                opt_forward_of_jv(fs[5].1),
                reply,
                opt_int_of_jv(fs[7].1),
                kind_of_jv(fs[8].1),
            ) {
                (
                    Some(id),
                    Some(from),
                    Some(date),
                    Some(chat_id),
                    Some(chat),
                    Some(forward),
                    Some(reply_to_message),
                    Some(edit_date),
                    Some(kind),
                ) => Some(
                    InterMessageV {
                        id,
                        from,
                        date,
                        chat_id,
                        chat,
                        forward,
                        reply_to_message,
                        edit_date,
                        kind,
                    },
                ),
                _ => None,
            }
        } else {
            None
        },
        _ => None,
    }
}

/// Encode, then decode: the identity, for every normalized message.
pub proof fn lemma_inter_rt(m: InterMessageV)
    ensures
        inter_of_jv(inter_jv(m)) == Some(m),
    decreases m,
{
    lemma_opt_user_rt(m.from);
    lemma_chat_meta_rt(m.chat);
    match m.forward {
        None => {},
        Some(f) => {
            lemma_forward_rt(f);
        },
    }
    match m.reply_to_message {
        None => {},
        Some(b) => {
            lemma_inter_rt(*b);
            lemma_inter_jv_not_null(*b);
        },
    }
    lemma_kind_rt(m.kind);
    let r = inter_of_jv(inter_jv(m));
    assert(r matches Some(m2) && m2 =~= m);
}

/// A serialized message is an object, never null.
pub proof fn lemma_inter_jv_not_null(m: InterMessageV)
    ensures
        !(inter_jv(m) is Null),
        inter_jv(m) is Obj,
{
}

/// Builds the JSON of a normalized message.
pub fn inter_to_json(m: &InterMessage) -> (j: Json)
    ensures
        jv(j) == inter_jv(v_inter(*m)),
    decreases *m,
{
    let mut fs: Vec<(Vec<char>, Json)> = Vec::new();
    fs.push((str_to_chars("id"), Json::Int(m.id)));
    fs.push((str_to_chars("from"), opt_user_to_json(&m.from)));
    fs.push((str_to_chars("date"), Json::Int(m.date)));
    fs.push((str_to_chars("chat_id"), Json::Int(m.chat_id)));
    fs.push((str_to_chars("chat"), chat_meta_to_json(&m.chat)));
    fs.push((str_to_chars("forward"), opt_forward_to_json(&m.forward)));
    let reply = match &m.reply_to_message {
        None => Json::Null,
        Some(b) => inter_to_json(b),
    };
    fs.push((str_to_chars("reply_to_message"), reply));
    fs.push((str_to_chars("edit_date"), ex_opt_int_json(&m.edit_date)));
    fs.push((str_to_chars("kind"), kind_to_json(&m.kind)));
    let j = Json::Obj(fs);
    proof {
        let fsv = j->Obj_0@;
        lemma_jfs_index(fsv);
        assert(jfs(fsv) =~= inter_jv(v_inter(*m))->Obj_0);
    }
    j
}

/// Reads a normalized message back.
pub fn inter_of_json(j: &Json) -> (r: Option<InterMessage>)
    ensures
        match r {
            Some(m) => inter_of_jv(jv(*j)) == Some(v_inter(m)),
            None => inter_of_jv(jv(*j)) is None,
        },
    decreases *j,
{
    let fs = match j {
        Json::Obj(fs) => fs,
        _ => {
            return None;
        },
    };
    proof {
        lemma_jfs_index(fs@);
    }
    if fs.len() != 9 {
        return None;
    }
    if !(chars_eq_str(&fs[0].0, "id") && chars_eq_str(&fs[1].0, "from") && chars_eq_str(
        &fs[2].0,
        "date",
    ) && chars_eq_str(&fs[3].0, "chat_id") && chars_eq_str(&fs[4].0, "chat") && chars_eq_str(
        &fs[5].0,
        "forward",
    ) && chars_eq_str(&fs[6].0, "reply_to_message") && chars_eq_str(&fs[7].0, "edit_date")
        && chars_eq_str(&fs[8].0, "kind")) {
        return None;
    }
    let id = match ex_int_of(&fs[0].1) {
        Some(x) => x,
        None => {
            return None;
        },
    };
    let from = match opt_user_of_json(&fs[1].1) {
        Some(x) => x,
        None => {
            return None;
        },
    };
    let date = match ex_int_of(&fs[2].1) {
        Some(x) => x,
        None => {
            return None;
        },
    };
    let chat_id = match ex_int_of(&fs[3].1) {
        Some(x) => x,
        None => {
            return None;
        },
    };
    let chat = match chat_meta_of_json(&fs[4].1) {
        Some(x) => x,
        None => {
            return None;
        },
    };
    let forward = match opt_forward_of_json(&fs[5].1) {
        Some(x) => x,
        None => {
            return None;
        },
    };
    let reply_to_message = match &fs[6].1 {
        Json::Null => None,
        other => {
            match inter_of_json(other) {
                Some(m) => Some(Box::new(m)),
                None => {
                    return None;
                },
            }
        },
    };
    let edit_date = match ex_opt_int_of(&fs[7].1) {
        Some(x) => x,
        None => {
            return None;
        },
    };
    let kind = match kind_of_json(&fs[8].1) {
        Some(x) => x,
        None => {
            return None;
        },
    };
    Some(InterMessage { id, from, date, chat_id, chat, forward, reply_to_message, edit_date, kind })
}

} // verus!
