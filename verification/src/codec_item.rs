//! JSON codec of the persisted log record, the whole-text serializer and
//! parser for stored values, and the round-trip law: serialize then
//! deserialize any record and the original value comes back.
use vstd::prelude::*;

use crate::codec_base::{bool_of_jv, ex_int_of, ex_opt_int_json, ex_opt_int_of, ex_opt_str_json,
    ex_opt_str_of, ex_str_json, ex_str_of, int_of_jv, opt_int_jv, opt_int_of_jv, opt_str_jv,
    opt_str_of_jv, str_of_jv};
use crate::codec_kind::{entities_jv, entities_of_json, entities_of_jv, entities_to_json,
    inter_jv, inter_of_json, inter_of_jv, inter_to_json, kind_jv, lemma_entities_rt,
    lemma_inter_jv_not_null, lemma_inter_rt, lemma_location_rt, lemma_poll_rt, lemma_venue_rt,
    location_jv, location_of_json, location_of_jv, location_to_json, poll_jv, poll_of_json,
    poll_of_jv, poll_to_json, tag_json, venue_jv, venue_of_json, venue_of_jv, venue_to_json};
use crate::codec_meta::{chat_meta_jv, chat_meta_of_json, chat_meta_of_jv, chat_meta_to_json,
    lemma_chat_meta_rt, lemma_user_meta_rt, user_meta_jv, user_meta_of_json, user_meta_of_jv,
    user_meta_to_json};
use crate::json::{parse_json, ser_json, wf_json, wf_json_arr, wf_json_obj, JsonV,
    lemma_json_round_trip};
use crate::jsonio::{jfs, json_from_chars, json_to_chars, jv, jvs, lemma_jfs_index,
    lemma_jvs_index, lemma_jv_wf, Json};
use crate::model::{ChatMeta, Entity, InterMessage, LogItem, LogItemChatType, LogItemMediaType,
    LogItemMembershipType, LogItemSpecialType, UserMeta};
use crate::text::{chars_eq_str, str_to_chars};
use crate::views::{v_chat, v_chat_type, v_entities, v_item, v_media_type, v_membership,
    v_opt_source, v_opt_str, v_special, v_strings, v_user, ChatMetaV, InterMessageV,
    LogItemChatTypeV, LogItemMediaTypeV, LogItemMembershipTypeV, LogItemSpecialTypeV, LogItemV,
    UserMetaV};

verus! {

/// The JSON form of a list of file ids.
pub open spec fn strings_jv(s: Seq<Seq<char>>) -> Seq<JsonV> {
    Seq::new(s.len(), |i: int| JsonV::Str(s[i]))
}

/// Strict decoding of a list of file ids.
pub open spec fn strings_of_jv(js: Seq<JsonV>) -> Option<Seq<Seq<char>>>
    decreases js.len(),
{
    if js.len() == 0 {
        Some(Seq::empty())
    } else {
        match (str_of_jv(js[0]), strings_of_jv(js.skip(1))) {
            (Some(t), Some(rest)) => Some(seq![t] + rest),
            _ => None,
        }
    }
}

/// Encode, then decode: the identity, for every list of file ids.
pub proof fn lemma_strings_rt(s: Seq<Seq<char>>)
    ensures
        strings_of_jv(strings_jv(s)) == Some(s),
    decreases s.len(),
{
    if s.len() == 0 {
        assert(strings_jv(s) =~= Seq::<JsonV>::empty());
        assert(s =~= Seq::<Seq<char>>::empty());
    } else {
        lemma_strings_rt(s.skip(1));
        assert(strings_jv(s).skip(1) =~= strings_jv(s.skip(1)));
        assert(strings_jv(s)[0] == JsonV::Str(s[0]));
        assert(seq![s[0]] + s.skip(1) =~= s);
    }
}

/// Builds the JSON of a list of file ids.
pub fn strings_to_json(ss: &Vec<String>) -> (j: Json)
    ensures
        jv(j) == JsonV::Arr(strings_jv(v_strings(ss@))),
{
    let mut out: Vec<Json> = Vec::new();
    let mut i: usize = 0;
    while i < ss.len()
        invariant
            i <= ss@.len(),
            jvs(out@) =~= strings_jv(v_strings(ss@)).subrange(0, i as int),
            out@.len() == i,
        decreases ss@.len() - i,
    {
        let ghost pre = out@;
        out.push(ex_str_json(ss[i].as_str()));
        i = i + 1;
        proof {
            lemma_jvs_index(out@);
            lemma_jvs_index(pre);
            assert forall|x: int| 0 <= x < i implies jvs(out@)[x] == strings_jv(
                v_strings(ss@),
            ).subrange(0, i as int)[x] by {
                if x < i - 1 {
                    assert(jvs(out@)[x] == jv(out@[x]));
                    assert(jvs(pre)[x] == jv(pre[x]));
                }
            }
            assert(jvs(out@) =~= strings_jv(v_strings(ss@)).subrange(0, i as int));
        }
    }
    proof {
        assert(strings_jv(v_strings(ss@)).subrange(0, ss@.len() as int) =~= strings_jv(
            v_strings(ss@),
        ));
    }
    let j = Json::Arr(out);
    proof {
        assert(jv(j) == JsonV::Arr(jvs(j->Arr_0@)));
    }
    j
}

/// Reads a list of file ids back.
pub fn strings_of_json(vs: &Vec<Json>) -> (r: Option<Vec<String>>)
    ensures
        match r {
            Some(ss) => strings_of_jv(jvs(vs@)) == Some(v_strings(ss@)),
            None => strings_of_jv(jvs(vs@)) is None,
        },
{
    let mut out: Vec<String> = Vec::new();
    let mut i: usize = 0;
    proof {
        lemma_jvs_index(vs@);
        assert(jvs(vs@).skip(0) =~= jvs(vs@));
        assert(v_strings(out@) =~= Seq::<Seq<char>>::empty());
        match strings_of_jv(jvs(vs@)) {
            Some(rest) => {
                assert(v_strings(out@) + rest =~= rest);
            },
            None => {},
        }
    }
    while i < vs.len()
        invariant
            i <= vs@.len(),
            out@.len() == i,
            strings_of_jv(jvs(vs@)) == (match strings_of_jv(jvs(vs@).skip(i as int)) {
                Some(rest) => Some(v_strings(out@) + rest),
                None => None::<Seq<Seq<char>>>,
            }),
        decreases vs@.len() - i,
    {
        proof {
            lemma_jvs_index(vs@);
            assert(jvs(vs@).skip(i as int)[0] == jvs(vs@)[i as int]);
        }
        let e = match ex_str_of(&vs[i]) {
            Some(e) => e,
            None => {
                proof {
                    assert(strings_of_jv(jvs(vs@).skip(i as int)) is None);
                }
                return None;
            },
        };
        let ghost pre = out@;
        out.push(e);
        i = i + 1;
        proof {
            assert(jvs(vs@).skip(i as int - 1).skip(1) =~= jvs(vs@).skip(i as int));
            assert(v_strings(out@) =~= v_strings(pre).push(out@[i - 1]@));
            match strings_of_jv(jvs(vs@).skip(i as int)) {
                Some(rest) => {
                    assert(v_strings(pre) + (seq![out@[i - 1]@] + rest) =~= v_strings(out@)
                        + rest);
                },
                None => {},
            }
        }
    }
    proof {
        assert(jvs(vs@).skip(vs@.len() as int) =~= Seq::<JsonV>::empty());
        assert(v_strings(out@) + Seq::<Seq<char>>::empty() =~= v_strings(out@));
    }
    Some(out)
}

/// The JSON form of a preserved source message: the record, or null.
pub open spec fn opt_source_jv(o: Option<InterMessageV>) -> JsonV {
    match o {
        None => JsonV::Null,
        Some(m) => inter_jv(m),
    }
}

/// Strict decoding of a preserved source message.
pub open spec fn opt_source_of_jv(j: JsonV) -> Option<Option<InterMessageV>> {
    match j {
        JsonV::Null => Some(None),
        JsonV::Obj(_) => match inter_of_jv(j) {
            Some(m) => Some(Some(m)),
            None => None,
        },
        _ => None,
    }
}

/// Encode, then decode: the identity, for every preserved source.
pub proof fn lemma_opt_source_rt(o: Option<InterMessageV>)
    ensures
        opt_source_of_jv(opt_source_jv(o)) == Some(o),
{
    match o {
        None => {},
        Some(m) => {
            lemma_inter_rt(m);
            lemma_inter_jv_not_null(m);
        },
    }
}

/// Builds the JSON of a preserved source message.
pub fn opt_source_to_json(o: &Option<Box<InterMessage>>) -> (j: Json)
    ensures
        jv(j) == opt_source_jv(v_opt_source(*o)),
{
    match o {
        None => Json::Null,
        Some(b) => inter_to_json(b),
    }
}

/// Reads a preserved source message back.
pub fn opt_source_of_json(j: &Json) -> (r: Option<Option<Box<InterMessage>>>)
    ensures
        match r {
            Some(o) => opt_source_of_jv(jv(*j)) == Some(v_opt_source(o)),
            None => opt_source_of_jv(jv(*j)) is None,
        },
{
    match j {
        Json::Null => Some(None),
        Json::Obj(_) => match inter_of_json(j) {
            Some(m) => Some(Some(Box::new(m))),
            None => None,
        },
        _ => None,
    }
}

/// The JSON form of the media shape.
pub open spec fn media_type_jv(m: LogItemMediaTypeV) -> JsonV {
    match m {
        LogItemMediaTypeV::Image { width, height } => JsonV::Obj(
            seq![
                ("image"@, JsonV::Obj(
                    seq![
                        ("width"@, JsonV::Int(width as int)),
                        ("height"@, JsonV::Int(height as int)),
                    ],
                )),
            ],
        ),
        LogItemMediaTypeV::Video { duration, width, height, thumb_file_id, mime_type } => {
            JsonV::Obj(
                seq![
                    ("video"@, JsonV::Obj(
                        seq![
                            ("duration"@, JsonV::Int(duration as int)),
                            ("width"@, JsonV::Int(width as int)),
                            ("height"@, JsonV::Int(height as int)),
                            ("thumb_file_id"@, opt_str_jv(thumb_file_id)),
                            ("mime_type"@, opt_str_jv(mime_type)),
                        ],
                    )),
                ],
            )
        },
        LogItemMediaTypeV::Audio { duration, performer, title, mime_type } => JsonV::Obj(
            seq![
                ("audio"@, JsonV::Obj(
                    seq![
                        ("duration"@, JsonV::Int(duration as int)),
                        ("performer"@, opt_str_jv(performer)),
                        ("title"@, opt_str_jv(title)),
                        ("mime_type"@, opt_str_jv(mime_type)),
                    ],
                )),
            ],
        ),
        LogItemMediaTypeV::Voice { duration, mime_type } => JsonV::Obj(
            seq![
                ("voice"@, JsonV::Obj(
                    seq![
                        ("duration"@, JsonV::Int(duration as int)),
                        ("mime_type"@, opt_str_jv(mime_type)),
                    ],
                )),
            ],
        ),
        LogItemMediaTypeV::VideoNote { duration, thumb_file_id } => JsonV::Obj(
            seq![
                ("videonote"@, JsonV::Obj(
                    seq![
                        ("duration"@, JsonV::Int(duration as int)),
                        ("thumb_file_id"@, opt_str_jv(thumb_file_id)),
                    ],
                )),
            ],
        ),
        LogItemMediaTypeV::Document { file_name, mime_type } => JsonV::Obj(
            seq![
                ("document"@, JsonV::Obj(
                    seq![
                        ("file_name"@, opt_str_jv(file_name)),
                        ("mime_type"@, opt_str_jv(mime_type)),
                    ],
                )),
            ],
        ),
        LogItemMediaTypeV::Sticker { emoji, set_name } => JsonV::Obj(
            seq![
                ("sticker"@, JsonV::Obj(
                    seq![("emoji"@, opt_str_jv(emoji)), ("set_name"@, opt_str_jv(set_name))],
                )),
            ],
        ),
    }
}

/// Strict decoding of the media shape.
pub open spec fn media_type_of_jv(j: JsonV) -> Option<LogItemMediaTypeV> {
    match j {
        JsonV::Obj(fs) => if fs.len() != 1 {
            None
        } else if fs[0].0 == "image"@ {
            match fs[0].1 {
                JsonV::Obj(g) => if g.len() == 2 && g[0].0 == "width"@ && g[1].0 == "height"@ {
                    match (int_of_jv(g[0].1), int_of_jv(g[1].1)) {
                        (Some(width), Some(height)) => Some(
                            LogItemMediaTypeV::Image { width, height },
                        ),
                        _ => None,
                    }
                } else {
                    None
                },
                _ => None,
            }
        } else if fs[0].0 == "video"@ {
            match fs[0].1 {
                JsonV::Obj(g) => if g.len() == 5 && g[0].0 == "duration"@ && g[1].0 == "width"@
                    && g[2].0 == "height"@ && g[3].0 == "thumb_file_id"@ && g[4].0
                    == "mime_type"@ {
                    match (
                        int_of_jv(g[0].1),
                        int_of_jv(g[1].1),
                        int_of_jv(g[2].1),
                        opt_str_of_jv(g[3].1),
                        opt_str_of_jv(g[4].1),
                    ) {
                        (
                            Some(duration),
                            Some(width),
                            Some(height),
                            Some(thumb_file_id),
                            Some(mime_type),
                        ) => Some(
                            LogItemMediaTypeV::Video {
                                duration,
                                width,
                                height,
                                thumb_file_id,
                                mime_type,
                            },
                        ),
                        _ => None,
                    }
                } else {
                    None
                },
                _ => None,
            }
        } else if fs[0].0 == "audio"@ {
            match fs[0].1 {
                JsonV::Obj(g) => if g.len() == 4 && g[0].0 == "duration"@ && g[1].0 == "performer"@
                    && g[2].0 == "title"@ && g[3].0 == "mime_type"@ {
                    match (
                        int_of_jv(g[0].1),
                        opt_str_of_jv(g[1].1),
                        opt_str_of_jv(g[2].1),
                        opt_str_of_jv(g[3].1),
                    ) {
                        (Some(duration), Some(performer), Some(title), Some(mime_type)) => Some(
                            LogItemMediaTypeV::Audio { duration, performer, title, mime_type },
                        ),
                        _ => None,
                    }
                } else {
                    None
                },
                _ => None,
            }
        } else if fs[0].0 == "voice"@ {
            match fs[0].1 {
                JsonV::Obj(g) => if g.len() == 2 && g[0].0 == "duration"@ && g[1].0
                    == "mime_type"@ {
                    match (int_of_jv(g[0].1), opt_str_of_jv(g[1].1)) {
                        (Some(duration), Some(mime_type)) => Some(
                            LogItemMediaTypeV::Voice { duration, mime_type },
                        ),
                        _ => None,
                    }
                } else {
                    None
                },
                _ => None,
            }
        } else if fs[0].0 == "videonote"@ {
            match fs[0].1 {
                JsonV::Obj(g) => if g.len() == 2 && g[0].0 == "duration"@ && g[1].0
                    == "thumb_file_id"@ {
                    match (int_of_jv(g[0].1), opt_str_of_jv(g[1].1)) {
                        (Some(duration), Some(thumb_file_id)) => Some(
                            LogItemMediaTypeV::VideoNote { duration, thumb_file_id },
                        ),
                        _ => None,
                    }
                } else {
                    None
                },
                _ => None,
            }
        } else if fs[0].0 == "document"@ {
            match fs[0].1 {
                JsonV::Obj(g) => if g.len() == 2 && g[0].0 == "file_name"@ && g[1].0
                    == "mime_type"@ {
                    match (opt_str_of_jv(g[0].1), opt_str_of_jv(g[1].1)) {
                        (Some(file_name), Some(mime_type)) => Some(
                            LogItemMediaTypeV::Document { file_name, mime_type },
                        ),
                        _ => None,
                    }
                } else {
                    None
                },
                _ => None,
            }
        } else if fs[0].0 == "sticker"@ {
            match fs[0].1 {
                JsonV::Obj(g) => if g.len() == 2 && g[0].0 == "emoji"@ && g[1].0 == "set_name"@ {
                    match (opt_str_of_jv(g[0].1), opt_str_of_jv(g[1].1)) {
                        (Some(emoji), Some(set_name)) => Some(
                            LogItemMediaTypeV::Sticker { emoji, set_name },
                        ),
                        _ => None,
                    }
                } else {
                    None
                },
                _ => None,
            }
        } else {
            None
        },
        _ => None,
    }
}

/// The media tags have the listed lengths, and equal lengths differ.
pub proof fn lemma_media_tags_distinct()
    ensures
        "image"@.len() == 5,
        "video"@.len() == 5,
        "audio"@.len() == 5,
        "voice"@.len() == 5,
        "videonote"@.len() == 9,
        "document"@.len() == 8,
        "sticker"@.len() == 7,
        "image"@ != "video"@,
        "image"@ != "audio"@,
        "image"@ != "voice"@,
        "video"@ != "audio"@,
        "video"@ != "voice"@,
        "audio"@ != "voice"@,
{
    reveal_strlit("image");
    reveal_strlit("video");
    reveal_strlit("audio");
    reveal_strlit("voice");
    reveal_strlit("videonote");
    reveal_strlit("document");
    reveal_strlit("sticker");
    assert("image"@[0] == 'i' && "video"@[0] == 'v' && "audio"@[0] == 'a' && "voice"@[0] == 'v');
    assert("video"@[1] == 'i' && "voice"@[1] == 'o');
    assert('i' as u32 == 105 && 'v' as u32 == 118 && 'a' as u32 == 97 && 'o' as u32 == 111);
}

/// Encode, then decode: the identity, for every media shape.
pub proof fn lemma_media_type_rt(m: LogItemMediaTypeV)
    ensures
        media_type_of_jv(media_type_jv(m)) == Some(m),
{
    lemma_media_tags_distinct();
}

/// Builds the JSON of a media shape.
pub fn media_type_to_json(m: &LogItemMediaType) -> (j: Json)
    ensures
        jv(j) == media_type_jv(v_media_type(*m)),
{
    match m {
        LogItemMediaType::Image { width, height } => {
            let mut g: Vec<(Vec<char>, Json)> = Vec::new();
            g.push((str_to_chars("width"), Json::Int(*width)));
            g.push((str_to_chars("height"), Json::Int(*height)));
            let inner = Json::Obj(g);
            proof {
                let gv = inner->Obj_0@;
                lemma_jfs_index(gv);
                assert(jfs(gv) =~= media_type_jv(v_media_type(*m))->Obj_0[0].1->Obj_0);
            }
            tag_json("image", inner)
        },
        LogItemMediaType::Video { duration, width, height, thumb_file_id, mime_type } => {
            let mut g: Vec<(Vec<char>, Json)> = Vec::new();
            g.push((str_to_chars("duration"), Json::Int(*duration)));
            g.push((str_to_chars("width"), Json::Int(*width)));
            g.push((str_to_chars("height"), Json::Int(*height)));
            g.push((str_to_chars("thumb_file_id"), ex_opt_str_json(thumb_file_id)));
            g.push((str_to_chars("mime_type"), ex_opt_str_json(mime_type)));
            let inner = Json::Obj(g);
            proof {
                let gv = inner->Obj_0@;
                lemma_jfs_index(gv);
                assert(jfs(gv) =~= media_type_jv(v_media_type(*m))->Obj_0[0].1->Obj_0);
            }
            tag_json("video", inner)
        },
        LogItemMediaType::Audio { duration, performer, title, mime_type } => {
            let mut g: Vec<(Vec<char>, Json)> = Vec::new();
            g.push((str_to_chars("duration"), Json::Int(*duration)));
            g.push((str_to_chars("performer"), ex_opt_str_json(performer)));
            g.push((str_to_chars("title"), ex_opt_str_json(title)));
            g.push((str_to_chars("mime_type"), ex_opt_str_json(mime_type)));
            let inner = Json::Obj(g);
            proof {
                let gv = inner->Obj_0@;
                lemma_jfs_index(gv);
                assert(jfs(gv) =~= media_type_jv(v_media_type(*m))->Obj_0[0].1->Obj_0);
            }
            tag_json("audio", inner)
        },
        LogItemMediaType::Voice { duration, mime_type } => {
            let mut g: Vec<(Vec<char>, Json)> = Vec::new();
            g.push((str_to_chars("duration"), Json::Int(*duration)));
            g.push((str_to_chars("mime_type"), ex_opt_str_json(mime_type)));
            let inner = Json::Obj(g);
            proof {
                let gv = inner->Obj_0@;
                lemma_jfs_index(gv);
                assert(jfs(gv) =~= media_type_jv(v_media_type(*m))->Obj_0[0].1->Obj_0);
            }
            tag_json("voice", inner)
        },
        LogItemMediaType::VideoNote { duration, thumb_file_id } => {
            let mut g: Vec<(Vec<char>, Json)> = Vec::new();
            g.push((str_to_chars("duration"), Json::Int(*duration)));
            g.push((str_to_chars("thumb_file_id"), ex_opt_str_json(thumb_file_id)));
            let inner = Json::Obj(g);
            proof {
                let gv = inner->Obj_0@;
                lemma_jfs_index(gv);
                assert(jfs(gv) =~= media_type_jv(v_media_type(*m))->Obj_0[0].1->Obj_0);
            }
            tag_json("videonote", inner)
        },
        LogItemMediaType::Document { file_name, mime_type } => {
            let mut g: Vec<(Vec<char>, Json)> = Vec::new();
            g.push((str_to_chars("file_name"), ex_opt_str_json(file_name)));
            g.push((str_to_chars("mime_type"), ex_opt_str_json(mime_type)));
            let inner = Json::Obj(g);
            proof {
                let gv = inner->Obj_0@;
                lemma_jfs_index(gv);
                assert(jfs(gv) =~= media_type_jv(v_media_type(*m))->Obj_0[0].1->Obj_0);
            }
            tag_json("document", inner)
        },
        LogItemMediaType::Sticker { emoji, set_name } => {
            let mut g: Vec<(Vec<char>, Json)> = Vec::new();
            g.push((str_to_chars("emoji"), ex_opt_str_json(emoji)));
            g.push((str_to_chars("set_name"), ex_opt_str_json(set_name)));
            let inner = Json::Obj(g);
            proof {
                let gv = inner->Obj_0@;
                lemma_jfs_index(gv);
                assert(jfs(gv) =~= media_type_jv(v_media_type(*m))->Obj_0[0].1->Obj_0);
            }
            tag_json("sticker", inner)
        },
    }
}

/// Reads a media shape back.
pub fn media_type_of_json(j: &Json) -> (r: Option<LogItemMediaType>)
    ensures
        match r {
            Some(m) => media_type_of_jv(jv(*j)) == Some(v_media_type(m)),
            None => media_type_of_jv(jv(*j)) is None,
        },
{
    proof {
        lemma_media_tags_distinct();
    }
    let fs = match j {
        Json::Obj(fs) => fs,
        _ => {
            return None;
        },
    };
    proof {
        lemma_jfs_index(fs@);
    }
    if fs.len() != 1 {
        return None;
    }
    if chars_eq_str(&fs[0].0, "image") {
        let g = match &fs[0].1 {
            Json::Obj(g) => g,
            _ => {
                return None;
            },
        };
        proof {
            lemma_jfs_index(g@);
        }
        if g.len() != 2 {
            return None;
        }
        if !(chars_eq_str(&g[0].0, "width") && chars_eq_str(&g[1].0, "height")) {
            return None;
        }
        let width = match ex_int_of(&g[0].1) {
            Some(x) => x,
            None => {
                return None;
            },
        };
        let height = match ex_int_of(&g[1].1) {
            Some(x) => x,
            None => {
                return None;
            },
        };
        Some(LogItemMediaType::Image { width, height })
    } else if chars_eq_str(&fs[0].0, "video") {
        let g = match &fs[0].1 {
            Json::Obj(g) => g,
            _ => {
                return None;
            },
        };
        proof {
            lemma_jfs_index(g@);
        }
        if g.len() != 5 {
            return None;
        }
        if !(chars_eq_str(&g[0].0, "duration") && chars_eq_str(&g[1].0, "width") && chars_eq_str(
            &g[2].0,
            "height",
        ) && chars_eq_str(&g[3].0, "thumb_file_id") && chars_eq_str(&g[4].0, "mime_type")) {
            return None;
        }
        let duration = match ex_int_of(&g[0].1) {
            Some(x) => x,
            None => {
                return None;
            },
        };
        let width = match ex_int_of(&g[1].1) {
            Some(x) => x,
            None => {
                return None;
            },
        };
        let height = match ex_int_of(&g[2].1) {
            Some(x) => x,
            None => {
                return None;
            },
        };
        let thumb_file_id = match ex_opt_str_of(&g[3].1) {
            Some(x) => x,
            None => {
                return None;
            },
        };
        let mime_type = match ex_opt_str_of(&g[4].1) {
            Some(x) => x,
            None => {
                return None;
            },
        };
        Some(LogItemMediaType::Video { duration, width, height, thumb_file_id, mime_type })
    } else if chars_eq_str(&fs[0].0, "audio") {
        let g = match &fs[0].1 {
            Json::Obj(g) => g,
            _ => {
                return None;
            },
        };
        proof {
            lemma_jfs_index(g@);
        }
        if g.len() != 4 {
            return None;
        }
        if !(chars_eq_str(&g[0].0, "duration") && chars_eq_str(&g[1].0, "performer")
            && chars_eq_str(&g[2].0, "title") && chars_eq_str(&g[3].0, "mime_type")) {
            return None;
        }
        let duration = match ex_int_of(&g[0].1) {
            Some(x) => x,
            None => {
                return None;
            },
        };
        let performer = match ex_opt_str_of(&g[1].1) {
            Some(x) => x,
            None => {
                return None;
            },
        };
        let title = match ex_opt_str_of(&g[2].1) {
            Some(x) => x,
            None => {
                return None;
            },
        };
        let mime_type = match ex_opt_str_of(&g[3].1) {
            Some(x) => x,
            None => {
                return None;
            },
        };
        Some(LogItemMediaType::Audio { duration, performer, title, mime_type })
    } else if chars_eq_str(&fs[0].0, "voice") {
        let g = match &fs[0].1 {
            Json::Obj(g) => g,
            _ => {
                return None;
            },
        };
        proof {
            lemma_jfs_index(g@);
        }
        if g.len() != 2 {
            return None;
        }
        if !(chars_eq_str(&g[0].0, "duration") && chars_eq_str(&g[1].0, "mime_type")) {
            return None;
        }
        let duration = match ex_int_of(&g[0].1) {
            Some(x) => x,
            None => {
                return None;
            },
        };
        let mime_type = match ex_opt_str_of(&g[1].1) {
            Some(x) => x,
            None => {
                return None;
            },
        };
        Some(LogItemMediaType::Voice { duration, mime_type })
    } else if chars_eq_str(&fs[0].0, "videonote") {
        let g = match &fs[0].1 {
            Json::Obj(g) => g,
            _ => {
                return None;
            },
        };
        proof {
            lemma_jfs_index(g@);
        }
        if g.len() != 2 {
            return None;
        }
        if !(chars_eq_str(&g[0].0, "duration") && chars_eq_str(&g[1].0, "thumb_file_id")) {
            return None;
        }
        let duration = match ex_int_of(&g[0].1) {
            Some(x) => x,
            None => {
                return None;
            },
        };
        let thumb_file_id = match ex_opt_str_of(&g[1].1) {
            Some(x) => x,
            None => {
                return None;
            },
        };
        Some(LogItemMediaType::VideoNote { duration, thumb_file_id })
    } else if chars_eq_str(&fs[0].0, "document") {
        let g = match &fs[0].1 {
            Json::Obj(g) => g,
            _ => {
                return None;
            },
        };
        proof {
            lemma_jfs_index(g@);
        }
        if g.len() != 2 {
            return None;
        }
        if !(chars_eq_str(&g[0].0, "file_name") && chars_eq_str(&g[1].0, "mime_type")) {
            return None;
        }
        let file_name = match ex_opt_str_of(&g[0].1) {
            Some(x) => x,
            None => {
                return None;
            },
        };
        let mime_type = match ex_opt_str_of(&g[1].1) {
            Some(x) => x,
            None => {
                return None;
            },
        };
        Some(LogItemMediaType::Document { file_name, mime_type })
    } else if chars_eq_str(&fs[0].0, "sticker") {
        let g = match &fs[0].1 {
            Json::Obj(g) => g,
            _ => {
                return None;
            },
        };
        proof {
            lemma_jfs_index(g@);
        }
        if g.len() != 2 {
            return None;
        }
        if !(chars_eq_str(&g[0].0, "emoji") && chars_eq_str(&g[1].0, "set_name")) {
            return None;
        }
        let emoji = match ex_opt_str_of(&g[0].1) {
            Some(x) => x,
            None => {
                return None;
            },
        };
        let set_name = match ex_opt_str_of(&g[1].1) {
            Some(x) => x,
            None => {
                return None;
            },
        };
        Some(LogItemMediaType::Sticker { emoji, set_name })
    } else {
        None
    }
}


/// The JSON form of a membership change.
pub open spec fn membership_jv(m: LogItemMembershipTypeV) -> JsonV {
    match m {
        LogItemMembershipTypeV::Left => JsonV::Str("left"@),
        LogItemMembershipTypeV::Joined => JsonV::Str("joined"@),
    }
}

/// Strict decoding of a membership change.
pub open spec fn membership_of_jv(j: JsonV) -> Option<LogItemMembershipTypeV> {
    match j {
        JsonV::Str(t) => if t == "left"@ {
            Some(LogItemMembershipTypeV::Left)
        } else if t == "joined"@ {
            Some(LogItemMembershipTypeV::Joined)
        } else {
            None
        },
        _ => None,
    }
}

/// Encode, then decode: the identity, for every membership change.
pub proof fn lemma_membership_rt(m: LogItemMembershipTypeV)
    ensures
        membership_of_jv(membership_jv(m)) == Some(m),
{
    reveal_strlit("left");
    reveal_strlit("joined");
    assert("left"@.len() == 4 && "joined"@.len() == 6);
}

/// Builds the JSON of a membership change.
pub fn membership_to_json(m: &LogItemMembershipType) -> (j: Json)
    ensures
        jv(j) == membership_jv(v_membership(*m)),
{
    match m {
        LogItemMembershipType::Left => ex_str_json("left"),
        LogItemMembershipType::Joined => ex_str_json("joined"),
    }
}

/// Reads a membership change back.
pub fn membership_of_json(j: &Json) -> (r: Option<LogItemMembershipType>)
    ensures
        match r {
            Some(m) => membership_of_jv(jv(*j)) == Some(v_membership(m)),
            None => membership_of_jv(jv(*j)) is None,
        },
{
    proof {
        reveal_strlit("left");
        reveal_strlit("joined");
        assert("left"@.len() == 4 && "joined"@.len() == 6);
    }
    match j {
        Json::Str(t) => {
            if chars_eq_str(t, "left") {
                Some(LogItemMembershipType::Left)
            } else if chars_eq_str(t, "joined") {
                Some(LogItemMembershipType::Joined)
            } else {
                None
            }
        },
        _ => None,
    }
}

/// The JSON form of a special record.
pub open spec fn special_jv(s: LogItemSpecialTypeV) -> JsonV {
    match s {
        LogItemSpecialTypeV::Contact { user_id, phone_number, first_name, last_name } => JsonV::Obj(
            seq![
                ("contact"@, JsonV::Obj(
                    seq![
                        ("user_id"@, opt_int_jv(user_id)),
                        ("phone_number"@, JsonV::Str(phone_number)),
                        ("first_name"@, JsonV::Str(first_name)),
                        ("last_name"@, opt_str_jv(last_name)),
                    ],
                )),
            ],
        ),
        LogItemSpecialTypeV::Location { data } => JsonV::Obj(
            seq![("location"@, location_jv(data))],
        ),
        LogItemSpecialTypeV::Venue { data } => JsonV::Obj(seq![("venue"@, venue_jv(data))]),
        LogItemSpecialTypeV::Poll { data } => JsonV::Obj(seq![("poll"@, poll_jv(data))]),
        LogItemSpecialTypeV::PinnedMessage => JsonV::Str("pinnedmessage"@),
    }
}

/// Strict decoding of a special record.
pub open spec fn special_of_jv(j: JsonV) -> Option<LogItemSpecialTypeV> {
    match j {
        JsonV::Str(t) => if t == "pinnedmessage"@ {
            Some(LogItemSpecialTypeV::PinnedMessage)
        } else {
            None
        },
        JsonV::Obj(fs) => if fs.len() != 1 {
            None
        } else if fs[0].0 == "contact"@ {
            match fs[0].1 {
                JsonV::Obj(g) => if g.len() == 4 && g[0].0 == "user_id"@ && g[1].0
                    == "phone_number"@ && g[2].0 == "first_name"@ && g[3].0 == "last_name"@ {
                    match (
                        opt_int_of_jv(g[0].1),
                        str_of_jv(g[1].1),
                        str_of_jv(g[2].1),
                        opt_str_of_jv(g[3].1),
                    ) {
                        (Some(user_id), Some(phone_number), Some(first_name), Some(last_name)) => {
                            Some(
                                LogItemSpecialTypeV::Contact {
                                    user_id,
                                    phone_number,
                                    first_name,
                                    last_name,
                                },
                            )
                        },
                        _ => None,
                    }
                } else {
                    None
                },
                _ => None,
            }
        } else if fs[0].0 == "location"@ {
            match location_of_jv(fs[0].1) {
                Some(data) => Some(LogItemSpecialTypeV::Location { data }),
                None => None,
            }
        } else if fs[0].0 == "venue"@ {
            match venue_of_jv(fs[0].1) {
                Some(data) => Some(LogItemSpecialTypeV::Venue { data }),
                None => None,
            }
        } else if fs[0].0 == "poll"@ {
            match poll_of_jv(fs[0].1) {
                Some(data) => Some(LogItemSpecialTypeV::Poll { data }),
                None => None,
            }
        } else {
            None
        },
        _ => None,
    }
}

/// The special tags have the listed lengths.
pub proof fn lemma_special_tags_distinct()
    ensures
        "contact"@.len() == 7,
        "location"@.len() == 8,
        "venue"@.len() == 5,
        "poll"@.len() == 4,
        "pinnedmessage"@.len() == 13,
{
    reveal_strlit("contact");
    reveal_strlit("location");
    reveal_strlit("venue");
    reveal_strlit("poll");
    reveal_strlit("pinnedmessage");
}

/// Encode, then decode: the identity, for every special record.
pub proof fn lemma_special_rt(s: LogItemSpecialTypeV)
    ensures
        special_of_jv(special_jv(s)) == Some(s),
{
    lemma_special_tags_distinct();
    match s {
        LogItemSpecialTypeV::Location { data } => {
            lemma_location_rt(data);
        },
        LogItemSpecialTypeV::Venue { data } => {
            lemma_venue_rt(data);
        },
        LogItemSpecialTypeV::Poll { data } => {
            lemma_poll_rt(data);
        },
        _ => {},
    }
}

/// Builds the JSON of a special record.
pub fn special_to_json(s: &LogItemSpecialType) -> (j: Json)
    ensures
        jv(j) == special_jv(v_special(*s)),
{
    match s {
        LogItemSpecialType::Contact { user_id, phone_number, first_name, last_name } => {
            let mut g: Vec<(Vec<char>, Json)> = Vec::new();
            g.push((str_to_chars("user_id"), ex_opt_int_json(user_id)));
            g.push((str_to_chars("phone_number"), ex_str_json(phone_number.as_str())));
            g.push((str_to_chars("first_name"), ex_str_json(first_name.as_str())));
            g.push((str_to_chars("last_name"), ex_opt_str_json(last_name)));
            let inner = Json::Obj(g);
            proof {
                let gv = inner->Obj_0@;
                lemma_jfs_index(gv);
                assert(jfs(gv) =~= special_jv(v_special(*s))->Obj_0[0].1->Obj_0);
            }
            tag_json("contact", inner)
        },
        LogItemSpecialType::Location { data } => tag_json("location", location_to_json(data)),
        LogItemSpecialType::Venue { data } => tag_json("venue", venue_to_json(data)),
        LogItemSpecialType::Poll { data } => tag_json("poll", poll_to_json(data)),
        LogItemSpecialType::PinnedMessage => ex_str_json("pinnedmessage"),
    }
}

/// Reads a special record back.
pub fn special_of_json(j: &Json) -> (r: Option<LogItemSpecialType>)
    ensures
        match r {
            Some(s) => special_of_jv(jv(*j)) == Some(v_special(s)),
            None => special_of_jv(jv(*j)) is None,
        },
{
    proof {
        lemma_special_tags_distinct();
    }
    match j {
        Json::Str(t) => {
            if chars_eq_str(t, "pinnedmessage") {
                Some(LogItemSpecialType::PinnedMessage)
            } else {
                None
            }
        },
        Json::Obj(fs) => {
            proof {
                lemma_jfs_index(fs@);
            }
            if fs.len() != 1 {
                return None;
            }
            if chars_eq_str(&fs[0].0, "contact") {
                let g = match &fs[0].1 {
                    Json::Obj(g) => g,
                    _ => {
                        return None;
                    },
                };
                proof {
                    lemma_jfs_index(g@);
                }
                if g.len() != 4 {
                    return None;
                }
                if !(chars_eq_str(&g[0].0, "user_id") && chars_eq_str(&g[1].0, "phone_number")
                    && chars_eq_str(&g[2].0, "first_name") && chars_eq_str(&g[3].0, "last_name")) {
                    return None;
                }
                let user_id = match ex_opt_int_of(&g[0].1) {
                    Some(x) => x,
                    None => {
                        return None;
                    },
                };
                let phone_number = match ex_str_of(&g[1].1) {
                    Some(x) => x,
                    None => {
                        return None;
                    },
                };
                let first_name = match ex_str_of(&g[2].1) {
                    Some(x) => x,
                    None => {
                        return None;
                    },
                };
                let last_name = match ex_opt_str_of(&g[3].1) {
                    Some(x) => x,
                    None => {
                        return None;
                    },
                };
                Some(LogItemSpecialType::Contact { user_id, phone_number, first_name, last_name })
            } else if chars_eq_str(&fs[0].0, "location") {
                match location_of_json(&fs[0].1) {
                    Some(data) => Some(LogItemSpecialType::Location { data }),
                    None => None,
                }
            } else if chars_eq_str(&fs[0].0, "venue") {
                match venue_of_json(&fs[0].1) {
                    Some(data) => Some(LogItemSpecialType::Venue { data }),
                    None => None,
                }
            } else if chars_eq_str(&fs[0].0, "poll") {
                match poll_of_json(&fs[0].1) {
                    Some(data) => Some(LogItemSpecialType::Poll { data }),
                    None => None,
                }
            } else {
                None
            }
        },
        _ => None,
    }
}

/// The JSON form of a chat change.
pub open spec fn chat_type_jv(c: LogItemChatTypeV) -> JsonV {
    match c {
        LogItemChatTypeV::NewTitle { title } => JsonV::Obj(
            seq![("newtitle"@, JsonV::Obj(seq![("title"@, JsonV::Str(title))]))],
        ),
        LogItemChatTypeV::NewPhoto { file_id } => JsonV::Obj(
            seq![("newphoto"@, JsonV::Obj(seq![("file_id"@, opt_str_jv(file_id))]))],
        ),
        LogItemChatTypeV::DeletePhoto => JsonV::Str("deletephoto"@),
    }
}

/// Strict decoding of a chat change.
pub open spec fn chat_type_of_jv(j: JsonV) -> Option<LogItemChatTypeV> {
    match j {
        JsonV::Str(t) => if t == "deletephoto"@ {
            Some(LogItemChatTypeV::DeletePhoto)
        } else {
            None
        },
        JsonV::Obj(fs) => if fs.len() != 1 {
            None
        } else if fs[0].0 == "newtitle"@ {
            match fs[0].1 {
                JsonV::Obj(g) => if g.len() == 1 && g[0].0 == "title"@ {
                    match str_of_jv(g[0].1) {
                        Some(title) => Some(LogItemChatTypeV::NewTitle { title }),
                        None => None,
                    }
                } else {
                    None
                },
                _ => None,
            }
        } else if fs[0].0 == "newphoto"@ {
            match fs[0].1 {
                JsonV::Obj(g) => if g.len() == 1 && g[0].0 == "file_id"@ {
                    match opt_str_of_jv(g[0].1) {
                        Some(file_id) => Some(LogItemChatTypeV::NewPhoto { file_id }),
                        None => None,
                    }
                } else {
                    None
                },
                _ => None,
            }
        } else {
            None
        },
        _ => None,
    }
}

/// The chat-change tags differ.
pub proof fn lemma_chat_type_tags_distinct()
    ensures
        "newtitle"@.len() == 8,
        "newphoto"@.len() == 8,
        "deletephoto"@.len() == 11,
        "newtitle"@ != "newphoto"@,
{
    reveal_strlit("newtitle");
    reveal_strlit("newphoto");
    reveal_strlit("deletephoto");
    assert("newtitle"@[3] == 't' && "newphoto"@[3] == 'p');
    assert('t' as u32 == 116 && 'p' as u32 == 112);
}

/// Encode, then decode: the identity, for every chat change.
pub proof fn lemma_chat_type_rt(c: LogItemChatTypeV)
    ensures
        chat_type_of_jv(chat_type_jv(c)) == Some(c),
{
    lemma_chat_type_tags_distinct();
}

/// Builds the JSON of a chat change.
pub fn chat_type_to_json(c: &LogItemChatType) -> (j: Json)
    ensures
        jv(j) == chat_type_jv(v_chat_type(*c)),
{
    match c {
        LogItemChatType::NewTitle { title } => {
            let mut g: Vec<(Vec<char>, Json)> = Vec::new();
            g.push((str_to_chars("title"), ex_str_json(title.as_str())));
            let inner = Json::Obj(g);
            proof {
                let gv = inner->Obj_0@;
                lemma_jfs_index(gv);
                assert(jfs(gv) =~= chat_type_jv(v_chat_type(*c))->Obj_0[0].1->Obj_0);
            }
            tag_json("newtitle", inner)
        },
        LogItemChatType::NewPhoto { file_id } => {
            let mut g: Vec<(Vec<char>, Json)> = Vec::new();
            g.push((str_to_chars("file_id"), ex_opt_str_json(file_id)));
            let inner = Json::Obj(g);
            proof {
                let gv = inner->Obj_0@;
                lemma_jfs_index(gv);
                assert(jfs(gv) =~= chat_type_jv(v_chat_type(*c))->Obj_0[0].1->Obj_0);
            }
            tag_json("newphoto", inner)
        },
        LogItemChatType::DeletePhoto => ex_str_json("deletephoto"),
    }
}

/// Reads a chat change back.
pub fn chat_type_of_json(j: &Json) -> (r: Option<LogItemChatType>)
    ensures
        match r {
            Some(c) => chat_type_of_jv(jv(*j)) == Some(v_chat_type(c)),
            None => chat_type_of_jv(jv(*j)) is None,
        },
{
    proof {
        lemma_chat_type_tags_distinct();
    }
    match j {
        Json::Str(t) => {
            if chars_eq_str(t, "deletephoto") {
                Some(LogItemChatType::DeletePhoto)
            } else {
                None
            }
        },
        Json::Obj(fs) => {
            proof {
                lemma_jfs_index(fs@);
            }
            if fs.len() != 1 {
                return None;
            }
            if chars_eq_str(&fs[0].0, "newtitle") {
                let g = match &fs[0].1 {
                    Json::Obj(g) => g,
                    _ => {
                        return None;
                    },
                };
                proof {
                    lemma_jfs_index(g@);
                }
                if g.len() != 1 {
                    return None;
                }
                if !chars_eq_str(&g[0].0, "title") {
                    return None;
                }
                match ex_str_of(&g[0].1) {
                    Some(title) => Some(LogItemChatType::NewTitle { title }),
                    None => None,
                }
            } else if chars_eq_str(&fs[0].0, "newphoto") {
                let g = match &fs[0].1 {
                    Json::Obj(g) => g,
                    _ => {
                        return None;
                    },
                };
                proof {
                    lemma_jfs_index(g@);
                }
                if g.len() != 1 {
                    return None;
                }
                if !chars_eq_str(&g[0].0, "file_id") {
                    return None;
                }
                match ex_opt_str_of(&g[0].1) {
                    Some(file_id) => Some(LogItemChatType::NewPhoto { file_id }),
                    None => None,
                }
            } else {
                None
            }
        },
        _ => None,
    }
}

/// The JSON form of a persisted record: one field, named after the record
/// kind, holding the record's fields.
pub open spec fn item_jv(x: LogItemV) -> JsonV {
    match x {
        LogItemV::Message { user_id, time, text, entities, source } => JsonV::Obj(
            seq![
                ("message"@, JsonV::Obj(
                    seq![
                        ("user_id"@, opt_str_jv(user_id)),
                        ("time"@, JsonV::Int(time as int)),
                        ("text"@, JsonV::Str(text)),
                        ("entities"@, JsonV::Arr(entities_jv(entities))),
                        ("source"@, opt_source_jv(source)),
                    ],
                )),
            ],
        ),
        LogItemV::Media { user_id, time, caption, media_type, files, source } => JsonV::Obj(
            seq![
                ("media"@, JsonV::Obj(
                    seq![
                        ("user_id"@, opt_str_jv(user_id)),
                        ("time"@, JsonV::Int(time as int)),
                        ("caption"@, opt_str_jv(caption)),
                        ("type"@, media_type_jv(media_type)),
                        ("files"@, JsonV::Arr(strings_jv(files))),
                        ("source"@, opt_source_jv(source)),
                    ],
                )),
            ],
        ),
        LogItemV::Special { user_id, time, special_type, source } => JsonV::Obj(
            seq![
                ("special"@, JsonV::Obj(
                    seq![
                        ("user_id"@, opt_str_jv(user_id)),
                        ("time"@, JsonV::Int(time as int)),
                        ("type"@, special_jv(special_type)),
                        ("source"@, opt_source_jv(source)),
                    ],
                )),
            ],
        ),
        LogItemV::Membership { user_id, time, membership_type, source } => JsonV::Obj(
            seq![
                ("membership"@, JsonV::Obj(
                    seq![
                        ("user_id"@, opt_str_jv(user_id)),
                        ("time"@, JsonV::Int(time as int)),
                        ("type"@, membership_jv(membership_type)),
                        ("source"@, opt_source_jv(source)),
                    ],
                )),
            ],
        ),
        LogItemV::Chat { user_id, time, chat_type, source } => JsonV::Obj(
            seq![
                ("chat"@, JsonV::Obj(
                    seq![
                        ("user_id"@, opt_str_jv(user_id)),
                        ("time"@, JsonV::Int(time as int)),
                        ("type"@, chat_type_jv(chat_type)),
                        ("source"@, opt_source_jv(source)),
                    ],
                )),
            ],
        ),
        LogItemV::Pin { user_id, time, message, message_id, source } => JsonV::Obj(
            seq![
                ("pin"@, JsonV::Obj(
                    seq![
                        ("user_id"@, opt_str_jv(user_id)),
                        ("time"@, JsonV::Int(time as int)),
                        ("message"@, opt_str_jv(message)),
                        ("message_id"@, JsonV::Int(message_id as int)),
                        ("source"@, opt_source_jv(source)),
                    ],
                )),
            ],
        ),
        LogItemV::Unimplemented { tag, user_id, time, source } => JsonV::Obj(
            seq![
                ("unimplemented"@, JsonV::Obj(
                    seq![
                        ("tag"@, JsonV::Str(tag)),
                        ("user_id"@, opt_str_jv(user_id)),
                        ("time"@, JsonV::Int(time as int)),
                        ("source"@, opt_source_jv(source)),
                    ],
                )),
            ],
        ),
    }
}

/// Strict decoding of a persisted record.
pub open spec fn item_of_jv(j: JsonV) -> Option<LogItemV> {
    match j {
        JsonV::Obj(fs) => if fs.len() != 1 {
            None
        } else if fs[0].0 == "message"@ {
            match fs[0].1 {
                JsonV::Obj(g) => if g.len() == 5 && g[0].0 == "user_id"@ && g[1].0 == "time"@
                    && g[2].0 == "text"@ && g[3].0 == "entities"@ && g[4].0 == "source"@ {
                    match (
                        opt_str_of_jv(g[0].1),
                        int_of_jv(g[1].1),
                        str_of_jv(g[2].1),
                        g[3].1,
                        opt_source_of_jv(g[4].1),
                    ) {
                        (Some(user_id), Some(time), Some(text), JsonV::Arr(es), Some(source)) => {
                            match entities_of_jv(es) {
                                Some(entities) => Some(
                                    LogItemV::Message { user_id, time, text, entities, source },
                                ),
                                None => None,
                            }
                        },
                        _ => None,
                    }
                } else {
                    None
                },
                _ => None,
            }
        } else if fs[0].0 == "media"@ {
            match fs[0].1 {
                JsonV::Obj(g) => if g.len() == 6 && g[0].0 == "user_id"@ && g[1].0 == "time"@
                    && g[2].0 == "caption"@ && g[3].0 == "type"@ && g[4].0 == "files"@ && g[5].0
                    == "source"@ {
                    match (
                        opt_str_of_jv(g[0].1),
                        int_of_jv(g[1].1),
                        opt_str_of_jv(g[2].1),
                        media_type_of_jv(g[3].1),
                        g[4].1,
                        opt_source_of_jv(g[5].1),
                    ) {
                        (
                            Some(user_id),
                            Some(time),
                            Some(caption),
                            Some(media_type),
                            JsonV::Arr(fl),
                            Some(source),
                        ) => {
                            match strings_of_jv(fl) {
                                Some(files) => Some(
                                    LogItemV::Media {
                                        user_id,
                                        time,
                                        caption,
                                        media_type,
                                        files,
                                        source,
                                    },
                                ),
                                None => None,
                            }
                        },
                        _ => None,
                    }
                } else {
                    None
                },
                _ => None,
            }
        } else if fs[0].0 == "special"@ {
            match fs[0].1 {
                JsonV::Obj(g) => if g.len() == 4 && g[0].0 == "user_id"@ && g[1].0 == "time"@
                    && g[2].0 == "type"@ && g[3].0 == "source"@ {
                    match (
                        opt_str_of_jv(g[0].1),
                        int_of_jv(g[1].1),
                        special_of_jv(g[2].1),
                        opt_source_of_jv(g[3].1),
                    ) {
                        (Some(user_id), Some(time), Some(special_type), Some(source)) => Some(
                            LogItemV::Special { user_id, time, special_type, source },
                        ),
                        _ => None,
                    }
                } else {
                    None
                },
                _ => None,
            }
        } else if fs[0].0 == "membership"@ {
            match fs[0].1 {
                JsonV::Obj(g) => if g.len() == 4 && g[0].0 == "user_id"@ && g[1].0 == "time"@
                    && g[2].0 == "type"@ && g[3].0 == "source"@ {
                    match (
                        opt_str_of_jv(g[0].1),
                        int_of_jv(g[1].1),
                        membership_of_jv(g[2].1),
                        opt_source_of_jv(g[3].1),
                    ) {
                        (Some(user_id), Some(time), Some(membership_type), Some(source)) => Some(
                            LogItemV::Membership { user_id, time, membership_type, source },
                        ),
                        _ => None,
                    }
                } else {
                    None
                },
                _ => None,
            }
        } else if fs[0].0 == "chat"@ {
            match fs[0].1 {
                JsonV::Obj(g) => if g.len() == 4 && g[0].0 == "user_id"@ && g[1].0 == "time"@
                    && g[2].0 == "type"@ && g[3].0 == "source"@ {
                    match (
                        opt_str_of_jv(g[0].1),
                        int_of_jv(g[1].1),
                        chat_type_of_jv(g[2].1),
                        opt_source_of_jv(g[3].1),
                    ) {
                        (Some(user_id), Some(time), Some(chat_type), Some(source)) => Some(
                            LogItemV::Chat { user_id, time, chat_type, source },
                        ),
                        _ => None,
                    }
                } else {
                    None
                },
                _ => None,
            }
        } else if fs[0].0 == "pin"@ {
            match fs[0].1 {
                JsonV::Obj(g) => if g.len() == 5 && g[0].0 == "user_id"@ && g[1].0 == "time"@
                    && g[2].0 == "message"@ && g[3].0 == "message_id"@ && g[4].0 == "source"@ {
                    match (
                        opt_str_of_jv(g[0].1),
                        int_of_jv(g[1].1),
                        opt_str_of_jv(g[2].1),
                        int_of_jv(g[3].1),
                        opt_source_of_jv(g[4].1),
                    ) {
                        (Some(user_id), Some(time), Some(message), Some(message_id), Some(source)) => {
                            Some(LogItemV::Pin { user_id, time, message, message_id, source })
                        },
                        _ => None,
                    }
                } else {
                    None
                },
                _ => None,
            }
        } else if fs[0].0 == "unimplemented"@ {
            match fs[0].1 {
                JsonV::Obj(g) => if g.len() == 4 && g[0].0 == "tag"@ && g[1].0 == "user_id"@
                    && g[2].0 == "time"@ && g[3].0 == "source"@ {
                    match (
                        str_of_jv(g[0].1),
                        opt_str_of_jv(g[1].1),
                        int_of_jv(g[2].1),
                        opt_source_of_jv(g[3].1),
                    ) {
                        (Some(tag), Some(user_id), Some(time), Some(source)) => Some(
                            LogItemV::Unimplemented { tag, user_id, time, source },
                        ),
                        _ => None,
                    }
                } else {
                    None
                },
                _ => None,
            }
        } else {
            None
        },
        _ => None,
    }
}

/// The record tags have the listed lengths, and equal lengths differ.
pub proof fn lemma_item_tags_distinct()
    ensures
        "message"@.len() == 7,
        "media"@.len() == 5,
        "special"@.len() == 7,
        "membership"@.len() == 10,
        "chat"@.len() == 4,
        "pin"@.len() == 3,
        "unimplemented"@.len() == 13,
        "message"@ != "special"@,
{
    reveal_strlit("message");
    reveal_strlit("media");
    reveal_strlit("special");
    reveal_strlit("membership");
    reveal_strlit("chat");
    reveal_strlit("pin");
    reveal_strlit("unimplemented");
    assert("message"@[0] == 'm' && "special"@[0] == 's');
    assert('m' as u32 == 109 && 's' as u32 == 115);
}

/// Encode, then decode: the identity, for every persisted record.
#[verifier::rlimit(60)]
pub proof fn lemma_item_rt(x: LogItemV)
    ensures
        item_of_jv(item_jv(x)) == Some(x),
{
    lemma_item_tags_distinct();
    match x {
        LogItemV::Message { user_id, time, text, entities, source } => {
            lemma_entities_rt(entities);
            lemma_opt_source_rt(source);
        },
        LogItemV::Media { user_id, time, caption, media_type, files, source } => {
            lemma_media_type_rt(media_type);
            lemma_strings_rt(files);
            lemma_opt_source_rt(source);
        },
        LogItemV::Special { user_id, time, special_type, source } => {
            lemma_special_rt(special_type);
            lemma_opt_source_rt(source);
        },
        LogItemV::Membership { user_id, time, membership_type, source } => {
            lemma_membership_rt(membership_type);
            lemma_opt_source_rt(source);
        },
        LogItemV::Chat { user_id, time, chat_type, source } => {
            lemma_chat_type_rt(chat_type);
            lemma_opt_source_rt(source);
        },
        LogItemV::Pin { user_id, time, message, message_id, source } => {
            lemma_opt_source_rt(source);
        },
        LogItemV::Unimplemented { tag, user_id, time, source } => {
            lemma_opt_source_rt(source);
        },
    }
}

/// Builds the JSON of a persisted record.
#[verifier::rlimit(60)]
pub fn item_to_json(x: &LogItem) -> (j: Json)
    ensures
        jv(j) == item_jv(v_item(*x)),
{
    match x {
        LogItem::Message { user_id, time, text, entities, source } => {
            let mut g: Vec<(Vec<char>, Json)> = Vec::new();
            g.push((str_to_chars("user_id"), ex_opt_str_json(user_id)));
            g.push((str_to_chars("time"), Json::Int(*time)));
            g.push((str_to_chars("text"), ex_str_json(text.as_str())));
            g.push((str_to_chars("entities"), entities_to_json(entities)));
            g.push((str_to_chars("source"), opt_source_to_json(source)));
            let inner = Json::Obj(g);
            proof {
                let gv = inner->Obj_0@;
                lemma_jfs_index(gv);
                assert(jfs(gv) =~= item_jv(v_item(*x))->Obj_0[0].1->Obj_0);
            }
            tag_json("message", inner)
        },
        LogItem::Media { user_id, time, caption, media_type, files, source } => {
            let mut g: Vec<(Vec<char>, Json)> = Vec::new();
            g.push((str_to_chars("user_id"), ex_opt_str_json(user_id)));
            g.push((str_to_chars("time"), Json::Int(*time)));
            g.push((str_to_chars("caption"), ex_opt_str_json(caption)));
            g.push((str_to_chars("type"), media_type_to_json(media_type)));
            g.push((str_to_chars("files"), strings_to_json(files)));
            g.push((str_to_chars("source"), opt_source_to_json(source)));
            let inner = Json::Obj(g);
            proof {
                let gv = inner->Obj_0@;
                lemma_jfs_index(gv);
                assert(jfs(gv) =~= item_jv(v_item(*x))->Obj_0[0].1->Obj_0);
            }
            tag_json("media", inner)
        },
        LogItem::Special { user_id, time, special_type, source } => {
            let mut g: Vec<(Vec<char>, Json)> = Vec::new();
            g.push((str_to_chars("user_id"), ex_opt_str_json(user_id)));
            g.push((str_to_chars("time"), Json::Int(*time)));
            g.push((str_to_chars("type"), special_to_json(special_type)));
            g.push((str_to_chars("source"), opt_source_to_json(source)));
            let inner = Json::Obj(g);
            proof {
                let gv = inner->Obj_0@;
                lemma_jfs_index(gv);
                assert(jfs(gv) =~= item_jv(v_item(*x))->Obj_0[0].1->Obj_0);
            }
            tag_json("special", inner)
        },
        LogItem::Membership { user_id, time, membership_type, source } => {
            let mut g: Vec<(Vec<char>, Json)> = Vec::new();
            g.push((str_to_chars("user_id"), ex_opt_str_json(user_id)));
            g.push((str_to_chars("time"), Json::Int(*time)));
            g.push((str_to_chars("type"), membership_to_json(membership_type)));
            g.push((str_to_chars("source"), opt_source_to_json(source)));
            let inner = Json::Obj(g);
            proof {
                let gv = inner->Obj_0@;
                lemma_jfs_index(gv);
                assert(jfs(gv) =~= item_jv(v_item(*x))->Obj_0[0].1->Obj_0);
            }
            tag_json("membership", inner)
        },
        LogItem::Chat { user_id, time, chat_type, source } => {
            let mut g: Vec<(Vec<char>, Json)> = Vec::new();
            g.push((str_to_chars("user_id"), ex_opt_str_json(user_id)));
            g.push((str_to_chars("time"), Json::Int(*time)));
            g.push((str_to_chars("type"), chat_type_to_json(chat_type)));
            g.push((str_to_chars("source"), opt_source_to_json(source)));
            let inner = Json::Obj(g);
            proof {
                let gv = inner->Obj_0@;
                lemma_jfs_index(gv);
                assert(jfs(gv) =~= item_jv(v_item(*x))->Obj_0[0].1->Obj_0);
            }
            tag_json("chat", inner)
        },
        LogItem::Pin { user_id, time, message, message_id, source } => {
            let mut g: Vec<(Vec<char>, Json)> = Vec::new();
            g.push((str_to_chars("user_id"), ex_opt_str_json(user_id)));
            g.push((str_to_chars("time"), Json::Int(*time)));
            g.push((str_to_chars("message"), ex_opt_str_json(message)));
            g.push((str_to_chars("message_id"), Json::Int(*message_id)));
            g.push((str_to_chars("source"), opt_source_to_json(source)));
            let inner = Json::Obj(g);
            proof {
                let gv = inner->Obj_0@;
                lemma_jfs_index(gv);
                assert(jfs(gv) =~= item_jv(v_item(*x))->Obj_0[0].1->Obj_0);
            }
            tag_json("pin", inner)
        },
        LogItem::Unimplemented { tag, user_id, time, source } => {
            let mut g: Vec<(Vec<char>, Json)> = Vec::new();
            g.push((str_to_chars("tag"), ex_str_json(tag.as_str())));
            g.push((str_to_chars("user_id"), ex_opt_str_json(user_id)));
            g.push((str_to_chars("time"), Json::Int(*time)));
            g.push((str_to_chars("source"), opt_source_to_json(source)));
            let inner = Json::Obj(g);
            proof {
                let gv = inner->Obj_0@;
                lemma_jfs_index(gv);
                assert(jfs(gv) =~= item_jv(v_item(*x))->Obj_0[0].1->Obj_0);
            }
            tag_json("unimplemented", inner)
        },
    }
}

/// Reads a persisted record back.
pub fn item_of_json(j: &Json) -> (r: Option<LogItem>)
    ensures
        match r {
            Some(x) => item_of_jv(jv(*j)) == Some(v_item(x)),
            None => item_of_jv(jv(*j)) is None,
        },
{
    proof {
        lemma_item_tags_distinct();
    }
    let fs = match j {
        Json::Obj(fs) => fs,
        _ => {
            return None;
        },
    };
    proof {
        lemma_jfs_index(fs@);
    }
    if fs.len() != 1 {
        return None;
    }
    if chars_eq_str(&fs[0].0, "message") {
        let g = match &fs[0].1 {
            Json::Obj(g) => g,
            _ => {
                return None;
            },
        };
        proof {
            lemma_jfs_index(g@);
        }
        if g.len() != 5 {
            return None;
        }
        if !(chars_eq_str(&g[0].0, "user_id") && chars_eq_str(&g[1].0, "time") && chars_eq_str(
            &g[2].0,
            "text",
        ) && chars_eq_str(&g[3].0, "entities") && chars_eq_str(&g[4].0, "source")) {
            return None;
        }
        let user_id = match ex_opt_str_of(&g[0].1) {
            Some(x) => x,
            None => {
                return None;
            },
        };
        let time = match ex_int_of(&g[1].1) {
            Some(x) => x,
            None => {
                return None;
            },
        };
        let text = match ex_str_of(&g[2].1) {
            Some(x) => x,
            None => {
                return None;
            },
        };
        let es = match &g[3].1 {
            Json::Arr(es) => es,
            _ => {
                return None;
            },
        };
        let entities = match entities_of_json(es) {
            Some(x) => x,
            None => {
                return None;
            },
        };
        let source = match opt_source_of_json(&g[4].1) {
            Some(x) => x,
            None => {
                return None;
            },
        };
        Some(LogItem::Message { user_id, time, text, entities, source })
    } else if chars_eq_str(&fs[0].0, "media") {
        let g = match &fs[0].1 {
            Json::Obj(g) => g,
            _ => {
                return None;
            },
        };
        proof {
            lemma_jfs_index(g@);
        }
        if g.len() != 6 {
            return None;
        }
        if !(chars_eq_str(&g[0].0, "user_id") && chars_eq_str(&g[1].0, "time") && chars_eq_str(
            &g[2].0,
            "caption",
        ) && chars_eq_str(&g[3].0, "type") && chars_eq_str(&g[4].0, "files") && chars_eq_str(
            &g[5].0,
            "source",
        )) {
            return None;
        }
        let user_id = match ex_opt_str_of(&g[0].1) {
            Some(x) => x,
            None => {
                return None;
            },
        };
        let time = match ex_int_of(&g[1].1) {
            Some(x) => x,
            None => {
                return None;
            },
        };
        let caption = match ex_opt_str_of(&g[2].1) {
            Some(x) => x,
            None => {
                return None;
            },
        };
        let media_type = match media_type_of_json(&g[3].1) {
            Some(x) => x,
            None => {
                return None;
            },
        };
        let fl = match &g[4].1 {
            Json::Arr(fl) => fl,
            _ => {
                return None;
            },
        };
        let files = match strings_of_json(fl) {
            Some(x) => x,
            None => {
                return None;
            },
        };
        let source = match opt_source_of_json(&g[5].1) {
            Some(x) => x,
            None => {
                return None;
            },
        };
        Some(LogItem::Media { user_id, time, caption, media_type, files, source })
    } else if chars_eq_str(&fs[0].0, "special") {
        let g = match &fs[0].1 {
            Json::Obj(g) => g,
            _ => {
                return None;
            },
        };
        proof {
            lemma_jfs_index(g@);
        }
        if g.len() != 4 {
            return None;
        }
        if !(chars_eq_str(&g[0].0, "user_id") && chars_eq_str(&g[1].0, "time") && chars_eq_str(
            &g[2].0,
            "type",
        ) && chars_eq_str(&g[3].0, "source")) {
            return None;
        }
        let user_id = match ex_opt_str_of(&g[0].1) {
            Some(x) => x,
            None => {
                return None;
            },
        };
        let time = match ex_int_of(&g[1].1) {
            Some(x) => x,
            None => {
                return None;
            },
        };
        let special_type = match special_of_json(&g[2].1) {
            Some(x) => x,
            None => {
                return None;
            },
        };
        let source = match opt_source_of_json(&g[3].1) {
            Some(x) => x,
            None => {
                return None;
            },
        };
        Some(LogItem::Special { user_id, time, special_type, source })
    } else if chars_eq_str(&fs[0].0, "membership") {
        let g = match &fs[0].1 {
            Json::Obj(g) => g,
            _ => {
                return None;
            },
        };
        proof {
            lemma_jfs_index(g@);
        }
        if g.len() != 4 {
            return None;
        }
        if !(chars_eq_str(&g[0].0, "user_id") && chars_eq_str(&g[1].0, "time") && chars_eq_str(
            &g[2].0,
            "type",
        ) && chars_eq_str(&g[3].0, "source")) {
            return None;
        }
        let user_id = match ex_opt_str_of(&g[0].1) {
            Some(x) => x,
            None => {
                return None;
            },
        };
        let time = match ex_int_of(&g[1].1) {
            Some(x) => x,
            None => {
                return None;
            },
        };
        let membership_type = match membership_of_json(&g[2].1) {
            Some(x) => x,
            None => {
                return None;
            },
        };
        let source = match opt_source_of_json(&g[3].1) {
            Some(x) => x,
            None => {
                return None;
            },
        };
        Some(LogItem::Membership { user_id, time, membership_type, source })
    } else if chars_eq_str(&fs[0].0, "chat") {
        let g = match &fs[0].1 {
            Json::Obj(g) => g,
            _ => {
                return None;
            },
        };
        proof {
            lemma_jfs_index(g@);
        }
        if g.len() != 4 {
            return None;
        }
        if !(chars_eq_str(&g[0].0, "user_id") && chars_eq_str(&g[1].0, "time") && chars_eq_str(
            &g[2].0,
            "type",
        ) && chars_eq_str(&g[3].0, "source")) {
            return None;
        }
        let user_id = match ex_opt_str_of(&g[0].1) {
            Some(x) => x,
            None => {
                return None;
            },
        };
        let time = match ex_int_of(&g[1].1) {
            Some(x) => x,
            None => {
                return None;
            },
        };
        let chat_type = match chat_type_of_json(&g[2].1) {
            Some(x) => x,
            None => {
                return None;
            },
        };
        let source = match opt_source_of_json(&g[3].1) {
            Some(x) => x,
            None => {
                return None;
            },
        };
        Some(LogItem::Chat { user_id, time, chat_type, source })
    } else if chars_eq_str(&fs[0].0, "pin") {
        let g = match &fs[0].1 {
            Json::Obj(g) => g,
            _ => {
                return None;
            },
        };
        proof {
            lemma_jfs_index(g@);
        }
        if g.len() != 5 {
            return None;
        }
        if !(chars_eq_str(&g[0].0, "user_id") && chars_eq_str(&g[1].0, "time") && chars_eq_str(
            &g[2].0,
            "message",
        ) && chars_eq_str(&g[3].0, "message_id") && chars_eq_str(&g[4].0, "source")) {
            return None;
        }
        let user_id = match ex_opt_str_of(&g[0].1) {
            Some(x) => x,
            None => {
                return None;
            },
        };
        let time = match ex_int_of(&g[1].1) {
            Some(x) => x,
            None => {
                return None;
            },
        };
        let message = match ex_opt_str_of(&g[2].1) {
            Some(x) => x,
            None => {
                return None;
            },
        };
        let message_id = match ex_int_of(&g[3].1) {
            Some(x) => x,
            None => {
                return None;
            },
        };
        let source = match opt_source_of_json(&g[4].1) {
            Some(x) => x,
            None => {
                return None;
            },
        };
        Some(LogItem::Pin { user_id, time, message, message_id, source })
    } else if chars_eq_str(&fs[0].0, "unimplemented") {
        let g = match &fs[0].1 {
            Json::Obj(g) => g,
            _ => {
                return None;
            },
        };
        proof {
            lemma_jfs_index(g@);
        }
        if g.len() != 4 {
            return None;
        }
        if !(chars_eq_str(&g[0].0, "tag") && chars_eq_str(&g[1].0, "user_id") && chars_eq_str(
            &g[2].0,
            "time",
        ) && chars_eq_str(&g[3].0, "source")) {
            return None;
        }
        let tag = match ex_str_of(&g[0].1) {
            Some(x) => x,
            None => {
                return None;
            },
        };
        let user_id = match ex_opt_str_of(&g[1].1) {
            Some(x) => x,
            None => {
                return None;
            },
        };
        let time = match ex_int_of(&g[2].1) {
            Some(x) => x,
            None => {
                return None;
            },
        };
        let source = match opt_source_of_json(&g[3].1) {
            Some(x) => x,
            None => {
                return None;
            },
        };
        Some(LogItem::Unimplemented { tag, user_id, time, source })
    } else {
        None
    }
}


/// An object whose field values are all well-formed is well-formed.
pub proof fn lemma_wf_obj_all(fs: Seq<(Seq<char>, JsonV)>)
    requires
        forall|i: int| 0 <= i < fs.len() ==> wf_json((#[trigger] fs[i]).1),
    ensures
        wf_json_obj(fs),
    decreases fs.len(),
{
    if fs.len() > 0 {
        lemma_wf_obj_all(fs.skip(1));
        assert(wf_json(fs[0].1));
    }
}

/// An array whose elements are all well-formed is well-formed.
pub proof fn lemma_wf_arr_all(vs: Seq<JsonV>)
    requires
        forall|i: int| 0 <= i < vs.len() ==> wf_json(#[trigger] vs[i]),
    ensures
        wf_json_arr(vs),
    decreases vs.len(),
{
    if vs.len() > 0 {
        lemma_wf_arr_all(vs.skip(1));
        assert(wf_json(vs[0]));
    }
}

/// Optional text encodes to a well-formed value.
pub proof fn lemma_wf_opt_str(o: Option<Seq<char>>)
    ensures
        wf_json(opt_str_jv(o)),
{
    match o {
        None => {},
        Some(_) => {},
    }
}

/// An optional integer encodes to a well-formed value.
pub proof fn lemma_wf_opt_int(o: Option<i64>)
    ensures
        wf_json(opt_int_jv(o)),
{
    match o {
        None => {},
        Some(_) => {},
    }
}

/// An optional boolean encodes to a well-formed value.
pub proof fn lemma_wf_opt_bool(o: Option<bool>)
    ensures
        wf_json(crate::codec_base::opt_bool_jv(o)),
{
    match o {
        None => {},
        Some(_) => {},
    }
}

/// The encoding of a `UserMetaV` value is well-formed.
pub proof fn lemma_user_meta_jv_wf(v: UserMetaV)
    ensures
        wf_json(user_meta_jv(v)),
{
    lemma_wf_opt_str(v.last_name);
    lemma_wf_opt_str(v.username);
    lemma_wf_opt_str(v.language_code);
    let fs = user_meta_jv(v)->Obj_0;
    assert forall|i: int| 0 <= i < fs.len() implies wf_json((#[trigger] fs[i]).1) by {}
    lemma_wf_obj_all(fs);
}

/// The encoding of a `crate::views::GroupMetaV` value is well-formed.
pub proof fn lemma_group_meta_jv_wf(v: crate::views::GroupMetaV)
    ensures
        wf_json(crate::codec_meta::group_meta_jv(v)),
{
    lemma_wf_opt_str(v.invite_link);
    let fs = crate::codec_meta::group_meta_jv(v)->Obj_0;
    assert forall|i: int| 0 <= i < fs.len() implies wf_json((#[trigger] fs[i]).1) by {}
    lemma_wf_obj_all(fs);
}

/// The encoding of a `crate::views::SuperGroupMetaV` value is well-formed.
pub proof fn lemma_super_group_meta_jv_wf(v: crate::views::SuperGroupMetaV)
    ensures
        wf_json(crate::codec_meta::super_group_meta_jv(v)),
{
    lemma_wf_opt_str(v.username);
    lemma_wf_opt_str(v.invite_link);
    let fs = crate::codec_meta::super_group_meta_jv(v)->Obj_0;
    assert forall|i: int| 0 <= i < fs.len() implies wf_json((#[trigger] fs[i]).1) by {}
    lemma_wf_obj_all(fs);
}

/// The encoding of a `crate::views::ChannelMetaV` value is well-formed.
pub proof fn lemma_channel_meta_jv_wf(v: crate::views::ChannelMetaV)
    ensures
        wf_json(crate::codec_meta::channel_meta_jv(v)),
{
    lemma_wf_opt_str(v.username);
    lemma_wf_opt_str(v.invite_link);
    let fs = crate::codec_meta::channel_meta_jv(v)->Obj_0;
    assert forall|i: int| 0 <= i < fs.len() implies wf_json((#[trigger] fs[i]).1) by {}
    lemma_wf_obj_all(fs);
}

/// The encoding of a `crate::views::RawChatMetaV` value is well-formed.
pub proof fn lemma_raw_chat_meta_jv_wf(v: crate::views::RawChatMetaV)
    ensures
        wf_json(crate::codec_meta::raw_chat_meta_jv(v)),
{
    lemma_wf_opt_str(v.title);
    lemma_wf_opt_str(v.username);
    lemma_wf_opt_str(v.first_name);
    lemma_wf_opt_str(v.last_name);
    lemma_wf_opt_str(v.invite_link);
    lemma_wf_opt_str(v.language_code);
    lemma_wf_opt_bool(v.all_members_are_administrators);
    let fs = crate::codec_meta::raw_chat_meta_jv(v)->Obj_0;
    assert forall|i: int| 0 <= i < fs.len() implies wf_json((#[trigger] fs[i]).1) by {}
    lemma_wf_obj_all(fs);
}

/// The encoding of a `crate::views::PhotoSizeV` value is well-formed.
pub proof fn lemma_photo_jv_wf(v: crate::views::PhotoSizeV)
    ensures
        wf_json(crate::codec_kind::photo_jv(v)),
{
    lemma_wf_opt_int(v.file_size);
    let fs = crate::codec_kind::photo_jv(v)->Obj_0;
    assert forall|i: int| 0 <= i < fs.len() implies wf_json((#[trigger] fs[i]).1) by {}
    lemma_wf_obj_all(fs);
}

/// The encoding of a `crate::views::AudioDataV` value is well-formed.
pub proof fn lemma_audio_jv_wf(v: crate::views::AudioDataV)
    ensures
        wf_json(crate::codec_kind::audio_jv(v)),
{
    lemma_wf_opt_str(v.performer);
    lemma_wf_opt_str(v.title);
    lemma_wf_opt_str(v.mime_type);
    lemma_wf_opt_int(v.file_size);
    let fs = crate::codec_kind::audio_jv(v)->Obj_0;
    assert forall|i: int| 0 <= i < fs.len() implies wf_json((#[trigger] fs[i]).1) by {}
    lemma_wf_obj_all(fs);
}

/// The encoding of a `crate::views::VoiceDataV` value is well-formed.
pub proof fn lemma_voice_jv_wf(v: crate::views::VoiceDataV)
    ensures
        wf_json(crate::codec_kind::voice_jv(v)),
{
    lemma_wf_opt_str(v.mime_type);
    lemma_wf_opt_int(v.file_size);
    let fs = crate::codec_kind::voice_jv(v)->Obj_0;
    assert forall|i: int| 0 <= i < fs.len() implies wf_json((#[trigger] fs[i]).1) by {}
    lemma_wf_obj_all(fs);
}

/// The encoding of a `crate::views::VideoDataV` value is well-formed.
pub proof fn lemma_video_jv_wf(v: crate::views::VideoDataV)
    ensures
        wf_json(crate::codec_kind::video_jv(v)),
{
    lemma_opt_photo_jv_wf(v.thumb);
    lemma_wf_opt_str(v.mime_type);
    lemma_wf_opt_int(v.file_size);
    let fs = crate::codec_kind::video_jv(v)->Obj_0;
    assert forall|i: int| 0 <= i < fs.len() implies wf_json((#[trigger] fs[i]).1) by {}
    lemma_wf_obj_all(fs);
}

/// The encoding of a `crate::views::VideoNoteDataV` value is well-formed.
pub proof fn lemma_video_note_jv_wf(v: crate::views::VideoNoteDataV)
    ensures
        wf_json(crate::codec_kind::video_note_jv(v)),
{
    lemma_opt_photo_jv_wf(v.thumb);
    lemma_wf_opt_int(v.file_size);
    let fs = crate::codec_kind::video_note_jv(v)->Obj_0;
    assert forall|i: int| 0 <= i < fs.len() implies wf_json((#[trigger] fs[i]).1) by {}
    lemma_wf_obj_all(fs);
}

/// The encoding of a `crate::views::DocumentDataV` value is well-formed.
pub proof fn lemma_document_jv_wf(v: crate::views::DocumentDataV)
    ensures
        wf_json(crate::codec_kind::document_jv(v)),
{
    lemma_wf_opt_str(v.file_name);
    lemma_wf_opt_str(v.mime_type);
    lemma_wf_opt_int(v.file_size);
    let fs = crate::codec_kind::document_jv(v)->Obj_0;
    assert forall|i: int| 0 <= i < fs.len() implies wf_json((#[trigger] fs[i]).1) by {}
    lemma_wf_obj_all(fs);
}

/// The encoding of a `crate::views::StickerDataV` value is well-formed.
pub proof fn lemma_sticker_jv_wf(v: crate::views::StickerDataV)
    ensures
        wf_json(crate::codec_kind::sticker_jv(v)),
{
    lemma_wf_opt_str(v.emoji);
    lemma_wf_opt_str(v.set_name);
    lemma_wf_opt_int(v.file_size);
    let fs = crate::codec_kind::sticker_jv(v)->Obj_0;
    assert forall|i: int| 0 <= i < fs.len() implies wf_json((#[trigger] fs[i]).1) by {}
    lemma_wf_obj_all(fs);
}

/// The encoding of a `crate::views::ContactDataV` value is well-formed.
pub proof fn lemma_contact_jv_wf(v: crate::views::ContactDataV)
    ensures
        wf_json(crate::codec_kind::contact_jv(v)),
{
    lemma_wf_opt_str(v.last_name);
    lemma_wf_opt_int(v.user_id);
    let fs = crate::codec_kind::contact_jv(v)->Obj_0;
    assert forall|i: int| 0 <= i < fs.len() implies wf_json((#[trigger] fs[i]).1) by {}
    lemma_wf_obj_all(fs);
}

/// The encoding of a `crate::views::LocationDataV` value is well-formed.
pub proof fn lemma_location_jv_wf(v: crate::views::LocationDataV)
    ensures
        wf_json(location_jv(v)),
{
    let fs = location_jv(v)->Obj_0;
    assert forall|i: int| 0 <= i < fs.len() implies wf_json((#[trigger] fs[i]).1) by {}
    lemma_wf_obj_all(fs);
}

/// The encoding of a `crate::views::VenueDataV` value is well-formed.
pub proof fn lemma_venue_jv_wf(v: crate::views::VenueDataV)
    ensures
        wf_json(venue_jv(v)),
{
    lemma_location_jv_wf(v.location);
    lemma_wf_opt_str(v.foursquare_id);
    let fs = venue_jv(v)->Obj_0;
    assert forall|i: int| 0 <= i < fs.len() implies wf_json((#[trigger] fs[i]).1) by {}
    lemma_wf_obj_all(fs);
}

/// The encoding of a `crate::views::PollOptionV` value is well-formed.
pub proof fn lemma_poll_option_jv_wf(v: crate::views::PollOptionV)
    ensures
        wf_json(crate::codec_kind::poll_option_jv(v)),
{
    let fs = crate::codec_kind::poll_option_jv(v)->Obj_0;
    assert forall|i: int| 0 <= i < fs.len() implies wf_json((#[trigger] fs[i]).1) by {}
    lemma_wf_obj_all(fs);
}

/// The encoding of a `crate::views::PollDataV` value is well-formed.
pub proof fn lemma_poll_jv_wf(v: crate::views::PollDataV)
    ensures
        wf_json(poll_jv(v)),
{
    lemma_poll_options_jv_wf(v.options);
    lemma_wf_opt_int(v.correct_option_id);
    lemma_wf_opt_str(v.explanation);
    lemma_opt_entities_jv_wf(v.explanation_entities);
    lemma_wf_opt_int(v.open_period);
    lemma_wf_opt_int(v.close_date);
    let fs = poll_jv(v)->Obj_0;
    assert forall|i: int| 0 <= i < fs.len() implies wf_json((#[trigger] fs[i]).1) by {}
    lemma_wf_obj_all(fs);
}

/// The encoding of a chat record is well-formed.
pub proof fn lemma_chat_meta_jv_wf(c: ChatMetaV)
    ensures
        wf_json(chat_meta_jv(c)),
{
    match c {
        ChatMetaV::User(u) => {
            lemma_user_meta_jv_wf(u);
        },
        ChatMetaV::Group(g) => {
            lemma_group_meta_jv_wf(g);
        },
        ChatMetaV::SuperGroup(g) => {
            lemma_super_group_meta_jv_wf(g);
        },
        ChatMetaV::Channel(ch) => {
            lemma_channel_meta_jv_wf(ch);
        },
        ChatMetaV::Unknown(r) => {
            lemma_raw_chat_meta_jv_wf(r);
        },
    }
    let fs = chat_meta_jv(c)->Obj_0;
    assert forall|i: int| 0 <= i < fs.len() implies wf_json((#[trigger] fs[i]).1) by {}
    lemma_wf_obj_all(fs);
}

/// The encoding of a span kind is well-formed.
pub proof fn lemma_entity_kind_jv_wf(k: crate::views::EntityKindV)
    ensures
        wf_json(crate::codec_kind::entity_kind_jv(k)),
{
    match crate::codec_kind::entity_kind_jv(k) {
        JsonV::Obj(fs) => {
            assert forall|i: int| 0 <= i < fs.len() implies wf_json((#[trigger] fs[i]).1) by {}
            lemma_wf_obj_all(fs);
        },
        _ => {},
    }
}

/// The encoding of a span is well-formed.
pub proof fn lemma_entity_jv_wf(e: crate::views::EntityV)
    ensures
        wf_json(crate::codec_kind::entity_jv(e)),
{
    lemma_entity_kind_jv_wf(e.kind);
    let fs = crate::codec_kind::entity_jv(e)->Obj_0;
    assert forall|i: int| 0 <= i < fs.len() implies wf_json((#[trigger] fs[i]).1) by {}
    lemma_wf_obj_all(fs);
}

/// The encodings of a span list are well-formed.
pub proof fn lemma_entities_jv_wf(s: Seq<crate::views::EntityV>)
    ensures
        wf_json_arr(entities_jv(s)),
{
    assert forall|i: int| 0 <= i < entities_jv(s).len() implies wf_json(
        #[trigger] entities_jv(s)[i],
    ) by {
        lemma_entity_jv_wf(s[i]);
    }
    lemma_wf_arr_all(entities_jv(s));
}

/// The encodings of a photo list are well-formed.
pub proof fn lemma_photos_jv_wf(s: Seq<crate::views::PhotoSizeV>)
    ensures
        wf_json_arr(crate::codec_kind::photos_jv(s)),
{
    assert forall|i: int| 0 <= i < crate::codec_kind::photos_jv(s).len() implies wf_json(
        #[trigger] crate::codec_kind::photos_jv(s)[i],
    ) by {
        lemma_photo_jv_wf(s[i]);
    }
    lemma_wf_arr_all(crate::codec_kind::photos_jv(s));
}

/// The encoding of an optional photo is well-formed.
pub proof fn lemma_opt_photo_jv_wf(o: Option<crate::views::PhotoSizeV>)
    ensures
        wf_json(crate::codec_kind::opt_photo_jv(o)),
{
    match o {
        None => {},
        Some(p) => {
            lemma_photo_jv_wf(p);
        },
    }
}

/// The encodings of a poll option list are well-formed.
pub proof fn lemma_poll_options_jv_wf(s: Seq<crate::views::PollOptionV>)
    ensures
        wf_json_arr(crate::codec_kind::poll_options_jv(s)),
{
    assert forall|i: int| 0 <= i < crate::codec_kind::poll_options_jv(s).len() implies wf_json(
        #[trigger] crate::codec_kind::poll_options_jv(s)[i],
    ) by {
        lemma_poll_option_jv_wf(s[i]);
    }
    lemma_wf_arr_all(crate::codec_kind::poll_options_jv(s));
}

/// The encoding of an optional span list is well-formed.
pub proof fn lemma_opt_entities_jv_wf(o: Option<Seq<crate::views::EntityV>>)
    ensures
        wf_json(crate::codec_kind::opt_entities_jv(o)),
{
    match o {
        None => {},
        Some(es) => {
            lemma_entities_jv_wf(es);
        },
    }
}

/// The encodings of a user list are well-formed.
pub proof fn lemma_user_metas_jv_wf(s: Seq<UserMetaV>)
    ensures
        wf_json_arr(crate::codec_kind::user_metas_jv(s)),
{
    assert forall|i: int| 0 <= i < crate::codec_kind::user_metas_jv(s).len() implies wf_json(
        #[trigger] crate::codec_kind::user_metas_jv(s)[i],
    ) by {
        lemma_user_meta_jv_wf(s[i]);
    }
    lemma_wf_arr_all(crate::codec_kind::user_metas_jv(s));
}

/// The encoding of a raw kind is well-formed.
pub proof fn lemma_kind_jv_wf(k: crate::views::MessageKindV)
    ensures
        wf_json(kind_jv(k)),
{
    match k {
        crate::views::MessageKindV::Text { data, entities } => {
            lemma_entities_jv_wf(entities);
            let g = kind_jv(k)->Obj_0[0].1->Obj_0;
            assert forall|i: int| 0 <= i < g.len() implies wf_json((#[trigger] g[i]).1) by {}
            lemma_wf_obj_all(g);
        },
        crate::views::MessageKindV::Audio { data } => {
            lemma_audio_jv_wf(data);
        },
        crate::views::MessageKindV::Voice { data } => {
            lemma_voice_jv_wf(data);
        },
        crate::views::MessageKindV::Photo { data, caption } => {
            lemma_photos_jv_wf(data);
            lemma_wf_opt_str(caption);
            let g = kind_jv(k)->Obj_0[0].1->Obj_0;
            assert forall|i: int| 0 <= i < g.len() implies wf_json((#[trigger] g[i]).1) by {}
            lemma_wf_obj_all(g);
        },
        crate::views::MessageKindV::Document { data, caption } => {
            lemma_document_jv_wf(data);
            lemma_wf_opt_str(caption);
            let g = kind_jv(k)->Obj_0[0].1->Obj_0;
            assert forall|i: int| 0 <= i < g.len() implies wf_json((#[trigger] g[i]).1) by {}
            lemma_wf_obj_all(g);
        },
        crate::views::MessageKindV::Sticker { data } => {
            lemma_sticker_jv_wf(data);
        },
        crate::views::MessageKindV::Video { data, caption } => {
            lemma_video_jv_wf(data);
            lemma_wf_opt_str(caption);
            let g = kind_jv(k)->Obj_0[0].1->Obj_0;
            assert forall|i: int| 0 <= i < g.len() implies wf_json((#[trigger] g[i]).1) by {}
            lemma_wf_obj_all(g);
        },
        crate::views::MessageKindV::VideoNote { data } => {
            lemma_video_note_jv_wf(data);
        },
        crate::views::MessageKindV::Contact { data } => {
            lemma_contact_jv_wf(data);
        },
        crate::views::MessageKindV::Location { data } => {
            lemma_location_jv_wf(data);
        },
        crate::views::MessageKindV::Poll { data } => {
            lemma_poll_jv_wf(data);
        },
        crate::views::MessageKindV::Venue { data } => {
            lemma_venue_jv_wf(data);
        },
        crate::views::MessageKindV::NewChatMembers { data } => {
            lemma_user_metas_jv_wf(data);
        },
        crate::views::MessageKindV::LeftChatMember { data } => {
            lemma_user_meta_jv_wf(data);
        },
        crate::views::MessageKindV::NewChatPhoto { data } => {
            lemma_photos_jv_wf(data);
        },
        crate::views::MessageKindV::PinnedMessage { message_id, text } => {
            lemma_wf_opt_str(text);
            let g = kind_jv(k)->Obj_0[0].1->Obj_0;
            assert forall|i: int| 0 <= i < g.len() implies wf_json((#[trigger] g[i]).1) by {}
            lemma_wf_obj_all(g);
        },
        _ => {},
    }
    match kind_jv(k) {
        JsonV::Obj(fs) => {
            assert forall|i: int| 0 <= i < fs.len() implies wf_json((#[trigger] fs[i]).1) by {}
            lemma_wf_obj_all(fs);
        },
        _ => {},
    }
}

/// The encoding of a forward origin is well-formed.
pub proof fn lemma_forward_from_jv_wf(f: crate::views::ForwardFromV)
    ensures
        wf_json(crate::codec_kind::forward_from_jv(f)),
{
    match f {
        crate::views::ForwardFromV::User { id, user } => {
            lemma_user_meta_jv_wf(user);
        },
        crate::views::ForwardFromV::Channel { id, channel, message_id } => {
            lemma_channel_meta_jv_wf(channel);
        },
        _ => {},
    }
    match crate::codec_kind::forward_from_jv(f) {
        JsonV::Obj(fs) => {
            match fs[0].1 {
                JsonV::Obj(g) => {
                    assert forall|i: int| 0 <= i < g.len() implies wf_json(
                        (#[trigger] g[i]).1,
                    ) by {}
                    lemma_wf_obj_all(g);
                },
                _ => {},
            }
            assert forall|i: int| 0 <= i < fs.len() implies wf_json((#[trigger] fs[i]).1) by {}
            lemma_wf_obj_all(fs);
        },
        _ => {},
    }
}

/// The encoding of a forward mark is well-formed.
pub proof fn lemma_forward_jv_wf(f: crate::views::ForwardV)
    ensures
        wf_json(crate::codec_kind::forward_jv(f)),
{
    lemma_forward_from_jv_wf(f.from);
    let fs = crate::codec_kind::forward_jv(f)->Obj_0;
    assert forall|i: int| 0 <= i < fs.len() implies wf_json((#[trigger] fs[i]).1) by {}
    lemma_wf_obj_all(fs);
}

/// The encoding of a normalized message is well-formed.
pub proof fn lemma_inter_jv_wf(m: InterMessageV)
    ensures
        wf_json(inter_jv(m)),
    decreases m,
{
    match m.from {
        None => {},
        Some(u) => {
            lemma_user_meta_jv_wf(u);
        },
    }
    lemma_chat_meta_jv_wf(m.chat);
    match m.forward {
        None => {},
        Some(f) => {
            lemma_forward_jv_wf(f);
        },
    }
    match m.reply_to_message {
        None => {},
        Some(b) => {
            lemma_inter_jv_wf(*b);
        },
    }
    lemma_wf_opt_int(m.edit_date);
    lemma_kind_jv_wf(m.kind);
    let fs = inter_jv(m)->Obj_0;
    assert forall|i: int| 0 <= i < fs.len() implies wf_json((#[trigger] fs[i]).1) by {}
    lemma_wf_obj_all(fs);
}

/// The encoding of a preserved source is well-formed.
pub proof fn lemma_opt_source_jv_wf(o: Option<InterMessageV>)
    ensures
        wf_json(opt_source_jv(o)),
{
    match o {
        None => {},
        Some(m) => {
            lemma_inter_jv_wf(m);
        },
    }
}

/// The encoding of a media shape is well-formed.
pub proof fn lemma_media_type_jv_wf(m: LogItemMediaTypeV)
    ensures
        wf_json(media_type_jv(m)),
{
    match m {
        LogItemMediaTypeV::Video { thumb_file_id, mime_type, .. } => {
            lemma_wf_opt_str(thumb_file_id);
            lemma_wf_opt_str(mime_type);
        },
        LogItemMediaTypeV::Audio { performer, title, mime_type, .. } => {
            lemma_wf_opt_str(performer);
            lemma_wf_opt_str(title);
            lemma_wf_opt_str(mime_type);
        },
        LogItemMediaTypeV::Voice { mime_type, .. } => {
            lemma_wf_opt_str(mime_type);
        },
        LogItemMediaTypeV::VideoNote { thumb_file_id, .. } => {
            lemma_wf_opt_str(thumb_file_id);
        },
        LogItemMediaTypeV::Document { file_name, mime_type } => {
            lemma_wf_opt_str(file_name);
            lemma_wf_opt_str(mime_type);
        },
        LogItemMediaTypeV::Sticker { emoji, set_name } => {
            lemma_wf_opt_str(emoji);
            lemma_wf_opt_str(set_name);
        },
        _ => {},
    }
    let g = media_type_jv(m)->Obj_0[0].1->Obj_0;
    assert forall|i: int| 0 <= i < g.len() implies wf_json((#[trigger] g[i]).1) by {}
    lemma_wf_obj_all(g);
    let fs = media_type_jv(m)->Obj_0;
    assert forall|i: int| 0 <= i < fs.len() implies wf_json((#[trigger] fs[i]).1) by {}
    lemma_wf_obj_all(fs);
}

/// The encoding of a special record is well-formed.
pub proof fn lemma_special_jv_wf(s: LogItemSpecialTypeV)
    ensures
        wf_json(special_jv(s)),
{
    match s {
        LogItemSpecialTypeV::Contact { user_id, phone_number, first_name, last_name } => {
            lemma_wf_opt_int(user_id);
            lemma_wf_opt_str(last_name);
            let g = special_jv(s)->Obj_0[0].1->Obj_0;
            assert forall|i: int| 0 <= i < g.len() implies wf_json((#[trigger] g[i]).1) by {}
            lemma_wf_obj_all(g);
        },
        LogItemSpecialTypeV::Location { data } => {
            lemma_location_jv_wf(data);
        },
        LogItemSpecialTypeV::Venue { data } => {
            lemma_venue_jv_wf(data);
        },
        LogItemSpecialTypeV::Poll { data } => {
            lemma_poll_jv_wf(data);
        },
        LogItemSpecialTypeV::PinnedMessage => {},
    }
    match special_jv(s) {
        JsonV::Obj(fs) => {
            assert forall|i: int| 0 <= i < fs.len() implies wf_json((#[trigger] fs[i]).1) by {}
            lemma_wf_obj_all(fs);
        },
        _ => {},
    }
}

/// The encoding of a chat change is well-formed.
pub proof fn lemma_chat_type_jv_wf(c: LogItemChatTypeV)
    ensures
        wf_json(chat_type_jv(c)),
{
    match c {
        LogItemChatTypeV::NewTitle { title } => {
            let g = chat_type_jv(c)->Obj_0[0].1->Obj_0;
            assert forall|i: int| 0 <= i < g.len() implies wf_json((#[trigger] g[i]).1) by {}
            lemma_wf_obj_all(g);
        },
        LogItemChatTypeV::NewPhoto { file_id } => {
            lemma_wf_opt_str(file_id);
            let g = chat_type_jv(c)->Obj_0[0].1->Obj_0;
            assert forall|i: int| 0 <= i < g.len() implies wf_json((#[trigger] g[i]).1) by {}
            lemma_wf_obj_all(g);
        },
        LogItemChatTypeV::DeletePhoto => {},
    }
    match chat_type_jv(c) {
        JsonV::Obj(fs) => {
            assert forall|i: int| 0 <= i < fs.len() implies wf_json((#[trigger] fs[i]).1) by {}
            lemma_wf_obj_all(fs);
        },
        _ => {},
    }
}

/// The encodings of a file-id list are well-formed.
pub proof fn lemma_strings_jv_wf(s: Seq<Seq<char>>)
    ensures
        wf_json_arr(strings_jv(s)),
{
    assert forall|i: int| 0 <= i < strings_jv(s).len() implies wf_json(
        #[trigger] strings_jv(s)[i],
    ) by {}
    lemma_wf_arr_all(strings_jv(s));
}

/// The encoding of a persisted record is well-formed.
pub proof fn lemma_item_jv_wf(x: LogItemV)
    ensures
        wf_json(item_jv(x)),
{
    match x {
        LogItemV::Message { user_id, time, text, entities, source } => {
            lemma_wf_opt_str(user_id);
            lemma_entities_jv_wf(entities);
            lemma_opt_source_jv_wf(source);
        },
        LogItemV::Media { user_id, time, caption, media_type, files, source } => {
            lemma_wf_opt_str(user_id);
            lemma_wf_opt_str(caption);
            lemma_media_type_jv_wf(media_type);
            lemma_strings_jv_wf(files);
            lemma_opt_source_jv_wf(source);
        },
        LogItemV::Special { user_id, time, special_type, source } => {
            lemma_wf_opt_str(user_id);
            lemma_special_jv_wf(special_type);
            lemma_opt_source_jv_wf(source);
        },
        LogItemV::Membership { user_id, time, membership_type, source } => {
            lemma_wf_opt_str(user_id);
            lemma_opt_source_jv_wf(source);
        },
        LogItemV::Chat { user_id, time, chat_type, source } => {
            lemma_wf_opt_str(user_id);
            lemma_chat_type_jv_wf(chat_type);
            lemma_opt_source_jv_wf(source);
        },
        LogItemV::Pin { user_id, time, message, message_id, source } => {
            lemma_wf_opt_str(user_id);
            lemma_wf_opt_str(message);
            lemma_opt_source_jv_wf(source);
        },
        LogItemV::Unimplemented { tag, user_id, time, source } => {
            lemma_wf_opt_str(user_id);
            lemma_opt_source_jv_wf(source);
        },
    }
    let fs = item_jv(x)->Obj_0;
    let g = fs[0].1->Obj_0;
    assert forall|i: int| 0 <= i < g.len() implies wf_json((#[trigger] g[i]).1) by {}
    lemma_wf_obj_all(g);
    assert forall|i: int| 0 <= i < fs.len() implies wf_json((#[trigger] fs[i]).1) by {}
    lemma_wf_obj_all(fs);
}

/// The stored text of a persisted record.
pub open spec fn ser_log_item(x: LogItemV) -> Seq<char> {
    ser_json(item_jv(x))
}

/// Reads a stored text back as a persisted record: the whole text must be
/// one record in canonical form.
pub open spec fn parse_log_item(s: Seq<char>) -> Option<LogItemV> {
    match parse_json(s) {
        Some(j) => item_of_jv(j),
        None => None,
    }
}

/// Serialize, then deserialize: the identity, for every persisted record.
pub proof fn lemma_log_item_round_trip(x: LogItemV)
    ensures
        parse_log_item(ser_log_item(x)) == Some(x),
{
    lemma_item_jv_wf(x);
    lemma_json_round_trip(item_jv(x));
    lemma_item_rt(x);
}

/// The stored text of a chat record.
pub open spec fn ser_chat_meta(c: ChatMetaV) -> Seq<char> {
    ser_json(chat_meta_jv(c))
}

/// Reads a stored text back as a chat record.
pub open spec fn parse_chat_meta(s: Seq<char>) -> Option<ChatMetaV> {
    match parse_json(s) {
        Some(j) => chat_meta_of_jv(j),
        None => None,
    }
}

/// Serialize, then deserialize: the identity, for every chat record.
pub proof fn lemma_chat_meta_round_trip(c: ChatMetaV)
    ensures
        parse_chat_meta(ser_chat_meta(c)) == Some(c),
{
    lemma_chat_meta_jv_wf(c);
    lemma_json_round_trip(chat_meta_jv(c));
    lemma_chat_meta_rt(c);
}

/// The stored text of a user record.
pub open spec fn ser_user_meta(u: UserMetaV) -> Seq<char> {
    ser_json(user_meta_jv(u))
}

/// Reads a stored text back as a user record.
pub open spec fn parse_user_meta(s: Seq<char>) -> Option<UserMetaV> {
    match parse_json(s) {
        Some(j) => user_meta_of_jv(j),
        None => None,
    }
}

/// Serialize, then deserialize: the identity, for every user record.
pub proof fn lemma_user_meta_round_trip(u: UserMetaV)
    ensures
        parse_user_meta(ser_user_meta(u)) == Some(u),
{
    lemma_user_meta_jv_wf(u);
    lemma_json_round_trip(user_meta_jv(u));
    lemma_user_meta_rt(u);
}

/// Writes a persisted record as its stored text.
pub fn log_item_to_chars(x: &LogItem) -> (out: Vec<char>)
    ensures
        out@ == ser_log_item(v_item(*x)),
{
    let j = item_to_json(x);
    json_to_chars(&j)
}

/// Reads a stored text as a persisted record.
pub fn log_item_from_chars(s: &[char]) -> (r: Option<LogItem>)
    ensures
        match r {
            Some(x) => parse_log_item(s@) == Some(v_item(x)),
            None => parse_log_item(s@) is None,
        },
{
    match json_from_chars(s) {
        Some(j) => item_of_json(&j),
        None => None,
    }
}

/// Writes a chat record as its stored text.
pub fn chat_meta_to_chars(c: &ChatMeta) -> (out: Vec<char>)
    ensures
        out@ == ser_chat_meta(v_chat(*c)),
{
    let j = chat_meta_to_json(c);
    json_to_chars(&j)
}

/// Reads a stored text as a chat record.
pub fn chat_meta_from_chars(s: &[char]) -> (r: Option<ChatMeta>)
    ensures
        match r {
            Some(c) => parse_chat_meta(s@) == Some(v_chat(c)),
            None => parse_chat_meta(s@) is None,
        },
{
    match json_from_chars(s) {
        Some(j) => chat_meta_of_json(&j),
        None => None,
    }
}

/// Writes a user record as its stored text.
pub fn user_meta_to_chars(u: &UserMeta) -> (out: Vec<char>)
    ensures
        out@ == ser_user_meta(v_user(*u)),
{
    let j = user_meta_to_json(u);
    json_to_chars(&j)
}

/// Reads a stored text as a user record.
pub fn user_meta_from_chars(s: &[char]) -> (r: Option<UserMeta>)
    ensures
        match r {
            Some(u) => parse_user_meta(s@) == Some(v_user(u)),
            None => parse_user_meta(s@) is None,
        },
{
    match json_from_chars(s) {
        Some(j) => user_meta_of_json(&j),
        None => None,
    }
}

} // verus!
