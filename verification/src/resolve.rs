//! Display-name resolution: the ladder from stored identity records to the
//! name a page shows, a pure function of the stored metadata.
use vstd::prelude::*;

use crate::codec_item::{parse_chat_meta, parse_user_meta, chat_meta_from_chars,
    user_meta_from_chars};
use crate::keys::{build_chat_meta_key, build_user_meta_key, chat_meta_key, user_meta_key};
use crate::model::{ChatMeta, UserMeta};
use crate::num::{dec_i, lemma_dec_i_injective, parse_i64_all};
use crate::store::Store;
use crate::text::{push_str_chars, str_to_chars, string_from_chars};
use crate::views::{ChatMetaV, UserMetaV};

verus! {

/// The name shown for a user: the username, else first and last name, else
/// the first name alone.
pub open spec fn spec_resolve_user_meta(u: UserMetaV) -> Seq<char> {
    match u.username {
        Some(n) => n,
        None => match u.last_name {
            Some(l) => u.first_name + " "@ + l,
            None => u.first_name,
        },
    }
}

/// The name shown for a user with the id beside it.
pub open spec fn spec_resolve_user_meta_with_id(u: UserMetaV) -> Seq<char> {
    spec_resolve_user_meta(u) + " ("@ + u.id + ")"@
}

/// Renders the name of a user.
pub fn resolve_user_meta(user: &UserMeta) -> (r: String)
    ensures
        r@ == spec_resolve_user_meta(crate::views::v_user(*user)),
{
    let mut out: Vec<char> = Vec::new();
    match &user.username {
        Some(n) => {
            push_str_chars(&mut out, n.as_str());
        },
        None => {
            match &user.last_name {
                Some(l) => {
                    push_str_chars(&mut out, user.first_name.as_str());
                    push_str_chars(&mut out, " ");
                    push_str_chars(&mut out, l.as_str());
                },
                None => {
                    push_str_chars(&mut out, user.first_name.as_str());
                },
            }
        },
    }
    string_from_chars(&out)
}

/// Renders the name of a user with the id beside it.
pub fn resolve_user_meta_with_id(user: &UserMeta) -> (r: String)
    ensures
        r@ == spec_resolve_user_meta_with_id(crate::views::v_user(*user)),
{
    let name = resolve_user_meta(user);
    let mut out: Vec<char> = Vec::new();
    push_str_chars(&mut out, name.as_str());
    push_str_chars(&mut out, " (");
    push_str_chars(&mut out, user.id.as_str());
    push_str_chars(&mut out, ")");
    string_from_chars(&out)
}

/// The name a user-meta lookup resolves to: the ladder over the stored
/// record, or the raw id when none is stored or it does not decode.
pub open spec fn spec_resolve_user(
    m: Map<Seq<char>, Seq<char>>,
    user_id: Seq<char>,
    with_id: bool,
) -> Seq<char> {
    if m.contains_key(user_meta_key(user_id)) && parse_user_meta(m[user_meta_key(user_id)])
        is Some {
        let u = parse_user_meta(m[user_meta_key(user_id)])->0;
        if with_id {
            spec_resolve_user_meta_with_id(u)
        } else {
            spec_resolve_user_meta(u)
        }
    } else {
        user_id
    }
}

/// Resolves a user id against the store.
pub fn resolve_user(store: &Store, user_id: &str, with_id: bool) -> (r: String)
    requires
        store.wf(),
    ensures
        r@ == spec_resolve_user(store.text_map(), user_id@, with_id),
{
    let key = build_user_meta_key(user_id);
    match store.get_text(&key) {
        Some(text) => {
            let chars = str_to_chars(text.as_str());
            match user_meta_from_chars(chars.as_slice()) {
                Some(user) => {
                    if with_id {
                        resolve_user_meta_with_id(&user)
                    } else {
                        resolve_user_meta(&user)
                    }
                },
                None => {
                    let mut out: Vec<char> = Vec::new();
                    push_str_chars(&mut out, user_id);
                    string_from_chars(&out)
                },
            }
        },
        None => {
            let mut out: Vec<char> = Vec::new();
            push_str_chars(&mut out, user_id);
            string_from_chars(&out)
        },
    }
}

/// The name shown for a chat record: the most specific human-readable field
/// of its variant, with the id beside it where one is shown.
pub open spec fn spec_chat_name(c: ChatMetaV) -> Seq<char> {
    match c {
        ChatMetaV::User(u) => spec_resolve_user_meta_with_id(u),
        ChatMetaV::Group(g) => g.title + " ("@ + g.id + ")"@,
        ChatMetaV::SuperGroup(g) => match g.username {
            Some(n) => n + " ("@ + g.id + ")"@,
            None => g.title + " ("@ + g.id + ")"@,
        },
        ChatMetaV::Channel(ch) => match ch.username {
            Some(n) => n + " ("@ + ch.id + ")"@,
            None => ch.id,
        },
        ChatMetaV::Unknown(rc) => match rc.username {
            Some(n) => n + " ("@ + rc.id + ")"@,
            None => match (rc.first_name, rc.last_name) {
                (Some(f), Some(l)) => f + " "@ + l + " ("@ + rc.id + ")"@,
                (Some(f), None) => f + " ("@ + rc.id + ")"@,
                (None, _) => match rc.title {
                    Some(t) => t + " ("@ + rc.id + ")"@,
                    None => rc.id,
                },
            },
        },
    }
}

/// The name a chat id resolves to: the stored chat record's ladder when the
/// id is a numeral with a decodable record, else the user ladder over the
/// same text.
pub open spec fn spec_resolve_chat_name(m: Map<Seq<char>, Seq<char>>, chat_id: Seq<char>) -> Seq<
    char,
> {
    if exists|n: i64|
        chat_id == dec_i(n as int) && #[trigger] m.contains_key(chat_meta_key(n as int))
            && parse_chat_meta(m[chat_meta_key(n as int)]) is Some {
        let n = choose|n: i64|
            chat_id == dec_i(n as int) && #[trigger] m.contains_key(chat_meta_key(n as int))
                && parse_chat_meta(m[chat_meta_key(n as int)]) is Some;
        spec_chat_name(parse_chat_meta(m[chat_meta_key(n as int)])->0)
    } else {
        spec_resolve_user(m, chat_id, true)
    }
}

/// Renders the name of a chat record.
pub fn chat_name(meta: &ChatMeta) -> (r: String)
    ensures
        r@ == spec_chat_name(crate::views::v_chat(*meta)),
{
    let mut out: Vec<char> = Vec::new();
    match meta {
        ChatMeta::User(u) => {
            return resolve_user_meta_with_id(u);
        },
        ChatMeta::Group(g) => {
            push_str_chars(&mut out, g.title.as_str());
            push_str_chars(&mut out, " (");
            push_str_chars(&mut out, g.id.as_str());
            push_str_chars(&mut out, ")");
        },
        ChatMeta::SuperGroup(g) => {
            match &g.username {
                Some(n) => {
                    push_str_chars(&mut out, n.as_str());
                },
                None => {
                    push_str_chars(&mut out, g.title.as_str());
                },
            }
            push_str_chars(&mut out, " (");
            push_str_chars(&mut out, g.id.as_str());
            push_str_chars(&mut out, ")");
        },
        ChatMeta::Channel(ch) => {
            match &ch.username {
                Some(n) => {
                    push_str_chars(&mut out, n.as_str());
                    push_str_chars(&mut out, " (");
                    push_str_chars(&mut out, ch.id.as_str());
                    push_str_chars(&mut out, ")");
                },
                None => {
                    push_str_chars(&mut out, ch.id.as_str());
                },
            }
        },
        ChatMeta::Unknown(rc) => {
            match &rc.username {
                Some(n) => {
                    push_str_chars(&mut out, n.as_str());
                    push_str_chars(&mut out, " (");
                    push_str_chars(&mut out, rc.id.as_str());
                    push_str_chars(&mut out, ")");
                },
                None => {
                    match (&rc.first_name, &rc.last_name) {
                        (Some(f), Some(l)) => {
                            push_str_chars(&mut out, f.as_str());
                            push_str_chars(&mut out, " ");
                            push_str_chars(&mut out, l.as_str());
                            push_str_chars(&mut out, " (");
                            push_str_chars(&mut out, rc.id.as_str());
                            push_str_chars(&mut out, ")");
                        },
                        (Some(f), None) => {
                            push_str_chars(&mut out, f.as_str());
                            push_str_chars(&mut out, " (");
                            push_str_chars(&mut out, rc.id.as_str());
                            push_str_chars(&mut out, ")");
                        },
                        (None, _) => {
                            match &rc.title {
                                Some(t) => {
                                    push_str_chars(&mut out, t.as_str());
                                    push_str_chars(&mut out, " (");
                                    push_str_chars(&mut out, rc.id.as_str());
                                    push_str_chars(&mut out, ")");
                                },
                                None => {
                                    push_str_chars(&mut out, rc.id.as_str());
                                },
                            }
                        },
                    }
                },
            }
        },
    }
    string_from_chars(&out)
}

/// Resolves a chat id against the store: the chat record's name where one is
/// stored under the numeric id, the user ladder otherwise.
pub fn resolve_chat_name(store: &Store, chat_id: &str) -> (r: String)
    requires
        store.wf(),
    ensures
        r@ == spec_resolve_chat_name(store.text_map(), chat_id@),
{
    let ghost m = store.text_map();
    let chars = str_to_chars(chat_id);
    match parse_i64_all(chars.as_slice()) {
        Some(n) => {
            let key = build_chat_meta_key(n);
            match store.get_text(&key) {
                Some(text) => {
                    let mchars = str_to_chars(text.as_str());
                    match chat_meta_from_chars(mchars.as_slice()) {
                        Some(meta) => {
                            proof {
                                let n2 = choose|n2: i64|
                                    chat_id@ == dec_i(n2 as int) && #[trigger] m.contains_key(
                                        chat_meta_key(n2 as int),
                                    ) && parse_chat_meta(m[chat_meta_key(n2 as int)]) is Some;
                                lemma_dec_i_injective(n2 as int, n as int);
                            }
                            chat_name(&meta)
                        },
                        None => {
                            proof {
                                lemma_no_other_numeral(m, chat_id@, n);
                            }
                            resolve_user(store, chat_id, true)
                        },
                    }
                },
                None => {
                    proof {
                        lemma_no_other_numeral(m, chat_id@, n);
                    }
                    resolve_user(store, chat_id, true)
                },
            }
        },
        None => {
            resolve_user(store, chat_id, true)
        },
    }
}

/// If the id's own numeral gives no decodable record, no numeral does:
/// decimal texts denote one number each.
proof fn lemma_no_other_numeral(m: Map<Seq<char>, Seq<char>>, chat_id: Seq<char>, n: i64)
    requires
        chat_id == dec_i(n as int),
        !(m.contains_key(chat_meta_key(n as int)) && parse_chat_meta(m[chat_meta_key(n as int)])
            is Some),
    ensures
        !(exists|n2: i64|
            chat_id == dec_i(n2 as int) && #[trigger] m.contains_key(chat_meta_key(n2 as int))
                && parse_chat_meta(m[chat_meta_key(n2 as int)]) is Some),
{
    assert forall|n2: i64|
        !(chat_id == dec_i(n2 as int) && #[trigger] m.contains_key(chat_meta_key(n2 as int))
            && parse_chat_meta(m[chat_meta_key(n2 as int)]) is Some) by {
        if chat_id == dec_i(n2 as int) {
            lemma_dec_i_injective(n2 as int, n as int);
        }
    }
}

/// Resolution is a pure function of the stored metadata: two stores that
/// agree on every chat record and every user record resolve every id to the
/// same name.
pub proof fn lemma_resolution_deterministic(
    m1: Map<Seq<char>, Seq<char>>,
    m2: Map<Seq<char>, Seq<char>>,
    chat_id: Seq<char>,
)
    requires
        forall|n: i64|
            #[trigger] m1.contains_key(chat_meta_key(n as int)) == m2.contains_key(
                chat_meta_key(n as int),
            ) && (m1.contains_key(chat_meta_key(n as int)) ==> m1[chat_meta_key(n as int)]
                == m2[chat_meta_key(n as int)]),
        forall|id: Seq<char>|
            #[trigger] m1.contains_key(user_meta_key(id)) == m2.contains_key(user_meta_key(id))
                && (m1.contains_key(user_meta_key(id)) ==> m1[user_meta_key(id)]
                == m2[user_meta_key(id)]),
    ensures
        spec_resolve_chat_name(m1, chat_id) == spec_resolve_chat_name(m2, chat_id),
{
    assert(spec_resolve_user(m1, chat_id, true) == spec_resolve_user(m2, chat_id, true));
    if exists|n: i64|
        chat_id == dec_i(n as int) && #[trigger] m1.contains_key(chat_meta_key(n as int))
            && parse_chat_meta(m1[chat_meta_key(n as int)]) is Some {
        let n1 = choose|n: i64|
            chat_id == dec_i(n as int) && #[trigger] m1.contains_key(chat_meta_key(n as int))
                && parse_chat_meta(m1[chat_meta_key(n as int)]) is Some;
        assert(m2.contains_key(chat_meta_key(n1 as int)));
        let n2 = choose|n: i64|
            chat_id == dec_i(n as int) && #[trigger] m2.contains_key(chat_meta_key(n as int))
                && parse_chat_meta(m2[chat_meta_key(n as int)]) is Some;
        lemma_dec_i_injective(n1 as int, n2 as int);
    } else {
        assert forall|n: i64|
            !(chat_id == dec_i(n as int) && #[trigger] m2.contains_key(chat_meta_key(n as int))
                && parse_chat_meta(m2[chat_meta_key(n as int)]) is Some) by {
            assert(m1.contains_key(chat_meta_key(n as int)) == m2.contains_key(
                chat_meta_key(n as int),
            ));
        }
    }
}

} // verus!
