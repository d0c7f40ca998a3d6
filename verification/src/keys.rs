//! The composite keyspace of the archive: ASCII, colon-separated keys over
//! the store, with the injectivity and disjointness facts that the schema
//! invariants rest on.
use vstd::prelude::*;

use crate::num::{dec_i, is_digit, lemma_dec_i_first_char, lemma_dec_i_injective, lemma_dec_u_digits,
    push_dec_i64};
use crate::text::push_str_chars;

verus! {

/// Key of a primary message record: `chat:<chat-id>:<time>`.
pub open spec fn msg_key(c: int, t: int) -> Seq<char> {
    seq!['c', 'h', 'a', 't', ':'] + dec_i(c) + seq![':'] + dec_i(t)
}

/// Key of a day-index entry: `chat_index:<chat-id>:<day>`.
pub open spec fn index_key(c: int, d: int) -> Seq<char> {
    seq!['c', 'h', 'a', 't', '_', 'i', 'n', 'd', 'e', 'x', ':'] + dec_i(c) + seq![':'] + dec_i(d)
}

/// Key of a chat-roster entry: `chat_rel:<chat-id>`.
pub open spec fn rel_key(c: int) -> Seq<char> {
    seq!['c', 'h', 'a', 't', '_', 'r', 'e', 'l', ':'] + dec_i(c)
}

/// Key of a message-id reference: `chat_ref:<chat-id>:<message-id>`.
pub open spec fn ref_key(c: int, m: int) -> Seq<char> {
    seq!['c', 'h', 'a', 't', '_', 'r', 'e', 'f', ':'] + dec_i(c) + seq![':'] + dec_i(m)
}

/// Key of a chat-meta record: `chat:meta:<chat-id>`.
pub open spec fn chat_meta_key(c: int) -> Seq<char> {
    seq!['c', 'h', 'a', 't', ':', 'm', 'e', 't', 'a', ':'] + dec_i(c)
}

/// Key of a user-meta record: `user:meta:<user-id>`.
pub open spec fn user_meta_key(id: Seq<char>) -> Seq<char> {
    seq!['u', 's', 'e', 'r', ':', 'm', 'e', 't', 'a', ':'] + id
}

/// Key of a message attachment blob: `file:chat:<file-id>`.
pub open spec fn file_chat_key(id: Seq<char>) -> Seq<char> {
    seq!['f', 'i', 'l', 'e', ':', 'c', 'h', 'a', 't', ':'] + id
}

/// Key of a profile-picture blob: `file:user:<user-id>`.
pub open spec fn file_user_key(id: Seq<char>) -> Seq<char> {
    seq!['f', 'i', 'l', 'e', ':', 'u', 's', 'e', 'r', ':'] + id
}

/// Key of a video-thumbnail blob: `file:video_thumb:<file-id>`.
pub open spec fn file_video_thumb_key(id: Seq<char>) -> Seq<char> {
    seq!['f', 'i', 'l', 'e', ':', 'v', 'i', 'd', 'e', 'o', '_', 't', 'h', 'u', 'm', 'b', ':'] + id
}

/// Prefix of every message key of one chat: `chat:<chat-id>:`.
pub open spec fn msg_key_prefix(c: int) -> Seq<char> {
    seq!['c', 'h', 'a', 't', ':'] + dec_i(c) + seq![':']
}

/// Prefix of every day-index key of one chat: `chat_index:<chat-id>:`.
pub open spec fn index_key_prefix(c: int) -> Seq<char> {
    seq!['c', 'h', 'a', 't', '_', 'i', 'n', 'd', 'e', 'x', ':'] + dec_i(c) + seq![':']
}

/// Prefix of every roster key: `chat_rel:`.
pub open spec fn rel_key_prefix() -> Seq<char> {
    seq!['c', 'h', 'a', 't', '_', 'r', 'e', 'l', ':']
}

/// Builds `chat:<c>:<t>`.
pub fn build_msg_key(c: i64, t: i64) -> (out: Vec<char>)
    ensures
        out@ == msg_key(c as int, t as int),
{
    let mut out: Vec<char> = Vec::new();
    push_str_chars(&mut out, "chat:");
    push_dec_i64(&mut out, c);
    out.push(':');
    push_dec_i64(&mut out, t);
    proof {
        reveal_strlit("chat:");
        assert(out@ =~= msg_key(c as int, t as int));
    }
    out
}

/// Builds `chat_index:<c>:<d>`.
pub fn build_index_key(c: i64, d: i64) -> (out: Vec<char>)
    ensures
        out@ == index_key(c as int, d as int),
{
    let mut out: Vec<char> = Vec::new();
    push_str_chars(&mut out, "chat_index:");
    push_dec_i64(&mut out, c);
    out.push(':');
    push_dec_i64(&mut out, d);
    proof {
        reveal_strlit("chat_index:");
        assert(out@ =~= index_key(c as int, d as int));
    }
    out
}

/// Builds `chat_rel:<c>`.
pub fn build_rel_key(c: i64) -> (out: Vec<char>)
    ensures
        out@ == rel_key(c as int),
{
    let mut out: Vec<char> = Vec::new();
    push_str_chars(&mut out, "chat_rel:");
    push_dec_i64(&mut out, c);
    proof {
        reveal_strlit("chat_rel:");
        assert(out@ =~= rel_key(c as int));
    }
    out
}

/// Builds `chat_ref:<c>:<m>`.
pub fn build_ref_key(c: i64, m: i64) -> (out: Vec<char>)
    ensures
        out@ == ref_key(c as int, m as int),
{
    let mut out: Vec<char> = Vec::new();
    push_str_chars(&mut out, "chat_ref:");
    push_dec_i64(&mut out, c);
    out.push(':');
    push_dec_i64(&mut out, m);
    proof {
        reveal_strlit("chat_ref:");
        assert(out@ =~= ref_key(c as int, m as int));
    }
    out
}

/// Builds `chat:meta:<c>`.
pub fn build_chat_meta_key(c: i64) -> (out: Vec<char>)
    ensures
        out@ == chat_meta_key(c as int),
{
    let mut out: Vec<char> = Vec::new();
    push_str_chars(&mut out, "chat:meta:");
    push_dec_i64(&mut out, c);
    proof {
        reveal_strlit("chat:meta:");
        assert(out@ =~= chat_meta_key(c as int));
    }
    out
}

/// Builds `user:meta:<id>`.
pub fn build_user_meta_key(id: &str) -> (out: Vec<char>)
    ensures
        out@ == user_meta_key(id@),
{
    let mut out: Vec<char> = Vec::new();
    push_str_chars(&mut out, "user:meta:");
    push_str_chars(&mut out, id);
    proof {
        reveal_strlit("user:meta:");
        assert(out@ =~= user_meta_key(id@));
    }
    out
}

/// Builds `file:chat:<id>`.
pub fn build_file_chat_key(id: &str) -> (out: Vec<char>)
    ensures
        out@ == file_chat_key(id@),
{
    let mut out: Vec<char> = Vec::new();
    push_str_chars(&mut out, "file:chat:");
    push_str_chars(&mut out, id);
    proof {
        reveal_strlit("file:chat:");
        assert(out@ =~= file_chat_key(id@));
    }
    out
}

/// Builds `file:user:<id>`.
pub fn build_file_user_key(id: &str) -> (out: Vec<char>)
    ensures
        out@ == file_user_key(id@),
{
    let mut out: Vec<char> = Vec::new();
    push_str_chars(&mut out, "file:user:");
    push_str_chars(&mut out, id);
    proof {
        reveal_strlit("file:user:");
        assert(out@ =~= file_user_key(id@));
    }
    out
}

/// Builds `file:video_thumb:<id>`.
pub fn build_file_video_thumb_key(id: &str) -> (out: Vec<char>)
    ensures
        out@ == file_video_thumb_key(id@),
{
    let mut out: Vec<char> = Vec::new();
    push_str_chars(&mut out, "file:video_thumb:");
    push_str_chars(&mut out, id);
    proof {
        reveal_strlit("file:video_thumb:");
        assert(out@ =~= file_video_thumb_key(id@));
    }
    out
}

/// Builds `chat:<c>:`, the prefix shared by the message records of one chat.
pub fn build_msg_key_prefix(c: i64) -> (out: Vec<char>)
    ensures
        out@ == msg_key_prefix(c as int),
{
    let mut out: Vec<char> = Vec::new();
    push_str_chars(&mut out, "chat:");
    push_dec_i64(&mut out, c);
    out.push(':');
    proof {
        reveal_strlit("chat:");
        assert(out@ =~= msg_key_prefix(c as int));
    }
    out
}

/// Builds `chat_index:<c>:`.
pub fn build_index_key_prefix(c: i64) -> (out: Vec<char>)
    ensures
        out@ == index_key_prefix(c as int),
{
    let mut out: Vec<char> = Vec::new();
    push_str_chars(&mut out, "chat_index:");
    push_dec_i64(&mut out, c);
    out.push(':');
    proof {
        reveal_strlit("chat_index:");
        assert(out@ =~= index_key_prefix(c as int));
    }
    out
}

/// Builds `chat_rel:`.
pub fn build_rel_key_prefix() -> (out: Vec<char>)
    ensures
        out@ == rel_key_prefix(),
{
    let mut out: Vec<char> = Vec::new();
    push_str_chars(&mut out, "chat_rel:");
    proof {
        reveal_strlit("chat_rel:");
        assert(out@ =~= rel_key_prefix());
    }
    out
}

/// No character of a decimal numeral is a colon.
pub proof fn lemma_dec_i_no_colon(n: int)
    ensures
        forall|i: int| 0 <= i < dec_i(n).len() ==> #[trigger] dec_i(n)[i] != ':',
{
    assert(':' as u32 == 58);
    assert('-' as u32 == 45);
    if n < 0 {
        lemma_dec_u_digits((-n) as nat);
        assert forall|i: int| 0 <= i < dec_i(n).len() implies #[trigger] dec_i(n)[i] != ':' by {
            if i > 0 {
                assert(dec_i(n)[i] == dec_i(n).skip(1)[i - 1]);
                assert(dec_i(n).skip(1) =~= crate::num::dec_u((-n) as nat));
                assert(is_digit(dec_i(n)[i]));
            }
        }
    } else {
        lemma_dec_u_digits(n as nat);
        assert(forall|i: int| 0 <= i < dec_i(n).len() ==> is_digit(#[trigger] dec_i(n)[i]));
    }
}

/// A sequence without colons, a colon, and a tail determine each other:
/// splitting at the first colon is unambiguous.
pub proof fn lemma_colon_sep_inj(a: Seq<char>, b: Seq<char>, a2: Seq<char>, b2: Seq<char>)
    requires
        forall|i: int| 0 <= i < a.len() ==> #[trigger] a[i] != ':',
        forall|i: int| 0 <= i < a2.len() ==> #[trigger] a2[i] != ':',
        a + seq![':'] + b == a2 + seq![':'] + b2,
    ensures
        a == a2,
        b == b2,
{
    let l = a + seq![':'] + b;
    let l2 = a2 + seq![':'] + b2;
    if a.len() < a2.len() {
        assert(l[a.len() as int] == ':');
        assert(l2[a.len() as int] == a2[a.len() as int]);
        assert(false);
    } else if a2.len() < a.len() {
        assert(l2[a2.len() as int] == ':');
        assert(l[a2.len() as int] == a[a2.len() as int]);
        assert(false);
    } else {
        assert forall|i: int| 0 <= i < a.len() implies a[i] == a2[i] by {
            assert(l[i] == a[i]);
            assert(l2[i] == a2[i]);
        }
        assert(a =~= a2);
        assert(l.len() == l2.len());
        assert(l.len() == a.len() + 1 + b.len());
        assert(l2.len() == a2.len() + 1 + b2.len());
        assert(b.len() == b2.len());
        assert forall|i: int| 0 <= i < b.len() implies b[i] == b2[i] by {
            assert(l[a.len() + 1 + i] == b[i]);
            assert(l2[a.len() + 1 + i] == b2[i]);
        }
        assert(b =~= b2);
    }
}

/// Message keys are injective in the chat id and the timestamp.
pub proof fn lemma_msg_key_inj(c: int, t: int, c2: int, t2: int)
    requires
        msg_key(c, t) == msg_key(c2, t2),
    ensures
        c == c2,
        t == t2,
{
    let a = dec_i(c);
    let b = dec_i(t);
    let a2 = dec_i(c2);
    let b2 = dec_i(t2);
    lemma_dec_i_no_colon(c);
    lemma_dec_i_no_colon(c2);
    assert((a + seq![':'] + b) =~= msg_key(c, t).skip(5));
    assert((a2 + seq![':'] + b2) =~= msg_key(c2, t2).skip(5));
    lemma_colon_sep_inj(a, b, a2, b2);
    lemma_dec_i_injective(c, c2);
    lemma_dec_i_injective(t, t2);
}

/// Reference keys are injective in the chat id and the message id.
pub proof fn lemma_ref_key_inj(c: int, m: int, c2: int, m2: int)
    requires
        ref_key(c, m) == ref_key(c2, m2),
    ensures
        c == c2,
        m == m2,
{
    let a = dec_i(c);
    let b = dec_i(m);
    let a2 = dec_i(c2);
    let b2 = dec_i(m2);
    lemma_dec_i_no_colon(c);
    lemma_dec_i_no_colon(c2);
    assert((a + seq![':'] + b) =~= ref_key(c, m).skip(9));
    assert((a2 + seq![':'] + b2) =~= ref_key(c2, m2).skip(9));
    lemma_colon_sep_inj(a, b, a2, b2);
    lemma_dec_i_injective(c, c2);
    lemma_dec_i_injective(m, m2);
}

/// Index keys are injective in the chat id and the day.
pub proof fn lemma_index_key_inj(c: int, d: int, c2: int, d2: int)
    requires
        index_key(c, d) == index_key(c2, d2),
    ensures
        c == c2,
        d == d2,
{
    let a = dec_i(c);
    let b = dec_i(d);
    let a2 = dec_i(c2);
    let b2 = dec_i(d2);
    lemma_dec_i_no_colon(c);
    lemma_dec_i_no_colon(c2);
    assert((a + seq![':'] + b) =~= index_key(c, d).skip(11));
    assert((a2 + seq![':'] + b2) =~= index_key(c2, d2).skip(11));
    lemma_colon_sep_inj(a, b, a2, b2);
    lemma_dec_i_injective(c, c2);
    lemma_dec_i_injective(d, d2);
}

/// Roster keys are injective in the chat id.
pub proof fn lemma_rel_key_inj(c: int, c2: int)
    requires
        rel_key(c) == rel_key(c2),
    ensures
        c == c2,
{
    assert(dec_i(c) =~= rel_key(c).skip(9));
    assert(dec_i(c2) =~= rel_key(c2).skip(9));
    lemma_dec_i_injective(c, c2);
}

/// A message key differs from every key of the other namespaces.
pub proof fn lemma_msg_key_disjoint(c: int, t: int)
    ensures
        forall|c2: int, d2: int| msg_key(c, t) != #[trigger] index_key(c2, d2),
        forall|c2: int| msg_key(c, t) != #[trigger] rel_key(c2),
        forall|c2: int, m2: int| msg_key(c, t) != #[trigger] ref_key(c2, m2),
        forall|c2: int| msg_key(c, t) != #[trigger] chat_meta_key(c2),
        forall|id: Seq<char>| msg_key(c, t) != #[trigger] user_meta_key(id),
        forall|id: Seq<char>| msg_key(c, t) != #[trigger] file_chat_key(id),
        forall|id: Seq<char>| msg_key(c, t) != #[trigger] file_user_key(id),
        forall|id: Seq<char>| msg_key(c, t) != #[trigger] file_video_thumb_key(id),
{
    let k = msg_key(c, t);
    assert(k[0] == 'c' && k[4] == ':');
    lemma_dec_i_first_char(c);
    assert(k[5] == dec_i(c)[0]);
    assert(is_digit(k[5]) || k[5] == '-') by {
        if c >= 0 {
        } else {
        }
    }
    assert forall|c2: int, d2: int| k != #[trigger] index_key(c2, d2) by {
        assert(index_key(c2, d2)[4] == '_');
    }
    assert forall|c2: int| k != #[trigger] rel_key(c2) by {
        assert(rel_key(c2)[4] == '_');
    }
    assert forall|c2: int, m2: int| k != #[trigger] ref_key(c2, m2) by {
        assert(ref_key(c2, m2)[4] == '_');
    }
    assert forall|c2: int| k != #[trigger] chat_meta_key(c2) by {
        assert(chat_meta_key(c2)[5] == 'm');
        assert('m' as u32 == 109);
        assert('-' as u32 == 45);
    }
    assert forall|id: Seq<char>| k != #[trigger] user_meta_key(id) by {
        assert(user_meta_key(id)[0] == 'u');
        assert('c' as u32 == 99);
        assert('u' as u32 == 117);
    }
    assert forall|id: Seq<char>| k != #[trigger] file_chat_key(id) by {
        assert(file_chat_key(id)[0] == 'f');
        assert('c' as u32 == 99);
        assert('f' as u32 == 102);
    }
    assert forall|id: Seq<char>| k != #[trigger] file_user_key(id) by {
        assert(file_user_key(id)[0] == 'f');
        assert('c' as u32 == 99);
        assert('f' as u32 == 102);
    }
    assert forall|id: Seq<char>| k != #[trigger] file_video_thumb_key(id) by {
        assert(file_video_thumb_key(id)[0] == 'f');
        assert('c' as u32 == 99);
        assert('f' as u32 == 102);
    }
}

/// An index key differs from every key of the other namespaces.
pub proof fn lemma_index_key_disjoint(c: int, d: int)
    ensures
        forall|c2: int, t2: int| index_key(c, d) != #[trigger] msg_key(c2, t2),
        forall|c2: int| index_key(c, d) != #[trigger] rel_key(c2),
        forall|c2: int, m2: int| index_key(c, d) != #[trigger] ref_key(c2, m2),
        forall|c2: int| index_key(c, d) != #[trigger] chat_meta_key(c2),
        forall|id: Seq<char>| index_key(c, d) != #[trigger] user_meta_key(id),
        forall|id: Seq<char>| index_key(c, d) != #[trigger] file_chat_key(id),
        forall|id: Seq<char>| index_key(c, d) != #[trigger] file_user_key(id),
        forall|id: Seq<char>| index_key(c, d) != #[trigger] file_video_thumb_key(id),
{
    let k = index_key(c, d);
    assert(k[0] == 'c' && k[4] == '_' && k[5] == 'i');
    assert forall|c2: int, t2: int| k != #[trigger] msg_key(c2, t2) by {
        assert(msg_key(c2, t2)[4] == ':');
    }
    assert forall|c2: int| k != #[trigger] rel_key(c2) by {
        assert(rel_key(c2)[5] == 'r');
        assert('i' as u32 == 105);
        assert('r' as u32 == 114);
    }
    assert forall|c2: int, m2: int| k != #[trigger] ref_key(c2, m2) by {
        assert(ref_key(c2, m2)[5] == 'r');
        assert('i' as u32 == 105);
        assert('r' as u32 == 114);
    }
    assert forall|c2: int| k != #[trigger] chat_meta_key(c2) by {
        assert(chat_meta_key(c2)[4] == ':');
    }
    assert forall|id: Seq<char>| k != #[trigger] user_meta_key(id) by {
        assert(user_meta_key(id)[0] == 'u');
        assert('c' as u32 == 99);
        assert('u' as u32 == 117);
    }
    assert forall|id: Seq<char>| k != #[trigger] file_chat_key(id) by {
        assert(file_chat_key(id)[0] == 'f');
        assert('c' as u32 == 99);
        assert('f' as u32 == 102);
    }
    assert forall|id: Seq<char>| k != #[trigger] file_user_key(id) by {
        assert(file_user_key(id)[0] == 'f');
        assert('c' as u32 == 99);
        assert('f' as u32 == 102);
    }
    assert forall|id: Seq<char>| k != #[trigger] file_video_thumb_key(id) by {
        assert(file_video_thumb_key(id)[0] == 'f');
        assert('c' as u32 == 99);
        assert('f' as u32 == 102);
    }
}

/// A roster key differs from every key of the other namespaces.
pub proof fn lemma_rel_key_disjoint(c: int)
    ensures
        forall|c2: int, t2: int| rel_key(c) != #[trigger] msg_key(c2, t2),
        forall|c2: int, d2: int| rel_key(c) != #[trigger] index_key(c2, d2),
        forall|c2: int, m2: int| rel_key(c) != #[trigger] ref_key(c2, m2),
        forall|c2: int| rel_key(c) != #[trigger] chat_meta_key(c2),
        forall|id: Seq<char>| rel_key(c) != #[trigger] user_meta_key(id),
        forall|id: Seq<char>| rel_key(c) != #[trigger] file_chat_key(id),
        forall|id: Seq<char>| rel_key(c) != #[trigger] file_user_key(id),
        forall|id: Seq<char>| rel_key(c) != #[trigger] file_video_thumb_key(id),
{
    let k = rel_key(c);
    assert(k[0] == 'c' && k[4] == '_' && k[5] == 'r' && k[6] == 'e' && k[7] == 'l');
    assert forall|c2: int, t2: int| k != #[trigger] msg_key(c2, t2) by {
        assert(msg_key(c2, t2)[4] == ':');
    }
    assert forall|c2: int, d2: int| k != #[trigger] index_key(c2, d2) by {
        assert(index_key(c2, d2)[5] == 'i');
        assert('i' as u32 == 105);
        assert('r' as u32 == 114);
    }
    assert forall|c2: int, m2: int| k != #[trigger] ref_key(c2, m2) by {
        assert(ref_key(c2, m2)[7] == 'f');
        assert('l' as u32 == 108);
        assert('f' as u32 == 102);
    }
    assert forall|c2: int| k != #[trigger] chat_meta_key(c2) by {
        assert(chat_meta_key(c2)[4] == ':');
    }
    assert forall|id: Seq<char>| k != #[trigger] user_meta_key(id) by {
        assert(user_meta_key(id)[0] == 'u');
        assert('c' as u32 == 99);
        assert('u' as u32 == 117);
    }
    assert forall|id: Seq<char>| k != #[trigger] file_chat_key(id) by {
        assert(file_chat_key(id)[0] == 'f');
        assert('c' as u32 == 99);
        assert('f' as u32 == 102);
    }
    assert forall|id: Seq<char>| k != #[trigger] file_user_key(id) by {
        assert(file_user_key(id)[0] == 'f');
        assert('c' as u32 == 99);
        assert('f' as u32 == 102);
    }
    assert forall|id: Seq<char>| k != #[trigger] file_video_thumb_key(id) by {
        assert(file_video_thumb_key(id)[0] == 'f');
        assert('c' as u32 == 99);
        assert('f' as u32 == 102);
    }
}


/// A reference key differs from every chat-meta and user-meta key.
pub proof fn lemma_ref_key_ne_meta(c: int, m: int)
    ensures
        forall|c2: int| ref_key(c, m) != #[trigger] chat_meta_key(c2),
        forall|id: Seq<char>| ref_key(c, m) != #[trigger] user_meta_key(id),
{
    let k = ref_key(c, m);
    assert(k[4] == '_');
    assert forall|c2: int| k != #[trigger] chat_meta_key(c2) by {
        assert(chat_meta_key(c2)[4] == ':');
        assert('_' as u32 == 95 && ':' as u32 == 58);
    }
    assert forall|id: Seq<char>| k != #[trigger] user_meta_key(id) by {
        assert(k[0] == 'c');
        assert(user_meta_key(id)[0] == 'u');
        assert('c' as u32 == 99 && 'u' as u32 == 117);
    }
}


/// A chat-meta key differs from every message, index, roster and reference
/// key.
pub proof fn lemma_chat_meta_key_disjoint(c: int)
    ensures
        forall|c2: int, t2: int| chat_meta_key(c) != #[trigger] msg_key(c2, t2),
        forall|c2: int, d2: int| chat_meta_key(c) != #[trigger] index_key(c2, d2),
        forall|c2: int| chat_meta_key(c) != #[trigger] rel_key(c2),
        forall|c2: int, m2: int| chat_meta_key(c) != #[trigger] ref_key(c2, m2),
        forall|id: Seq<char>| chat_meta_key(c) != #[trigger] user_meta_key(id),
{
    let k = chat_meta_key(c);
    assert(k[0] == 'c' && k[4] == ':' && k[5] == 'm');
    assert forall|c2: int, t2: int| k != #[trigger] msg_key(c2, t2) by {
        lemma_dec_i_first_char(c2);
        assert(msg_key(c2, t2)[5] == dec_i(c2)[0]);
        if c2 >= 0 {
            assert('m' as u32 == 109);
        } else {
            assert('m' as u32 == 109 && '-' as u32 == 45);
        }
    }
    assert forall|c2: int, d2: int| k != #[trigger] index_key(c2, d2) by {
        assert(index_key(c2, d2)[4] == '_');
        assert('_' as u32 == 95 && ':' as u32 == 58);
    }
    assert forall|c2: int| k != #[trigger] rel_key(c2) by {
        assert(rel_key(c2)[4] == '_');
        assert('_' as u32 == 95 && ':' as u32 == 58);
    }
    assert forall|c2: int, m2: int| k != #[trigger] ref_key(c2, m2) by {
        assert(ref_key(c2, m2)[4] == '_');
        assert('_' as u32 == 95 && ':' as u32 == 58);
    }
    assert forall|id: Seq<char>| k != #[trigger] user_meta_key(id) by {
        assert(user_meta_key(id)[0] == 'u');
        assert('c' as u32 == 99 && 'u' as u32 == 117);
    }
}

} // verus!
