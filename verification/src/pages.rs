//! The query layer behind the pages: the chat roster, the day list of one
//! chat, its newest day, and the records of one day window, each read off
//! the store exactly.
use vstd::prelude::*;

use crate::codec_item::log_item_from_chars;
use crate::ingest::stored_item;
use crate::keys::{build_index_key_prefix, build_msg_key_prefix, build_rel_key_prefix, index_key,
    index_key_prefix, lemma_index_key_inj, lemma_msg_key_inj, lemma_rel_key_inj, msg_key,
    msg_key_prefix, rel_key, rel_key_prefix};
use crate::model::LogItem;
use crate::num::{dec_i, lemma_dec_i_injective, parse_i64_all};
use crate::store::{entries_with_prefix, starts_with, Store};
use crate::text::str_to_chars;
use crate::views::{v_item, LogItemV};

verus! {

/// Splitting a fixed front off a concatenation is unambiguous.
proof fn lemma_prefix_cancel(p: Seq<char>, a: Seq<char>, b: Seq<char>)
    requires
        p + a == p + b,
    ensures
        a == b,
{
    let l = p + a;
    let l2 = p + b;
    assert(a =~= l.subrange(p.len() as int, l.len() as int));
    assert(b =~= l2.subrange(p.len() as int, l2.len() as int));
}

/// The numbers the keys under a one-argument namespace denote, in store
/// order: for each entry whose key is the prefix and a numeral, the number.
pub open spec fn suffix_numbers(
    entries: Seq<(Seq<char>, Seq<char>)>,
    prefix: Seq<char>,
) -> Seq<i64>
    decreases entries.len(),
{
    if entries.len() == 0 {
        Seq::empty()
    } else {
        let head: Seq<i64> = if exists|n: i64| entries[0].0 == prefix + dec_i(n as int) {
            seq![choose|n: i64| entries[0].0 == prefix + dec_i(n as int)]
        } else {
            Seq::empty()
        };
        head + suffix_numbers(entries.skip(1), prefix)
    }
}

/// Reads the numbers off the scanned entries of a namespace.
fn scan_suffix_numbers(rows: &Vec<(Vec<char>, String)>, prefix: &Vec<char>) -> (out: Vec<i64>)
    requires
        forall|i: int| 0 <= i < rows@.len() ==> starts_with(#[trigger] rows@[i].0@, prefix@),
    ensures
        out@ == suffix_numbers(
            Seq::new(rows@.len(), |i: int| (rows@[i].0@, rows@[i].1@)),
            prefix@,
        ),
{
    let ghost entries = Seq::new(rows@.len(), |i: int| (rows@[i].0@, rows@[i].1@));
    let mut out: Vec<i64> = Vec::new();
    let mut i: usize = 0;
    proof {
        assert(entries.skip(0) =~= entries);
        match suffix_numbers(entries, prefix@) {
            _ => {},
        }
        assert(out@ + suffix_numbers(entries, prefix@) =~= suffix_numbers(entries, prefix@));
    }
    while i < rows.len()
        invariant
            i <= rows@.len(),
            entries == Seq::new(rows@.len(), |x: int| (rows@[x].0@, rows@[x].1@)),
            forall|x: int| 0 <= x < rows@.len() ==> starts_with(#[trigger] rows@[x].0@, prefix@),
            suffix_numbers(entries, prefix@) == out@ + suffix_numbers(
                entries.skip(i as int),
                prefix@,
            ),
        decreases rows@.len() - i,
    {
        proof {
            assert(entries.skip(i as int)[0] == entries[i as int]);
            assert(entries[i as int].0 == rows@[i as int].0@);
        }
        let key = &rows[i].0;
        proof {
            assert(key@.subrange(0, prefix@.len() as int) =~= prefix@);
        }
        let suffix = vstd::slice::slice_subrange(key.as_slice(), prefix.len(), key.len());
        match parse_i64_all(suffix) {
            Some(n) => {
                proof {
                    assert(key@ =~= prefix@ + suffix@);
                    assert(key@ == prefix@ + dec_i(n as int));
                    let n2 = choose|n2: i64| entries[i as int].0 == prefix@ + dec_i(n2 as int);
                    lemma_prefix_cancel(prefix@, dec_i(n2 as int), dec_i(n as int));
                    lemma_dec_i_injective(n2 as int, n as int);
                }
                out.push(n);
            },
            None => {
                proof {
                    assert(key@ =~= prefix@ + suffix@);
                    assert forall|n2: i64| entries[i as int].0 != prefix@ + dec_i(n2 as int) by {
                        if key@ == prefix@ + dec_i(n2 as int) {
                            lemma_prefix_cancel(prefix@, suffix@, dec_i(n2 as int));
                        }
                    }
                }
            },
        }
        i = i + 1;
        proof {
            assert(entries.skip(i as int - 1).skip(1) =~= entries.skip(i as int));
            match suffix_numbers(entries.skip(i as int), prefix@) {
                _ => {},
            }
            assert(suffix_numbers(entries, prefix@) =~= out@ + suffix_numbers(
                entries.skip(i as int),
                prefix@,
            ));
        }
    }
    proof {
        assert(entries.skip(rows@.len() as int) =~= Seq::<(Seq<char>, Seq<char>)>::empty());
        assert(out@ + Seq::<i64>::empty() =~= out@);
    }
    out
}

/// The chats of the roster, in store order: the numeric ids under the roster
/// namespace.
pub open spec fn spec_chat_list(s: Seq<(Seq<char>, Seq<char>)>) -> Seq<i64> {
    suffix_numbers(entries_with_prefix(s, rel_key_prefix()), rel_key_prefix())
}

/// Lists the chats of the roster.
pub fn chat_list(store: &Store) -> (out: Vec<i64>)
    requires
        store.wf(),
    ensures
        out@ == spec_chat_list(store.text_seq()),
{
    let prefix = build_rel_key_prefix();
    let rows = store.scan_text_prefix(&prefix);
    proof {
        lemma_prefix_entries_long(store.text_seq(), prefix@);
        assert forall|i: int| 0 <= i < rows@.len() implies starts_with(
            #[trigger] rows@[i].0@,
            prefix@,
        ) by {
            let entries = Seq::new(rows@.len(), |x: int| (rows@[x].0@, rows@[x].1@));
            assert(entries[i].0 == rows@[i].0@);
            assert(starts_with(entries_with_prefix(store.text_seq(), prefix@)[i].0, prefix@));
        }
    }
    scan_suffix_numbers(&rows, &prefix)
}

/// Every entry matched by a prefix is at least as long as the prefix.
proof fn lemma_prefix_entries_long(s: Seq<(Seq<char>, Seq<char>)>, p: Seq<char>)
    ensures
        forall|i: int|
            0 <= i < entries_with_prefix(s, p).len() ==> starts_with(
                (#[trigger] entries_with_prefix(s, p)[i]).0,
                p,
            ),
    decreases s.len(),
{
    if s.len() > 0 {
        lemma_prefix_entries_long(s.drop_last(), p);
        let whole = entries_with_prefix(s, p);
        let inner = entries_with_prefix(s.drop_last(), p);
        assert forall|i: int| 0 <= i < whole.len() implies starts_with(
            (#[trigger] whole[i]).0,
            p,
        ) by {
            if starts_with(s.last().0, p) {
                if i < inner.len() {
                    assert(whole[i] == inner[i]);
                } else {
                    assert(whole[i] == s.last());
                }
            } else {
                assert(whole[i] == inner[i]);
            }
        }
    }
}

/// The indexed days of one chat, in store order.
pub open spec fn spec_chat_days(s: Seq<(Seq<char>, Seq<char>)>, c: int) -> Seq<i64> {
    suffix_numbers(entries_with_prefix(s, index_key_prefix(c)), index_key_prefix(c))
}

/// Lists the indexed days of one chat, oldest first.
pub fn chat_days(store: &Store, chat_id: i64) -> (out: Vec<i64>)
    requires
        store.wf(),
    ensures
        out@ == spec_chat_days(store.text_seq(), chat_id as int),
{
    let prefix = build_index_key_prefix(chat_id);
    let rows = store.scan_text_prefix(&prefix);
    proof {
        lemma_prefix_entries_long(store.text_seq(), prefix@);
        assert forall|i: int| 0 <= i < rows@.len() implies starts_with(
            #[trigger] rows@[i].0@,
            prefix@,
        ) by {
            let entries = Seq::new(rows@.len(), |x: int| (rows@[x].0@, rows@[x].1@));
            assert(entries[i].0 == rows@[i].0@);
            assert(starts_with(entries_with_prefix(store.text_seq(), prefix@)[i].0, prefix@));
        }
    }
    scan_suffix_numbers(&rows, &prefix)
}

/// The newest indexed day of one chat, where one exists.
pub fn find_latest_chat_day(store: &Store, chat_id: i64) -> (r: Option<i64>)
    requires
        store.wf(),
    ensures
        ({
            let days = spec_chat_days(store.text_seq(), chat_id as int);
            match r {
                Some(d) => days.len() > 0 && d == days.last(),
                None => days.len() == 0,
            }
        }),
{
    let days = chat_days(store, chat_id);
    if days.len() == 0 {
        None
    } else {
        Some(days[days.len() - 1])
    }
}


/// The records of one day window of a chat, in store order: for each entry
/// of the chat's message namespace whose key names a timestamp in the
/// window and whose text decodes, the timestamp and the record.
pub open spec fn day_rows(
    entries: Seq<(Seq<char>, Seq<char>)>,
    c: int,
    t0: int,
    t1: int,
) -> Seq<(i64, LogItemV)>
    decreases entries.len(),
{
    if entries.len() == 0 {
        Seq::empty()
    } else {
        let head: Seq<(i64, LogItemV)> = if exists|t: i64|
            t0 <= t < t1 && entries[0].0 == msg_key_prefix(c) + dec_i(t as int) && stored_item(
                entries[0].1,
            ) is Some {
            let t = choose|t: i64|
                t0 <= t < t1 && entries[0].0 == msg_key_prefix(c) + dec_i(t as int) && stored_item(
                    entries[0].1,
                ) is Some;
            seq![(t, stored_item(entries[0].1)->0)]
        } else {
            Seq::empty()
        };
        head + day_rows(entries.skip(1), c, t0, t1)
    }
}

/// The records of one day window, read off the whole store.
pub open spec fn spec_day_page(
    s: Seq<(Seq<char>, Seq<char>)>,
    c: int,
    t0: int,
    t1: int,
) -> Seq<(i64, LogItemV)> {
    day_rows(entries_with_prefix(s, msg_key_prefix(c)), c, t0, t1)
}

/// Reads the records of one day window of a chat, oldest first: exactly the
/// stored records of the window that decode, each under its timestamp.
#[verifier::rlimit(100)]
pub fn day_page_rows(store: &Store, chat_id: i64, t_start: i64, t_end: i64) -> (out: Vec<
    (i64, LogItem),
>)
    requires
        store.wf(),
    ensures
        Seq::new(out@.len(), |i: int| (out@[i].0, v_item(out@[i].1))) == spec_day_page(
            store.text_seq(),
            chat_id as int,
            t_start as int,
            t_end as int,
        ),
{
    let ghost c = chat_id as int;
    let ghost t0 = t_start as int;
    let ghost t1 = t_end as int;
    let prefix = build_msg_key_prefix(chat_id);
    let rows = store.scan_text_prefix(&prefix);
    proof {
        lemma_prefix_entries_long(store.text_seq(), prefix@);
        assert forall|i: int| 0 <= i < rows@.len() implies starts_with(
            #[trigger] rows@[i].0@,
            prefix@,
        ) by {
            let entries = Seq::new(rows@.len(), |x: int| (rows@[x].0@, rows@[x].1@));
            assert(entries[i].0 == rows@[i].0@);
            assert(starts_with(entries_with_prefix(store.text_seq(), prefix@)[i].0, prefix@));
        }
    }
    let ghost entries = Seq::new(rows@.len(), |i: int| (rows@[i].0@, rows@[i].1@));
    let mut out: Vec<(i64, LogItem)> = Vec::new();
    let mut i: usize = 0;
    proof {
        assert(entries.skip(0) =~= entries);
        assert(Seq::new(out@.len(), |x: int| (out@[x].0, v_item(out@[x].1))) + day_rows(
            entries,
            c,
            t0,
            t1,
        ) =~= day_rows(entries, c, t0, t1));
    }
    while i < rows.len()
        invariant
            i <= rows@.len(),
            entries == Seq::new(rows@.len(), |x: int| (rows@[x].0@, rows@[x].1@)),
            forall|x: int| 0 <= x < rows@.len() ==> starts_with(#[trigger] rows@[x].0@, prefix@),
            prefix@ == msg_key_prefix(c),
            c == chat_id as int,
            t0 == t_start as int,
            t1 == t_end as int,
            day_rows(entries, c, t0, t1) == Seq::new(
                out@.len(),
                |x: int| (out@[x].0, v_item(out@[x].1)),
            ) + day_rows(entries.skip(i as int), c, t0, t1),
        decreases rows@.len() - i,
    {
        proof {
            assert(entries.skip(i as int)[0] == entries[i as int]);
            assert(entries[i as int].0 == rows@[i as int].0@);
            assert(entries[i as int].1 == rows@[i as int].1@);
        }
        let key = &rows[i].0;
        proof {
            assert(key@.subrange(0, prefix@.len() as int) =~= prefix@);
        }
        let suffix = vstd::slice::slice_subrange(key.as_slice(), prefix.len(), key.len());
        let ghost pre = out@;
        match parse_i64_all(suffix) {
            Some(t) => {
                proof {
                    assert(key@ =~= prefix@ + suffix@);
                }
                if t_start <= t && t < t_end {
                    let vchars = str_to_chars(rows[i].1.as_str());
                    match log_item_from_chars(vchars.as_slice()) {
                        Some(item) => {
                            let ghost iv = v_item(item);
                            proof {
                                reveal(stored_item);
                                assert(stored_item(entries[i as int].1) == Some(iv));
                                assert(key@ == prefix@ + dec_i(t as int));
                                assert(t0 <= t < t1 && entries[i as int].0 == msg_key_prefix(c)
                                    + dec_i(t as int) && stored_item(entries[i as int].1)
                                    is Some);
                                let t2 = choose|t2: i64|
                                    t0 <= t2 < t1 && entries[i as int].0 == msg_key_prefix(c)
                                        + dec_i(t2 as int) && stored_item(entries[i as int].1)
                                        is Some;
                                lemma_prefix_cancel(prefix@, dec_i(t2 as int), dec_i(t as int));
                                lemma_dec_i_injective(t2 as int, t as int);
                            }
                            out.push((t, item));
                        },
                        None => {
                            proof {
                                reveal(stored_item);
                                assert(stored_item(entries[i as int].1) is None);
                            }
                        },
                    }
                } else {
                    proof {
                        assert(key@ == prefix@ + dec_i(t as int));
                        assert forall|t2: i64|
                            !(t0 <= t2 < t1 && entries[i as int].0 == msg_key_prefix(c) + dec_i(
                                t2 as int,
                            ) && stored_item(entries[i as int].1) is Some) by {
                            if entries[i as int].0 == msg_key_prefix(c) + dec_i(t2 as int) {
                                lemma_prefix_cancel(prefix@, dec_i(t2 as int), dec_i(t as int));
                                lemma_dec_i_injective(t2 as int, t as int);
                            }
                        }
                    }
                }
            },
            None => {
                proof {
                    assert(key@ =~= prefix@ + suffix@);
                    assert forall|t2: i64|
                        entries[i as int].0 != msg_key_prefix(c) + dec_i(t2 as int) by {
                        if key@ == prefix@ + dec_i(t2 as int) {
                            lemma_prefix_cancel(prefix@, suffix@, dec_i(t2 as int));
                        }
                    }
                }
            },
        }
        i = i + 1;
        proof {
            assert(entries.skip(i as int - 1).skip(1) =~= entries.skip(i as int));
            assert(day_rows(entries, c, t0, t1) =~= Seq::new(
                out@.len(),
                |x: int| (out@[x].0, v_item(out@[x].1)),
            ) + day_rows(entries.skip(i as int), c, t0, t1));
        }
    }
    proof {
        assert(entries.skip(rows@.len() as int) =~= Seq::<(Seq<char>, Seq<char>)>::empty());
        assert(Seq::new(out@.len(), |x: int| (out@[x].0, v_item(out@[x].1))) + Seq::<(
            i64,
            LogItemV,
        )>::empty() =~= Seq::new(out@.len(), |x: int| (out@[x].0, v_item(out@[x].1))));
    }
    out
}

} // verus!
