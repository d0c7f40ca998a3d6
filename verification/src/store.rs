//! The archive's ordered key/value store: an in-memory map from ASCII keys to
//! either text records or binary blobs, sorted by key, with prefix scans.
//! It stands where the original kept an embedded on-disk store, and states as
//! contracts the ordered-map behaviour the rest of the library builds on.
use vstd::prelude::*;

use crate::text::{lex_cmp, lex_lt, lemma_lex_irrefl, lemma_lex_trans};

verus! {

/// One namespace of the store: entries sorted strictly by key.
pub open spec fn sorted_keys<V>(s: Seq<(Seq<char>, V)>) -> bool {
    forall|i: int, j: int| 0 <= i < j < s.len() ==> lex_lt(#[trigger] s[i].0, #[trigger] s[j].0)
}

/// The map denoted by a sequence of entries; a later entry wins.
pub open spec fn seq_to_map<V>(s: Seq<(Seq<char>, V)>) -> Map<Seq<char>, V>
    decreases s.len(),
{
    if s.len() == 0 {
        Map::empty()
    } else {
        seq_to_map(s.drop_last()).insert(s.last().0, s.last().1)
    }
}

/// `k` starts with prefix `p`.
pub open spec fn starts_with(k: Seq<char>, p: Seq<char>) -> bool {
    p.len() <= k.len() && forall|i: int| 0 <= i < p.len() ==> k[i] == p[i]
}

/// The subsequence of entries whose key starts with `p`, in order.
pub open spec fn entries_with_prefix<V>(s: Seq<(Seq<char>, V)>, p: Seq<char>) -> Seq<
    (Seq<char>, V),
>
    decreases s.len(),
{
    if s.len() == 0 {
        Seq::empty()
    } else if starts_with(s.last().0, p) {
        entries_with_prefix(s.drop_last(), p).push(s.last())
    } else {
        entries_with_prefix(s.drop_last(), p)
    }
}

/// The ordered store. Text records and binary blobs live in namespaces that
/// the key layout keeps apart, so they are held apart here as well.
pub struct Store {
    text: Vec<(Vec<char>, String)>,
    blobs: Vec<(Vec<char>, Vec<u8>)>,
}

impl Store {
    /// The text entries, sorted by key.
    pub closed spec fn text_seq(self) -> Seq<(Seq<char>, Seq<char>)> {
        Seq::new(self.text@.len(), |i: int| (self.text@[i].0@, self.text@[i].1@))
    }

    /// The blob entries, sorted by key.
    pub closed spec fn blob_seq(self) -> Seq<(Seq<char>, Seq<u8>)> {
        Seq::new(self.blobs@.len(), |i: int| (self.blobs@[i].0@, self.blobs@[i].1@))
    }

    /// The text records as a map.
    pub open spec fn text_map(self) -> Map<Seq<char>, Seq<char>> {
        seq_to_map(self.text_seq())
    }

    /// The blobs as a map.
    pub open spec fn blob_map(self) -> Map<Seq<char>, Seq<u8>> {
        seq_to_map(self.blob_seq())
    }

    /// Both namespaces are strictly sorted by key.
    pub open spec fn wf(self) -> bool {
        sorted_keys(self.text_seq()) && sorted_keys(self.blob_seq())
    }

    /// An empty store.
    pub fn new() -> (s: Store)
        ensures
            s.wf(),
            s.text_map() == Map::<Seq<char>, Seq<char>>::empty(),
            s.blob_map() == Map::<Seq<char>, Seq<u8>>::empty(),
            s.text_seq() == Seq::<(Seq<char>, Seq<char>)>::empty(),
    {
        let s = Store { text: Vec::new(), blobs: Vec::new() };
        proof {
            assert(s.text_seq() =~= Seq::<(Seq<char>, Seq<char>)>::empty());
            assert(s.blob_seq() =~= Seq::<(Seq<char>, Seq<u8>)>::empty());
        }
        s
    }

    /// Writes a text record, inserting or overwriting.
    pub fn put_text(&mut self, key: Vec<char>, val: String)
        requires
            old(self).wf(),
        ensures
            final(self).wf(),
            final(self).text_map() == old(self).text_map().insert(key@, val@),
            final(self).blob_map() == old(self).blob_map(),
            final(self).blob_seq() == old(self).blob_seq(),
    {
        let ghost pre = self.text_seq();
        let mut i: usize = 0;
        let mut found: bool = false;
        loop
            invariant_except_break
                !found,
            invariant
                self == old(self),
                pre == self.text_seq(),
                i <= self.text.len(),
                forall|j: int| 0 <= j < i ==> lex_lt((#[trigger] pre[j]).0, key@),
            ensures
                self == old(self),
                pre == self.text_seq(),
                i <= self.text.len(),
                forall|j: int| 0 <= j < i ==> lex_lt((#[trigger] pre[j]).0, key@),
                found ==> i < self.text.len() && pre[i as int].0 == key@,
                !found && i < self.text.len() ==> lex_lt(key@, pre[i as int].0),
            decreases self.text.len() - i,
        {
            if i == self.text.len() {
                break ;
            }
            proof {
                assert(pre[i as int].0 == self.text@[i as int].0@);
            }
            let c = lex_cmp(&self.text[i].0, &key);
            if c == 0 {
                found = true;
                break ;
            }
            if c > 0 {
                break ;
            }
            i = i + 1;
        }
        if found {
            // same key: overwrite the entry
            self.text.remove(i);
            self.text.insert(i, (key, val));
            proof {
                assert(self.text_seq() =~= pre.update(i as int, (key@, val@)));
                lemma_map_update(pre, i as int, key@, val@);
                assert(self.text_map() =~= old(self).text_map().insert(key@, val@));
                lemma_sorted_update_same_key(pre, i as int, key@, val@);
                assert(self.blob_seq() =~= old(self).blob_seq());
            }
        } else {
            // key not present: insert at the found position
            proof {
                assert forall|j: int| i as int <= j < pre.len() implies (#[trigger] pre[j]).0
                    != key@ by {
                    if j > i as int {
                        assert(lex_lt(pre[i as int].0, pre[j].0));
                        if pre[j].0 == key@ {
                            lemma_lex_asym_here(key@, pre[i as int].0);
                        }
                    } else {
                        lemma_lex_irrefl(key@);
                        if pre[j].0 == key@ {
                            assert(lex_lt(key@, key@));
                        }
                    }
                }
                assert forall|j: int| 0 <= j < pre.len() implies (#[trigger] pre[j]).0 != key@ by {
                    if j < i as int {
                        lemma_lex_irrefl(key@);
                        if pre[j].0 == key@ {
                            assert(lex_lt(key@, key@));
                        }
                    }
                }
            }
            proof {
                if i < self.text.len() {
                    lemma_lex_asym_here(key@, pre[i as int].0);
                }
            }
            self.text.insert(i, (key, val));
            proof {
                assert(self.text_seq() =~= pre.insert(i as int, (key@, val@)));
                lemma_map_insert_fresh(pre, i as int, key@, val@);
                assert(self.text_map() =~= old(self).text_map().insert(key@, val@));
                lemma_sorted_insert_at(pre, i as int, key@, val@);
                assert(self.blob_seq() =~= old(self).blob_seq());
            }
        }
    }

    /// Reads a text record.
    pub fn get_text(&self, key: &Vec<char>) -> (r: Option<String>)
        requires
            self.wf(),
        ensures
            match r {
                Some(v) => self.text_map().contains_key(key@) && v@ == self.text_map()[key@],
                None => !self.text_map().contains_key(key@),
            },
    {
        proof {
            lemma_map_of_sorted(self.text_seq());
        }
        let mut i: usize = 0;
        loop
            invariant
                self.wf(),
                i <= self.text.len(),
                forall|j: int| 0 <= j < i ==> (#[trigger] self.text_seq()[j].0) != key@,
            decreases self.text.len() - i,
        {
            if i == self.text.len() {
                proof {
                    lemma_map_of_sorted(self.text_seq());
                }
                return None;
            }
            let c = lex_cmp(&self.text[i].0, &key);
            if c == 0 {
                proof {
                    lemma_map_of_sorted(self.text_seq());
                    assert(self.text_seq()[i as int].0 == key@);
                }
                return Some(self.text[i].1.clone());
            }
            i = i + 1;
        }
    }

    /// Writes a blob, inserting or overwriting.
    pub fn put_blob(&mut self, key: Vec<char>, val: Vec<u8>)
        requires
            old(self).wf(),
        ensures
            final(self).wf(),
            final(self).blob_map() == old(self).blob_map().insert(key@, val@),
            final(self).text_map() == old(self).text_map(),
            final(self).text_seq() == old(self).text_seq(),
    {
        let ghost pre = self.blob_seq();
        let mut i: usize = 0;
        let mut found: bool = false;
        loop
            invariant_except_break
                !found,
            invariant
                self == old(self),
                pre == self.blob_seq(),
                i <= self.blobs.len(),
                forall|j: int| 0 <= j < i ==> lex_lt((#[trigger] pre[j]).0, key@),
            ensures
                self == old(self),
                pre == self.blob_seq(),
                i <= self.blobs.len(),
                forall|j: int| 0 <= j < i ==> lex_lt((#[trigger] pre[j]).0, key@),
                found ==> i < self.blobs.len() && pre[i as int].0 == key@,
                !found && i < self.blobs.len() ==> lex_lt(key@, pre[i as int].0),
            decreases self.blobs.len() - i,
        {
            if i == self.blobs.len() {
                break ;
            }
            proof {
                assert(pre[i as int].0 == self.blobs@[i as int].0@);
            }
            let c = lex_cmp(&self.blobs[i].0, &key);
            if c == 0 {
                found = true;
                break ;
            }
            if c > 0 {
                break ;
            }
            i = i + 1;
        }
        if found {
            self.blobs.remove(i);
            self.blobs.insert(i, (key, val));
            proof {
                assert(self.blob_seq() =~= pre.update(i as int, (key@, val@)));
                lemma_map_update(pre, i as int, key@, val@);
                assert(self.blob_map() =~= old(self).blob_map().insert(key@, val@));
                lemma_sorted_update_same_key(pre, i as int, key@, val@);
                assert(self.text_seq() =~= old(self).text_seq());
            }
        } else {
            proof {
                assert forall|j: int| 0 <= j < pre.len() implies (#[trigger] pre[j]).0 != key@ by {
                    if j < i as int {
                        lemma_lex_irrefl(key@);
                        if pre[j].0 == key@ {
                            assert(lex_lt(key@, key@));
                        }
                    } else if j > i as int {
                        assert(lex_lt(pre[i as int].0, pre[j].0));
                        if pre[j].0 == key@ {
                            lemma_lex_asym_here(key@, pre[i as int].0);
                        }
                    } else {
                        lemma_lex_irrefl(key@);
                        if pre[j].0 == key@ {
                            assert(lex_lt(key@, key@));
                        }
                    }
                }
            }
            proof {
                if i < self.blobs.len() {
                    lemma_lex_asym_here(key@, pre[i as int].0);
                }
            }
            self.blobs.insert(i, (key, val));
            proof {
                assert(self.blob_seq() =~= pre.insert(i as int, (key@, val@)));
                lemma_map_insert_fresh(pre, i as int, key@, val@);
                assert(self.blob_map() =~= old(self).blob_map().insert(key@, val@));
                lemma_sorted_insert_at(pre, i as int, key@, val@);
                assert(self.text_seq() =~= old(self).text_seq());
            }
        }
    }

    /// Reads a blob.
    pub fn get_blob(&self, key: &Vec<char>) -> (r: Option<Vec<u8>>)
        requires
            self.wf(),
        ensures
            match r {
                Some(v) => self.blob_map().contains_key(key@) && v@ == self.blob_map()[key@],
                None => !self.blob_map().contains_key(key@),
            },
    {
        proof {
            lemma_map_of_sorted(self.blob_seq());
        }
        let mut i: usize = 0;
        loop
            invariant
                self.wf(),
                i <= self.blobs.len(),
                forall|j: int| 0 <= j < i ==> (#[trigger] self.blob_seq()[j].0) != key@,
            decreases self.blobs.len() - i,
        {
            if i == self.blobs.len() {
                proof {
                    lemma_map_of_sorted(self.blob_seq());
                }
                return None;
            }
            let c = lex_cmp(&self.blobs[i].0, &key);
            if c == 0 {
                proof {
                    lemma_map_of_sorted(self.blob_seq());
                    assert(self.blob_seq()[i as int].0 == key@);
                }
                let mut out: Vec<u8> = Vec::new();
                let entry = &self.blobs[i].1;
                let mut j: usize = 0;
                while j < entry.len()
                    invariant
                        j <= entry.len(),
                        out@ == entry@.subrange(0, j as int),
                    decreases entry.len() - j,
                {
                    out.push(entry[j]);
                    j = j + 1;
                    proof {
                        assert(out@ =~= entry@.subrange(0, j as int));
                    }
                }
                proof {
                    assert(out@ =~= entry@);
                }
                return Some(out);
            }
            i = i + 1;
        }
    }

    /// Does a blob exist under this key?
    pub fn has_blob(&self, key: &Vec<char>) -> (r: bool)
        requires
            self.wf(),
        ensures
            r == self.blob_map().contains_key(key@),
    {
        proof {
            lemma_map_of_sorted(self.blob_seq());
        }
        let mut i: usize = 0;
        loop
            invariant
                self.wf(),
                i <= self.blobs.len(),
                forall|j: int| 0 <= j < i ==> (#[trigger] self.blob_seq()[j].0) != key@,
            decreases self.blobs.len() - i,
        {
            if i == self.blobs.len() {
                proof {
                    lemma_map_of_sorted(self.blob_seq());
                }
                return false;
            }
            let c = lex_cmp(&self.blobs[i].0, &key);
            if c == 0 {
                proof {
                    assert(self.blob_seq()[i as int].0 == self.blobs@[i as int].0@);
                    lemma_map_of_sorted(self.blob_seq());
                }
                return true;
            }
            i = i + 1;
        }
    }

    /// All text entries whose key starts with `prefix`, in ascending key
    /// order.
    pub fn scan_text_prefix(&self, prefix: &Vec<char>) -> (r: Vec<(Vec<char>, String)>)
        requires
            self.wf(),
        ensures
            Seq::new(r@.len(), |i: int| (r@[i].0@, r@[i].1@)) == entries_with_prefix(
                self.text_seq(),
                prefix@,
            ),
    {
        let mut r: Vec<(Vec<char>, String)> = Vec::new();
        let mut i: usize = 0;
        while i < self.text.len()
            invariant
                self.wf(),
                i <= self.text.len(),
                Seq::new(r@.len(), |k: int| (r@[k].0@, r@[k].1@)) == entries_with_prefix(
                    self.text_seq().subrange(0, i as int),
                    prefix@,
                ),
            decreases self.text.len() - i,
        {
            let ghost pre_out = Seq::new(r@.len(), |k: int| (r@[k].0@, r@[k].1@));
            if chars_starts_with(&self.text[i].0, prefix) {
                let mut kc: Vec<char> = Vec::new();
                let entry_key = &self.text[i].0;
                let mut j: usize = 0;
                while j < entry_key.len()
                    invariant
                        j <= entry_key.len(),
                        kc@ == entry_key@.subrange(0, j as int),
                    decreases entry_key.len() - j,
                {
                    kc.push(entry_key[j]);
                    j = j + 1;
                    proof {
                        assert(kc@ =~= entry_key@.subrange(0, j as int));
                    }
                }
                proof {
                    assert(kc@ =~= entry_key@);
                }
                r.push((kc, self.text[i].1.clone()));
            }
            i = i + 1;
            proof {
                let sub = self.text_seq().subrange(0, i as int);
                assert(sub.drop_last() =~= self.text_seq().subrange(0, i as int - 1));
                assert(sub.last() == self.text_seq()[i as int - 1]);
                assert(Seq::new(r@.len(), |k: int| (r@[k].0@, r@[k].1@)) =~= entries_with_prefix(
                    sub,
                    prefix@,
                ));
            }
        }
        proof {
            assert(self.text_seq().subrange(0, self.text@.len() as int) =~= self.text_seq());
        }
        r
    }
}

/// Asymmetry of the key order, restated for use at call sites.
proof fn lemma_lex_asym_here(a: Seq<char>, b: Seq<char>)
    requires
        lex_lt(a, b),
    ensures
        !lex_lt(b, a),
{
    crate::text::lemma_lex_asym(a, b);
}

/// Exec test for `starts_with`.
pub fn chars_starts_with(k: &Vec<char>, p: &Vec<char>) -> (r: bool)
    ensures
        r == starts_with(k@, p@),
{
    if p.len() > k.len() {
        return false;
    }
    let mut i: usize = 0;
    while i < p.len()
        invariant
            i <= p.len(),
            p@.len() <= k@.len(),
            forall|j: int| 0 <= j < i ==> k@[j] == p@[j],
        decreases p.len() - i,
    {
        if k[i] != p[i] {
            return false;
        }
        i = i + 1;
    }
    true
}

/// In a sorted entry sequence the map agrees with the entries pointwise.
pub proof fn lemma_map_of_sorted<V>(s: Seq<(Seq<char>, V)>)
    requires
        sorted_keys(s),
    ensures
        forall|k: Seq<char>|
            #[trigger] seq_to_map(s).contains_key(k) <==> exists|i: int|
                0 <= i < s.len() && (#[trigger] s[i].0) == k,
        forall|i: int|
            0 <= i < s.len() ==> seq_to_map(s).contains_key(#[trigger] s[i].0) && seq_to_map(s)[
                s[i].0
            ] == s[i].1,
    decreases s.len(),
{
    if s.len() > 0 {
        let dl = s.drop_last();
        assert(sorted_keys(dl)) by {
            assert(forall|i: int, j: int|
                0 <= i < j < dl.len() ==> lex_lt(#[trigger] dl[i].0, #[trigger] dl[j].0)) by {
                assert(forall|i: int| 0 <= i < dl.len() ==> dl[i] == s[i]);
            }
        }
        lemma_map_of_sorted(dl);
        assert forall|i: int|
            0 <= i < s.len() implies seq_to_map(s).contains_key(#[trigger] s[i].0) && seq_to_map(s)[
            s[i].0
        ] == s[i].1 by {
            if i < s.len() - 1 {
                assert(dl[i] == s[i]);
                assert(lex_lt(s[i].0, s.last().0));
                lemma_lex_irrefl(s[i].0);
                assert(s[i].0 != s.last().0) by {
                    if s[i].0 == s.last().0 {
                        assert(lex_lt(s[i].0, s[i].0));
                    }
                }
            }
        }
        assert forall|k: Seq<char>| #[trigger]
            seq_to_map(s).contains_key(k) implies exists|i: int|
            0 <= i < s.len() && (#[trigger] s[i].0) == k by {
            if k == s.last().0 {
                assert(s[s.len() - 1].0 == k);
            } else {
                assert(seq_to_map(dl).contains_key(k));
                let i = choose|i: int| 0 <= i < dl.len() && (#[trigger] dl[i].0) == k;
                assert(s[i].0 == k);
            }
        }
        assert forall|k: Seq<char>|
            (exists|i: int| 0 <= i < s.len() && (#[trigger] s[i].0) == k) implies #[trigger]
            seq_to_map(s).contains_key(k) by {
            let i = choose|i: int| 0 <= i < s.len() && (#[trigger] s[i].0) == k;
            if i < s.len() - 1 {
                assert(dl[i].0 == k);
            }
        }
    }
}

/// Updating the entry that already holds `k` makes the map insert of `k`.
proof fn lemma_map_update<V>(s: Seq<(Seq<char>, V)>, i: int, k: Seq<char>, v: V)
    requires
        sorted_keys(s),
        0 <= i < s.len(),
        s[i].0 == k,
    ensures
        seq_to_map(s.update(i, (k, v))) == seq_to_map(s).insert(k, v),
    decreases s.len(),
{
    let s2 = s.update(i, (k, v));
    if i == s.len() - 1 {
        assert(s2.drop_last() =~= s.drop_last());
        assert(s2.last() == (k, v));
        assert(seq_to_map(s2) =~= seq_to_map(s).insert(k, v));
    } else {
        let dl = s.drop_last();
        assert(sorted_keys(dl)) by {
            assert(forall|x: int| 0 <= x < dl.len() ==> dl[x] == s[x]);
        }
        assert(dl[i].0 == k);
        lemma_map_update(dl, i, k, v);
        assert(s2.drop_last() =~= dl.update(i, (k, v)));
        assert(s2.last() == s.last());
        assert(k != s.last().0) by {
            assert(lex_lt(s[i].0, s.last().0));
            lemma_lex_irrefl(k);
            if k == s.last().0 {
                assert(lex_lt(k, k));
            }
        }
        assert(seq_to_map(s2) =~= seq_to_map(s).insert(k, v));
    }
}

/// Inserting an entry under a key that is absent makes the map insert.
proof fn lemma_map_insert_fresh<V>(s: Seq<(Seq<char>, V)>, i: int, k: Seq<char>, v: V)
    requires
        0 <= i <= s.len(),
        forall|j: int| 0 <= j < s.len() ==> (#[trigger] s[j].0) != k,
    ensures
        seq_to_map(s.insert(i, (k, v))) == seq_to_map(s).insert(k, v),
    decreases s.len(),
{
    let s2 = s.insert(i, (k, v));
    if i == s.len() {
        assert(s2.drop_last() =~= s);
        assert(s2.last() == (k, v));
    } else {
        let dl = s.drop_last();
        assert(forall|j: int| 0 <= j < dl.len() ==> (#[trigger] dl[j].0) != k);
        lemma_map_insert_fresh(dl, i, k, v);
        assert(s2.drop_last() =~= dl.insert(i, (k, v)));
        assert(s2.last() == s.last());
        assert(s.last().0 != k);
        assert(seq_to_map(s2) =~= seq_to_map(s).insert(k, v));
    }
}

/// An in-place overwrite of one entry keeps the order.
proof fn lemma_sorted_update_same_key<V>(s: Seq<(Seq<char>, V)>, i: int, k: Seq<char>, v: V)
    requires
        sorted_keys(s),
        0 <= i < s.len(),
        s[i].0 == k,
    ensures
        sorted_keys(s.update(i, (k, v))),
{
    let s2 = s.update(i, (k, v));
    assert forall|x: int, y: int| 0 <= x < y < s2.len() implies lex_lt(
        #[trigger] s2[x].0,
        #[trigger] s2[y].0,
    ) by {
        assert(s2[x].0 == s[x].0);
        assert(s2[y].0 == s[y].0);
    }
}

/// Inserting at the found position keeps the order.
proof fn lemma_sorted_insert_at<V>(s: Seq<(Seq<char>, V)>, i: int, k: Seq<char>, v: V)
    requires
        sorted_keys(s),
        0 <= i <= s.len(),
        forall|j: int| 0 <= j < i ==> lex_lt((#[trigger] s[j]).0, k),
        forall|j: int| i <= j < s.len() ==> (#[trigger] s[j].0) != k,
        i < s.len() ==> !lex_lt(s[i].0, k),
    ensures
        sorted_keys(s.insert(i, (k, v))),
{
    let s2 = s.insert(i, (k, v));
    assert forall|x: int, y: int| 0 <= x < y < s2.len() implies lex_lt(
        #[trigger] s2[x].0,
        #[trigger] s2[y].0,
    ) by {
        if x == i {
            // the new entry is below everything that followed position i
            let yy = y - 1;
            assert(s2[y] == s[yy]);
            assert(i <= yy < s.len());
            crate::text::lemma_lex_total(k, s[yy].0);
            if yy == i {
            } else {
                assert(lex_lt(s[i].0, s[yy].0));
                if lex_lt(s[yy].0, k) {
                    if i < s.len() {
                        crate::text::lemma_lex_total(k, s[i].0);
                        if lex_lt(k, s[i].0) {
                            lemma_lex_trans(s[yy].0, k, s[i].0);
                            lemma_lex_asym_here(s[i].0, s[yy].0);
                        }
                    }
                }
            }
        } else if y == i {
            assert(s2[x] == s[x]);
        } else if x < i && y < i {
            assert(s2[x] == s[x] && s2[y] == s[y]);
        } else if x < i {
            assert(s2[x] == s[x] && s2[y] == s[y - 1]);
            if i <= y - 1 {
                if i < s.len() {
                    crate::text::lemma_lex_total(k, s[i].0);
                    if y - 1 == i {
                        if !lex_lt(s[x].0, s[y - 1].0) {
                            crate::text::lemma_lex_total(s[x].0, s[y - 1].0);
                            if s[x].0 == s[y - 1].0 {
                                lemma_lex_irrefl(s[x].0);
                                assert(lex_lt(s[x].0, k));
                            } else {
                                assert(lex_lt(s[y - 1].0, s[x].0));
                                assert(lex_lt(s[x].0, k));
                            }
                        }
                    } else {
                        assert(lex_lt(s[x].0, s[y - 1].0));
                    }
                }
            }
        } else {
            assert(s2[x] == s[x - 1] && s2[y] == s[y - 1]);
            assert(lex_lt(s[x - 1].0, s[y - 1].0));
        }
    }
}

} // verus!
