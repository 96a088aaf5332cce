//! The record grouper: cuts a flat key/value sequence into records, one per
//! entity, where each record starts at a leading key of the response type.

use vstd::prelude::*;
use crate::response::{kvs_view, KeyValue};

verus! {

/// The leading-key sets of the list-shaped responses.
#[derive(Copy, Clone, PartialEq, Eq, Structural)]
pub enum LeadingKeys {
    /// Track listings: a record starts at `file`.
    Tracks,
    /// Database listings: a record starts at `directory`, `file` or `playlist`.
    Entries,
}

pub open spec fn file_key() -> Seq<char> {
    seq!['f', 'i', 'l', 'e']
}

pub open spec fn directory_key() -> Seq<char> {
    seq!['d', 'i', 'r', 'e', 'c', 't', 'o', 'r', 'y']
}

pub open spec fn playlist_key() -> Seq<char> {
    seq!['p', 'l', 'a', 'y', 'l', 'i', 's', 't']
}

pub open spec fn is_leading(kind: LeadingKeys, key: Seq<char>) -> bool {
    match kind {
        LeadingKeys::Tracks => key == file_key(),
        LeadingKeys::Entries => key == file_key() || key == directory_key() || key == playlist_key(),
    }
}

/// The records of the first `n` pairs: a leading key opens a record, any other
/// pair joins the open one, and pairs before the first leading key are dropped.
pub open spec fn group_prefix(kvs: Seq<(Seq<char>, Seq<char>)>, kind: LeadingKeys, n: int) -> Seq<Seq<(Seq<char>, Seq<char>)>>
    decreases n,
{
    if n <= 0 {
        Seq::empty()
    } else {
        let g = group_prefix(kvs, kind, n - 1);
        let kv = kvs[n - 1];
        if is_leading(kind, kv.0) {
            g.push(seq![kv])
        } else if g.len() == 0 {
            g
        } else {
            g.update(g.len() - 1, g.last().push(kv))
        }
    }
}

pub open spec fn group_spec(kvs: Seq<(Seq<char>, Seq<char>)>, kind: LeadingKeys) -> Seq<Seq<(Seq<char>, Seq<char>)>> {
    group_prefix(kvs, kind, kvs.len() as int)
}

/// The value of `key` in a record: that of its last pair with that key.
pub open spec fn lookup(pairs: Seq<(Seq<char>, Seq<char>)>, key: Seq<char>) -> Option<Seq<char>>
    decreases pairs.len(),
{
    if pairs.len() == 0 {
        None
    } else if pairs.last().0 == key {
        Some(pairs.last().1)
    } else {
        lookup(pairs.drop_last(), key)
    }
}

/// One logical entity of a reply. Where a key repeats, the later value wins.
pub struct Record {
    pub pairs: Vec<KeyValue>,
}

impl View for Record {
    type V = Seq<(Seq<char>, Seq<char>)>;

    open spec fn view(&self) -> Seq<(Seq<char>, Seq<char>)> {
        kvs_view(self.pairs@)
    }
}

pub open spec fn records_view(v: Seq<Record>) -> Seq<Seq<(Seq<char>, Seq<char>)>> {
    v.map_values(|r: Record| r@)
}

/// Character-wise equality of two strings.
pub fn str_eq(a: &str, b: &str) -> (r: bool)
    ensures
        r == (a@ == b@),
{
    let n = a.unicode_len();
    if n != b.unicode_len() {
        return false;
    }
    let mut i: usize = 0;
    while i < n
        invariant
            n == a@.len() == b@.len(),
            i <= n,
            a@.subrange(0, i as int) == b@.subrange(0, i as int),
        decreases n - i,
    {
        if a.get_char(i) != b.get_char(i) {
            return false;
        }
        assert(a@.subrange(0, i + 1) =~= a@.subrange(0, i as int).push(a@[i as int]));
        assert(b@.subrange(0, i + 1) =~= b@.subrange(0, i as int).push(b@[i as int]));
        i = i + 1;
    }
    assert(a@.subrange(0, n as int) =~= a@);
    assert(b@.subrange(0, n as int) =~= b@);
    true
}

/// Whether `key` opens a record of a response of this kind.
pub fn leading(kind: LeadingKeys, key: &str) -> (r: bool)
    ensures
        r == is_leading(kind, key@),
{
    proof {
        reveal_strlit("file");
        reveal_strlit("directory");
        reveal_strlit("playlist");
        assert("file"@ =~= file_key());
        assert("directory"@ =~= directory_key());
        assert("playlist"@ =~= playlist_key());
    }
    match kind {
        LeadingKeys::Tracks => str_eq(key, "file"),
        LeadingKeys::Entries => str_eq(key, "file") || str_eq(key, "directory") || str_eq(key, "playlist"),
    }
}

pub fn copy_key_value(kv: &KeyValue) -> (r: KeyValue)
    ensures
        r@ == kv@,
{
    KeyValue { key: kv.key.clone(), value: kv.value.clone() }
}

impl Record {
    /// The value of `key`: that of the last pair with that key.
    pub fn get(&self, key: &str) -> (r: Option<&String>)
        ensures
            match r {
                Some(v) => lookup(self@, key@) == Some(v@),
                None => lookup(self@, key@) is None,
            },
    {
        let mut i: usize = self.pairs.len();
        assert(self@.subrange(0, i as int) =~= self@);
        while i > 0
            invariant
                i <= self.pairs.len(),
                lookup(self@, key@) == lookup(self@.subrange(0, i as int), key@),
            decreases i,
        {
            let ghost p = self@.subrange(0, i as int);
            assert(p.last() == self.pairs@[i - 1]@);
            if str_eq(self.pairs[i - 1].key.as_str(), key) {
                return Some(&self.pairs[i - 1].value);
            }
            assert(p.drop_last() =~= self@.subrange(0, i - 1));
            i = i - 1;
        }
        None
    }
}

/// Groups the pairs of a list-shaped reply into records.
pub fn group_records(kvs: &Vec<KeyValue>, kind: LeadingKeys) -> (r: Vec<Record>)
    ensures
        records_view(r@) == group_spec(kvs_view(kvs@), kind),
{
    let ghost s = kvs_view(kvs@);
    let mut out: Vec<Record> = Vec::new();
    let mut i: usize = 0;
    while i < kvs.len()
        invariant
            s == kvs_view(kvs@),
            i <= kvs.len(),
            records_view(out@) == group_prefix(s, kind, i as int),
        decreases kvs.len() - i,
    {
        let kv = copy_key_value(&kvs[i]);
        assert(kv@ == s[i as int]);
        let ghost before = records_view(out@);
        if leading(kind, kv.key.as_str()) {
            let mut pairs: Vec<KeyValue> = Vec::new();
            pairs.push(kv);
            let rec = Record { pairs };
            assert(rec@ =~= seq![s[i as int]]);
            out.push(rec);
            assert(records_view(out@) =~= before.push(seq![s[i as int]]));
        } else if out.len() > 0 {
            let last = out.len() - 1;
            let mut rec = out.pop().unwrap();
            let ghost old_rec = rec@;
            assert(old_rec == before.last());
            rec.pairs.push(kv);
            assert(rec@ =~= old_rec.push(s[i as int]));
            out.push(rec);
            assert(records_view(out@) =~= before.update(last as int, before.last().push(s[i as int])));
        }
        i = i + 1;
    }
    out
}

} // verus!
