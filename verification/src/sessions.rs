//! The names of the stored sessions and of the files that hold them.

use crate::config::Config;
use crate::text::{ends_with, strip_suffix};
use vstd::prelude::*;
use vstd::string::*;
use vstd::utf8::encode_utf8;

verus! {

/// What the name of a session's file ends with.
pub const SESSION_SUFFIX: &'static str = ".yaml";

/// The name of the file that holds the session `name`.
pub open spec fn session_file_of(name: Seq<char>) -> Seq<char> {
    name + SESSION_SUFFIX@
}

/// The session names that the file names `entries` give, in their order: a
/// file whose name has the suffix of session files gives the name before the
/// suffix, any other file gives none.
pub open spec fn stems(entries: Seq<Seq<char>>) -> Seq<Seq<char>>
    decreases entries.len(),
{
    if entries.len() == 0 {
        Seq::empty()
    } else {
        let rest = stems(entries.drop_last());
        let entry = entries.last();
        if ends_with(entry, SESSION_SUFFIX@) {
            rest.push(entry.take(entry.len() - SESSION_SUFFIX@.len()))
        } else {
            rest
        }
    }
}

/// The order of byte strings: by the first byte in which they differ, a
/// prefix before what it is a prefix of.
pub open spec fn bytes_le(a: Seq<u8>, b: Seq<u8>) -> bool
    decreases a.len(),
{
    if a.len() == 0 {
        true
    } else if b.len() == 0 {
        false
    } else if a[0] != b[0] {
        a[0] < b[0]
    } else {
        bytes_le(a.drop_first(), b.drop_first())
    }
}

/// The order of names: that of their UTF-8 encodings, which is the order in
/// which std compares strings.
pub open spec fn name_le(a: Seq<char>, b: Seq<char>) -> bool {
    bytes_le(encode_utf8(a), encode_utf8(b))
}

/// Whether `names` ascend.
pub open spec fn ascending(names: Seq<Seq<char>>) -> bool {
    forall|i: int, j: int| 0 <= i < j < names.len() ==> name_le(names[i], names[j])
}

pub proof fn lemma_bytes_le_total(a: Seq<u8>, b: Seq<u8>)
    ensures
        bytes_le(a, b) || bytes_le(b, a),
    decreases a.len(),
{
    if a.len() > 0 && b.len() > 0 && a[0] == b[0] {
        lemma_bytes_le_total(a.drop_first(), b.drop_first());
    }
}

pub proof fn lemma_bytes_le_transitive(a: Seq<u8>, b: Seq<u8>, c: Seq<u8>)
    requires
        bytes_le(a, b),
        bytes_le(b, c),
    ensures
        bytes_le(a, c),
    decreases a.len(),
{
    if a.len() > 0 && b.len() > 0 && c.len() > 0 && a[0] == b[0] && b[0] == c[0] {
        lemma_bytes_le_transitive(a.drop_first(), b.drop_first(), c.drop_first());
    }
}

/// Whether `a` comes before `b` or is equal to it.
pub fn name_precedes(a: &str, b: &str) -> (r: bool)
    ensures
        r == name_le(a@, b@),
{
    let x = a.as_bytes();
    let y = b.as_bytes();
    let mut i: usize = 0;
    assert(x@.skip(0) =~= x@ && y@.skip(0) =~= y@);
    while i < x.len() && i < y.len()
        invariant
            i <= x.len(),
            i <= y.len(),
            x@ == encode_utf8(a@),
            y@ == encode_utf8(b@),
            bytes_le(x@, y@) == bytes_le(x@.skip(i as int), y@.skip(i as int)),
        decreases x.len() - i,
    {
        let ghost p = x@.skip(i as int);
        let ghost q = y@.skip(i as int);
        assert(p[0] == x@[i as int] && q[0] == y@[i as int]);
        if x[i] != y[i] {
            return x[i] < y[i];
        }
        assert(p.drop_first() =~= x@.skip(i + 1));
        assert(q.drop_first() =~= y@.skip(i + 1));
        i = i + 1;
    }
    i == x.len()
}

/// Inserting an element adds it to what the sequence holds.
proof fn lemma_insert_to_multiset(s: Seq<Seq<char>>, p: int, a: Seq<char>)
    requires
        0 <= p <= s.len(),
    ensures
        s.insert(p, a).to_multiset() == s.to_multiset().insert(a),
{
    broadcast use vstd::seq_lib::group_to_multiset_ensures;

    let t = s.insert(p, a);
    assert(t.remove(p) =~= s);
    assert(t[p] == a);
    assert(t.to_multiset().count(a) > 0) by {
        assert(t.contains(a));
    }
    assert(t.to_multiset() =~= t.to_multiset().remove(a).insert(a));
}

/// Puts `name` into the ascending `names`, behind what is not greater.
fn insert_ascending(names: &mut Vec<String>, name: String)
    requires
        ascending(old(names).deep_view()),
    ensures
        ascending(final(names).deep_view()),
        final(names).len() == old(names).len() + 1,
        final(names).deep_view().to_multiset() == old(names).deep_view().to_multiset().insert(
            name@,
        ),
{
    let ghost before = names.deep_view();
    let mut p: usize = 0;
    while p < names.len() && name_precedes(names[p].as_str(), name.as_str())
        invariant
            p <= names.len(),
            names.deep_view() == before,
            forall|k: int| 0 <= k < p ==> name_le(#[trigger] before[k], name@),
        decreases names.len() - p,
    {
        assert(before[p as int] == names@[p as int]@);
        p = p + 1;
    }
    names.insert(p, name);
    let ghost after = names.deep_view();
    proof {
        assert(after =~= before.insert(p as int, name@));
        lemma_insert_to_multiset(before, p as int, name@);
        if p < before.len() {
            assert(before[p as int] == old(names)@[p as int]@);
            lemma_bytes_le_total(encode_utf8(before[p as int]), encode_utf8(name@));
        }
        assert forall|i: int, j: int| 0 <= i < j < after.len() implies name_le(
            after[i],
            after[j],
        ) by {
            if j < p {
                assert(after[i] == before[i] && after[j] == before[j]);
            } else if j == p {
                assert(after[i] == before[i]);
            } else if i < p {
                assert(after[i] == before[i] && after[j] == before[j - 1]);
                if j - 1 > p {
                    assert(name_le(before[p as int], before[j - 1]));
                }
                lemma_bytes_le_transitive(
                    encode_utf8(before[i]),
                    encode_utf8(name@),
                    encode_utf8(before[p as int]),
                );
                if j - 1 > p {
                    lemma_bytes_le_transitive(
                        encode_utf8(before[i]),
                        encode_utf8(before[p as int]),
                        encode_utf8(before[j - 1]),
                    );
                }
            } else if i == p {
                assert(after[j] == before[j - 1]);
                if j - 1 > p {
                    assert(name_le(before[p as int], before[j - 1]));
                    lemma_bytes_le_transitive(
                        encode_utf8(name@),
                        encode_utf8(before[p as int]),
                        encode_utf8(before[j - 1]),
                    );
                }
            } else {
                assert(after[i] == before[i - 1] && after[j] == before[j - 1]);
            }
        }
    }
}

impl Config {
    /// The name of the file that holds the session `name`.
    pub fn session_file(name: &str) -> (r: String)
        ensures
            r@ == session_file_of(name@),
    {
        let mut r = name.to_owned();
        r.append(SESSION_SUFFIX);
        r
    }

    /// The names of the stored sessions, ascending, given the names of the
    /// files in the directory of sessions. No files, no names.
    pub fn list_sessions(&self, entries: &Vec<String>) -> (r: Vec<String>)
        ensures
            ascending(r.deep_view()),
            r.deep_view().to_multiset() == stems(entries.deep_view()).to_multiset(),
            entries.len() == 0 ==> r.len() == 0,
    {
        let ghost all = entries.deep_view();
        let mut r: Vec<String> = Vec::new();
        let mut i: usize = 0;
        assert(all.take(0) =~= Seq::<Seq<char>>::empty());
        assert(r.deep_view() =~= Seq::<Seq<char>>::empty());
        while i < entries.len()
            invariant
                i <= entries.len(),
                all == entries.deep_view(),
                ascending(r.deep_view()),
                r.deep_view().to_multiset() == stems(all.take(i as int)).to_multiset(),
                r.len() <= i,
            decreases entries.len() - i,
        {
            let ghost next = all.take(i + 1);
            assert(next.drop_last() =~= all.take(i as int));
            assert(next.last() == entries@[i as int]@);
            match strip_suffix(entries[i].as_str(), SESSION_SUFFIX) {
                Some(name) => {
                    proof {
                        broadcast use vstd::seq_lib::group_to_multiset_ensures;

                    }
                    insert_ascending(&mut r, name);
                },
                None => {},
            }
            i = i + 1;
        }
        assert(all.take(i as int) =~= all);
        r
    }
}

} // verus!
