//! The membership list of a playlist: member track keys joined by commas.
use vstd::prelude::*;

verus! {

/// The tokens of `s` from position `i` on, where the current token began at `start`.
pub open spec fn tokens_from(s: Seq<char>, start: int, i: int) -> Seq<Seq<char>>
    decreases s.len() - i,
{
    if i >= s.len() {
        seq![s.subrange(start, s.len() as int)]
    } else if s[i] == ',' {
        seq![s.subrange(start, i)] + tokens_from(s, i + 1, i + 1)
    } else {
        tokens_from(s, start, i + 1)
    }
}

/// The comma-separated tokens of `s`, in order; `s` without a comma is one token.
pub open spec fn tokens(s: Seq<char>) -> Seq<Seq<char>> {
    tokens_from(s, 0, 0)
}

/// The member keys that a stored membership list encodes: none when it is
/// absent or empty, else its comma-separated tokens.
pub open spec fn member_keys(list: Option<Seq<char>>) -> Seq<Seq<char>> {
    match list {
        None => Seq::empty(),
        Some(s) => if s.len() == 0 { Seq::empty() } else { tokens(s) },
    }
}

/// `key` is one of the exact members of the membership list.
pub open spec fn is_member_spec(list: Option<Seq<char>>, key: Seq<char>) -> bool {
    member_keys(list).contains(key)
}

/// Splits a membership list on commas into its member keys, in order.
pub fn split_keys(list: &str) -> (r: Vec<String>)
    ensures
        r.deep_view() == tokens(list@),
{
    let n = list.unicode_len();
    let mut out: Vec<String> = Vec::new();
    let mut start: usize = 0;
    let mut i: usize = 0;
    while i < n
        invariant
            n == list@.len(),
            start <= i <= n,
            out.deep_view() + tokens_from(list@, start as int, i as int) == tokens(list@),
        decreases n - i,
    {
        let c = list.get_char(i);
        if c == ',' {
            let piece = list.substring_char(start, i).to_owned();
            proof {
                let s = list@;
                assert(tokens_from(s, start as int, i as int) == seq![s.subrange(start as int, i as int)]
                    + tokens_from(s, i + 1, i + 1));
                assert(out.deep_view().push(piece@) + tokens_from(s, i + 1, i + 1)
                    =~= out.deep_view() + tokens_from(s, start as int, i as int));
            }
            out.push(piece);
            start = i + 1;
        }
        i = i + 1;
    }
    let last = list.substring_char(start, n).to_owned();
    out.push(last);
    assert(out.deep_view() =~= tokens(list@));
    out
}

/// The member keys that a stored membership list encodes.
pub fn member_keys_of(list: &Option<String>) -> (r: Vec<String>)
    ensures
        r.deep_view() == member_keys(list.deep_view()),
{
    match list {
        None => {
            let r: Vec<String> = Vec::new();
            assert(r.deep_view() =~= Seq::<Seq<char>>::empty());
            r
        },
        Some(s) => {
            if s.as_str().unicode_len() == 0 {
                let r: Vec<String> = Vec::new();
                assert(r.deep_view() =~= Seq::<Seq<char>>::empty());
                r
            } else {
                split_keys(s.as_str())
            }
        },
    }
}

/// `key` is one of `keys`, compared as whole text.
pub fn contains_key(keys: &Vec<String>, key: &str) -> (r: bool)
    ensures
        r == keys.deep_view().contains(key@),
{
    let mut i: usize = 0;
    while i < keys.len()
        invariant
            i <= keys.len(),
            forall|k: int| 0 <= k < i ==> keys.deep_view()[k] != key@,
        decreases keys.len() - i,
    {
        let same = same_text(keys[i].as_str(), key);
        if same {
            assert(keys.deep_view()[i as int] == key@);
            return true;
        }
        i = i + 1;
    }
    false
}

/// The two texts are equal.
pub fn same_text(a: &str, b: &str) -> (r: bool)
    ensures
        r == (a@ == b@),
{
    let n = a.unicode_len();
    if n != b.unicode_len() {
        return false;
    }
    let mut i: usize = 0;
    while i < n
        invariant
            n == a@.len() == b@.len(),
            i <= n,
            forall|k: int| 0 <= k < i ==> a@[k] == b@[k],
        decreases n - i,
    {
        if a.get_char(i) != b.get_char(i) {
            return false;
        }
        i = i + 1;
    }
    assert(a@ =~= b@);
    true
}

/// `key` is an exact member of the stored membership list; a key that is only
/// part of a member, or spans a comma, is not.
pub fn is_member(list: &Option<String>, key: &str) -> (r: bool)
    ensures
        r == is_member_spec(list.deep_view(), key@),
{
    let keys = member_keys_of(list);
    contains_key(&keys, key)
}

} // verus!
