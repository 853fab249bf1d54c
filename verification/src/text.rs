//! Small verified helpers over `&str` and `String`.
//!
//! Commands, paths, method names and prompt text are all carried as strings;
//! the helpers here give the rest of the crate exact character-level
//! contracts for equality, prefix tests, joining and ASCII lowercasing.

use vstd::prelude::*;

verus! {

/// Character-wise string equality.
pub fn str_eq(a: &str, b: &str) -> (r: bool)
    ensures
        r == (a@ == b@),
{
    let alen: usize = a.unicode_len();
    let blen: usize = b.unicode_len();
    if alen != blen {
        return false;
    }
    let mut i: usize = 0;
    while i < alen
        invariant
            alen == a@.len(),
            blen == b@.len(),
            alen == blen,
            i <= alen,
            forall|j: int| 0 <= j < i ==> a@[j] == b@[j],
        decreases alen - i,
    {
        if a.get_char(i) != b.get_char(i) {
            return false;
        }
        i = i + 1;
    }
    proof {
        assert(a@ =~= b@);
    }
    true
}

/// Whether the character `c` occurs in `s`.
pub fn contains_char(s: &str, c: char) -> (r: bool)
    ensures
        r == s@.contains(c),
{
    let len: usize = s.unicode_len();
    let mut i: usize = 0;
    while i < len
        invariant
            len == s@.len(),
            i <= len,
            forall|j: int| 0 <= j < i ==> s@[j] != c,
        decreases len - i,
    {
        if s.get_char(i) == c {
            assert(s@[i as int] == c);
            return true;
        }
        i = i + 1;
    }
    assert(!s@.contains(c)) by {
        if s@.contains(c) {
            let j = choose|j: int| 0 <= j < s@.len() && s@[j] == c;
            assert(s@[j] != c);
        }
    }
    false
}

/// Whether `s` begins with the character `c`.
pub fn starts_with_char(s: &str, c: char) -> (r: bool)
    ensures
        r == (s@.len() > 0 && s@[0] == c),
{
    let len: usize = s.unicode_len();
    if len == 0 {
        false
    } else {
        s.get_char(0) == c
    }
}

/// Whether `prefix` is a prefix of `s`.
pub open spec fn has_prefix(s: Seq<char>, prefix: Seq<char>) -> bool {
    s.len() >= prefix.len() && s.subrange(0, prefix.len() as int) == prefix
}

/// Tests whether `prefix` is a prefix of `s`.
pub fn starts_with(s: &str, prefix: &str) -> (r: bool)
    ensures
        r == has_prefix(s@, prefix@),
{
    let slen: usize = s.unicode_len();
    let plen: usize = prefix.unicode_len();
    if slen < plen {
        return false;
    }
    let head: &str = s.substring_char(0, plen);
    str_eq(head, prefix)
}

/// Whether some string in `v` views as `p`.
pub open spec fn seq_contains_str(v: Seq<String>, p: Seq<char>) -> bool {
    exists|i: int| 0 <= i < v.len() && #[trigger] v[i]@ == p
}

/// The character sequences of a sequence of strings.
pub open spec fn views_of(v: Seq<String>) -> Seq<Seq<char>> {
    v.map_values(|s: String| s@)
}

/// No element of `s` occurs twice.
pub open spec fn nodup_seq(s: Seq<Seq<char>>) -> bool {
    forall|i: int, j: int| 0 <= i < j < s.len() ==> s[i] != s[j]
}

/// Membership in a string vector agrees with membership among its views.
pub proof fn lemma_views_contains(v: Seq<String>, p: Seq<char>)
    ensures
        seq_contains_str(v, p) <==> views_of(v).contains(p),
{
    if seq_contains_str(v, p) {
        let i = choose|i: int| 0 <= i < v.len() && #[trigger] v[i]@ == p;
        assert(views_of(v)[i] == p);
    }
    if views_of(v).contains(p) {
        let i = choose|i: int| 0 <= i < views_of(v).len() && #[trigger] views_of(v)[i] == p;
        assert(v[i]@ == p);
    }
}

/// Whether the vector holds a string equal to `s`.
pub fn vec_contains_str(v: &Vec<String>, s: &str) -> (r: bool)
    ensures
        r == seq_contains_str(v@, s@),
{
    let n: usize = v.len();
    let mut i: usize = 0;
    while i < n
        invariant
            n == v@.len(),
            i <= n,
            forall|j: int| 0 <= j < i ==> #[trigger] v@[j]@ != s@,
        decreases n - i,
    {
        if str_eq(v[i].as_str(), s) {
            return true;
        }
        i = i + 1;
    }
    false
}

/// Relies on `String::push`: appends a single character to the string.
#[verifier::external_body]
pub fn push_char(s: &mut String, c: char)
    ensures
        final(s)@ == old(s)@ + seq![c],
{
    s.push(c);
}

/// The string `dir/name`: `dir` and `name` joined by one separator.
pub open spec fn join_seq(dir: Seq<char>, name: Seq<char>) -> Seq<char> {
    dir + seq!['/'] + name
}

/// Joins a directory and a file name with `/`.
pub fn path_join(dir: &str, name: &str) -> (r: String)
    ensures
        r@ == join_seq(dir@, name@),
{
    let mut out: String = dir.to_owned();
    push_char(&mut out, '/');
    out.append(name);
    out
}

/// The ASCII-lowercased counterpart of a character.
pub open spec fn lower_char(c: char) -> char {
    if 'A' <= c && c <= 'Z' {
        (((c as u32) + 32) as u8) as char
    } else {
        c
    }
}

/// `s` with every ASCII uppercase character lowered.
pub open spec fn lower_seq(s: Seq<char>) -> Seq<char> {
    Seq::new(s.len(), |i: int| lower_char(s[i]))
}

/// ASCII-lowercases a string; characters outside `A`..`Z` are unchanged.
pub fn ascii_lower(s: &str) -> (r: String)
    ensures
        r@ == lower_seq(s@),
{
    let len: usize = s.unicode_len();
    let mut out: String = String::new();
    let mut i: usize = 0;
    while i < len
        invariant
            len == s@.len(),
            i <= len,
            out@ == lower_seq(s@).subrange(0, i as int),
        decreases len - i,
    {
        let c = s.get_char(i);
        let cu = c as u32;
        let lc: char = if 65 <= cu && cu <= 90 {
            ((cu + 32) as u8) as char
        } else {
            c
        };
        assert(lc == lower_char(s@[i as int]));
        push_char(&mut out, lc);
        proof {
            assert(out@ =~= lower_seq(s@).subrange(0, i + 1 as int));
        }
        i = i + 1;
    }
    proof {
        assert(out@ =~= lower_seq(s@));
    }
    out
}

/// Copies a vector of strings; the copy views equal.
pub fn clone_string_vec(v: &Vec<String>) -> (r: Vec<String>)
    ensures
        r@ == v@,
{
    let n: usize = v.len();
    let mut out: Vec<String> = Vec::new();
    let mut i: usize = 0;
    while i < n
        invariant
            n == v@.len(),
            i <= n,
            out@.len() == i,
            forall|j: int| 0 <= j < i ==> #[trigger] out@[j] == v@[j],
        decreases n - i,
    {
        out.push(v[i].clone());
        i = i + 1;
    }
    proof {
        assert(out@ =~= v@);
    }
    out
}

/// Copies a vector of string pairs; the copy views equal.
pub fn clone_pair_vec(v: &Vec<(String, String)>) -> (r: Vec<(String, String)>)
    ensures
        r@ == v@,
{
    let n: usize = v.len();
    let mut out: Vec<(String, String)> = Vec::new();
    let mut i: usize = 0;
    while i < n
        invariant
            n == v@.len(),
            i <= n,
            out@.len() == i,
            forall|j: int| 0 <= j < i ==> #[trigger] out@[j] == v@[j],
        decreases n - i,
    {
        let pair: (String, String) = (v[i].0.clone(), v[i].1.clone());
        out.push(pair);
        i = i + 1;
    }
    proof {
        assert(out@ =~= v@);
    }
    out
}

} // verus!
