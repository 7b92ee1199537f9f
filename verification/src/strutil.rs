//! Verified helpers over `&str` and `String`: equality, prefix/suffix and
//! substring tests, path joining, and the small rewriting operations the
//! provisioning logic needs (last path segment, suffix trimming, pattern
//! replacement, case-insensitive comparison).

use vstd::prelude::*;
use vstd::string::*;

verus! {

/// The needle `n` occurs in `s` starting at index `i`.
pub open spec fn seq_contains_at(s: Seq<char>, n: Seq<char>, i: int) -> bool {
    0 <= i && i + n.len() <= s.len() && s.subrange(i, i + n.len() as int) == n
}

/// The needle `n` occurs somewhere in `s`.
pub open spec fn seq_contains(s: Seq<char>, n: Seq<char>) -> bool {
    exists|i: int| seq_contains_at(s, n, i)
}

/// ASCII lower-casing of one character; other characters are unchanged.
pub open spec fn lower_char(c: char) -> char {
    if 65 <= c as u32 && c as u32 <= 90 {
        (((c as u32) + 32) as u8) as char
    } else {
        c
    }
}

/// ASCII lower-casing of a character sequence.
pub open spec fn lower_seq(s: Seq<char>) -> Seq<char> {
    s.map_values(|c: char| lower_char(c))
}

/// The part of `s` after the last occurrence of `sep`; all of `s` when
/// `sep` does not occur.
pub open spec fn after_last_spec(s: Seq<char>, sep: char) -> Seq<char>
    decreases s.len(),
{
    if s.len() == 0 {
        s
    } else if s.last() == sep {
        Seq::empty()
    } else {
        after_last_spec(s.drop_last(), sep).push(s.last())
    }
}

/// `s` with every trailing occurrence of the non-empty `sfx` removed.
pub open spec fn trim_end_spec(s: Seq<char>, sfx: Seq<char>) -> Seq<char>
    decreases s.len(),
{
    if sfx.len() > 0 && sfx.is_suffix_of(s) {
        trim_end_spec(s.subrange(0, s.len() - sfx.len()), sfx)
    } else {
        s
    }
}

/// `s` with every non-overlapping occurrence of the non-empty `pat`
/// replaced by `rep`, scanning left to right.
pub open spec fn replace_all_spec(s: Seq<char>, pat: Seq<char>, rep: Seq<char>) -> Seq<char>
    decreases s.len(),
{
    if pat.len() == 0 || s.len() < pat.len() {
        s
    } else if s.subrange(0, pat.len() as int) == pat {
        rep + replace_all_spec(s.skip(pat.len() as int), pat, rep)
    } else {
        seq![s[0]] + replace_all_spec(s.skip(1), pat, rep)
    }
}

/// Character-wise string equality.
pub fn str_eq(a: &str, b: &str) -> (r: bool)
    ensures
        r == (a@ == b@),
{
    let al = a.unicode_len();
    let bl = b.unicode_len();
    if al != bl {
        return false;
    }
    let mut i: usize = 0;
    while i < al
        invariant
            i <= al,
            forall|j: int| 0 <= j < i ==> a@[j] == b@[j],
        decreases al - i,
    {
        if a.get_char(i) != b.get_char(i) {
            return false;
        }
        i += 1;
    }
    proof {
        assert(a@ =~= b@);
    }
    true
}

/// Character-wise equality of a `String` against a literal or slice.
pub fn string_eq_str(a: &String, b: &str) -> (r: bool)
    ensures
        r == (a@ == b@),
{
    str_eq(a.as_str(), b)
}

/// Whether `p` is a prefix of `s`.
pub fn starts_with(s: &str, p: &str) -> (r: bool)
    ensures
        r == p@.is_prefix_of(s@),
{
    let sl = s.unicode_len();
    let pl = p.unicode_len();
    if pl > sl {
        return false;
    }
    let mut i: usize = 0;
    while i < pl
        invariant
            i <= pl <= sl,
            forall|j: int| 0 <= j < i ==> s@[j] == p@[j],
        decreases pl - i,
    {
        if s.get_char(i) != p.get_char(i) {
            assert(s@.subrange(0, pl as int)[i as int] != p@[i as int]);
            return false;
        }
        i += 1;
    }
    proof {
        assert(p@ =~= s@.subrange(0, pl as int));
    }
    true
}

/// Whether `p` is a suffix of `s`.
pub fn ends_with(s: &str, p: &str) -> (r: bool)
    ensures
        r == p@.is_suffix_of(s@),
{
    let sl = s.unicode_len();
    let pl = p.unicode_len();
    if pl > sl {
        return false;
    }
    let off = sl - pl;
    let mut i: usize = 0;
    while i < pl
        invariant
            i <= pl <= sl,
            off == sl - pl,
            forall|j: int| 0 <= j < i ==> s@[off + j] == p@[j],
        decreases pl - i,
    {
        if s.get_char(off + i) != p.get_char(i) {
            assert(s@.subrange(off as int, sl as int)[i as int] != p@[i as int]);
            return false;
        }
        i += 1;
    }
    proof {
        assert(p@ =~= s@.subrange(sl - pl, sl as int));
    }
    true
}

/// Whether the needle `n` matches `s` at position `i`.
fn match_at(s: &str, n: &str, i: usize) -> (r: bool)
    requires
        i + n@.len() <= s@.len(),
    ensures
        r == seq_contains_at(s@, n@, i as int),
{
    let sl = s.unicode_len();
    let nl = n.unicode_len();
    let mut j: usize = 0;
    while j < nl
        invariant
            j <= nl,
            i + nl <= s@.len(),
            forall|k: int| 0 <= k < j ==> s@[i + k] == n@[k],
        decreases nl - j,
    {
        if s.get_char(i + j) != n.get_char(j) {
            assert(s@.subrange(i as int, i as int + nl as int)[j as int] != n@[j as int]);
            return false;
        }
        j += 1;
    }
    proof {
        assert(s@.subrange(i as int, i as int + nl as int) =~= n@);
    }
    true
}

/// Whether the needle `n` occurs anywhere in `s`.
pub fn contains_sub(s: &str, n: &str) -> (r: bool)
    ensures
        r == seq_contains(s@, n@),
{
    let sl = s.unicode_len();
    let nl = n.unicode_len();
    if nl > sl {
        proof {
            assert(forall|i: int| !seq_contains_at(s@, n@, i));
        }
        return false;
    }
    if nl == 0 {
        proof {
            assert(s@.subrange(0, 0) =~= n@);
            assert(seq_contains_at(s@, n@, 0));
        }
        return true;
    }
    let mut i: usize = 0;
    while i <= sl - nl
        invariant
            0 < nl <= sl,
            i <= sl - nl + 1,
            forall|k: int| 0 <= k < i ==> !seq_contains_at(s@, n@, k),
        decreases sl - i,
    {
        if match_at(s, n, i) {
            return true;
        }
        i += 1;
    }
    false
}

/// The concatenation of two strings.
pub fn concat2(a: &str, b: &str) -> (r: String)
    ensures
        r@ == a@ + b@,
{
    let mut out = String::from_str(a);
    out.append(b);
    out
}

/// A slash-joined path: `a`, a separator, then `b`.
pub fn join_path(a: &str, b: &str) -> (r: String)
    ensures
        r@ == a@ + "/"@ + b@,
{
    let mut out = String::from_str(a);
    out.append("/");
    out.append(b);
    out
}

/// When every character from `k` on differs from `sep` and a separator
/// (or the string's start) stands just before `k`, the part after the
/// last separator is exactly the tail from `k`.
pub proof fn lemma_after_last_at(s: Seq<char>, sep: char, k: int)
    requires
        0 <= k <= s.len(),
        forall|j: int| k <= j < s.len() ==> s[j] != sep,
        k == 0 || s[k - 1] == sep,
    ensures
        after_last_spec(s, sep) == s.subrange(k, s.len() as int),
    decreases s.len(),
{
    if s.len() == 0 {
        assert(after_last_spec(s, sep) =~= s.subrange(k, s.len() as int));
    } else if k == s.len() {
        assert(s.last() == sep);
        assert(after_last_spec(s, sep) =~= s.subrange(k, s.len() as int));
    } else {
        assert(s.last() != sep);
        lemma_after_last_at(s.drop_last(), sep, k);
        assert(after_last_spec(s.drop_last(), sep).push(s.last()) =~= s.subrange(
            k,
            s.len() as int,
        ));
    }
}

/// The part of `s` after the last occurrence of `sep`, as a fresh string.
pub fn after_last(s: &str, sep: char) -> (r: String)
    ensures
        r@ == after_last_spec(s@, sep),
{
    let sl = s.unicode_len();
    let mut k: usize = sl;
    while k > 0
        invariant
            k <= sl,
            forall|j: int| k <= j < sl ==> s@[j] != sep,
        decreases k,
    {
        if s.get_char(k - 1) == sep {
            proof {
                lemma_after_last_at(s@, sep, k as int);
            }
            let tail = s.substring_char(k, sl);
            return String::from_str(tail);
        }
        k -= 1;
    }
    proof {
        lemma_after_last_at(s@, sep, 0);
        assert(s@.subrange(0, sl as int) =~= s@);
    }
    String::from_str(s)
}

/// `s` with every trailing occurrence of `sfx` removed.
pub fn trim_end_matches(s: &str, sfx: &str) -> (r: String)
    ensures
        r@ == trim_end_spec(s@, sfx@),
{
    let sfxl = sfx.unicode_len();
    if sfxl == 0 {
        return String::from_str(s);
    }
    let mut cur = String::from_str(s);
    while ends_with(cur.as_str(), sfx) && cur.as_str().unicode_len() >= 1
        invariant
            sfx@.len() == sfxl > 0,
            trim_end_spec(cur@, sfx@) == trim_end_spec(s@, sfx@),
        decreases cur@.len(),
    {
        let cl = cur.as_str().unicode_len();
        let shortened = cur.as_str().substring_char(0, cl - sfxl);
        cur = String::from_str(shortened);
    }
    cur
}

/// `s` with every occurrence of the non-empty `pat` replaced by `rep`.
pub fn replace_all(s: &str, pat: &str, rep: &str) -> (r: String)
    requires
        pat@.len() > 0,
    ensures
        r@ == replace_all_spec(s@, pat@, rep@),
{
    let sl = s.unicode_len();
    let pl = pat.unicode_len();
    let mut out = String::new();
    let mut i: usize = 0;
    proof {
        assert(s@.skip(0) =~= s@);
        assert(Seq::<char>::empty() + replace_all_spec(s@, pat@, rep@) =~= replace_all_spec(
            s@,
            pat@,
            rep@,
        ));
    }
    while i < sl
        invariant
            i <= sl,
            pat@.len() == pl > 0,
            out@ + replace_all_spec(s@.skip(i as int), pat@, rep@) == replace_all_spec(
                s@,
                pat@,
                rep@,
            ),
        decreases sl - i,
    {
        if pl <= sl - i && match_at(s, pat, i) {
            proof {
                assert(s@.skip(i as int).subrange(0, pl as int) =~= s@.subrange(
                    i as int,
                    i as int + pl as int,
                ));
                assert(s@.skip(i as int).skip(pl as int) =~= s@.skip(i as int + pl as int));
            }
            out.append(rep);
            i += pl;
        } else {
            proof {
                if i + pl <= sl {
                    assert(s@.skip(i as int).subrange(0, pl as int) =~= s@.subrange(
                        i as int,
                        i as int + pl as int,
                    ));
                }
                assert(s@.skip(i as int).skip(1) =~= s@.skip(i as int + 1));
                assert(seq![s@.skip(i as int)[0]] =~= s@.subrange(i as int, i as int + 1));
            }
            let c = s.substring_char(i, i + 1);
            out.append(c);
            i += 1;
        }
    }
    proof {
        assert(s@.skip(sl as int) =~= Seq::<char>::empty());
        assert(out@ + Seq::<char>::empty() =~= out@);
    }
    out
}

/// Lower-case one ASCII character; other characters are returned unchanged.
pub fn lower_char_exec(c: char) -> (r: char)
    ensures
        r == lower_char(c),
{
    let u = c as u32;
    if 65 <= u && u <= 90 {
        ((u + 32) as u8) as char
    } else {
        c
    }
}

/// Equality of two strings after ASCII lower-casing both.
pub fn eq_ignore_ascii_case(a: &str, b: &str) -> (r: bool)
    ensures
        r == (lower_seq(a@) == lower_seq(b@)),
{
    let al = a.unicode_len();
    let bl = b.unicode_len();
    if al != bl {
        proof {
            assert(lower_seq(a@).len() == a@.len());
            assert(lower_seq(b@).len() == b@.len());
        }
        return false;
    }
    let mut i: usize = 0;
    while i < al
        invariant
            i <= al,
            a@.len() == b@.len(),
            forall|j: int| 0 <= j < i ==> lower_char(a@[j]) == lower_char(b@[j]),
        decreases al - i,
    {
        if lower_char_exec(a.get_char(i)) != lower_char_exec(b.get_char(i)) {
            assert(lower_seq(a@)[i as int] != lower_seq(b@)[i as int]);
            return false;
        }
        i += 1;
    }
    proof {
        assert(lower_seq(a@) =~= lower_seq(b@));
    }
    true
}

} // verus!
