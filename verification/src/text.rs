//! Character-level text utilities: substring search, token search, and
//! placeholder replacement, with their mathematical definitions.

use vstd::prelude::*;
use vstd::string::StrSliceExecFns;
use vstd::string::StringExecFns;

verus! {

/// `pat` occurs in `s` starting at position `i`.
pub open spec fn matches_at(s: Seq<char>, pat: Seq<char>, i: int) -> bool {
    0 <= i && i + pat.len() <= s.len() && s.subrange(i, i + pat.len() as int) == pat
}

/// `pat` occurs somewhere in `s`.
pub open spec fn contains_seq(s: Seq<char>, pat: Seq<char>) -> bool {
    exists|i: int| matches_at(s, pat, i)
}

/// Does `pat` occur in `s` at position `i`?
pub fn occurs_at(s: &str, pat: &str, i: usize) -> (r: bool)
    requires
        i + pat@.len() <= s@.len(),
        s@.len() <= usize::MAX,
    ensures
        r == matches_at(s@, pat@, i as int),
{
    let pat_len = pat.unicode_len();
    let mut j: usize = 0;
    while j < pat_len
        invariant
            j <= pat_len,
            pat_len == pat@.len(),
            i + pat_len <= s@.len(),
            s@.len() <= usize::MAX,
            forall|k: int| 0 <= k < j ==> s@[i + k] == pat@[k],
        decreases pat_len - j,
    {
        if s.get_char(i + j) != pat.get_char(j) {
            proof {
                assert(s@.subrange(i as int, i + pat@.len() as int)[j as int] == s@[i + j]);
            }
            return false;
        }
        j += 1;
    }
    proof {
        assert(s@.subrange(i as int, i + pat@.len() as int) =~= pat@);
    }
    true
}

/// Position of the first occurrence of `pat` in `s`, if any.
pub fn find_first(s: &str, pat: &str) -> (r: Option<usize>)
    ensures
        match r {
            Some(i) => matches_at(s@, pat@, i as int) && forall|j: int|
                0 <= j < i ==> !matches_at(s@, pat@, j),
            None => !contains_seq(s@, pat@),
        },
{
    let s_len = s.unicode_len();
    let pat_len = pat.unicode_len();
    if pat_len > s_len {
        return None;
    }
    let mut i: usize = 0;
    loop
        invariant
            s_len == s@.len(),
            pat_len == pat@.len(),
            pat_len <= s_len,
            i <= s_len - pat_len,
            forall|j: int| 0 <= j < i ==> !matches_at(s@, pat@, j),
        decreases s_len - pat_len - i,
    {
        if occurs_at(s, pat, i) {
            return Some(i);
        }
        if i == s_len - pat_len {
            proof {
                assert forall|j: int| !matches_at(s@, pat@, j) by {
                    if 0 <= j && j + pat@.len() <= s@.len() {
                        assert(j <= i);
                    }
                }
            }
            return None;
        }
        i += 1;
    }
}

/// Does `pat` occur somewhere in `s`?
pub fn str_contains(s: &str, pat: &str) -> (r: bool)
    ensures
        r == contains_seq(s@, pat@),
{
    match find_first(s, pat) {
        Some(_) => true,
        None => false,
    }
}

/// Are the characters of `s` in `[from, to)` exactly the characters of `w`?
pub fn range_eq(s: &str, from: usize, to: usize, w: &str) -> (r: bool)
    requires
        from <= to <= s@.len(),
        s@.len() <= usize::MAX,
    ensures
        r == (s@.subrange(from as int, to as int) == w@),
{
    let w_len = w.unicode_len();
    if to - from != w_len {
        return false;
    }
    let mut j: usize = 0;
    while j < w_len
        invariant
            j <= w_len,
            w_len == w@.len(),
            from <= to <= s@.len(),
            s@.len() <= usize::MAX,
            to - from == w_len,
            forall|k: int| 0 <= k < j ==> s@[from + k] == w@[k],
        decreases w_len - j,
    {
        if s.get_char(from + j) != w.get_char(j) {
            proof {
                assert(s@.subrange(from as int, to as int)[j as int] == s@[from + j]);
            }
            return false;
        }
        j += 1;
    }
    proof {
        assert(s@.subrange(from as int, to as int) =~= w@);
    }
    true
}

/// The characters treated as token separators: blank, tab, and line breaks.
pub open spec fn is_space(c: char) -> bool {
    c == ' ' || c == '\t' || c == '\n' || c == '\r'
}

fn is_space_char(c: char) -> (r: bool)
    ensures
        r == is_space(c),
{
    c == ' ' || c == '\t' || c == '\n' || c == '\r'
}

/// `s[i..j]` is a whole token of `s`: a non-empty maximal run of non-separator
/// characters, bounded by separators or the ends of `s`.
pub open spec fn token_at(s: Seq<char>, i: int, j: int) -> bool {
    &&& 0 <= i < j <= s.len()
    &&& (i == 0 || is_space(s[i - 1]))
    &&& (j == s.len() || is_space(s[j]))
    &&& forall|k: int| i <= k < j ==> !is_space(s[k])
}

/// Some whole token of `s` is exactly `w`.
pub open spec fn has_token(s: Seq<char>, w: Seq<char>) -> bool {
    exists|i: int, j: int| token_at(s, i, j) && s.subrange(i, j) == w
}

/// Is `w` present in `s` as a whole token?
pub fn contains_token(s: &str, w: &str) -> (r: bool)
    ensures
        r == has_token(s@, w@),
{
    let s_len = s.unicode_len();
    let mut i: usize = 0;
    loop
        invariant
            s_len == s@.len(),
            i <= s_len,
            forall|a: int, b: int|
                token_at(s@, a, b) && a < i ==> s@.subrange(a, b) != w@,
            i == 0 || is_space(s@[i - 1]) || i == s_len || is_space(s@[i as int]),
        decreases s_len - i,
    {
        if i == s_len {
            proof {
                assert forall|a: int, b: int|
                    token_at(s@, a, b) implies s@.subrange(a, b) != w@ by {
                    assert(a < i);
                }
            }
            return false;
        }
        let c = s.get_char(i);
        if is_space_char(c) {
            i += 1;
        } else {
            // `i` is the left boundary of a token: scan to its right end.
            let mut j: usize = i;
            while j < s_len && !is_space_char(s.get_char(j))
                invariant
                    s_len == s@.len(),
                    i <= j <= s_len,
                    forall|k: int| i <= k < j ==> !is_space(s@[k]),
                decreases s_len - j,
            {
                j += 1;
            }
            assert(token_at(s@, i as int, j as int));
            if range_eq(s, i, j, w) {
                return true;
            }
            proof {
                assert forall|a: int, b: int|
                    token_at(s@, a, b) && a < j implies s@.subrange(a, b) != w@ by {
                    if a >= i {
                        // No token starts strictly inside the run, and the one
                        // starting at `i` ends exactly at `j`.
                        assert(a == i) by {
                            if a > i {
                                assert(!is_space(s@[a - 1]));
                            }
                        }
                        assert(b == j) by {
                            if b < j {
                                assert(!is_space(s@[b]));
                            }
                            if b > j {
                                assert(!is_space(s@[j as int]));
                            }
                        }
                    }
                }
            }
            i = j;
        }
    }
}

/// Leftmost, non-overlapping replacement of every occurrence of `pat` in `s`
/// by `rep`; `s` unchanged when `pat` is empty.
pub open spec fn replace_seq(s: Seq<char>, pat: Seq<char>, rep: Seq<char>) -> Seq<char>
    decreases s.len(),
{
    if pat.len() == 0 {
        s
    } else if s.len() == 0 {
        s
    } else if matches_at(s, pat, 0) {
        rep + replace_seq(s.skip(pat.len() as int), pat, rep)
    } else {
        seq![s[0]] + replace_seq(s.skip(1), pat, rep)
    }
}

/// Replace every occurrence of `pat` in `s` by `rep`, leftmost first,
/// non-overlapping.
pub fn replace_all(s: &str, pat: &str, rep: &str) -> (r: String)
    requires
        pat@.len() > 0,
    ensures
        r@ == replace_seq(s@, pat@, rep@),
{
    let s_len = s.unicode_len();
    let pat_len = pat.unicode_len();
    let mut out = String::new();
    let mut i: usize = 0;
    proof {
        assert(s@.skip(0) =~= s@);
        assert(Seq::<char>::empty() + replace_seq(s@, pat@, rep@) =~= replace_seq(
            s@,
            pat@,
            rep@,
        ));
    }
    while i < s_len
        invariant
            s_len == s@.len(),
            pat_len == pat@.len(),
            pat_len > 0,
            i <= s_len,
            replace_seq(s@, pat@, rep@) == out@ + replace_seq(
                s@.skip(i as int),
                pat@,
                rep@,
            ),
        decreases s_len - i,
    {
        let ghost rest = s@.skip(i as int);
        if pat_len <= s_len - i && occurs_at(s, pat, i) {
            proof {
                assert(rest.subrange(0, pat@.len() as int) =~= s@.subrange(
                    i as int,
                    i + pat@.len() as int,
                ));
                assert(matches_at(rest, pat@, 0));
                assert(rest.skip(pat@.len() as int) =~= s@.skip(i + pat@.len() as int));
                assert(out@ + (rep@ + replace_seq(s@.skip(i + pat@.len() as int), pat@, rep@))
                    =~= (out@ + rep@) + replace_seq(s@.skip(i + pat@.len() as int), pat@, rep@));
            }
            out.append(rep);
            i += pat_len;
        } else {
            proof {
                if i + pat@.len() <= s@.len() {
                    assert(rest.subrange(0, pat@.len() as int) =~= s@.subrange(
                        i as int,
                        i + pat@.len() as int,
                    ));
                }
                assert(!matches_at(rest, pat@, 0));
                assert(rest.skip(1) =~= s@.skip(i + 1));
                assert(s@.subrange(i as int, i + 1) =~= seq![rest[0]]);
                assert(out@ + (seq![rest[0]] + replace_seq(s@.skip(i + 1), pat@, rep@))
                    =~= (out@ + s@.subrange(i as int, i + 1)) + replace_seq(
                    s@.skip(i + 1),
                    pat@,
                    rep@,
                ));
            }
            let piece = s.substring_char(i, i + 1);
            out.append(piece);
            i += 1;
        }
    }
    proof {
        assert(s@.skip(s_len as int) =~= Seq::<char>::empty());
        assert(out@ + Seq::<char>::empty() =~= out@);
    }
    out
}

/// `s` with every leading `/` removed.
pub open spec fn strip_slashes(s: Seq<char>) -> Seq<char>
    decreases s.len(),
{
    if s.len() > 0 && s[0] == '/' {
        strip_slashes(s.skip(1))
    } else {
        s
    }
}

proof fn lemma_strip_slashes_skip(s: Seq<char>, k: int)
    requires
        0 <= k <= s.len(),
        forall|j: int| 0 <= j < k ==> s[j] == '/',
    ensures
        strip_slashes(s) == strip_slashes(s.skip(k)),
    decreases k,
{
    if k > 0 {
        assert(s.skip(0) =~= s);
        lemma_strip_slashes_skip(s.skip(1), k - 1);
        assert(s.skip(1).skip(k - 1) =~= s.skip(k));
    } else {
        assert(s.skip(0) =~= s);
    }
}

/// Remove every leading `/` from `s`.
pub fn strip_leading_slashes<'a>(s: &'a str) -> (r: &'a str)
    ensures
        r@ == strip_slashes(s@),
{
    let s_len = s.unicode_len();
    let mut k: usize = 0;
    while k < s_len && s.get_char(k) == '/'
        invariant
            s_len == s@.len(),
            k <= s_len,
            forall|j: int| 0 <= j < k ==> s@[j] == '/',
        decreases s_len - k,
    {
        k += 1;
    }
    proof {
        lemma_strip_slashes_skip(s@, k as int);
        if k < s_len {
            assert(strip_slashes(s@.skip(k as int)) == s@.skip(k as int));
        } else {
            assert(s@.skip(k as int) =~= Seq::<char>::empty());
        }
        assert(s@.subrange(k as int, s_len as int) =~= s@.skip(k as int));
    }
    s.substring_char(k, s_len)
}

/// The lowercase form of `s`, as the standard library computes it; the result
/// depends on the characters of `s` alone.
pub uninterp spec fn lower_of(s: Seq<char>) -> Seq<char>;

/// Relies on str::to_lowercase: the lowercase mapping is a pure function of
/// the input characters, and an empty input stays empty.
#[verifier::external_body]
pub(crate) fn lowercase(s: &str) -> (r: String)
    ensures
        r@ == lower_of(s@),
        s@.len() == 0 ==> r@.len() == 0,
{
    s.to_lowercase()
}

} // verus!
