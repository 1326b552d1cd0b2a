//! Verified string and path helpers.
//!
//! Paths are modelled as plain strings; the helpers here give the path
//! operations the rest of the crate needs (joining, file names, extensions)
//! and literal substring replacement for placeholder resolution.

use vstd::prelude::*;

verus! {

/// Path join: an absolute right-hand side replaces the base; otherwise the
/// two are glued with a single separator.
pub open spec fn spec_path_join(base: Seq<char>, rel: Seq<char>) -> Seq<char> {
    if rel.len() > 0 && rel[0] == '/' {
        rel
    } else if base.len() == 0 {
        rel
    } else if base[base.len() - 1] == '/' {
        base + rel
    } else {
        base + seq!['/'] + rel
    }
}

/// Executable path join, proved against `spec_path_join`.
pub fn path_join(base: &str, rel: &str) -> (r: String)
    ensures
        r@ == spec_path_join(base@, rel@),
{
    let rel_len = rel.unicode_len();
    let base_len = base.unicode_len();
    if rel_len > 0 && rel.get_char(0) == '/' {
        rel.to_owned()
    } else if base_len == 0 {
        rel.to_owned()
    } else if base.get_char(base_len - 1) == '/' {
        let mut out = base.to_owned();
        out.append(rel);
        out
    } else {
        let mut out = base.to_owned();
        out.append("/");
        out.append(rel);
        proof {
            reveal_strlit("/");
            assert(out@ =~= base@ + seq!['/'] + rel@);
        }
        out
    }
}

/// Whether `pre` is a prefix of `s`.
pub open spec fn spec_starts_with(s: Seq<char>, pre: Seq<char>) -> bool {
    pre.len() <= s.len() && s.subrange(0, pre.len() as int) == pre
}

/// Whether `pat` occurs in `s` starting at index `i`.
fn matches_at(s: &str, i: usize, pat: &str) -> (r: bool)
    requires
        i + pat@.len() <= s@.len(),
    ensures
        r == (s@.subrange(i as int, i as int + pat@.len() as int) == pat@),
{
    let m = pat.unicode_len();
    let n = s.unicode_len();
    let ghost sub = s@.subrange(i as int, i as int + pat@.len() as int);
    let mut j: usize = 0;
    while j < m
        invariant
            j <= m,
            m == pat@.len(),
            n == s@.len(),
            i + m <= n,
            sub == s@.subrange(i as int, i as int + m as int),
            forall|k: int| 0 <= k < j ==> sub[k] == pat@[k],
        decreases m - j,
    {
        if s.get_char(i + j) != pat.get_char(j) {
            proof {
                assert(sub[j as int] != pat@[j as int]);
            }
            return false;
        }
        j += 1;
    }
    proof {
        assert(sub =~= pat@);
    }
    true
}

/// String equality by characters.
pub fn str_eq(a: &str, b: &str) -> (r: bool)
    ensures
        r == (a@ == b@),
{
    if a.unicode_len() != b.unicode_len() {
        proof {
            assert(a@ != b@);
        }
        return false;
    }
    let r = matches_at(a, 0, b);
    proof {
        assert(a@.subrange(0, b@.len() as int) =~= a@);
    }
    r
}

/// Whether `s` starts with `pre`, proved against `spec_starts_with`.
pub fn str_starts_with(s: &str, pre: &str) -> (r: bool)
    ensures
        r == spec_starts_with(s@, pre@),
{
    if pre.unicode_len() > s.unicode_len() {
        return false;
    }
    matches_at(s, 0, pre)
}

/// Whether the path names a directory, that is, ends with a separator.
pub open spec fn spec_ends_with_slash(s: Seq<char>) -> bool {
    s.len() > 0 && s[s.len() - 1] == '/'
}

pub fn ends_with_slash(s: &str) -> (r: bool)
    ensures
        r == spec_ends_with_slash(s@),
{
    let n = s.unicode_len();
    n > 0 && s.get_char(n - 1) == '/'
}

/// The index of the last occurrence of `c` in `s`, if any.
pub open spec fn spec_last_index_of(s: Seq<char>, c: char) -> Option<int>
    decreases s.len(),
{
    if s.len() == 0 {
        None
    } else if s[s.len() - 1] == c {
        Some(s.len() - 1)
    } else {
        spec_last_index_of(s.drop_last(), c)
    }
}

proof fn lemma_last_index_some(s: Seq<char>, c: char, j: int)
    requires
        0 <= j < s.len(),
        s[j] == c,
        forall|t: int| j < t < s.len() ==> s[t] != c,
    ensures
        spec_last_index_of(s, c) == Some(j),
    decreases s.len(),
{
    if j == s.len() - 1 {
    } else {
        assert(s.drop_last()[j] == c);
        lemma_last_index_some(s.drop_last(), c, j);
    }
}

proof fn lemma_last_index_none(s: Seq<char>, c: char)
    requires
        forall|t: int| 0 <= t < s.len() ==> s[t] != c,
    ensures
        spec_last_index_of(s, c) == None::<int>,
    decreases s.len(),
{
    if s.len() > 0 {
        lemma_last_index_none(s.drop_last(), c);
    }
}

/// The index of the last occurrence of `c`, searched from the end.
pub fn last_index_of(s: &str, c: char) -> (r: Option<usize>)
    ensures
        match r {
            Some(j) => j < s@.len() && spec_last_index_of(s@, c) == Some(j as int),
            None => spec_last_index_of(s@, c) == None::<int>,
        },
{
    let n = s.unicode_len();
    let mut k: usize = n;
    while k > 0
        invariant
            k <= n,
            n == s@.len(),
            forall|t: int| k <= t < n ==> s@[t] != c,
        decreases k,
    {
        k -= 1;
        if s.get_char(k) == c {
            proof {
                lemma_last_index_some(s@, c, k as int);
            }
            return Some(k);
        }
    }
    proof {
        lemma_last_index_none(s@, c);
    }
    None
}

/// The file name of a path: everything after the last separator. Empty when
/// the path ends with a separator or is itself empty.
pub open spec fn spec_file_name(p: Seq<char>) -> Seq<char> {
    match spec_last_index_of(p, '/') {
        None => p,
        Some(j) => p.skip(j + 1),
    }
}

pub fn file_name(p: &str) -> (r: String)
    ensures
        r@ == spec_file_name(p@),
{
    let n = p.unicode_len();
    match last_index_of(p, '/') {
        None => {
            proof {
                assert(p@.subrange(0, n as int) =~= p@);
            }
            p.substring_char(0, n).to_owned()
        },
        Some(j) => {
            let r = p.substring_char(j + 1, n).to_owned();
            proof {
                assert(p@.subrange(j + 1, n as int) =~= p@.skip(j + 1));
            }
            r
        },
    }
}

/// The extension of a file name: everything after the last dot, unless the
/// only dot is the leading character of a hidden file, or there is none.
pub open spec fn spec_extension(name: Seq<char>) -> Option<Seq<char>> {
    match spec_last_index_of(name, '.') {
        None => None,
        Some(j) => if j == 0 {
            None
        } else {
            Some(name.skip(j + 1))
        },
    }
}

pub fn extension(name: &str) -> (r: Option<String>)
    ensures
        match r {
            Some(e) => spec_extension(name@) == Some(e@),
            None => spec_extension(name@) == None::<Seq<char>>,
        },
{
    let n = name.unicode_len();
    match last_index_of(name, '.') {
        None => None,
        Some(j) => {
            if j == 0 {
                None
            } else {
                let e = name.substring_char(j + 1, n).to_owned();
                proof {
                    assert(name@.subrange(j + 1, n as int) =~= name@.skip(j + 1));
                }
                Some(e)
            }
        },
    }
}

/// Literal, non-overlapping, left-to-right substring replacement: every
/// occurrence of `pat` in `s` is replaced by `repl`.
pub open spec fn spec_replace(s: Seq<char>, pat: Seq<char>, repl: Seq<char>) -> Seq<char>
    recommends
        pat.len() > 0,
    decreases s.len(),
{
    if pat.len() == 0 || s.len() < pat.len() {
        s
    } else if s.subrange(0, pat.len() as int) == pat {
        repl + spec_replace(s.skip(pat.len() as int), pat, repl)
    } else {
        seq![s[0]] + spec_replace(s.skip(1), pat, repl)
    }
}

/// Executable substring replacement, proved against `spec_replace`.
pub fn replace(s: &str, pat: &str, repl: &str) -> (r: String)
    requires
        pat@.len() > 0,
    ensures
        r@ == spec_replace(s@, pat@, repl@),
{
    let n = s.unicode_len();
    let m = pat.unicode_len();
    let mut out = String::new();
    let mut i: usize = 0;
    proof {
        assert(s@.skip(0) =~= s@);
        assert(Seq::<char>::empty() + spec_replace(s@, pat@, repl@) =~= spec_replace(
            s@,
            pat@,
            repl@,
        ));
    }
    while i < n
        invariant
            i <= n,
            n == s@.len(),
            m == pat@.len(),
            m > 0,
            spec_replace(s@, pat@, repl@) == out@ + spec_replace(
                s@.skip(i as int),
                pat@,
                repl@,
            ),
        decreases n - i,
    {
        let ghost tail = s@.skip(i as int);
        if m <= n - i && matches_at(s, i, pat) {
            out.append(repl);
            proof {
                assert(tail.subrange(0, m as int) =~= s@.subrange(i as int, i as int + m as int));
                assert(tail.skip(m as int) =~= s@.skip(i as int + m as int));
            }
            i += m;
        } else {
            let c = s.substring_char(i, i + 1);
            out.append(c);
            proof {
                assert(c@ =~= seq![tail[0]]);
                assert(tail.skip(1) =~= s@.skip(i as int + 1));
                if i as int + m as int <= n as int {
                    assert(tail.subrange(0, m as int) =~= s@.subrange(
                        i as int,
                        i as int + m as int,
                    ));
                } else {
                    assert(tail =~= seq![tail[0]] + tail.skip(1));
                }
            }
            i += 1;
        }
    }
    proof {
        assert(s@.skip(n as int) =~= Seq::<char>::empty());
        assert(out@ + Seq::<char>::empty() =~= out@);
    }
    out
}

/// A sequence of characters with no placeholder-token marker left in it.
pub open spec fn at_free(s: Seq<char>) -> bool {
    forall|i: int| 0 <= i < s.len() ==> s[i] != '@'
}

/// The result of the Unicode lowercase mapping of one character; it depends
/// on the character alone.
pub uninterp spec fn lower_of(c: char) -> Seq<char>;

/// Relies on char::to_lowercase: yields the lowercase mapping of the
/// character as one or more characters, a function of the character alone.
#[verifier::external_body]
pub fn char_lower(c: char) -> (r: String)
    ensures
        r@ == lower_of(c),
        r@.len() >= 1,
{
    let mut out = String::new();
    for low in c.to_lowercase() {
        out.push(low);
    }
    out
}

} // verus!
