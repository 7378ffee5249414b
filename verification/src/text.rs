//! Verified text primitives used throughout the library: conversion between
//! `&str` and `Vec<char>`, substring search, prefix/suffix tests, and
//! replacement of every occurrence of a pattern.

use vstd::prelude::*;

verus! {

use vstd::string::StrSliceExecFns;

/// Relies on std's `String::push`: appends one character to the string.
#[verifier::external_body]
pub fn push_char(s: &mut String, c: char)
    ensures
        final(s)@ == old(s)@.push(c),
{
    s.push(c);
}

/// The characters of a string, as a vector.
pub fn chars_of(s: &str) -> (v: Vec<char>)
    ensures
        v@ == s@,
{
    let n = s.unicode_len();
    let mut v: Vec<char> = Vec::new();
    let mut i: usize = 0;
    while i < n
        invariant
            i <= n,
            n == s@.len(),
            v@ == s@.subrange(0, i as int),
        decreases n - i,
    {
        v.push(s.get_char(i));
        i = i + 1;
        assert(v@ =~= s@.subrange(0, i as int));
    }
    assert(v@ =~= s@);
    v
}

/// The string holding exactly the given characters.
pub fn string_of(v: &Vec<char>) -> (s: String)
    ensures
        s@ == v@,
{
    let mut s = String::new();
    let mut i: usize = 0;
    while i < v.len()
        invariant
            i <= v.len(),
            s@ == v@.subrange(0, i as int),
        decreases v.len() - i,
    {
        push_char(&mut s, v[i]);
        i = i + 1;
        assert(s@ =~= v@.subrange(0, i as int));
    }
    assert(s@ =~= v@);
    s
}

/// Two strings are equal exactly when their character sequences are.
pub fn str_eq(a: &str, b: &str) -> (r: bool)
    ensures
        r == (a@ == b@),
{
    let n = a.unicode_len();
    if n != b.unicode_len() {
        return false;
    }
    let mut i: usize = 0;
    while i < n
        invariant
            i <= n,
            n == a@.len(),
            n == b@.len(),
            forall|j: int| 0 <= j < i ==> a@[j] == b@[j],
        decreases n - i,
    {
        if a.get_char(i) != b.get_char(i) {
            return false;
        }
        i = i + 1;
    }
    assert(a@ =~= b@);
    true
}

/// `p` is a prefix of `s`.
pub open spec fn seq_starts_with(s: Seq<char>, p: Seq<char>) -> bool {
    p.len() <= s.len() && s.subrange(0, p.len() as int) == p
}

/// `p` is a suffix of `s`.
pub open spec fn seq_ends_with(s: Seq<char>, p: Seq<char>) -> bool {
    p.len() <= s.len() && s.subrange(s.len() - p.len(), s.len() as int) == p
}

/// `needle` occurs in `hay` starting at position `i`.
pub open spec fn seq_matches_at(hay: Seq<char>, needle: Seq<char>, i: int) -> bool {
    0 <= i && i + needle.len() <= hay.len() && hay.subrange(i, i + needle.len()) == needle
}

/// `needle` occurs somewhere in `hay` (every sequence contains the empty one).
pub open spec fn seq_contains(hay: Seq<char>, needle: Seq<char>) -> bool {
    exists|i: int| seq_matches_at(hay, needle, i)
}

/// Whether `needle` occurs in `hay` at position `i`.
pub fn matches_at(hay: &Vec<char>, needle: &Vec<char>, i: usize) -> (r: bool)
    requires
        i + needle.len() <= hay.len(),
    ensures
        r == seq_matches_at(hay@, needle@, i as int),
{
    let m = needle.len();
    let mut k: usize = 0;
    while k < m
        invariant
            k <= m,
            m == needle.len(),
            i + m <= hay.len(),
            forall|j: int| 0 <= j < k ==> hay@[i + j] == needle@[j],
        decreases m - k,
    {
        if hay[i + k] != needle[k] {
            assert(hay@.subrange(i as int, i + m) != needle@) by {
                assert(hay@.subrange(i as int, i + m)[k as int] != needle@[k as int]);
            }
            return false;
        }
        k = k + 1;
    }
    assert(hay@.subrange(i as int, i + m) =~= needle@);
    true
}

/// Whether `needle` occurs anywhere in `hay`.
pub fn contains_chars(hay: &Vec<char>, needle: &Vec<char>) -> (r: bool)
    ensures
        r == seq_contains(hay@, needle@),
{
    if needle.len() > hay.len() {
        assert(forall|i: int| !seq_matches_at(hay@, needle@, i));
        return false;
    }
    if needle.len() == 0 {
        assert(hay@.subrange(0, 0) =~= needle@);
        assert(seq_matches_at(hay@, needle@, 0));
        return true;
    }
    let last = hay.len() - needle.len();
    let mut i: usize = 0;
    while i <= last
        invariant
            i <= last + 1,
            last == hay.len() - needle.len(),
            0 < needle.len() <= hay.len(),
            forall|j: int| 0 <= j < i ==> !seq_matches_at(hay@, needle@, j),
        decreases last + 1 - i,
    {
        if matches_at(hay, needle, i) {
            return true;
        }
        i = i + 1;
    }
    assert(forall|j: int| i <= j ==> !seq_matches_at(hay@, needle@, j));
    false
}

/// Whether the string `needle` occurs in the string `hay`.
pub fn str_contains(hay: &str, needle: &str) -> (r: bool)
    ensures
        r == seq_contains(hay@, needle@),
{
    let h = chars_of(hay);
    let n = chars_of(needle);
    contains_chars(&h, &n)
}

/// Whether the string `s` starts with `p`.
pub fn str_starts_with(s: &str, p: &str) -> (r: bool)
    ensures
        r == seq_starts_with(s@, p@),
{
    let n = p.unicode_len();
    if n > s.unicode_len() {
        return false;
    }
    let mut i: usize = 0;
    while i < n
        invariant
            i <= n,
            n == p@.len(),
            n <= s@.len(),
            forall|j: int| 0 <= j < i ==> s@[j] == p@[j],
        decreases n - i,
    {
        if s.get_char(i) != p.get_char(i) {
            assert(s@.subrange(0, n as int)[i as int] != p@[i as int]);
            return false;
        }
        i = i + 1;
    }
    assert(s@.subrange(0, n as int) =~= p@);
    true
}

/// Whether the string `s` ends with `p`.
pub fn str_ends_with(s: &str, p: &str) -> (r: bool)
    ensures
        r == seq_ends_with(s@, p@),
{
    let n = p.unicode_len();
    let sn = s.unicode_len();
    if n > sn {
        return false;
    }
    let off = sn - n;
    let mut i: usize = 0;
    while i < n
        invariant
            i <= n,
            n == p@.len(),
            sn == s@.len(),
            off == sn - n,
            forall|j: int| 0 <= j < i ==> s@[off + j] == p@[j],
        decreases n - i,
    {
        if s.get_char(off + i) != p.get_char(i) {
            assert(s@.subrange(off as int, sn as int)[i as int] != p@[i as int]);
            return false;
        }
        i = i + 1;
    }
    assert(s@.subrange(off as int, sn as int) =~= p@);
    true
}

/// The result of replacing, left to right, every non-overlapping occurrence
/// of `f` in `h` by `t`.
pub open spec fn spec_replace(h: Seq<char>, f: Seq<char>, t: Seq<char>) -> Seq<char>
    decreases h.len(),
    when f.len() > 0
{
    if h.len() < f.len() {
        h
    } else if h.subrange(0, f.len() as int) == f {
        t + spec_replace(h.skip(f.len() as int), f, t)
    } else {
        seq![h[0]] + spec_replace(h.skip(1), f, t)
    }
}

/// Appends every character of `src` to `out`.
pub fn push_all(out: &mut Vec<char>, src: &Vec<char>)
    ensures
        final(out)@ == old(out)@ + src@,
{
    let mut k: usize = 0;
    while k < src.len()
        invariant
            k <= src.len(),
            out@ == old(out)@ + src@.subrange(0, k as int),
        decreases src.len() - k,
    {
        out.push(src[k]);
        k = k + 1;
        assert(out@ =~= old(out)@ + src@.subrange(0, k as int));
    }
    assert(out@ =~= old(out)@ + src@);
}

/// Replaces every non-overlapping occurrence of `f` in `h` by `t`,
/// scanning left to right.
pub fn replace_chars(h: &Vec<char>, f: &Vec<char>, t: &Vec<char>) -> (r: Vec<char>)
    requires
        f.len() > 0,
    ensures
        r@ == spec_replace(h@, f@, t@),
{
    let n = h.len();
    let m = f.len();
    let mut out: Vec<char> = Vec::new();
    let mut i: usize = 0;
    assert(h@.skip(0) =~= h@);
    while i < n
        invariant
            i <= n,
            n == h@.len(),
            m == f@.len(),
            m > 0,
            spec_replace(h@, f@, t@) == out@ + spec_replace(h@.skip(i as int), f@, t@),
        decreases n - i,
    {
        let ghost suffix = h@.skip(i as int);
        if m <= n - i && matches_at(h, f, i) {
            proof {
                assert(suffix.subrange(0, m as int) =~= h@.subrange(i as int, i + m));
                assert(suffix.skip(m as int) =~= h@.skip(i + m));
                assert(spec_replace(suffix, f@, t@) == t@ + spec_replace(
                    h@.skip(i + m),
                    f@,
                    t@,
                ));
                assert(out@ + spec_replace(suffix, f@, t@) =~= (out@ + t@) + spec_replace(
                    h@.skip(i + m),
                    f@,
                    t@,
                ));
            }
            push_all(&mut out, t);
            i = i + m;
        } else {
            proof {
                assert(suffix.skip(1) =~= h@.skip(i + 1));
                if m <= n - i {
                    assert(suffix.subrange(0, m as int) =~= h@.subrange(i as int, i + m));
                    assert(suffix.subrange(0, m as int) != f@);
                } else {
                    assert(suffix.len() < m);
                    assert(spec_replace(suffix, f@, t@) == suffix);
                    assert(suffix.skip(1).len() < m);
                    assert(spec_replace(suffix.skip(1), f@, t@) == suffix.skip(1));
                    assert(suffix =~= seq![suffix[0]] + suffix.skip(1));
                }
                assert(spec_replace(suffix, f@, t@) == seq![suffix[0]] + spec_replace(
                    suffix.skip(1),
                    f@,
                    t@,
                ));
                assert(seq![suffix[0]] =~= seq![h@[i as int]]);
                assert(out@ + spec_replace(suffix, f@, t@) =~= out@.push(h@[i as int])
                    + spec_replace(h@.skip(i + 1), f@, t@));
            }
            out.push(h[i]);
            i = i + 1;
        }
    }
    assert(h@.skip(n as int) =~= Seq::<char>::empty());
    assert(spec_replace(h@.skip(n as int), f@, t@) == h@.skip(n as int));
    assert(out@ =~= out@ + spec_replace(h@.skip(n as int), f@, t@));
    out
}

/// Replaces every non-overlapping occurrence of the string `f` in `h` by `t`.
pub fn str_replace(h: &str, f: &str, t: &str) -> (r: String)
    requires
        f@.len() > 0,
    ensures
        r@ == spec_replace(h@, f@, t@),
{
    let hv = chars_of(h);
    let fv = chars_of(f);
    let tv = chars_of(t);
    let out = replace_chars(&hv, &fv, &tv);
    string_of(&out)
}

/// Appends the characters of `p` to the string `s`.
pub fn append_str(s: &mut String, p: &str)
    ensures
        final(s)@ == old(s)@ + p@,
{
    let v = chars_of(p);
    let mut k: usize = 0;
    while k < v.len()
        invariant
            k <= v.len(),
            v@ == p@,
            s@ == old(s)@ + p@.subrange(0, k as int),
        decreases v.len() - k,
    {
        push_char(s, v[k]);
        k = k + 1;
        assert(s@ =~= old(s)@ + p@.subrange(0, k as int));
    }
    assert(s@ =~= old(s)@ + p@);
}

/// A fresh copy of the string `s`.
pub fn str_to_string(s: &str) -> (r: String)
    ensures
        r@ == s@,
{
    let mut out = String::new();
    append_str(&mut out, s);
    out
}

/// The character sequences of a sequence of strings.
pub open spec fn view_strs(a: Seq<String>) -> Seq<Seq<char>>
    decreases a,
{
    if a.len() == 0 {
        Seq::empty()
    } else {
        seq![a[0]@] + view_strs(a.skip(1))
    }
}

/// The form of a sequence of strings is the sequence of their characters.
pub proof fn lemma_view_strs(a: Seq<String>)
    ensures
        view_strs(a).len() == a.len(),
        forall|i: int| 0 <= i < a.len() ==> view_strs(a)[i] == a[i]@,
    decreases a.len(),
{
    if a.len() > 0 {
        lemma_view_strs(a.skip(1));
        assert forall|i: int| 0 <= i < a.len() implies view_strs(a)[i] == a[i]@ by {
            if i > 0 {
                assert(view_strs(a)[i] == view_strs(a.skip(1))[i - 1]);
                assert(a.skip(1)[i - 1] == a[i]);
            }
        }
    }
}

/// Whether some string of `hay` equals `needle`.
pub fn any_str_eq(hay: &Vec<String>, needle: &str) -> (r: bool)
    ensures
        r == view_strs(hay@).contains(needle@),
{
    proof {
        lemma_view_strs(hay@);
    }
    let mut i: usize = 0;
    while i < hay.len()
        invariant
            i <= hay.len(),
            view_strs(hay@).len() == hay@.len(),
            forall|j: int| 0 <= j < hay@.len() ==> view_strs(hay@)[j] == hay@[j]@,
            forall|j: int| 0 <= j < i ==> hay@[j]@ != needle@,
        decreases hay.len() - i,
    {
        if str_eq(hay[i].as_str(), needle) {
            assert(view_strs(hay@)[i as int] == needle@);
            return true;
        }
        i = i + 1;
    }
    assert(forall|j: int| 0 <= j < view_strs(hay@).len() ==> view_strs(hay@)[j] != needle@);
    false
}

/// The segments of `s` between occurrences of `sep`: always at least one
/// segment, the empty text splitting to one empty segment.
pub open spec fn spec_split(s: Seq<char>, sep: char) -> Seq<Seq<char>>
    decreases s.len(),
{
    if s.len() == 0 {
        seq![s]
    } else if s[0] == sep {
        seq![Seq::<char>::empty()] + spec_split(s.skip(1), sep)
    } else {
        let rest = spec_split(s.skip(1), sep);
        seq![seq![s[0]] + rest[0]] + rest.skip(1)
    }
}

/// A split always yields at least one segment.
pub proof fn lemma_split_nonempty(s: Seq<char>, sep: char)
    ensures
        spec_split(s, sep).len() >= 1,
    decreases s.len(),
{
    if s.len() > 0 {
        lemma_split_nonempty(s.skip(1), sep);
    }
}

/// Splits a string at every occurrence of `sep`.
pub fn split_str(s: &str, sep: char) -> (r: Vec<String>)
    ensures
        view_strs(r@) == spec_split(s@, sep),
{
    let v = chars_of(s);
    let n = v.len();
    let mut done: Vec<String> = Vec::new();
    let mut cur: Vec<char> = Vec::new();
    let mut i: usize = 0;
    proof {
        lemma_view_strs(done@);
        lemma_split_nonempty(s@, sep);
        assert(s@.skip(0) =~= s@);
        let sp = spec_split(s@, sep);
        assert(view_strs(done@) + (seq![cur@ + sp[0]] + sp.skip(1)) =~= sp);
    }
    while i < n
        invariant
            i <= n,
            n == s@.len(),
            v@ == s@,
            ({
                let sp = spec_split(s@.skip(i as int), sep);
                sp.len() >= 1 && view_strs(done@) + (seq![cur@ + sp[0]] + sp.skip(1))
                    == spec_split(s@, sep)
            }),
        decreases n - i,
    {
        let ghost sp = spec_split(s@.skip(i as int), sep);
        proof {
            assert(s@.skip(i as int)[0] == s@[i as int]);
            assert(s@.skip(i as int).skip(1) =~= s@.skip(i + 1));
            lemma_split_nonempty(s@.skip(i + 1), sep);
        }
        let ghost sp1 = spec_split(s@.skip(i + 1), sep);
        if v[i] == sep {
            proof {
                assert(sp == seq![Seq::<char>::empty()] + sp1);
                assert(sp[0] =~= Seq::<char>::empty());
                assert(cur@ + sp[0] =~= cur@);
                assert(sp.skip(1) =~= sp1);
            }
            let seg = string_of(&cur);
            let ghost pre = done@;
            proof {
                lemma_view_strs_push(pre, seg);
            }
            done.push(seg);
            cur = Vec::new();
            proof {
                assert(view_strs(done@) + (seq![cur@ + sp1[0]] + sp1.skip(1))
                    =~= view_strs(pre) + (seq![seg@ + sp[0]] + sp.skip(1)));
            }
        } else {
            proof {
                assert(sp == seq![seq![s@[i as int]] + sp1[0]] + sp1.skip(1));
                assert(sp[0] == seq![s@[i as int]] + sp1[0]);
                assert(sp.skip(1) =~= sp1.skip(1));
                assert(cur@.push(s@[i as int]) + sp1[0] =~= cur@ + sp[0]);
            }
            cur.push(v[i]);
        }
        i = i + 1;
    }
    proof {
        assert(s@.skip(n as int) =~= Seq::<char>::empty());
        let sp = spec_split(s@.skip(n as int), sep);
        assert(sp =~= seq![Seq::<char>::empty()]);
        assert(cur@ + sp[0] =~= cur@);
        assert(sp.skip(1) =~= Seq::<Seq<char>>::empty());
    }
    let seg = string_of(&cur);
    let ghost pre = done@;
    proof {
        lemma_view_strs_push(pre, seg);
    }
    done.push(seg);
    proof {
        assert(view_strs(done@) =~= spec_split(s@, sep));
    }
    done
}

/// Pushing a string onto a vector extends the sequence of views by its view.
pub proof fn lemma_view_strs_push(a: Seq<String>, x: String)
    ensures
        view_strs(a.push(x)) == view_strs(a).push(x@),
    decreases a.len(),
{
    if a.len() == 0 {
        assert(a.push(x)[0] == x);
        assert(a.push(x).skip(1) =~= Seq::<String>::empty());
        assert(view_strs(Seq::<String>::empty()) == Seq::<Seq<char>>::empty());
        assert(view_strs(a) == Seq::<Seq<char>>::empty());
        assert(view_strs(a.push(x)) =~= view_strs(a).push(x@));
    } else {
        lemma_view_strs_push(a.skip(1), x);
        assert(a.push(x).skip(1) =~= a.skip(1).push(x));
        assert(a.push(x)[0] == a[0]);
        assert(view_strs(a.push(x)) =~= view_strs(a).push(x@));
    }
}

/// The segments joined by `sep`.
pub open spec fn spec_join(segs: Seq<Seq<char>>, sep: char) -> Seq<char>
    decreases segs,
{
    if segs.len() == 0 {
        Seq::empty()
    } else if segs.len() == 1 {
        segs[0]
    } else {
        segs[0] + seq![sep] + spec_join(segs.skip(1), sep)
    }
}

/// Joins strings with `sep` between them.
pub fn join_strs(segs: &Vec<String>, sep: char) -> (r: String)
    ensures
        r@ == spec_join(view_strs(segs@), sep),
{
    let ghost sv = view_strs(segs@);
    proof {
        lemma_view_strs(segs@);
    }
    let mut out: Vec<char> = Vec::new();
    let mut i: usize = 0;
    proof {
        assert(sv.skip(0) =~= sv);
    }
    while i < segs.len()
        invariant
            i <= segs@.len(),
            sv == view_strs(segs@),
            sv.len() == segs@.len(),
            forall|j: int| 0 <= j < sv.len() ==> sv[j] == segs@[j]@,
            i == 0 ==> out@ == Seq::<char>::empty(),
            i > 0 ==> out@ + (if i < sv.len() {
                seq![sep] + spec_join(sv.skip(i as int), sep)
            } else {
                Seq::<char>::empty()
            }) == spec_join(sv, sep),
        decreases segs.len() - i,
    {
        proof {
            assert(sv.skip(i as int)[0] == sv[i as int]);
            assert(sv.skip(i as int).skip(1) =~= sv.skip(i + 1));
        }
        if i > 0 {
            out.push(sep);
        }
        let seg = chars_of(segs[i].as_str());
        push_all(&mut out, &seg);
        proof {
            if i + 1 < sv.len() {
                assert(spec_join(sv.skip(i as int), sep) == sv[i as int] + seq![sep]
                    + spec_join(sv.skip(i + 1), sep));
                if i == 0 {
                    assert(out@ + (seq![sep] + spec_join(sv.skip(1), sep)) =~= spec_join(
                        sv,
                        sep,
                    ));
                } else {
                    assert(out@ + (seq![sep] + spec_join(sv.skip(i + 1), sep)) =~= spec_join(
                        sv,
                        sep,
                    ));
                }
            } else {
                assert(sv.skip(i as int).len() == 1);
                assert(spec_join(sv.skip(i as int), sep) == sv[i as int]);
                assert(out@ =~= spec_join(sv, sep));
            }
        }
        i = i + 1;
    }
    proof {
        if sv.len() == 0 {
            assert(out@ =~= spec_join(sv, sep));
        }
    }
    string_of(&out)
}

/// Whether a character counts as blank space when trimming.
pub open spec fn is_space(c: char) -> bool {
    c == ' ' || c == '\t' || c == '\n' || c == '\r' || c == '\u{0b}' || c == '\u{0c}'
}

pub fn is_space_exec(c: char) -> (r: bool)
    ensures
        r == is_space(c),
{
    c == ' ' || c == '\t' || c == '\n' || c == '\r' || c == '\u{0b}' || c == '\u{0c}'
}

/// `s` without leading blank space.
pub open spec fn spec_trim_start(s: Seq<char>) -> Seq<char>
    decreases s.len(),
{
    if s.len() == 0 {
        s
    } else if is_space(s[0]) {
        spec_trim_start(s.skip(1))
    } else {
        s
    }
}

/// `s` without trailing blank space.
pub open spec fn spec_trim_end(s: Seq<char>) -> Seq<char>
    decreases s.len(),
{
    if s.len() == 0 {
        s
    } else if is_space(s[s.len() - 1]) {
        spec_trim_end(s.take(s.len() - 1))
    } else {
        s
    }
}

/// `s` without leading and trailing blank space.
pub open spec fn spec_trim(s: Seq<char>) -> Seq<char> {
    spec_trim_end(spec_trim_start(s))
}

/// The characters of `v` with leading and trailing blank space removed.
pub fn trim_chars(v: &Vec<char>) -> (r: Vec<char>)
    ensures
        r@ == spec_trim(v@),
{
    let n = v.len();
    let mut start: usize = 0;
    assert(v@.skip(0) =~= v@);
    while start < n && is_space_exec(v[start])
        invariant
            start <= n,
            n == v@.len(),
            spec_trim_start(v@.skip(start as int)) == spec_trim_start(v@),
        decreases n - start,
    {
        proof {
            assert(v@.skip(start as int)[0] == v@[start as int]);
            assert(v@.skip(start as int).skip(1) =~= v@.skip(start + 1));
        }
        start = start + 1;
    }
    proof {
        if start < n {
            assert(v@.skip(start as int)[0] == v@[start as int]);
            assert(spec_trim_start(v@.skip(start as int)) == v@.skip(start as int));
        } else {
            assert(v@.skip(start as int) =~= Seq::<char>::empty());
            assert(spec_trim_start(v@.skip(start as int)) =~= Seq::<char>::empty());
        }
    }
    let mut end: usize = n;
    let ghost head = v@.skip(start as int);
    assert(v@.subrange(start as int, n as int) =~= head);
    while end > start && is_space_exec(v[end - 1])
        invariant
            start <= end <= n,
            n == v@.len(),
            head == v@.skip(start as int),
            spec_trim_start(v@) == head,
            spec_trim_end(v@.subrange(start as int, end as int)) == spec_trim_end(head),
        decreases end,
    {
        proof {
            let cur = v@.subrange(start as int, end as int);
            assert(cur[cur.len() - 1] == v@[end - 1]);
            assert(cur.take(cur.len() - 1) =~= v@.subrange(start as int, end - 1));
        }
        end = end - 1;
    }
    proof {
        let cur = v@.subrange(start as int, end as int);
        if end > start {
            assert(cur[cur.len() - 1] == v@[end - 1]);
            assert(spec_trim_end(cur) == cur);
        } else {
            assert(cur =~= Seq::<char>::empty());
            assert(spec_trim_end(cur) =~= Seq::<char>::empty());
        }
    }
    let mut out: Vec<char> = Vec::new();
    let mut i: usize = start;
    while i < end
        invariant
            start <= i <= end <= n,
            n == v@.len(),
            out@ == v@.subrange(start as int, i as int),
        decreases end - i,
    {
        out.push(v[i]);
        i = i + 1;
        assert(out@ =~= v@.subrange(start as int, i as int));
    }
    assert(out@ =~= v@.subrange(start as int, end as int));
    out
}

/// The string holding the characters of `v` from position `j` on.
pub fn string_of_suffix(v: &Vec<char>, j: usize) -> (r: String)
    requires
        j <= v@.len(),
    ensures
        r@ == v@.skip(j as int),
{
    let mut out = String::new();
    let mut i: usize = j;
    while i < v.len()
        invariant
            j <= i <= v@.len(),
            out@ == v@.subrange(j as int, i as int),
        decreases v.len() - i,
    {
        push_char(&mut out, v[i]);
        i = i + 1;
        assert(out@ =~= v@.subrange(j as int, i as int));
    }
    assert(out@ =~= v@.skip(j as int));
    out
}

/// The string without leading and trailing blank space.
pub fn trim_str(s: &str) -> (r: String)
    ensures
        r@ == spec_trim(s@),
{
    let v = chars_of(s);
    let t = trim_chars(&v);
    string_of(&t)
}

/// The position of the first occurrence of `needle` in `hay`, if any.
pub fn find_sub(hay: &Vec<char>, needle: &Vec<char>) -> (r: Option<usize>)
    ensures
        match r {
            Some(i) => seq_matches_at(hay@, needle@, i as int) && forall|j: int|
                0 <= j < i ==> !seq_matches_at(hay@, needle@, j),
            None => !seq_contains(hay@, needle@),
        },
{
    if needle.len() > hay.len() {
        assert(forall|i: int| !seq_matches_at(hay@, needle@, i));
        return None;
    }
    if needle.len() == 0 {
        assert(hay@.subrange(0, 0) =~= needle@);
        assert(seq_matches_at(hay@, needle@, 0));
        return Some(0);
    }
    let last = hay.len() - needle.len();
    let mut i: usize = 0;
    while i <= last
        invariant
            i <= last + 1,
            last == hay.len() - needle.len(),
            0 < needle.len() <= hay.len(),
            forall|j: int| 0 <= j < i ==> !seq_matches_at(hay@, needle@, j),
        decreases last + 1 - i,
    {
        if matches_at(hay, needle, i) {
            return Some(i);
        }
        i = i + 1;
    }
    assert(forall|j: int| i <= j ==> !seq_matches_at(hay@, needle@, j));
    None
}

/// The position of the first occurrence of `c` in `v`, if any.
pub fn find_char(v: &Vec<char>, c: char) -> (r: Option<usize>)
    ensures
        match r {
            Some(i) => i < v@.len() && v@[i as int] == c && forall|j: int|
                0 <= j < i ==> v@[j] != c,
            None => forall|j: int| 0 <= j < v@.len() ==> v@[j] != c,
        },
{
    let mut i: usize = 0;
    while i < v.len()
        invariant
            i <= v@.len(),
            forall|j: int| 0 <= j < i ==> v@[j] != c,
        decreases v.len() - i,
    {
        if v[i] == c {
            return Some(i);
        }
        i = i + 1;
    }
    None
}

/// A trailing carriage return stripped, as the line splitter does.
pub open spec fn strip_cr(l: Seq<char>) -> Seq<char> {
    if l.len() > 0 && l[l.len() - 1] == '\r' {
        l.take(l.len() - 1)
    } else {
        l
    }
}

/// The lines of a text: split at every line feed, a final empty segment after
/// a trailing line feed dropped, and a carriage return at each line's end
/// stripped.
pub open spec fn spec_lines(s: Seq<char>) -> Seq<Seq<char>> {
    let parts = spec_split(s, '\n');
    let kept = if s.len() > 0 && s[s.len() - 1] == '\n' {
        parts.take(parts.len() - 1)
    } else {
        parts
    };
    kept.map_values(|l: Seq<char>| strip_cr(l))
}

/// Splits a text into its lines.
pub fn lines_of(s: &str) -> (r: Vec<String>)
    ensures
        view_strs(r@) == spec_lines(s@),
{
    let parts = split_str(s, '\n');
    let ghost pv = view_strs(parts@);
    proof {
        lemma_view_strs(parts@);
        lemma_split_nonempty(s@, '\n');
    }
    let n = s.unicode_len();
    let ends_nl = n > 0 && s.get_char(n - 1) == '\n';
    let keep = if ends_nl {
        parts.len() - 1
    } else {
        parts.len()
    };
    let ghost kept = if ends_nl {
        pv.take(pv.len() - 1)
    } else {
        pv
    };
    let mut out: Vec<String> = Vec::new();
    let mut i: usize = 0;
    while i < keep
        invariant
            i <= keep,
            keep <= parts@.len(),
            pv == view_strs(parts@),
            pv.len() == parts@.len(),
            forall|j: int| 0 <= j < pv.len() ==> pv[j] == parts@[j]@,
            kept.len() == keep,
            forall|j: int| 0 <= j < keep ==> kept[j] == pv[j],
            out@.len() == i,
            forall|j: int| 0 <= j < i ==> out@[j]@ == strip_cr(kept[j]),
        decreases keep - i,
    {
        let line = parts[i].as_str();
        let ln = line.unicode_len();
        let stripped: String;
        if ln > 0 && line.get_char(ln - 1) == '\r' {
            let lv = chars_of(line);
            let mut body: Vec<char> = Vec::new();
            let mut k: usize = 0;
            while k < ln - 1
                invariant
                    k <= ln - 1,
                    ln == lv@.len(),
                    lv@ == line@,
                    body@ == line@.subrange(0, k as int),
                decreases ln - k,
            {
                body.push(lv[k]);
                k = k + 1;
                assert(body@ =~= line@.subrange(0, k as int));
            }
            assert(body@ =~= line@.take(line@.len() - 1));
            stripped = string_of(&body);
        } else {
            stripped = str_to_string(line);
        }
        out.push(stripped);
        i = i + 1;
    }
    proof {
        lemma_view_strs(out@);
        assert(view_strs(out@) =~= kept.map_values(|l: Seq<char>| strip_cr(l)));
        assert(view_strs(out@) =~= spec_lines(s@));
    }
    out
}

} // verus!
