//! Character-level text operations shared by the rest of the library.
//!
//! Strings are viewed as sequences of Unicode scalar values (`Seq<char>`).

use vstd::prelude::*;
use vstd::std_specs::iter::IteratorSpec;
use vstd::utf8::*;

verus! {

/// Unicode `White_Space` property, the definition used by `char::is_whitespace`.
pub open spec fn is_ws(c: char) -> bool {
    let v = c as u32;
    ||| (0x9 <= v && v <= 0xd)
    ||| v == 0x20
    ||| v == 0x85
    ||| v == 0xa0
    ||| v == 0x1680
    ||| (0x2000 <= v && v <= 0x200a)
    ||| v == 0x2028
    ||| v == 0x2029
    ||| v == 0x202f
    ||| v == 0x205f
    ||| v == 0x3000
}

/// Executable counterpart of [`is_ws`].
pub fn is_whitespace(c: char) -> (b: bool)
    ensures
        b == is_ws(c),
{
    let v = c as u32;
    (0x9 <= v && v <= 0xd) || v == 0x20 || v == 0x85 || v == 0xa0 || v == 0x1680 || (0x2000
        <= v && v <= 0x200a) || v == 0x2028 || v == 0x2029 || v == 0x202f || v == 0x205f || v
        == 0x3000
}

/// The characters of a string slice, in order.
pub fn chars_of(s: &str) -> (v: Vec<char>)
    ensures
        v@ == s@,
{
    let mut v: Vec<char> = Vec::new();
    let mut it = s.chars();
    for c in iter: it
        invariant
            v@ == iter.seq().take(iter.index()),
            iter.seq() == s@,
    {
        v.push(c);
    }
    v
}


/// `String::push`: appends one character.
#[verifier::external_body]
fn push_char(s: &mut String, c: char)
    ensures
        final(s)@ == old(s)@.push(c),
{
    s.push(c);
}

/// Builds a `String` holding exactly the given characters.
pub fn string_from_chars(v: &Vec<char>) -> (s: String)
    ensures
        s@ == v@,
{
    let mut s = String::new();
    let mut i: usize = 0;
    while i < v.len()
        invariant
            i <= v.len(),
            s@ == v@.take(i as int),
        decreases v.len() - i,
    {
        push_char(&mut s, v[i]);
        assert(v@.take(i as int).push(v@[i as int]) =~= v@.take(i as int + 1));
        i += 1;
    }
    assert(v@.take(v.len() as int) =~= v@);
    s
}

/// `q` begins with `p`.
pub open spec fn starts_with(q: Seq<char>, p: Seq<char>) -> bool {
    p.len() <= q.len() && q.take(p.len() as int) == p
}

/// `s` without the prefix `p`, when it begins with it.
pub open spec fn without_prefix(s: Seq<char>, p: Seq<char>) -> Option<Seq<char>> {
    if starts_with(s, p) {
        Some(s.skip(p.len() as int))
    } else {
        None
    }
}

/// `s` without the prefix `p`, when it begins with it.
pub fn strip_prefix(s: &str, p: &str) -> (r: Option<String>)
    ensures
        opt_view(r) == without_prefix(s@, p@),
{
    let sv = chars_of(s);
    let pv = chars_of(p);
    if pv.len() > sv.len() {
        return None;
    }
    let mut i: usize = 0;
    while i < pv.len()
        invariant
            pv.len() <= sv.len(),
            i <= pv.len(),
            sv@ == s@,
            pv@ == p@,
            forall|j: int| 0 <= j < i ==> sv@[j] == pv@[j],
        decreases pv.len() - i,
    {
        if sv[i] != pv[i] {
            assert(sv@.take(pv@.len() as int)[i as int] != pv@[i as int]);
            return None;
        }
        i += 1;
    }
    assert(sv@.take(pv@.len() as int) =~= pv@);
    let mut rest: Vec<char> = Vec::new();
    let mut k: usize = pv.len();
    while k < sv.len()
        invariant
            pv.len() <= k <= sv.len(),
            sv@ == s@,
            pv@ == p@,
            rest@ == sv@.subrange(pv@.len() as int, k as int),
        decreases sv.len() - k,
    {
        rest.push(sv[k]);
        assert(sv@.subrange(pv@.len() as int, k as int + 1) =~= sv@.subrange(
            pv@.len() as int,
            k as int,
        ).push(sv@[k as int]));
        k += 1;
    }
    assert(rest@ =~= sv@.skip(pv@.len() as int));
    Some(string_from_chars(&rest))
}

/// `p` occurs in `s` starting at position `i`.
pub open spec fn occurs_at(s: Seq<char>, p: Seq<char>, i: int) -> bool {
    0 <= i && i + p.len() <= s.len() && s.subrange(i, i + p.len()) == p
}

/// `p` occurs somewhere in `s` (the empty pattern occurs everywhere).
pub open spec fn seq_contains(s: Seq<char>, p: Seq<char>) -> bool {
    exists|i: int| occurs_at(s, p, i)
}

/// Whether `p` occurs in `s` at position `i`, checked character by character.
fn matches_at(s: &Vec<char>, p: &Vec<char>, i: usize) -> (b: bool)
    requires
        i + p.len() <= s.len(),
    ensures
        b == occurs_at(s@, p@, i as int),
{
    let mut j: usize = 0;
    while j < p.len()
        invariant
            i + p.len() <= s.len(),
            j <= p.len(),
            forall|k: int| 0 <= k < j ==> s@[i + k] == p@[k],
        decreases p.len() - j,
    {
        if s[i + j] != p[j] {
            assert(s@.subrange(i as int, i + p.len())[j as int] != p@[j as int]);
            return false;
        }
        j += 1;
    }
    assert(s@.subrange(i as int, i + p.len()) =~= p@);
    true
}

/// First position at which `p` occurs in `s`, if any.
pub fn find_chars(s: &Vec<char>, p: &Vec<char>) -> (r: Option<usize>)
    ensures
        match r {
            Some(i) => occurs_at(s@, p@, i as int) && forall|j: int|
                0 <= j < i ==> !occurs_at(s@, p@, j),
            None => !seq_contains(s@, p@),
        },
{
    if p.len() > s.len() {
        return None;
    }
    let last = s.len() - p.len();
    let mut i: usize = 0;
    loop
        invariant
            p.len() <= s.len(),
            last == s.len() - p.len(),
            i <= last,
            forall|j: int| 0 <= j < i ==> !occurs_at(s@, p@, j),
        decreases last - i,
    {
        if matches_at(s, p, i) {
            return Some(i);
        }
        if i == last {
            return None;
        }
        i += 1;
    }
}

/// Whether `p` occurs in `s`.
pub fn contains_chars(s: &Vec<char>, p: &Vec<char>) -> (b: bool)
    ensures
        b == seq_contains(s@, p@),
{
    match find_chars(s, p) {
        Some(_) => true,
        None => false,
    }
}

/// Whether the string `s` contains the string `p`.
pub fn str_contains(s: &str, p: &str) -> (b: bool)
    ensures
        b == seq_contains(s@, p@),
{
    let sv = chars_of(s);
    let pv = chars_of(p);
    contains_chars(&sv, &pv)
}

/// Unicode upper-case mapping of a whole string, as performed by `str::to_uppercase`.
pub uninterp spec fn uppercase(s: Seq<char>) -> Seq<char>;

/// `str::to_uppercase`. The Unicode case tables are not restated; the result
/// is named by [`uppercase`].
#[verifier::external_body]
pub(crate) fn to_uppercase(s: &str) -> (r: String)
    ensures
        r@ == uppercase(s@),
{
    s.to_uppercase()
}

/// Unicode lower-case mapping of a whole string, as performed by `str::to_lowercase`.
pub uninterp spec fn lowercase(s: Seq<char>) -> Seq<char>;

/// Whether every character is ASCII.
pub open spec fn all_ascii(s: Seq<char>) -> bool {
    forall|i: int| 0 <= i < s.len() ==> (#[trigger] s[i]) < 128
}

/// The lower-case form of an ASCII character: `A`–`Z` become `a`–`z`, the
/// others stay.
pub open spec fn ascii_lower(c: char) -> char {
    if 'A' <= c && c <= 'Z' {
        ((c as u32) + 32) as char
    } else {
        c
    }
}

/// `str::to_lowercase`. The Unicode case tables (and the context rule for
/// final sigma) are not restated; the result is named by [`lowercase`].
/// Of an ASCII text, only the fact that each letter maps to its lower-case
/// letter and every other character stays is stated (the mapping of
/// `char::to_ascii_lowercase`, which agrees with Unicode on ASCII).
#[verifier::external_body]
pub(crate) fn to_lowercase(s: &str) -> (r: String)
    ensures
        r@ == lowercase(s@),
        all_ascii(s@) ==> r@ == s@.map_values(|c: char| ascii_lower(c)),
{
    s.to_lowercase()
}


/// Whitespace-normalised text: the maximal runs of non-whitespace characters
/// of `s`, in order, separated by single spaces (what
/// `s.split_whitespace().collect::<Vec<_>>().join(" ")` produces).
pub open spec fn normalized(s: Seq<char>) -> Seq<char>
    decreases s.len(),
{
    if s.len() == 0 {
        Seq::empty()
    } else {
        let prev = s.drop_last();
        let c = s.last();
        if is_ws(c) {
            normalized(prev)
        } else if normalized(prev).len() > 0 && is_ws(prev.last()) {
            normalized(prev).push(' ').push(c)
        } else {
            normalized(prev).push(c)
        }
    }
}

/// Collapses whitespace runs to single spaces and trims both ends.
pub fn normalize_chars(v: &Vec<char>) -> (out: Vec<char>)
    ensures
        out@ == normalized(v@),
{
    let mut out: Vec<char> = Vec::new();
    let mut i: usize = 0;
    while i < v.len()
        invariant
            i <= v.len(),
            out@ == normalized(v@.take(i as int)),
        decreases v.len() - i,
    {
        let c = v[i];
        let ghost prev = v@.take(i as int);
        assert(v@.take(i as int + 1).drop_last() =~= prev);
        assert(v@.take(i as int + 1).last() == c);
        if !is_whitespace(c) {
            if out.len() > 0 && i > 0 && is_whitespace(v[i - 1]) {
                assert(prev.last() == v@[i - 1]);
                out.push(' ');
            } else {
                assert(i > 0 ==> prev.last() == v@[i - 1]);
            }
            out.push(c);
        }
        i += 1;
    }
    assert(v@.take(v.len() as int) =~= v@);
    out
}

/// Normalises the whitespace of a string (see [`normalized`]).
pub fn normalize_text(text: &str) -> (r: String)
    ensures
        r@ == normalized(text@),
{
    let v = chars_of(text);
    let n = normalize_chars(&v);
    string_from_chars(&n)
}

/// `s` with every occurrence of the pattern `p` removed, scanning left to
/// right without overlaps (what `s.replace(p, "")` produces; an empty
/// pattern leaves `s` unchanged).
pub open spec fn remove_all(s: Seq<char>, p: Seq<char>) -> Seq<char>
    decreases s.len(),
{
    if p.len() == 0 || s.len() < p.len() {
        s
    } else if s.take(p.len() as int) == p {
        remove_all(s.skip(p.len() as int), p)
    } else {
        seq![s[0]].add(remove_all(s.skip(1), p))
    }
}

/// Removes every occurrence of `p` from `s` (nothing when `p` is empty).
pub fn remove_all_chars(s: &Vec<char>, p: &Vec<char>) -> (out: Vec<char>)
    ensures
        out@ == remove_all(s@, p@),
{
    if p.len() == 0 {
        let mut copy: Vec<char> = Vec::new();
        let mut k: usize = 0;
        while k < s.len()
            invariant
                k <= s.len(),
                copy@ == s@.take(k as int),
            decreases s.len() - k,
        {
            copy.push(s[k]);
            assert(s@.take(k as int).push(s@[k as int]) =~= s@.take(k as int + 1));
            k += 1;
        }
        assert(s@.take(s.len() as int) =~= s@);
        return copy;
    }
    let mut out: Vec<char> = Vec::new();
    let mut i: usize = 0;
    assert(s@.skip(0) =~= s@);
    while i < s.len()
        invariant
            p.len() > 0,
            i <= s.len(),
            remove_all(s@, p@) == out@ + remove_all(s@.skip(i as int), p@),
        decreases s.len() - i,
    {
        let ghost rest = s@.skip(i as int);
        if p.len() <= s.len() - i && matches_at(s, p, i) {
            assert(rest.take(p.len() as int) =~= s@.subrange(i as int, i + p.len()));
            assert(rest.skip(p.len() as int) =~= s@.skip(i + p.len()));
            i += p.len();
        } else {
            proof {
                if rest.len() >= p@.len() {
                    assert(rest.take(p@.len() as int) =~= s@.subrange(i as int, i + p@.len()));
                }
                assert(rest.skip(1) =~= s@.skip(i + 1));
                if rest.len() < p@.len() {
                    assert(remove_all(rest, p@) == rest);
                    assert(rest =~= seq![s@[i as int]].add(rest.skip(1)));
                    assert(remove_all(rest.skip(1), p@) == rest.skip(1));
                }
            }
            assert(out@.push(s@[i as int]) + remove_all(s@.skip(i + 1), p@) =~= out@ + seq![
                s@[i as int],
            ].add(remove_all(s@.skip(i + 1), p@)));
            out.push(s[i]);
            i += 1;
        }
    }
    assert(s@.skip(i as int) =~= Seq::<char>::empty());
    out
}


/// `p` occurs in the byte sequence `s` starting at position `i`.
pub open spec fn bytes_occur_at(s: Seq<u8>, p: Seq<u8>, i: int) -> bool {
    0 <= i && i + p.len() <= s.len() && s.subrange(i, i + p.len()) == p
}

/// Position of the first occurrence of `p` in `s` at or after position `k`.
pub open spec fn first_bytes_match_from(s: Seq<u8>, p: Seq<u8>, k: nat) -> Option<int>
    decreases s.len() + 1 - k,
{
    if k + p.len() > s.len() {
        None
    } else if bytes_occur_at(s, p, k as int) {
        Some(k as int)
    } else {
        first_bytes_match_from(s, p, k + 1)
    }
}

/// First byte position at which `p` occurs in `s` (what `str::find` reports).
pub fn find_bytes(s: &[u8], p: &[u8]) -> (r: Option<usize>)
    ensures
        r matches Some(i) ==> first_bytes_match_from(s@, p@, 0) == Some(i as int),
        r is None ==> first_bytes_match_from(s@, p@, 0) is None,
{
    if p.len() > s.len() {
        return None;
    }
    let last = s.len() - p.len();
    let mut i: usize = 0;
    loop
        invariant
            last + p.len() == s.len(),
            p@.len() <= s@.len(),
            last == s@.len() - p@.len(),
            i <= last,
            first_bytes_match_from(s@, p@, 0) == first_bytes_match_from(s@, p@, i as nat),
        decreases last - i,
    {
        let mut j: usize = 0;
        let mut ok = true;
        while j < p.len()
            invariant
                p@.len() <= s@.len(),
                last == s@.len() - p@.len(),
                last + p.len() == s.len(),
                i <= last,
                j <= p@.len(),
                ok ==> forall|k: int| 0 <= k < j ==> s@[i + k] == p@[k],
                !ok ==> !bytes_occur_at(s@, p@, i as int),
            decreases p.len() - j,
        {
            if s[i + j] != p[j] {
                assert(s@.subrange(i as int, i + p@.len())[j as int] != p@[j as int]);
                ok = false;
            }
            j += 1;
        }
        if ok {
            assert(s@.subrange(i as int, i + p@.len()) =~= p@);
            return Some(i);
        }
        if i == last {
            assert(first_bytes_match_from(s@, p@, i as nat + 1) is None);
            return None;
        }
        i += 1;
    }
}

/// Byte position (in the UTF-8 encoding of the lower-cased text) where the
/// marker `m` first occurs.
pub open spec fn lowercase_marker_pos(s: Seq<char>, m: Seq<char>) -> Option<int> {
    first_bytes_match_from(encode_utf8(lowercase(s)), encode_utf8(m), 0)
}

/// Cutting `s` at the marker position is possible: the position found in the
/// lower-cased text falls on a character boundary of `s` itself.
pub open spec fn marker_cut_defined(s: Seq<char>, m: Seq<char>) -> bool {
    match lowercase_marker_pos(s, m) {
        Some(i) => is_char_boundary(encode_utf8(s), i),
        None => true,
    }
}

/// `s` truncated before the first place where `m` occurs in its lower-cased
/// form; the byte position found in the lower-cased text is applied to `s`.
pub open spec fn cut_before_marker(s: Seq<char>, m: Seq<char>) -> Seq<char> {
    match lowercase_marker_pos(s, m) {
        Some(i) => decode_utf8(encode_utf8(s).take(i)),
        None => s,
    }
}

/// Truncates `s` before the first case-insensitive occurrence of `marker`.
pub fn truncate_at_marker(s: &str, marker: &str) -> (r: String)
    requires
        marker_cut_defined(s@, marker@),
    ensures
        r@ == cut_before_marker(s@, marker@),
{
    let lower = to_lowercase(s);
    let lb = lower.as_str().as_bytes();
    let mb = marker.as_bytes();
    match find_bytes(lb, mb) {
        Some(i) => {
            proof {
                encode_utf8_valid_utf8(s@);
            }
            let (head, _tail) = s.split_at(i);
            proof {
                encode_utf8_decode_utf8(head@);
                assert(encode_utf8(s@).subrange(0, i as int) =~= encode_utf8(s@).take(i as int));
            }
            head.to_owned()
        },
        None => s.to_owned(),
    }
}


/// Whether truncating `s` at `marker` is possible, that is, whether the
/// marker position found in the lower-cased text is a character boundary
/// of `s`.
pub fn marker_cut_ok(s: &str, marker: &str) -> (b: bool)
    ensures
        b == marker_cut_defined(s@, marker@),
{
    let lower = to_lowercase(s);
    let lb = lower.as_str().as_bytes();
    let mb = marker.as_bytes();
    match find_bytes(lb, mb) {
        Some(i) => s.is_char_boundary(i),
        None => true,
    }
}

/// Truncates `s` before the first case-insensitive occurrence of `marker`
/// when that position is a character boundary of `s`; `None` otherwise.
pub fn try_truncate_at_marker(s: &str, marker: &str) -> (r: Option<String>)
    ensures
        marker_cut_defined(s@, marker@) ==> (r matches Some(t) && t@ == cut_before_marker(s@, marker@)),
        !marker_cut_defined(s@, marker@) ==> r is None,
{
    if marker_cut_ok(s, marker) {
        Some(truncate_at_marker(s, marker))
    } else {
        None
    }
}

/// Removes every occurrence of `pattern` from `s`.
pub fn remove_pattern(s: &str, pattern: &str) -> (r: String)
    ensures
        r@ == remove_all(s@, pattern@),
{
    let sv = chars_of(s);
    let pv = chars_of(pattern);
    let out = remove_all_chars(&sv, &pv);
    string_from_chars(&out)
}

/// The characters before the first `sep` (all of them when there is none):
/// the first piece that `str::split(sep)` yields.
pub open spec fn before_char(s: Seq<char>, sep: char) -> Seq<char>
    decreases s.len(),
{
    if s.len() == 0 {
        s
    } else if s[0] == sep {
        Seq::empty()
    } else {
        seq![s[0]] + before_char(s.drop_first(), sep)
    }
}

/// The characters of `s` before its first `sep`.
pub fn prefix_before(s: &str, sep: char) -> (r: String)
    ensures
        r@ == before_char(s@, sep),
{
    let v = chars_of(s);
    let mut out: Vec<char> = Vec::new();
    let mut i: usize = 0;
    assert(v@.skip(0) =~= v@);
    assert(out@ + before_char(v@, sep) =~= before_char(v@, sep));
    while i < v.len()
        invariant
            v@ == s@,
            i <= v@.len(),
            before_char(s@, sep) == out@ + before_char(v@.skip(i as int), sep),
        decreases v@.len() - i,
    {
        assert(v@.skip(i as int).drop_first() =~= v@.skip(i as int + 1));
        if v[i] == sep {
            assert(out@ + Seq::<char>::empty() =~= out@);
            return string_from_chars(&out);
        }
        let ghost before = out@;
        out.push(v[i]);
        assert(before + (seq![v@[i as int]] + before_char(v@.skip(i as int + 1), sep)) =~= out@
            + before_char(v@.skip(i as int + 1), sep));
        i += 1;
    }
    assert(v@.skip(i as int) =~= Seq::<char>::empty());
    assert(out@ + Seq::<char>::empty() =~= out@);
    string_from_chars(&out)
}

/// The maximal runs of non-whitespace characters of `s`, in order (what
/// `str::split_whitespace` yields).
pub open spec fn words_of(s: Seq<char>) -> Seq<Seq<char>>
    decreases s.len(),
{
    if s.len() == 0 {
        seq![]
    } else {
        let prev = s.drop_last();
        let c = s.last();
        if is_ws(c) {
            words_of(prev)
        } else if prev.len() > 0 && !is_ws(prev.last()) {
            let w = words_of(prev);
            w.drop_last().push(w.last().push(c))
        } else {
            words_of(prev).push(seq![c])
        }
    }
}

/// Splits `s` into its whitespace-separated words.
pub fn split_words(s: &str) -> (words: Vec<String>)
    ensures
        views(words@) == words_of(s@),
{
    let v = chars_of(s);
    let mut words: Vec<String> = Vec::new();
    let mut cur: Vec<char> = Vec::new();
    let mut i: usize = 0;
    while i < v.len()
        invariant
            v@ == s@,
            i <= v@.len(),
            words_of(v@.take(i as int)) == if cur@.len() > 0 {
                views(words@).push(cur@)
            } else {
                views(words@)
            },
            cur@.len() > 0 <==> (i > 0 && !is_ws(v@[i - 1])),
        decreases v@.len() - i,
    {
        let c = v[i];
        let ghost prev = v@.take(i as int);
        assert(v@.take(i as int + 1).drop_last() =~= prev);
        assert(v@.take(i as int + 1).last() == c);
        assert(i > 0 ==> prev.last() == v@[i - 1]);
        if is_whitespace(c) {
            if cur.len() > 0 {
                let w = string_from_chars(&cur);
                let ghost before = views(words@);
                words.push(w);
                assert(views(words@) =~= before.push(cur@));
                cur = Vec::new();
            }
        } else {
            let ghost before = cur@;
            let ghost ws = views(words@);
            let extends = cur.len() > 0;
            cur.push(c);
            if extends {
                assert(ws.push(before).drop_last() =~= ws);
                assert(ws.push(before).last() == before);
                assert(ws.push(before).drop_last().push(ws.push(before).last().push(c)) =~= ws.push(
                    cur@,
                ));
            } else {
                assert(cur@ =~= seq![c]);
            }
        }
        i += 1;
    }
    assert(v@.take(v@.len() as int) =~= v@);
    if cur.len() > 0 {
        let w = string_from_chars(&cur);
        let ghost before = views(words@);
        words.push(w);
        assert(views(words@) =~= before.push(cur@));
    }
    words
}

/// `s` ends with `p`.
pub open spec fn ends_with(s: Seq<char>, p: Seq<char>) -> bool {
    p.len() <= s.len() && s.skip(s.len() - p.len()) == p
}

/// Whether `s` ends with `p`.
pub fn str_ends_with(s: &str, p: &str) -> (b: bool)
    ensures
        b == ends_with(s@, p@),
{
    let sv = chars_of(s);
    let pv = chars_of(p);
    if pv.len() > sv.len() {
        return false;
    }
    let n = sv.len();
    let off = n - pv.len();
    let mut i: usize = 0;
    while i < pv.len()
        invariant
            n == sv@.len(),
            sv@ == s@,
            pv@ == p@,
            pv@.len() <= sv@.len(),
            off == sv@.len() - pv@.len(),
            i <= pv@.len(),
            forall|j: int| 0 <= j < i ==> sv@[off + j] == pv@[j],
        decreases pv.len() - i,
    {
        if sv[off + i] != pv[i] {
            assert(sv@.skip(off as int)[i as int] != pv@[i as int]);
            return false;
        }
        i += 1;
    }
    assert(sv@.skip(off as int) =~= pv@);
    true
}

/// The characters after the last `sep` (all of them when there is none):
/// the first piece that `str::rsplit(sep)` yields.
pub open spec fn after_last(s: Seq<char>, sep: char) -> Seq<char>
    decreases s.len(),
{
    if s.len() == 0 {
        s
    } else if s.last() == sep {
        Seq::empty()
    } else {
        after_last(s.drop_last(), sep).push(s.last())
    }
}

/// The characters of `s` after its last `sep`.
pub fn suffix_after(s: &str, sep: char) -> (r: String)
    ensures
        r@ == after_last(s@, sep),
{
    let v = chars_of(s);
    let mut out: Vec<char> = Vec::new();
    let mut i: usize = 0;
    while i < v.len()
        invariant
            v@ == s@,
            i <= v@.len(),
            out@ == after_last(v@.take(i as int), sep),
        decreases v@.len() - i,
    {
        assert(v@.take(i as int + 1).drop_last() =~= v@.take(i as int));
        assert(v@.take(i as int + 1).last() == v@[i as int]);
        if v[i] == sep {
            out = Vec::new();
        } else {
            out.push(v[i]);
        }
        i += 1;
    }
    assert(v@.take(v@.len() as int) =~= v@);
    string_from_chars(&out)
}

/// Decimal digits of a natural number, most significant first.
pub open spec fn decimal(n: nat) -> Seq<char>
    decreases n,
{
    if n < 10 {
        seq![digit_char(n)]
    } else {
        decimal(n / 10).push(digit_char(n % 10))
    }
}

/// The ASCII digit for `d < 10`.
pub open spec fn digit_char(d: nat) -> char {
    if d == 0 { '0' }
    else if d == 1 { '1' }
    else if d == 2 { '2' }
    else if d == 3 { '3' }
    else if d == 4 { '4' }
    else if d == 5 { '5' }
    else if d == 6 { '6' }
    else if d == 7 { '7' }
    else if d == 8 { '8' }
    else { '9' }
}

fn digit(d: u64) -> (c: char)
    requires
        d < 10,
    ensures
        c == digit_char(d as nat),
{
    if d == 0 { '0' }
    else if d == 1 { '1' }
    else if d == 2 { '2' }
    else if d == 3 { '3' }
    else if d == 4 { '4' }
    else if d == 5 { '5' }
    else if d == 6 { '6' }
    else if d == 7 { '7' }
    else if d == 8 { '8' }
    else { '9' }
}

/// Decimal rendering of `n` (what `n.to_string()` gives).
pub fn decimal_string(n: u64) -> (s: String)
    ensures
        s@ == decimal(n as nat),
{
    let mut digits: Vec<char> = Vec::new();
    let mut m: u64 = n;
    // digits are collected least significant first
    while m >= 10
        invariant
            decimal(n as nat) == decimal(m as nat) + digits@.reverse(),
        decreases m,
    {
        let d = digit(m % 10);
        assert(decimal(m as nat) == decimal((m / 10) as nat).push(d));
        assert(decimal((m / 10) as nat) + digits@.push(d).reverse() =~= decimal((m / 10) as nat).push(d) + digits@.reverse());
        digits.push(d);
        m = m / 10;
    }
    let d0 = digit(m);
    digits.push(d0);
    assert(decimal(m as nat) =~= seq![d0]);
    assert(decimal(n as nat) =~= digits@.reverse());
    let mut out: Vec<char> = Vec::new();
    let mut k: usize = digits.len();
    while k > 0
        invariant
            k <= digits.len(),
            out@ =~= digits@.reverse().take((digits.len() - k) as int),
        decreases k,
    {
        k -= 1;
        out.push(digits[k]);
        assert(digits@.reverse().take((digits.len() - k) as int) =~= digits@.reverse().take((digits.len() - k - 1) as int).push(digits@[k as int]));
    }
    assert(digits@.reverse().take(digits.len() as int) =~= digits@.reverse());
    string_from_chars(&out)
}

/// Whether a character is an ASCII decimal digit.
pub open spec fn is_digit(c: char) -> bool {
    '0' <= c && c <= '9'
}

/// Whether every character is an ASCII decimal digit.
pub open spec fn all_digits(s: Seq<char>) -> bool {
    forall|i: int| 0 <= i < s.len() ==> is_digit(#[trigger] s[i])
}

/// The value of a string of decimal digits.
pub open spec fn digits_value(s: Seq<char>) -> nat
    decreases s.len(),
{
    if s.len() == 0 {
        0
    } else {
        digits_value(s.drop_last()) * 10 + (s.last() as nat - '0' as nat) as nat
    }
}

/// What `str::parse` gives for an unsigned integer type whose largest value
/// is `max`: an optional `+` followed by at least one decimal digit, whose
/// value does not exceed `max`.
pub open spec fn parsed_unsigned(s: Seq<char>, max: nat) -> Option<nat> {
    let body = if s.len() > 0 && s[0] == '+' {
        s.drop_first()
    } else {
        s
    };
    if body.len() > 0 && all_digits(body) && digits_value(body) <= max {
        Some(digits_value(body))
    } else {
        None
    }
}

/// A longer string of digits is worth at least as much as its prefix.
proof fn lemma_digits_prefix(s: Seq<char>, i: int)
    requires
        0 <= i <= s.len(),
        all_digits(s),
    ensures
        digits_value(s.take(i)) <= digits_value(s),
    decreases s.len() - i,
{
    if i < s.len() {
        lemma_digits_prefix(s, i + 1);
        assert(s.take(i + 1).drop_last() =~= s.take(i));
        assert(is_digit(s[i]));
    } else {
        assert(s.take(i) =~= s);
    }
}

/// Parses an unsigned decimal number not above `max`, as `str::parse` does
/// for an unsigned integer type whose largest value is `max`.
pub fn parse_unsigned(s: &str, max: u64) -> (r: Option<u64>)
    ensures
        match r {
            Some(v) => parsed_unsigned(s@, max as nat) == Some(v as nat),
            None => parsed_unsigned(s@, max as nat) is None,
        },
{
    let v = chars_of(s);
    let start: usize = if v.len() > 0 && v[0] == '+' {
        1
    } else {
        0
    };
    let ghost body = if s@.len() > 0 && s@[0] == '+' {
        s@.drop_first()
    } else {
        s@
    };
    assert(body =~= v@.skip(start as int));
    if start >= v.len() {
        return None;
    }
    let mut acc: u64 = 0;
    let mut i: usize = start;
    while i < v.len()
        invariant
            v@ == s@,
            start <= i <= v@.len(),
            body == v@.skip(start as int),
            body == (if s@.len() > 0 && s@[0] == '+' {
                s@.drop_first()
            } else {
                s@
            }),
            acc as nat == digits_value(body.take(i - start)),
            acc <= max,
            all_digits(body.take(i - start)),
        decreases v@.len() - i,
    {
        let c = v[i];
        assert(body[i - start] == c);
        if !('0' <= c && c <= '9') {
            assert(!all_digits(body));
            return None;
        }
        let d = (c as u32 - '0' as u32) as u64;
        let next: u128 = acc as u128 * 10 + d as u128;
        assert(body.take(i - start + 1).drop_last() =~= body.take(i - start));
        assert(body.take(i - start + 1).last() == c);
        assert(next == digits_value(body.take(i - start + 1)));
        if next > max as u128 {
            proof {
                if all_digits(body) {
                    lemma_digits_prefix(body, i - start + 1);
                }
            }
            return None;
        }
        acc = next as u64;
        i += 1;
    }
    assert(body.take(i - start) =~= body);
    Some(acc)
}

/// Concatenation of two strings.
pub fn concat2(a: &str, b: &str) -> (r: String)
    ensures
        r@ == a@ + b@,
{
    let mut r = a.to_owned();
    r.append(b);
    r
}

/// Concatenation of three strings.
pub fn concat3(a: &str, b: &str, c: &str) -> (r: String)
    ensures
        r@ == a@ + b@ + c@,
{
    let mut r = a.to_owned();
    r.append(b);
    r.append(c);
    r
}

/// Concatenation of four strings.
pub fn concat4(a: &str, b: &str, c: &str, d: &str) -> (r: String)
    ensures
        r@ == a@ + b@ + c@ + d@,
{
    let mut r = a.to_owned();
    r.append(b);
    r.append(c);
    r.append(d);
    r
}

/// Whether two string slices hold the same characters.
pub fn str_eq(a: &str, b: &str) -> (r: bool)
    ensures
        r == (a@ == b@),
{
    let x = a.to_owned();
    let y = b.to_owned();
    x == y
}

/// Copy of a string.
pub fn copy_string(s: &String) -> (r: String)
    ensures
        r@ == s@,
{
    s.as_str().to_owned()
}

/// The characters of an optional string.
pub open spec fn opt_view(o: Option<String>) -> Option<Seq<char>> {
    match o {
        Some(s) => Some(s@),
        None => None,
    }
}

/// Copy of an optional string.
pub fn copy_opt_string(o: &Option<String>) -> (r: Option<String>)
    ensures
        opt_view(r) == opt_view(*o),
{
    match o {
        Some(s) => Some(copy_string(s)),
        None => None,
    }
}


/// The parts joined by `sep`.
pub open spec fn joined(parts: Seq<Seq<char>>, sep: Seq<char>) -> Seq<char>
    decreases parts.len(),
{
    if parts.len() == 0 {
        Seq::empty()
    } else if parts.len() == 1 {
        parts[0]
    } else {
        joined(parts.drop_last(), sep) + sep + parts.last()
    }
}

/// The character sequences of a list of strings.
pub open spec fn views(v: Seq<String>) -> Seq<Seq<char>> {
    v.map_values(|s: String| s@)
}

/// Appends a string to a list of strings.
pub fn push_string(v: &mut Vec<String>, s: String)
    ensures
        views(final(v)@) == views(old(v)@).push(s@),
{
    let ghost sv = s@;
    v.push(s);
    assert(views(v@) =~= views(old(v)@).push(sv));
}

/// Appends a copy of a string slice to a list of strings.
pub fn push_str(v: &mut Vec<String>, s: &str)
    ensures
        views(final(v)@) == views(old(v)@).push(s@),
{
    push_string(v, s.to_owned());
}

/// Appends copies of all strings of `w` to `v`.
pub fn extend_strings(v: &mut Vec<String>, w: &[String])
    ensures
        views(final(v)@) == views(old(v)@) + views(w@),
{
    let mut i: usize = 0;
    while i < w.len()
        invariant
            i <= w@.len(),
            views(v@) == views(old(v)@) + views(w@.take(i as int)),
        decreases w@.len() - i,
    {
        let c = copy_string(&w[i]);
        push_string(v, c);
        assert(views(w@.take(i as int + 1)) =~= views(w@.take(i as int)).push(w@[i as int]@));
        i += 1;
    }
    assert(w@.take(w@.len() as int) =~= w@);
}

} // verus!
