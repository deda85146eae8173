//! Small executable string helpers the library's parsers and stores build
//! on, each specified against the character view.

use vstd::prelude::*;
use vstd::string::StrSliceExecFns;
use vstd::string::StringSliceAdditionalSpecFns;

verus! {

/// Equality of two string slices by their character content.
pub fn str_eq(a: &str, b: &str) -> (r: bool)
    ensures
        r == (a@ == b@),
{
    let av = a.as_bytes_vec();
    let bv = b.as_bytes_vec();
    proof {
        vstd::utf8::encode_utf8_decode_utf8(a@);
        vstd::utf8::encode_utf8_decode_utf8(b@);
    }
    if av.len() != bv.len() {
        proof {
            assert(a.spec_bytes() != b.spec_bytes());
        }
        return false;
    }
    let n = av.len();
    let mut i: usize = 0;
    while i < n
        invariant
            n == av@.len() == bv@.len(),
            i <= n,
            forall|j: int| 0 <= j < i ==> av@[j] == bv@[j],
            av@ == a.spec_bytes(),
            bv@ == b.spec_bytes(),
            vstd::utf8::decode_utf8(a.spec_bytes()) == a@,
            vstd::utf8::decode_utf8(b.spec_bytes()) == b@,
        decreases n - i,
    {
        if av[i] != bv[i] {
            proof {
                assert(a.spec_bytes() != b.spec_bytes());
            }
            return false;
        }
        i += 1;
    }
    proof {
        assert(av@ =~= bv@);
    }
    true
}

/// Whether `c` counts as whitespace when command output is trimmed.
pub open spec fn is_space_char(c: char) -> bool {
    c == ' ' || c == '\t' || c == '\n' || c == '\r'
}

/// `s` with every trailing whitespace character removed.
pub open spec fn trim_end_spec(s: Seq<char>) -> Seq<char>
    decreases s.len(),
{
    if s.len() > 0 && is_space_char(s.last()) {
        trim_end_spec(s.drop_last())
    } else {
        s
    }
}

/// `s` with every leading whitespace character removed.
pub open spec fn trim_start_spec(s: Seq<char>) -> Seq<char>
    decreases s.len(),
{
    if s.len() > 0 && is_space_char(s[0]) {
        trim_start_spec(s.drop_first())
    } else {
        s
    }
}

/// `s` with whitespace removed from both ends.
pub open spec fn trim_spec(s: Seq<char>) -> Seq<char> {
    trim_start_spec(trim_end_spec(s))
}

/// Index of the first occurrence of `c` in `s`, or -1 when `c` does not
/// occur.
pub open spec fn find_char(s: Seq<char>, c: char) -> int
    decreases s.len(),
{
    if s.len() == 0 {
        -1
    } else if s[0] == c {
        0
    } else {
        let r = find_char(s.drop_first(), c);
        if r == -1 {
            -1
        } else {
            r + 1
        }
    }
}

/// `find_char` returns the index of the first occurrence.
pub proof fn lemma_find_char_at(s: Seq<char>, c: char, i: int)
    requires
        0 <= i < s.len(),
        s[i] == c,
        forall|j: int| 0 <= j < i ==> s[j] != c,
    ensures
        find_char(s, c) == i,
    decreases i,
{
    if i > 0 {
        assert(s.drop_first()[i - 1] == s[i]);
        assert(forall|j: int| 0 <= j < i - 1 ==> s.drop_first()[j] == s[j + 1]);
        lemma_find_char_at(s.drop_first(), c, i - 1);
    }
}

/// `find_char` returns -1 exactly when `c` does not occur.
pub proof fn lemma_find_char_none(s: Seq<char>, c: char)
    requires
        forall|j: int| 0 <= j < s.len() ==> s[j] != c,
    ensures
        find_char(s, c) == -1,
    decreases s.len(),
{
    if s.len() > 0 {
        assert(forall|j: int| 0 <= j < s.drop_first().len() ==> s.drop_first()[j] == s[j + 1]);
        lemma_find_char_none(s.drop_first(), c);
    }
}

fn is_space(c: char) -> (r: bool)
    ensures
        r == is_space_char(c),
{
    c == ' ' || c == '\t' || c == '\n' || c == '\r'
}

/// The end of `s` once trailing whitespace is dropped: the unique index
/// with `s@.subrange(0, r)` equal to `trim_end_spec(s@)`.
pub fn trim_end_index(s: &str) -> (r: usize)
    ensures
        r <= s@.len(),
        s@.subrange(0, r as int) == trim_end_spec(s@),
{
    let n = s.unicode_len();
    let mut e: usize = n;
    proof {
        assert(s@.subrange(0, n as int) =~= s@);
    }
    loop
        invariant
            e <= n,
            n == s@.len(),
            trim_end_spec(s@) == trim_end_spec(s@.subrange(0, e as int)),
        ensures
            e <= n,
            n == s@.len(),
            trim_end_spec(s@) == trim_end_spec(s@.subrange(0, e as int)),
            e == 0 || !is_space_char(s@[e as int - 1]),
        decreases e,
    {
        if e == 0 {
            break ;
        }
        let c = s.get_char(e - 1);
        if !is_space(c) {
            break ;
        }
        proof {
            let pre = s@.subrange(0, e as int);
            assert(pre.last() == s@[e - 1]);
            assert(pre.drop_last() =~= s@.subrange(0, e - 1));
        }
        e = e - 1;
    }
    proof {
        let pre = s@.subrange(0, e as int);
        if e == 0 {
            assert(pre =~= Seq::<char>::empty());
        } else {
            assert(pre.last() == s@[e - 1]);
        }
        assert(trim_end_spec(pre) == pre);
    }
    e
}

/// `s` with leading whitespace removed, as a borrowed slice.
pub fn trim_start_str(s: &str) -> (r: &str)
    ensures
        r@ == trim_start_spec(s@),
{
    let n = s.unicode_len();
    let mut b: usize = 0;
    proof {
        assert(s@.subrange(0, n as int) =~= s@);
        assert(s@.subrange(b as int, n as int) =~= s@);
    }
    loop
        invariant_except_break
            b <= n,
            n == s@.len(),
            trim_start_spec(s@) == trim_start_spec(s@.subrange(b as int, n as int)),
        ensures
            b <= n,
            n == s@.len(),
            trim_start_spec(s@) == trim_start_spec(s@.subrange(b as int, n as int)),
            b == n || !is_space_char(s@[b as int]),
        decreases n - b,
    {
        if b == n {
            break ;
        }
        let c = s.get_char(b);
        if !is_space(c) {
            break ;
        }
        proof {
            let cur = s@.subrange(b as int, n as int);
            assert(cur[0] == s@[b as int]);
            assert(cur.drop_first() =~= s@.subrange(b as int + 1, n as int));
        }
        b = b + 1;
    }
    proof {
        let cur = s@.subrange(b as int, n as int);
        if b == n {
            assert(cur =~= Seq::<char>::empty());
        } else {
            assert(cur[0] == s@[b as int]);
        }
        assert(trim_start_spec(cur) == cur);
    }
    s.substring_char(b, n)
}

/// Relies on `String::from_utf8`: it succeeds exactly on valid UTF-8 and
/// then carries the bytes through unchanged.
#[verifier::external_body]
pub(crate) fn vec_to_string(bytes: Vec<u8>) -> (r: Option<String>)
    ensures
        r is Some <==> vstd::utf8::valid_utf8(bytes@),
        r matches Some(s) ==> vstd::utf8::encode_utf8(s@) == bytes@,
{
    String::from_utf8(bytes).ok()
}

/// `s` with whitespace removed from both ends, as a borrowed slice.
pub fn trim_str(s: &str) -> (r: &str)
    ensures
        r@ == trim_spec(s@),
{
    let te = trim_end_index(s);
    let ghost trimmed_end = s@.subrange(0, te as int);
    let mut b: usize = 0;
    loop
        invariant
            b <= te,
            te <= s@.len(),
            trimmed_end == s@.subrange(0, te as int),
            trim_end_spec(s@) == trimmed_end,
            trim_spec(s@) == trim_start_spec(s@.subrange(b as int, te as int)),
        ensures
            b <= te,
            trim_spec(s@) == trim_start_spec(s@.subrange(b as int, te as int)),
            b == te || !is_space_char(s@[b as int]),
        decreases te - b,
    {
        if b == te {
            break ;
        }
        let c = s.get_char(b);
        if !is_space(c) {
            break ;
        }
        proof {
            let cur = s@.subrange(b as int, te as int);
            assert(cur[0] == s@[b as int]);
            assert(cur.drop_first() =~= s@.subrange(b as int + 1, te as int));
        }
        b = b + 1;
    }
    proof {
        let cur = s@.subrange(b as int, te as int);
        if b == te {
            assert(cur =~= Seq::<char>::empty());
        } else {
            assert(cur[0] == s@[b as int]);
        }
        assert(trim_start_spec(cur) == cur);
    }
    s.substring_char(b, te)
}

/// `find_char` stays within `[-1, s.len())`.
pub proof fn lemma_find_char_bounds(s: Seq<char>, c: char)
    ensures
        -1 <= find_char(s, c) < s.len(),
    decreases s.len(),
{
    if s.len() > 0 && s[0] != c {
        lemma_find_char_bounds(s.drop_first(), c);
    }
}

/// `s` split at every occurrence of `c`; the separators themselves are
/// dropped, and `n` separators give `n + 1` pieces.
pub open spec fn split_char(s: Seq<char>, c: char) -> Seq<Seq<char>>
    decreases s.len(),
    via split_char_decreases
{
    let i = find_char(s, c);
    if i == -1 {
        seq![s]
    } else {
        seq![s.subrange(0, i)] + split_char(s.subrange(i + 1, s.len() as int), c)
    }
}

#[via_fn]
proof fn split_char_decreases(s: Seq<char>, c: char) {
    lemma_find_char_bounds(s, c);
}

/// One trailing carriage return dropped, as a line ending of the form
/// `\r\n` leaves one on the piece before the newline.
pub open spec fn strip_cr(line: Seq<char>) -> Seq<char> {
    if line.len() > 0 && line.last() == '\r' {
        line.drop_last()
    } else {
        line
    }
}

/// The lines of `s`: pieces between newlines, each with a trailing carriage
/// return dropped, and no empty final line when `s` ends with a newline.
pub open spec fn lines_spec(s: Seq<char>) -> Seq<Seq<char>> {
    let parts = split_char(s, '\n');
    let kept = if parts.len() > 0 && parts.last().len() == 0 {
        parts.drop_last()
    } else {
        parts
    };
    kept.map_values(|l: Seq<char>| strip_cr(l))
}

/// Splits `s` at every occurrence of `c`, agreeing with `split_char`.
pub fn split_str(s: &str, c: char) -> (r: Vec<String>)
    ensures
        r.deep_view() == split_char(s@, c),
{
    let n = s.unicode_len();
    let mut pieces: Vec<String> = Vec::new();
    let mut i: usize = 0;
    proof {
        assert(s@.subrange(0, n as int) =~= s@);
        assert(pieces.deep_view() =~= Seq::<Seq<char>>::empty());
        assert(pieces.deep_view() + split_char(s@, c) =~= split_char(s@, c));
    }
    loop
        invariant_except_break
            i <= n,
            n == s@.len(),
            split_char(s@, c) == pieces.deep_view() + split_char(
                s@.subrange(i as int, n as int),
                c,
            ),
        ensures
            split_char(s@, c) == pieces.deep_view(),
        decreases n - i,
    {
        let rest = s.substring_char(i, n);
        let ghost rest_view = s@.subrange(i as int, n as int);
        match find_char_index(rest, c) {
            Some(k) => {
                proof {
                    assert(rest_view.subrange(0, k as int) =~= s@.subrange(
                        i as int,
                        i as int + k as int,
                    ));
                    assert(rest_view.subrange(k as int + 1, rest_view.len() as int) =~= s@.subrange(
                        i as int + k as int + 1,
                        n as int,
                    ));
                }
                let piece = s.substring_char(i, i + k);
                let ghost before = pieces.deep_view();
                pieces.push(piece.to_owned());
                proof {
                    assert(pieces.deep_view() =~= before.push(piece@));
                    assert(pieces.deep_view() + split_char(
                        s@.subrange(i as int + k as int + 1, n as int),
                        c,
                    ) =~= before + split_char(rest_view, c));
                }
                i = i + k + 1;
            },
            None => {
                let ghost before = pieces.deep_view();
                pieces.push(rest.to_owned());
                proof {
                    assert(pieces.deep_view() =~= before.push(rest_view));
                    assert(pieces.deep_view() =~= before + split_char(rest_view, c));
                }
                break ;
            },
        }
    }
    pieces
}

/// Splits `s` into its lines, agreeing with `lines_spec`.
pub fn split_lines(s: &str) -> (r: Vec<String>)
    ensures
        r.deep_view() == lines_spec(s@),
{
    let mut pieces = split_str(s, '\n');
    if pieces.len() > 0 && pieces[pieces.len() - 1].as_str().is_empty() {
        let ghost before = pieces.deep_view();
        pieces.pop();
        proof {
            assert(pieces.deep_view() =~= before.drop_last());
        }
    }
    let kept = pieces.len();
    let ghost kept_view = pieces.deep_view();
    let mut out: Vec<String> = Vec::new();
    let mut j: usize = 0;
    while j < kept
        invariant
            j <= kept,
            kept == pieces@.len(),
            kept_view == pieces.deep_view(),
            out@.len() == j,
            forall|t: int| 0 <= t < j ==> out.deep_view()[t] == strip_cr(kept_view[t]),
        decreases kept - j,
    {
        let p = pieces[j].as_str();
        let m = p.unicode_len();
        let ghost before = out.deep_view();
        if m > 0 && p.get_char(m - 1) == '\r' {
            proof {
                assert(p@.subrange(0, m - 1) =~= p@.drop_last());
            }
            out.push(String::from_str(p.substring_char(0, m - 1)));
        } else {
            out.push(String::from_str(p));
        }
        proof {
            assert(out.deep_view() =~= before.push(strip_cr(kept_view[j as int])));
        }
        j += 1;
    }
    proof {
        assert(out.deep_view() =~= kept_view.map_values(|l: Seq<char>| strip_cr(l)));
    }
    out
}

/// Whether `c` is ASCII whitespace, the field separator in tool output.
pub open spec fn is_ascii_ws_char(c: char) -> bool {
    c == ' ' || c == '\t' || c == '\n' || c == '\u{c}' || c == '\r'
}

fn is_ascii_ws(c: char) -> (r: bool)
    ensures
        r == is_ascii_ws_char(c),
{
    c == ' ' || c == '\t' || c == '\n' || c == '\u{c}' || c == '\r'
}

/// Index of the first ASCII whitespace character in `s`, or -1.
pub open spec fn find_ws(s: Seq<char>) -> int
    decreases s.len(),
{
    if s.len() == 0 {
        -1
    } else if is_ascii_ws_char(s[0]) {
        0
    } else {
        let r = find_ws(s.drop_first());
        if r == -1 {
            -1
        } else {
            r + 1
        }
    }
}

/// `find_ws` stays within `[-1, s.len())`.
pub proof fn lemma_find_ws_bounds(s: Seq<char>)
    ensures
        -1 <= find_ws(s) < s.len(),
    decreases s.len(),
{
    if s.len() > 0 && !is_ascii_ws_char(s[0]) {
        lemma_find_ws_bounds(s.drop_first());
    }
}

/// `find_ws` returns the index of the first whitespace character.
pub proof fn lemma_find_ws_at(s: Seq<char>, i: int)
    requires
        0 <= i < s.len(),
        is_ascii_ws_char(s[i]),
        forall|j: int| 0 <= j < i ==> !is_ascii_ws_char(s[j]),
    ensures
        find_ws(s) == i,
    decreases i,
{
    if i > 0 {
        assert(s.drop_first()[i - 1] == s[i]);
        assert(forall|j: int| 0 <= j < i - 1 ==> s.drop_first()[j] == s[j + 1]);
        lemma_find_ws_at(s.drop_first(), i - 1);
    }
}

/// `find_ws` returns -1 exactly when no whitespace occurs.
pub proof fn lemma_find_ws_none(s: Seq<char>)
    requires
        forall|j: int| 0 <= j < s.len() ==> !is_ascii_ws_char(s[j]),
    ensures
        find_ws(s) == -1,
    decreases s.len(),
{
    if s.len() > 0 {
        assert(forall|j: int| 0 <= j < s.drop_first().len() ==> s.drop_first()[j] == s[j + 1]);
        lemma_find_ws_none(s.drop_first());
    }
}

/// The whitespace-separated fields of `s`, in order, each non-empty.
pub open spec fn fields_spec(s: Seq<char>) -> Seq<Seq<char>>
    decreases s.len(),
    via fields_spec_decreases
{
    if s.len() == 0 {
        Seq::empty()
    } else if is_ascii_ws_char(s[0]) {
        fields_spec(s.drop_first())
    } else {
        let k = find_ws(s);
        if k == -1 {
            seq![s]
        } else {
            seq![s.subrange(0, k)] + fields_spec(s.subrange(k, s.len() as int))
        }
    }
}

#[via_fn]
proof fn fields_spec_decreases(s: Seq<char>) {
    lemma_find_ws_bounds(s);
}

/// Splits `s` into its whitespace-separated fields, agreeing with
/// `fields_spec`.
pub fn split_fields(line: &str) -> (r: Vec<String>)
    ensures
        r.deep_view() == fields_spec(line@),
{
    let n = line.unicode_len();
    let mut out: Vec<String> = Vec::new();
    let mut i: usize = 0;
    proof {
        assert(line@.subrange(0, n as int) =~= line@);
        assert(out.deep_view() =~= Seq::<Seq<char>>::empty());
        assert(out.deep_view() + fields_spec(line@) =~= fields_spec(line@));
    }
    loop
        invariant_except_break
            i <= n,
            n == line@.len(),
            fields_spec(line@) == out.deep_view() + fields_spec(
                line@.subrange(i as int, n as int),
            ),
        ensures
            fields_spec(line@) == out.deep_view(),
        decreases n - i,
    {
        if i == n {
            proof {
                assert(line@.subrange(i as int, n as int) =~= Seq::<char>::empty());
                assert(fields_spec(Seq::<char>::empty()) =~= Seq::<Seq<char>>::empty());
                assert(out.deep_view() + Seq::<Seq<char>>::empty() =~= out.deep_view());
            }
            break ;
        }
        let c = line.get_char(i);
        if is_ascii_ws(c) {
            proof {
                let cur = line@.subrange(i as int, n as int);
                assert(cur[0] == line@[i as int]);
                assert(cur.drop_first() =~= line@.subrange(i as int + 1, n as int));
            }
            i += 1;
        } else {
            let mut j: usize = i + 1;
            loop
                invariant_except_break
                    i < j <= n,
                    n == line@.len(),
                    forall|t: int| i <= t < j ==> !is_ascii_ws_char(line@[t]),
                ensures
                    i < j <= n,
                    forall|t: int| i <= t < j ==> !is_ascii_ws_char(line@[t]),
                    j == n || is_ascii_ws_char(line@[j as int]),
                decreases n - j,
            {
                if j == n {
                    break ;
                }
                if is_ascii_ws(line.get_char(j)) {
                    break ;
                }
                j += 1;
            }
            let field = line.substring_char(i, j);
            let ghost before = out.deep_view();
            out.push(String::from_str(field));
            proof {
                let cur = line@.subrange(i as int, n as int);
                assert(forall|t: int| 0 <= t < cur.len() ==> cur[t] == line@[i + t]);
                assert(out.deep_view() =~= before.push(field@));
                if j == n {
                    lemma_find_ws_none(cur);
                    assert(fields_spec(cur) == seq![cur]);
                    assert(cur =~= field@);
                    assert(out.deep_view() + fields_spec(line@.subrange(j as int, n as int))
                        =~= before + fields_spec(cur));
                } else {
                    lemma_find_ws_at(cur, j - i);
                    assert(cur.subrange(0, j - i) =~= line@.subrange(i as int, j as int));
                    assert(cur.subrange(j - i, cur.len() as int) =~= line@.subrange(
                        j as int,
                        n as int,
                    ));
                    assert(fields_spec(cur) == seq![field@] + fields_spec(
                        line@.subrange(j as int, n as int),
                    ));
                    assert(out.deep_view() + fields_spec(line@.subrange(j as int, n as int))
                        =~= before + fields_spec(cur));
                }
            }
            i = j;
        }
    }
    out
}

/// Finds the first occurrence of `c` in `s`, agreeing with `find_char`.
pub fn find_char_index(s: &str, c: char) -> (r: Option<usize>)
    ensures
        r matches Some(i) ==> find_char(s@, c) == i as int && i < s@.len(),
        r is None ==> find_char(s@, c) == -1,
{
    let n = s.unicode_len();
    let mut i: usize = 0;
    while i < n
        invariant
            i <= n,
            n == s@.len(),
            forall|j: int| 0 <= j < i ==> s@[j] != c,
        decreases n - i,
    {
        if s.get_char(i) == c {
            proof {
                lemma_find_char_at(s@, c, i as int);
            }
            return Some(i);
        }
        i += 1;
    }
    proof {
        lemma_find_char_none(s@, c);
    }
    None
}

/// Whether `p` is a prefix of `s`.
pub open spec fn starts_with_spec(s: Seq<char>, p: Seq<char>) -> bool {
    s.len() >= p.len() && s.subrange(0, p.len() as int) == p
}

/// Whether `p` is a suffix of `s`.
pub open spec fn ends_with_spec(s: Seq<char>, p: Seq<char>) -> bool {
    s.len() >= p.len() && s.subrange(s.len() - p.len(), s.len() as int) == p
}

/// Decides `starts_with_spec`.
pub fn starts_with_str(s: &str, p: &str) -> (r: bool)
    ensures
        r == starts_with_spec(s@, p@),
{
    let n = s.unicode_len();
    let m = p.unicode_len();
    if m > n {
        return false;
    }
    str_eq(s.substring_char(0, m), p)
}

/// Decides `ends_with_spec`.
pub fn ends_with_str(s: &str, p: &str) -> (r: bool)
    ensures
        r == ends_with_spec(s@, p@),
{
    let n = s.unicode_len();
    let m = p.unicode_len();
    if m > n {
        return false;
    }
    str_eq(s.substring_char(n - m, n), p)
}

/// What stands after the prefix `p` of `s`, when `p` is one.
pub fn strip_prefix_str<'a>(s: &'a str, p: &str) -> (r: Option<&'a str>)
    ensures
        r is Some <==> starts_with_spec(s@, p@),
        r matches Some(t) ==> t@ == s@.skip(p@.len() as int),
{
    let n = s.unicode_len();
    let m = p.unicode_len();
    if starts_with_str(s, p) {
        let rest = s.substring_char(m, n);
        proof {
            assert(rest@ =~= s@.skip(p@.len() as int));
        }
        Some(rest)
    } else {
        None
    }
}

/// What stands before the suffix `p` of `s`, when `p` is one.
pub fn strip_suffix_str<'a>(s: &'a str, p: &str) -> (r: Option<&'a str>)
    ensures
        r is Some <==> ends_with_spec(s@, p@),
        r matches Some(t) ==> t@ == s@.take(s@.len() - p@.len()),
{
    let n = s.unicode_len();
    let m = p.unicode_len();
    if ends_with_str(s, p) {
        let rest = s.substring_char(0, n - m);
        proof {
            assert(rest@ =~= s@.take(s@.len() - p@.len()));
        }
        Some(rest)
    } else {
        None
    }
}

/// Index of the last occurrence of `c` in `s`, or -1.
pub open spec fn find_last_char(s: Seq<char>, c: char) -> int
    decreases s.len(),
{
    if s.len() == 0 {
        -1
    } else if s.last() == c {
        s.len() - 1
    } else {
        find_last_char(s.drop_last(), c)
    }
}

/// `find_last_char` returns the index of the last occurrence.
pub proof fn lemma_find_last_char_at(s: Seq<char>, c: char, i: int)
    requires
        0 <= i < s.len(),
        s[i] == c,
        forall|j: int| i < j < s.len() ==> s[j] != c,
    ensures
        find_last_char(s, c) == i,
    decreases s.len(),
{
    if i < s.len() - 1 {
        assert(s.drop_last()[i] == s[i]);
        assert(forall|j: int| i < j < s.drop_last().len() ==> s.drop_last()[j] == s[j]);
        lemma_find_last_char_at(s.drop_last(), c, i);
    }
}

/// `find_last_char` returns -1 exactly when `c` does not occur.
pub proof fn lemma_find_last_char_none(s: Seq<char>, c: char)
    requires
        forall|j: int| 0 <= j < s.len() ==> s[j] != c,
    ensures
        find_last_char(s, c) == -1,
    decreases s.len(),
{
    if s.len() > 0 {
        assert(forall|j: int| 0 <= j < s.drop_last().len() ==> s.drop_last()[j] == s[j]);
        lemma_find_last_char_none(s.drop_last(), c);
    }
}

/// Finds the last occurrence of `c`, agreeing with `find_last_char`.
pub fn find_last_char_index(s: &str, c: char) -> (r: Option<usize>)
    ensures
        r matches Some(i) ==> find_last_char(s@, c) == i as int && i < s@.len(),
        r is None ==> find_last_char(s@, c) == -1,
{
    let n = s.unicode_len();
    let mut e: usize = n;
    loop
        invariant_except_break
            e <= n,
            n == s@.len(),
            forall|j: int| e <= j < n ==> s@[j] != c,
        ensures
            e <= n,
            n == s@.len(),
            forall|j: int| e <= j < n ==> s@[j] != c,
            e > 0 ==> s@[e - 1] == c,
        decreases e,
    {
        if e == 0 {
            break ;
        }
        if s.get_char(e - 1) == c {
            break ;
        }
        e = e - 1;
    }
    if e == 0 {
        proof {
            lemma_find_last_char_none(s@, c);
        }
        None
    } else {
        proof {
            lemma_find_last_char_at(s@, c, e - 1);
        }
        Some(e - 1)
    }
}

/// Splits `s` at the first occurrence of `c`, when there is one: what
/// stands before it and what stands after it.
pub fn split_once_char<'a>(s: &'a str, c: char) -> (r: Option<(&'a str, &'a str)>)
    ensures
        r is Some <==> find_char(s@, c) >= 0,
        r matches Some(p) ==> p.0@ == s@.take(find_char(s@, c)) && p.1@ == s@.skip(
            find_char(s@, c) + 1,
        ),
{
    let n = s.unicode_len();
    match find_char_index(s, c) {
        Some(i) => {
            let before = s.substring_char(0, i);
            let after = s.substring_char(i + 1, n);
            proof {
                assert(before@ =~= s@.take(i as int));
                assert(after@ =~= s@.skip(i as int + 1));
            }
            Some((before, after))
        },
        None => None,
    }
}

/// Whether `c` is a decimal digit.
pub open spec fn is_digit_char(c: char) -> bool {
    '0' <= c && c <= '9'
}

/// The numeric value of a string of decimal digits, read left to right.
pub open spec fn digits_value(s: Seq<char>) -> int
    decreases s.len(),
{
    if s.len() == 0 {
        0
    } else {
        digits_value(s.drop_last()) * 10 + (s.last() as int - '0' as int)
    }
}

/// Whether `s` is one or more decimal digits.
pub open spec fn all_digits(s: Seq<char>) -> bool {
    s.len() > 0 && forall|i: int| 0 <= i < s.len() ==> is_digit_char(s[i])
}

/// A digit string's value is nonnegative.
pub proof fn lemma_digits_value_nonneg(s: Seq<char>)
    requires
        forall|i: int| 0 <= i < s.len() ==> is_digit_char(s[i]),
    ensures
        digits_value(s) >= 0,
    decreases s.len(),
{
    if s.len() > 0 {
        assert(forall|i: int| 0 <= i < s.drop_last().len() ==> s.drop_last()[i] == s[i]);
        lemma_digits_value_nonneg(s.drop_last());
    }
}

/// Reading more digits never shrinks the value.
pub proof fn lemma_digits_value_prefix(s: Seq<char>, k: int)
    requires
        forall|i: int| 0 <= i < s.len() ==> is_digit_char(s[i]),
        0 <= k <= s.len(),
    ensures
        digits_value(s.take(k)) <= digits_value(s),
    decreases s.len() - k,
{
    if k == s.len() {
        assert(s.take(k) =~= s);
    } else {
        assert(forall|i: int| 0 <= i < s.drop_last().len() ==> s.drop_last()[i] == s[i]);
        assert(s.drop_last().take(k) =~= s.take(k));
        lemma_digits_value_prefix(s.drop_last(), k);
        lemma_digits_value_nonneg(s.drop_last());
    }
}

/// What `u64` parsing accepts and yields: an optional leading plus sign,
/// then decimal digits whose value fits.
pub open spec fn parse_u64_spec(s: Seq<char>) -> Option<u64> {
    let t = if s.len() > 0 && s[0] == '+' {
        s.drop_first()
    } else {
        s
    };
    if all_digits(t) && digits_value(t) <= u64::MAX {
        Some(digits_value(t) as u64)
    } else {
        None
    }
}

/// Parses a decimal `u64`, agreeing with `parse_u64_spec`.
pub fn parse_u64(s: &str) -> (r: Option<u64>)
    ensures
        r == parse_u64_spec(s@),
{
    let n = s.unicode_len();
    let mut i: usize = 0;
    if n > 0 && s.get_char(0) == '+' {
        i = 1;
    }
    let ghost t = if s@.len() > 0 && s@[0] == '+' {
        s@.drop_first()
    } else {
        s@
    };
    proof {
        assert(t =~= s@.skip(i as int));
    }
    if i == n {
        proof {
            assert(t.len() == 0);
            assert(!all_digits(t));
        }
        return None;
    }
    let ghost start = i as int;
    let mut val: u64 = 0;
    let mut j: usize = i;
    while j < n
        invariant
            start == i,
            i <= j <= n,
            n == s@.len(),
            t == s@.skip(start),
            t == (if s@.len() > 0 && s@[0] == '+' {
                s@.drop_first()
            } else {
                s@
            }),
            i < n,
            forall|k: int| start <= k < j ==> is_digit_char(s@[k]),
            val == digits_value(s@.subrange(start, j as int)),
        decreases n - j,
    {
        let c = s.get_char(j);
        if !(c >= '0' && c <= '9') {
            proof {
                assert(t[j - start] == s@[j as int]);
                assert(!is_digit_char(t[j - start]));
                assert(!all_digits(t));
            }
            return None;
        }
        let d: u64 = (c as u32 - '0' as u32) as u64;
        let ghost pre = s@.subrange(start, j as int);
        let ghost cur = s@.subrange(start, j + 1);
        proof {
            assert(cur.drop_last() =~= pre);
            assert(cur.last() == s@[j as int]);
        }
        proof {
            assert(d as int == s@[j as int] as int - '0' as int);
            assert(digits_value(cur) == digits_value(pre) * 10 + (s@[j as int] as int
                - '0' as int));
        }
        match val.checked_mul(10) {
            Some(x) => {
                match x.checked_add(d) {
                    Some(y) => {
                        val = y;
                    },
                    None => {
                        proof {
                            assert(digits_value(cur) > u64::MAX);
                            lemma_parse_overflow(t, cur, start, j as int, s@);
                            assert(!(all_digits(t) && digits_value(t) <= u64::MAX));
                        }
                        return None;
                    },
                }
            },
            None => {
                proof {
                    assert(d >= 0);
                    assert(digits_value(cur) > u64::MAX);
                    lemma_parse_overflow(t, cur, start, j as int, s@);
                    assert(!(all_digits(t) && digits_value(t) <= u64::MAX));
                }
                return None;
            },
        }
        j += 1;
    }
    proof {
        assert(s@.subrange(start, n as int) =~= t);
        assert(all_digits(t));
    }
    Some(val)
}

proof fn lemma_parse_overflow(t: Seq<char>, cur: Seq<char>, start: int, j: int, s: Seq<char>)
    requires
        0 <= start <= j < s.len(),
        t == s.skip(start),
        cur == s.subrange(start, j + 1),
        forall|k: int| start <= k <= j ==> is_digit_char(s[k]),
        digits_value(cur) > u64::MAX,
    ensures
        !(all_digits(t) && digits_value(t) <= u64::MAX),
{
    if all_digits(t) {
        assert(forall|k: int| 0 <= k < t.len() ==> t[k] == s[start + k]);
        assert(t.take(j + 1 - start) =~= cur);
        lemma_digits_value_prefix(t, j + 1 - start);
    }
}

/// The pieces joined with `sep` between each pair.
pub open spec fn join_seq(parts: Seq<Seq<char>>, sep: Seq<char>) -> Seq<char>
    decreases parts.len(),
{
    if parts.len() == 0 {
        Seq::empty()
    } else if parts.len() == 1 {
        parts[0]
    } else {
        parts[0] + sep + join_seq(parts.drop_first(), sep)
    }
}

/// Relies on `itertools::join`: concatenates the items in order with `sep`
/// between each adjacent pair.
#[verifier::external_body]
pub(crate) fn join_words(items: &Vec<String>, sep: &str) -> (r: String)
    ensures
        r@ == join_seq(items.deep_view(), sep@),
{
    itertools::join(items, sep)
}

} // verus!
