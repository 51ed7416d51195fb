//! How texts and paths are taken apart and put together, and where the
//! program looks for its files.

use vstd::prelude::*;
use vstd::utf8::*;

use crate::backend;
use crate::backend::process::Output;
use crate::log;
use crate::path;
use crate::path::{DOT, SLASH};
use crate::text;

verus! {

// ---------------------------------------------------------------------- parts

/// The parts of a split text do not hold the separator.
pub proof fn law_parts_hold_no_separator(s: Seq<char>, sep: char, i: int)
    requires
        0 <= i < text::split(s, sep).len(),
    ensures
        !text::split(s, sep)[i].contains(sep),
    decreases s.len(),
{
    if s.len() > 0 {
        let parts = text::split(s.drop_last(), sep);
        text::lemma_split_nonempty(s.drop_last(), sep);
        if s.last() == sep {
            if i < parts.len() {
                law_parts_hold_no_separator(s.drop_last(), sep, i);
            }
        } else {
            law_parts_hold_no_separator(s.drop_last(), sep, i);
            if i == parts.len() - 1 {
                let p = parts.last();
                assert forall|k: int| 0 <= k < p.push(s.last()).len() implies p.push(s.last())[k]
                    != sep by {
                    if k < p.len() {
                        assert(p[k] != sep) by {
                            if p[k] == sep {
                                assert(p.contains(sep));
                            }
                        }
                    }
                }
            }
        }
    }
}

/// Two texts with the separator between them have the parts of the one and
/// then those of the other.
pub proof fn law_split_around_separator(a: Seq<char>, sep: char, b: Seq<char>)
    ensures
        text::split(a.push(sep) + b, sep) == text::split(a, sep) + text::split(b, sep),
    decreases b.len(),
{
    let s = a.push(sep) + b;
    if b.len() == 0 {
        assert(s =~= a.push(sep));
        assert(s.drop_last() =~= a);
        assert(text::split(s, sep) =~~= text::split(a, sep) + text::split(b, sep));
    } else {
        let c = b.drop_last();
        law_split_around_separator(a, sep, c);
        assert(s.drop_last() =~= a.push(sep) + c);
        text::lemma_split_nonempty(c, sep);
        assert(text::split(s, sep) =~~= text::split(a, sep) + text::split(b, sep));
    }
}

/// Texts are joined in their order, with the separator between any two.
pub proof fn law_join(parts: Seq<Seq<char>>, sep: Seq<char>, a: Seq<char>)
    ensures
        text::join(Seq::empty(), sep).len() == 0,
        text::join(seq![a], sep) == a,
        parts.len() > 0 ==> text::join(parts.push(a), sep) == text::join(parts, sep) + sep + a,
{
    assert(parts.push(a).drop_last() =~= parts);
}

/// A line ends at its line feed, and a carriage return before that is not
/// part of it; the lines of what follows come behind it.
pub proof fn law_lines(a: Seq<char>, b: Seq<char>)
    requires
        !a.contains('\n'),
    ensures
        ({
            let line = if a.len() > 0 && a.last() == '\r' {
                a.drop_last()
            } else {
                a
            };
            text::lines(a.push('\n') + b) == seq![line] + text::lines(b)
        }),
        text::lines(Seq::empty()).len() == 0,
        a.len() > 0 ==> text::lines(a) == seq![a],
{
    law_split_around_separator(a, '\n', b);
    text::lemma_split_single(a, '\n');
    text::lemma_split_nonempty(b, '\n');
    let s = a.push('\n') + b;
    let parts = text::split(s, '\n');
    assert(parts.drop_last() =~= seq![a] + text::split(b, '\n').drop_last());
    assert(parts.last() == text::split(b, '\n').last());
    assert(text::lines(s) =~= seq![text::strip_cr(a)] + text::lines(b));
    if a.len() > 0 {
        assert(text::lines(a) =~= seq![a]);
    }
}

/// White space parts words: the words of a text around a white space are
/// those before it and those behind it, and a text without any is one word.
pub proof fn law_words(a: Seq<char>, c: char, b: Seq<char>)
    requires
        text::is_white(c),
    ensures
        text::words(a.push(c) + b) == text::words(a) + text::words(b),
        b.len() > 0 && (forall|i: int| 0 <= i < b.len() ==> !text::is_white(#[trigger] b[i]))
            ==> text::words(b) == seq![b],
        text::words(Seq::empty()).len() == 0,
    decreases b.len(),
{
    let s = a.push(c) + b;
    if b.len() == 0 {
        assert(s =~= a.push(c));
        assert(s.drop_last() =~= a);
        assert(text::words(s) =~= text::words(a) + text::words(b));
    } else {
        let d = b.drop_last();
        law_words(a, c, d);
        assert(s.drop_last() =~= a.push(c) + d);
        if d.len() == 0 {
            assert(s.drop_last().last() == c);
        } else {
            assert(s.drop_last().last() == d.last());
            if !text::is_white(d.last()) {
                lemma_some_word(d);
            }
        }
        assert(text::words(s) =~~= text::words(a) + text::words(b));
        if text::solid(b) {
            text::lemma_words_append(Seq::empty(), b);
            assert(Seq::<char>::empty() + b =~= b);
            assert(text::words(b) =~= seq![b]);
        }
    }
}

proof fn lemma_some_word(s: Seq<char>)
    requires
        s.len() > 0,
        !text::is_white(s.last()),
    ensures
        text::words(s).len() > 0,
    decreases s.len(),
{
}

// ------------------------------------------------------------------- trimming

proof fn lemma_trim_start(s: Seq<char>)
    ensures
        ({
            let n = s.len() - text::trim_start(s).len();
            &&& 0 <= n <= s.len()
            &&& text::trim_start(s) == s.skip(n)
            &&& forall|k: int| 0 <= k < n ==> text::is_white(#[trigger] s[k])
            &&& n < s.len() ==> !text::is_white(s[n])
        }),
    decreases s.len(),
{
    if s.len() > 0 && text::is_white(s[0]) {
        let t = s.drop_first();
        lemma_trim_start(t);
        let n = t.len() - text::trim_start(t).len();
        assert(t.skip(n) =~= s.skip(n + 1));
        assert forall|k: int| 0 <= k < n + 1 implies text::is_white(#[trigger] s[k]) by {
            if k > 0 {
                assert(t[k - 1] == s[k]);
            }
        }
        if n < t.len() {
            assert(t[n] == s[n + 1]);
        }
    } else {
        assert(s.skip(0) =~= s);
    }
}

proof fn lemma_trim_end(s: Seq<char>)
    ensures
        ({
            let n = text::trim_end(s).len() as int;
            &&& 0 <= n <= s.len()
            &&& text::trim_end(s) == s.take(n)
            &&& forall|k: int| n <= k < s.len() ==> text::is_white(#[trigger] s[k])
            &&& n > 0 ==> !text::is_white(s[n - 1])
        }),
    decreases s.len(),
{
    if s.len() > 0 && text::is_white(s.last()) {
        let t = s.drop_last();
        lemma_trim_end(t);
        let n = text::trim_end(t).len() as int;
        assert(t.take(n) =~= s.take(n));
        assert forall|k: int| n <= k < s.len() implies text::is_white(#[trigger] s[k]) by {
            if k < t.len() {
                assert(t[k] == s[k]);
            }
        }
    } else {
        assert(s.take(s.len() as int) =~= s);
    }
}

/// Trimming takes white space away at both ends and nothing else: what is
/// left is a stretch of the text that neither begins nor ends with white
/// space, and around it there is only white space.
pub proof fn law_trim(s: Seq<char>)
    ensures
        exists|i: int, j: int|
            0 <= i <= j <= s.len() && text::trim(s) == #[trigger] s.subrange(i, j) && (forall|k: int|
                (0 <= k < i || j <= k < s.len()) ==> text::is_white(#[trigger] s[k])) && (i < j
                ==> !text::is_white(s[i]) && !text::is_white(s[j - 1])),
{
    lemma_trim_start(s);
    let t = text::trim_start(s);
    let i = s.len() - t.len();
    lemma_trim_end(t);
    let j = i + text::trim_end(t).len();
    assert(text::trim(s) =~= s.subrange(i, j));
    assert forall|k: int| (0 <= k < i || j <= k < s.len()) implies text::is_white(
        #[trigger] s[k],
    ) by {
        if k >= j {
            assert(t[k - i] == s[k]);
        }
    }
    if i < j {
        assert(t[j - i - 1] == s[j - 1]);
        assert(t[0] == s[i]);
    }
}

/// Tabs, line ends and spaces are white space; letters, digits and signs are
/// not.
pub proof fn law_white_space(c: char)
    ensures
        c == ' ' || c == '\t' || c == '\n' || c == '\r' ==> text::is_white(c),
        '!' <= c <= '~' ==> !text::is_white(c),
{
}

/// A text that begins with a pattern is stripped of it, and again, until it
/// does not begin with it any more.
pub proof fn law_strip_pattern(s: Seq<char>, pat: Seq<char>)
    requires
        pat.len() > 0,
    ensures
        text::trim_start_matches(pat + s, pat) == text::trim_start_matches(s, pat),
        !pat.is_prefix_of(s) ==> text::trim_start_matches(s, pat) == s,
        text::trim_end_matches(s + pat, pat) == text::trim_end_matches(s, pat),
        !pat.is_suffix_of(s) ==> text::trim_end_matches(s, pat) == s,
{
    let n = pat.len() as int;
    assert((pat + s).subrange(0, n) =~= pat);
    assert((pat + s).skip(n) =~= s);
    assert((s + pat).subrange(s.len() as int, s.len() + n) =~= pat);
    assert((s + pat).take(s.len() as int) =~= s);
    if text::starts_with(s, pat) {
        assert(pat =~= s.subrange(0, n));
    }
    if text::matches_at(s, pat, s.len() - n) {
        assert(pat =~= s.subrange(s.len() - n, s.len() as int));
    }
}

/// A pattern stands in every text that is put together around it, and at the
/// beginning of every text that begins with it; it does not stand in a
/// shorter text.
pub proof fn law_find_pattern(a: Seq<char>, pat: Seq<char>, b: Seq<char>)
    ensures
        text::contains_text(a + pat + b, pat),
        text::starts_with(pat + b, pat),
        a.len() < pat.len() ==> !text::contains_text(a, pat) && !text::starts_with(a, pat),
        text::starts_with(a, pat) ==> a.take(pat.len() as int) == pat,
{
    assert((a + pat + b).subrange(a.len() as int, (a.len() + pat.len()) as int) =~= pat);
    assert(text::matches_at(a + pat + b, pat, a.len() as int));
    assert((pat + b).subrange(0, pat.len() as int) =~= pat);
    if text::starts_with(a, pat) {
        assert(a.take(pat.len() as int) =~= a.subrange(0, pat.len() as int));
    }
}

/// Padding fills a text up to a width, on the left with what is asked for, on
/// the right with spaces; a text that is long enough stays as it is.
pub proof fn law_padding(s: Seq<char>, width: nat, fill: char, k: int)
    ensures
        s.len() >= width ==> text::pad_left(s, width, fill) == s && text::pad_right(s, width) == s,
        s.len() < width ==> {
            let l = text::pad_left(s, width, fill);
            let r = text::pad_right(s, width);
            &&& l.len() == width && r.len() == width
            &&& s.is_suffix_of(l) && s.is_prefix_of(r)
            &&& 0 <= k < width - s.len() ==> l[k] == fill && r[s.len() + k] == ' '
        },
{
    if s.len() < width {
        let l = text::pad_left(s, width, fill);
        let r = text::pad_right(s, width);
        assert(l.subrange(l.len() - s.len(), l.len() as int) =~= s);
        assert(r.subrange(0, s.len() as int) =~= s);
    }
}

/// Capital letters become small ones; nothing else changes.
pub proof fn law_lower(s: Seq<char>, i: int)
    requires
        0 <= i < s.len(),
    ensures
        text::lower(s).len() == s.len(),
        'A' <= s[i] <= 'Z' ==> text::lower(s)[i] as int == s[i] as int + ('a' as int - 'A' as int),
        !('A' <= s[i] <= 'Z') ==> text::lower(s)[i] == s[i],
{
}

// -------------------------------------------------------------------- numbers

/// A number is read from its digits, with or without a plus sign, unless it is
/// larger than allowed; nothing is read from an empty text, nor from one with
/// anything but digits behind its first character.
pub proof fn law_numbers_are_read(n: nat, max: nat, s: Seq<char>, i: int)
    ensures
        n <= max ==> text::parse_dec(text::dec(n), max) == Some(n),
        n <= max ==> text::parse_dec(seq!['+'] + text::dec(n), max) == Some(n),
        n > max ==> text::parse_dec(text::dec(n), max) is None,
        text::parse_dec(Seq::empty(), max) is None,
        text::parse_dec(seq!['+'], max) is None,
        0 <= i < s.len() && !('0' <= s[i] <= '9') && !(i == 0 && s[i] == '+') ==> text::parse_dec(
            s,
            max,
        ) is None,
{
    text::law_number_round_trip(n, n);
    text::lemma_dec_no_sign(n);
    assert((seq!['+'] + text::dec(n)).drop_first() =~= text::dec(n));
    assert(seq!['+'].drop_first() =~= Seq::empty());
    if 0 <= i < s.len() && !('0' <= s[i] <= '9') && !(i == 0 && s[i] == '+') {
        if s[0] == '+' {
            assert(s.drop_first()[i - 1] == s[i]);
        }
    }
}

// ---------------------------------------------------------------------- order

/// Texts are in the order of a dictionary: the empty text comes first, a
/// smaller first character comes before a larger one, and behind a common
/// beginning the rest decides.
pub proof fn law_dictionary_order(p: Seq<char>, a: Seq<char>, b: Seq<char>)
    ensures
        text::lex_le(Seq::empty(), b),
        a.len() > 0 ==> !text::lex_le(a, Seq::empty()),
        a.len() > 0 && b.len() > 0 && a[0] < b[0] ==> text::lex_le(a, b) && !text::lex_le(b, a),
        text::lex_le(p + a, p + b) == text::lex_le(a, b),
    decreases p.len(),
{
    if p.len() == 0 {
        assert(p + a =~= a);
        assert(p + b =~= b);
    } else {
        let q = p.drop_first();
        law_dictionary_order(q, a, b);
        assert((p + a).drop_first() =~= q + a);
        assert((p + b).drop_first() =~= q + b);
    }
}

/// The first place of a text in a list is the first: it is there, and nowhere
/// before.
pub proof fn law_first_place(list: Seq<Seq<char>>, s: Seq<char>)
    ensures
        match text::first_at(list, s) {
            Some(i) => 0 <= i < list.len() && list[i] == s && forall|j: int|
                0 <= j < i ==> #[trigger] list[j] != s,
            None => forall|j: int| 0 <= j < list.len() ==> #[trigger] list[j] != s,
        },
    decreases list.len(),
{
    if list.len() > 0 {
        let init = list.drop_last();
        law_first_place(init, s);
        assert forall|j: int| 0 <= j < init.len() implies #[trigger] list[j] == init[j] by {}
    }
}

/// A list that was put in order holds what it held, and each of its texts
/// comes no later than those behind it.
pub proof fn law_lists_in_order(r: Seq<Seq<char>>, v: Seq<Seq<char>>, i: int, j: int)
    requires
        text::sorted_from(r, v),
        0 <= i <= j < r.len(),
    ensures
        text::lex_le(r[i], r[j]),
        r.len() == v.len(),
        v.contains(r[i]),
{
    r.to_multiset_ensures();
    v.to_multiset_ensures();
    assert(r.contains(r[i]));
    assert(r.to_multiset().count(r[i]) > 0);
}

// ---------------------------------------------------------------------- paths

/// A name that stands for a file in its directory.
pub open spec fn plain_name(name: Seq<u8>) -> bool {
    &&& name.len() > 0
    &&& !name.contains(SLASH)
    &&& name != seq![DOT]
    &&& name != seq![DOT, DOT]
}

/// A directory without a slash, or a slash and a dot, at its end.
pub open spec fn plain_dir(dir: Seq<u8>) -> bool {
    &&& dir.len() > 0
    &&& dir.last() != SLASH
    &&& !(dir.len() >= 2 && dir.last() == DOT && dir[dir.len() - 2] == SLASH)
}

proof fn lemma_base(d: Seq<u8>, n: Seq<u8>)
    requires
        d.len() == 0 || d.last() == SLASH,
        !n.contains(SLASH),
    ensures
        path::base_start(d + n) == d.len(),
    decreases n.len(),
{
    let p = d + n;
    if n.len() == 0 {
        assert(p =~= d);
    } else {
        let m = n.drop_last();
        assert(n[n.len() - 1] != SLASH) by {
            if n[n.len() - 1] == SLASH {
                assert(n.contains(SLASH));
            }
        }
        assert(!m.contains(SLASH)) by {
            if m.contains(SLASH) {
                let i = choose|i: int| 0 <= i < m.len() && m[i] == SLASH;
                assert(n[i] == SLASH);
            }
        }
        lemma_base(d, m);
        assert(p.drop_last() =~= d + m);
    }
}

proof fn lemma_clean(d: Seq<u8>, n: Seq<u8>)
    requires
        plain_name(n),
    ensures
        path::clean_end(d + n) == d + n,
{
    let p = d + n;
    assert(n[n.len() - 1] != SLASH) by {
        if n[n.len() - 1] == SLASH {
            assert(n.contains(SLASH));
        }
    }
    if p.len() >= 2 && p.last() == DOT && p[p.len() - 2] == SLASH {
        if n.len() == 1 {
            assert(n =~= seq![DOT]);
        } else {
            assert(n[n.len() - 2] == SLASH);
            assert(n.contains(SLASH));
        }
    }
}

/// A name in a directory is the directory, a slash and the name; a name that
/// begins with a slash stands for itself.
pub proof fn law_names_in_directories(dir: Seq<u8>, name: Seq<u8>)
    requires
        plain_dir(dir),
        name.len() > 0,
    ensures
        name[0] == SLASH ==> path::join_path(dir, name) == name,
        name[0] != SLASH ==> path::join_path(dir, name) == dir + seq![SLASH] + name,
        name[0] != SLASH ==> path::join_path(seq![SLASH], name) == seq![SLASH] + name,
{
    assert(dir.push(SLASH) =~= dir + seq![SLASH]);
}

/// What was put together comes apart again: the path of a name in a directory
/// has that name and lies in that directory.
pub proof fn law_paths_come_apart(dir: Seq<u8>, name: Seq<u8>)
    requires
        plain_name(name),
        plain_dir(dir),
    ensures
        path::file_name(path::join_path(dir, name)) == Some(name),
        path::parent(path::join_path(dir, name)) == Some(dir),
{
    assert(name[0] != SLASH) by {
        if name[0] == SLASH {
            assert(name.contains(SLASH));
        }
    }
    let d = dir.push(SLASH);
    let p = path::join_path(dir, name);
    assert(p =~= d + name);
    lemma_clean(d, name);
    lemma_base(d, name);
    assert(p.skip(d.len() as int) =~= name);
    assert(p.take(d.len() as int) =~= d);
    assert(d.drop_last() =~= dir);
    assert(path::clean_end(d) == path::clean_end(dir));
    assert(path::clean_end(dir) == dir);
}

/// The extension of a name is what stands behind its last dot, and the stem
/// is what stands before it.
pub proof fn law_extensions(stem: Seq<u8>, ext: Seq<u8>)
    requires
        stem.len() > 0,
        !ext.contains(DOT),
    ensures
        path::extension_of(stem.push(DOT) + ext) == Some(ext),
        path::stem_of(stem.push(DOT) + ext) == stem,
{
    lemma_last_dot(stem, ext);
    let name = stem.push(DOT) + ext;
    assert(name.take(stem.len() as int) =~= stem);
    assert(name.skip(stem.len() as int + 1) =~= ext);
}

proof fn lemma_last_dot(stem: Seq<u8>, ext: Seq<u8>)
    requires
        stem.len() > 0,
        !ext.contains(DOT),
    ensures
        path::dot_at(stem.push(DOT) + ext) == stem.len(),
    decreases ext.len(),
{
    let name = stem.push(DOT) + ext;
    if ext.len() > 0 {
        let e = ext.drop_last();
        assert(ext[ext.len() - 1] != DOT) by {
            if ext[ext.len() - 1] == DOT {
                assert(ext.contains(DOT));
            }
        }
        assert(!e.contains(DOT)) by {
            if e.contains(DOT) {
                let i = choose|i: int| 0 <= i < e.len() && e[i] == DOT;
                assert(ext[i] == DOT);
            }
        }
        lemma_last_dot(stem, e);
        assert(name.drop_last() =~= stem.push(DOT) + e);
    } else {
        assert(name =~= stem.push(DOT));
    }
}

proof fn lemma_name_with_ext(stem: Seq<u8>, ext: Seq<u8>)
    requires
        stem.len() > 0,
        !stem.contains(SLASH),
        ext.len() > 0,
        !ext.contains(SLASH),
    ensures
        plain_name(stem.push(DOT) + ext),
        (stem.push(DOT) + ext)[0] != SLASH,
{
    let n = stem.push(DOT) + ext;
    if n.contains(SLASH) {
        let i = choose|i: int| 0 <= i < n.len() && n[i] == SLASH;
        if i < stem.len() {
            assert(stem[i] == SLASH);
        } else if i > stem.len() {
            assert(ext[i - stem.len() - 1] == SLASH);
        }
    }
    assert(n.len() >= 3);
    assert(n[0] == stem[0]);
    if stem[0] == SLASH {
        assert(stem.contains(SLASH));
    }
}

/// Another extension takes the place of the one that a file has, and nothing
/// else of the path changes.
pub proof fn law_other_extension(dir: Seq<u8>, stem: Seq<u8>, ext: Seq<u8>, other: Seq<u8>)
    requires
        plain_dir(dir),
        stem.len() > 0,
        !stem.contains(SLASH),
        ext.len() > 0,
        !ext.contains(SLASH),
        !ext.contains(DOT),
        other.len() > 0,
        !other.contains(SLASH),
    ensures
        path::with_ext(path::join_path(dir, stem.push(DOT) + ext), other) == path::join_path(
            dir,
            stem.push(DOT) + other,
        ),
{
    let a = stem.push(DOT) + ext;
    let b = stem.push(DOT) + other;
    lemma_name_with_ext(stem, ext);
    lemma_name_with_ext(stem, other);
    law_paths_come_apart(dir, a);
    law_extensions(stem, ext);
    let d = dir.push(SLASH);
    let p = path::join_path(dir, a);
    assert(p =~= d + a);
    lemma_clean(d, a);
    lemma_base(d, a);
    assert(p.take(d.len() as int) =~= d);
    assert((d + stem).push(DOT) + other =~= d + b);
}

/// The cleaned version of an image lies beside it, under a name that says so.
pub proof fn law_clean_version_is_beside(dir: Seq<u8>, stem: Seq<u8>, ext: Seq<u8>)
    requires
        plain_dir(dir),
        stem.len() > 0,
        !stem.contains(SLASH),
        ext.len() > 0,
        !ext.contains(SLASH),
        !ext.contains(DOT),
    ensures
        path::clean_variant_of(path::join_path(dir, stem.push(DOT) + ext)) == path::join_path(
            dir,
            encode_utf8(path::lossy(stem) + "_clean."@ + path::lossy(ext)),
        ),
{
    lemma_name_with_ext(stem, ext);
    law_paths_come_apart(dir, stem.push(DOT) + ext);
    law_extensions(stem, ext);
}

/// Of several places, the first one at which there is a file is taken.
pub proof fn law_first_file_is_taken(places: Seq<Seq<u8>>, is_file: Seq<bool>, k: int)
    requires
        places.len() == is_file.len(),
        0 <= k < places.len(),
        is_file[k],
        forall|j: int| 0 <= j < k ==> !#[trigger] is_file[j],
    ensures
        path::first_file(places, is_file) == Some(places[k]),
    decreases places.len(),
{
    if k > 0 {
        assert(!is_file[0]);
        let p = places.skip(1);
        let f = is_file.skip(1);
        assert forall|j: int| 0 <= j < k - 1 implies !#[trigger] f[j] by {
            assert(!is_file[j + 1]);
        }
        law_first_file_is_taken(p, f, k - 1);
    }
}

/// Where there is a file at none of several places, none is taken.
pub proof fn law_no_file_is_taken(places: Seq<Seq<u8>>, is_file: Seq<bool>)
    requires
        places.len() == is_file.len(),
        forall|j: int| 0 <= j < is_file.len() ==> !#[trigger] is_file[j],
    ensures
        path::first_file(places, is_file) is None,
    decreases places.len(),
{
    if places.len() > 0 {
        assert(!is_file[0]);
        let f = is_file.skip(1);
        assert forall|j: int| 0 <= j < f.len() implies !#[trigger] f[j] by {
            assert(!is_file[j + 1]);
        }
        law_no_file_is_taken(places.skip(1), f);
    }
}

// --------------------------------------------------------------------- places

/// A program whose name holds a slash is looked for there and nowhere else;
/// any other is looked for in each directory, in their order.
pub proof fn law_where_programs_are(name: Seq<char>, dirs: Seq<Seq<u8>>, i: int)
    requires
        0 <= i < dirs.len(),
    ensures
        name.contains('/') ==> backend::program_places(name, dirs) == seq![encode_utf8(name)],
        !name.contains('/') ==> {
            &&& backend::program_places(name, dirs).len() == dirs.len()
            &&& backend::program_places(name, dirs)[i] == path::join_path(
                dirs[i],
                encode_utf8(name),
            )
        },
{
}

/// The state of the program is kept in a directory of its own, where the
/// environment says, else below the home directory, else below `/tmp`; the
/// log is in it.
pub proof fn law_where_state_is(xdg: Option<Seq<u8>>, home: Option<Seq<u8>>)
    ensures
        ({
            let own = encode_utf8("auto-scanner-ocr"@);
            let place = log::state_place(xdg, home);
            &&& xdg matches Some(x) ==> place == path::join_path(x, own)
            &&& xdg is None && home is Some ==> place == path::join_path(
                path::join_path(home->0, encode_utf8(".local/state"@)),
                own,
            )
            &&& xdg is None && home is None ==> place == path::join_path(encode_utf8("/tmp"@), own)
            &&& log::log_place(xdg, home) == path::join_path(
                place,
                encode_utf8("auto-scanner-ocr"@ + ".log"@),
            )
        }),
{
}

/// The log has a line with the command and whether it succeeded, and then one
/// for each of its two outputs that is not empty, each under its own name.
pub proof fn law_log_of_command(cmd: Seq<Seq<char>>, out: Output)
    requires
        out.stdout@.len() <= 2000,
        out.stderr@.len() <= 2000,
    ensures
        ({
            let lines = log::command_lines(cmd, out);
            let n = lines.len() as int;
            &&& lines[0] == text::join(cmd, " "@) + " rc-success="@ + (if out.success {
                "true"@
            } else {
                "false"@
            })
            &&& out.stdout@.len() > 0 ==> lines[1] == "stdout: "@ + path::lossy(out.stdout@)
            &&& out.stderr@.len() > 0 ==> lines[n - 1] == "stderr: "@ + path::lossy(out.stderr@)
            &&& n == 1 + (if out.stdout@.len() > 0 {
                1int
            } else {
                0
            }) + (if out.stderr@.len() > 0 {
                1int
            } else {
                0
            })
        }),
{
    assert(out.stdout@.skip(0) =~= out.stdout@);
    assert(out.stderr@.skip(0) =~= out.stderr@);
}

} // verus!
