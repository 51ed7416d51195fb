//! Text: the string operations the rest of the library is built from, each
//! stated over sequences of characters.

use vstd::prelude::*;

verus! {

/// `String::push` appends one character.
pub assume_specification[ String::push ](s: &mut String, c: char)
    ensures
        final(s)@ == old(s)@.push(c),
;

// ---------------------------------------------------------------- numbers

/// The decimal digit `d` as a character.
pub open spec fn digit(d: nat) -> char {
    (('0' as u32) + d) as char
}

/// `n` in decimal, without leading zeros.
pub open spec fn dec(n: nat) -> Seq<char>
    decreases n,
{
    if n < 10 {
        seq![digit(n)]
    } else {
        dec(n / 10).push(digit(n % 10))
    }
}

/// `n` in decimal, with a minus sign when negative.
pub open spec fn dec_int(n: int) -> Seq<char> {
    if n < 0 {
        seq!['-'] + dec((-n) as nat)
    } else {
        dec(n as nat)
    }
}

/// `s` preceded by as many `fill` as it takes to reach `width` characters.
pub open spec fn pad_left(s: Seq<char>, width: nat, fill: char) -> Seq<char> {
    if s.len() >= width {
        s
    } else {
        Seq::new((width - s.len()) as nat, |i: int| fill) + s
    }
}

/// `s` followed by as many spaces as it takes to reach `width` characters.
pub open spec fn pad_right(s: Seq<char>, width: nat) -> Seq<char> {
    if s.len() >= width {
        s
    } else {
        s + Seq::new((width - s.len()) as nat, |i: int| ' ')
    }
}

fn digit_char(d: u64) -> (c: char)
    requires
        d < 10,
    ensures
        c == digit(d as nat),
{
    match d {
        0 => '0',
        1 => '1',
        2 => '2',
        3 => '3',
        4 => '4',
        5 => '5',
        6 => '6',
        7 => '7',
        8 => '8',
        _ => '9',
    }
}

/// `n` in decimal.
pub fn u64_text(n: u64) -> (s: String)
    ensures
        s@ == dec(n as nat),
    decreases n,
{
    if n < 10 {
        let mut s = String::new();
        s.push(digit_char(n));
        assert(s@ =~= seq![digit(n as nat)]);
        s
    } else {
        let mut s = u64_text(n / 10);
        s.push(digit_char(n % 10));
        s
    }
}

/// `n` in decimal, with a minus sign when negative.
pub fn i32_text(n: i32) -> (s: String)
    ensures
        s@ == dec_int(n as int),
{
    if n < 0 {
        let m: i64 = -(n as i64);
        let digits = u64_text(m as u64);
        let mut s = String::new();
        s.push('-');
        s.append(digits.as_str());
        assert(s@ =~= seq!['-'] + dec((-n) as nat));
        s
    } else {
        u64_text(n as u64)
    }
}

// ------------------------------------------------------------- characters

/// The characters of `s`.
pub fn chars_of(s: &str) -> (v: Vec<char>)
    ensures
        v@ == s@,
{
    let mut v: Vec<char> = Vec::new();
    for c in it: s.chars()
        invariant
            v@ == it.seq().take(it.index()),
    {
        v.push(c);
        assert(it.seq().take(it.index() + 1) =~= it.seq().take(it.index()).push(c));
    }
    assert(v@ =~= s@);
    v
}

/// The string made of the characters `v[from..to]`.
pub fn string_of(v: &[char], from: usize, to: usize) -> (s: String)
    requires
        from <= to <= v@.len(),
    ensures
        s@ == v@.subrange(from as int, to as int),
{
    let mut s = String::new();
    let mut i: usize = from;
    while i < to
        invariant
            from <= i <= to <= v@.len(),
            s@ == v@.subrange(from as int, i as int),
        decreases to - i,
    {
        s.push(v[i]);
        assert(v@.subrange(from as int, i + 1) =~= v@.subrange(from as int, i as int).push(
            v@[i as int],
        ));
        i = i + 1;
    }
    s
}

/// Whether two texts hold the same characters.
pub fn same(a: &str, b: &str) -> (r: bool)
    ensures
        r == (a@ == b@),
{
    a.to_owned() == b.to_owned()
}

/// White space in the sense of the Unicode `White_Space` property.
pub open spec fn is_white(c: char) -> bool {
    let u = c as u32;
    ||| 0x09 <= u <= 0x0d
    ||| u == 0x20
    ||| u == 0x85
    ||| u == 0xa0
    ||| u == 0x1680
    ||| 0x2000 <= u <= 0x200a
    ||| u == 0x2028
    ||| u == 0x2029
    ||| u == 0x202f
    ||| u == 0x205f
    ||| u == 0x3000
}

/// Whether `c` is white space.
pub fn white(c: char) -> (r: bool)
    ensures
        r == is_white(c),
{
    let u: u32 = c as u32;
    (0x09 <= u && u <= 0x0d) || u == 0x20 || u == 0x85 || u == 0xa0 || u == 0x1680 || (0x2000 <= u
        && u <= 0x200a) || u == 0x2028 || u == 0x2029 || u == 0x202f || u == 0x205f || u == 0x3000
}

/// `c` with `A`-`Z` mapped to `a`-`z`.
pub open spec fn lower_char(c: char) -> char {
    if 'A' <= c <= 'Z' {
        ((c as u32) + 32) as char
    } else {
        c
    }
}

/// `s` with `A`-`Z` mapped to `a`-`z`.
pub open spec fn lower(s: Seq<char>) -> Seq<char> {
    s.map_values(|c: char| lower_char(c))
}

fn to_lower_char(c: char) -> (r: char)
    ensures
        r == lower_char(c),
{
    if 'A' <= c && c <= 'Z' {
        (c as u8 + 32) as char
    } else {
        c
    }
}

/// `s` with `A`-`Z` mapped to `a`-`z`.
pub fn to_lower(s: &str) -> (r: String)
    ensures
        r@ == lower(s@),
{
    let v = chars_of(s);
    let mut r = String::new();
    let mut i: usize = 0;
    while i < v.len()
        invariant
            i <= v@.len(),
            r@ == lower(v@).take(i as int),
        decreases v@.len() - i,
    {
        r.push(to_lower_char(v[i]));
        assert(lower(v@).take(i + 1) =~= lower(v@).take(i as int).push(lower_char(v@[i as int])));
        i = i + 1;
    }
    assert(lower(v@).take(v@.len() as int) =~= lower(v@));
    r
}

// ------------------------------------------------------------------ lists

/// The texts that a list of strings holds.
pub open spec fn texts(v: Seq<String>) -> Seq<Seq<char>> {
    v.map_values(|s: String| s@)
}

/// A copy of a list of strings.
pub fn copy_texts(v: &[String]) -> (r: Vec<String>)
    ensures
        texts(r@) == texts(v@),
{
    let mut r: Vec<String> = Vec::new();
    let mut i: usize = 0;
    while i < v.len()
        invariant
            i <= v@.len(),
            r@ == v@.take(i as int),
        decreases v@.len() - i,
    {
        r.push(v[i].clone());
        assert(v@.take(i + 1) =~= v@.take(i as int).push(v@[i as int]));
        i = i + 1;
    }
    assert(v@.take(v@.len() as int) =~= v@);
    r
}

/// Whether one of the strings of `v` holds the text `s`.
pub fn has_text(v: &[String], s: &str) -> (r: bool)
    ensures
        r == texts(v@).contains(s@),
{
    let mut i: usize = 0;
    while i < v.len()
        invariant
            i <= v@.len(),
            forall|j: int| 0 <= j < i ==> texts(v@)[j] != s@,
        decreases v@.len() - i,
    {
        if same(v[i].as_str(), s) {
            assert(texts(v@)[i as int] == s@);
            return true;
        }
        i = i + 1;
    }
    false
}

/// The first position at which the list holds `s`.
pub open spec fn first_at(list: Seq<Seq<char>>, s: Seq<char>) -> Option<int>
    decreases list.len(),
{
    if list.len() == 0 {
        None
    } else {
        match first_at(list.drop_last(), s) {
            Some(i) => Some(i),
            None => if list.last() == s {
                Some(list.len() - 1)
            } else {
                None
            },
        }
    }
}

/// The first position at which `v` holds the text `s`.
pub fn position_of(v: &[String], s: &str) -> (r: Option<usize>)
    ensures
        match r {
            Some(i) => first_at(texts(v@), s@) == Some(i as int) && i < v@.len() && texts(
                v@,
            )[i as int] == s@,
            None => first_at(texts(v@), s@) is None && !texts(v@).contains(s@),
        },
{
    let mut i: usize = 0;
    while i < v.len()
        invariant
            i <= v@.len(),
            first_at(texts(v@).take(i as int), s@) is None,
            forall|j: int| 0 <= j < i ==> texts(v@)[j] != s@,
        decreases v@.len() - i,
    {
        let ghost t = texts(v@);
        assert(t.take(i + 1).drop_last() =~= t.take(i as int));
        if same(v[i].as_str(), s) {
            proof {
                lemma_first_at_prefix(t, i + 1, s@);
            }
            return Some(i);
        }
        i = i + 1;
    }
    assert(texts(v@).take(i as int) =~= texts(v@));
    None
}

proof fn lemma_first_at_prefix(list: Seq<Seq<char>>, n: int, s: Seq<char>)
    requires
        0 <= n <= list.len(),
        first_at(list.take(n), s) is Some,
    ensures
        first_at(list, s) == first_at(list.take(n), s),
    decreases list.len(),
{
    if n == list.len() {
        assert(list.take(n) =~= list);
    } else {
        assert(list.drop_last().take(n) =~= list.take(n));
        lemma_first_at_prefix(list.drop_last(), n, s);
    }
}

/// The parts of a text between occurrences of `sep`: one more part than
/// there are separators.
pub open spec fn split(s: Seq<char>, sep: char) -> Seq<Seq<char>>
    decreases s.len(),
{
    if s.len() == 0 {
        seq![Seq::<char>::empty()]
    } else {
        let parts = split(s.drop_last(), sep);
        if s.last() == sep {
            parts.push(Seq::empty())
        } else {
            parts.update(parts.len() - 1, parts.last().push(s.last()))
        }
    }
}

/// The texts of `parts` with `sep` between them.
pub open spec fn join(parts: Seq<Seq<char>>, sep: Seq<char>) -> Seq<char>
    decreases parts.len(),
{
    if parts.len() == 0 {
        Seq::empty()
    } else if parts.len() == 1 {
        parts[0]
    } else {
        join(parts.drop_last(), sep) + sep + parts.last()
    }
}

pub proof fn lemma_split_nonempty(s: Seq<char>, sep: char)
    ensures
        split(s, sep).len() >= 1,
    decreases s.len(),
{
    if s.len() > 0 {
        lemma_split_nonempty(s.drop_last(), sep);
    }
}

/// Joining the parts of a split text with the separator gives the text back.
pub proof fn law_join_split(s: Seq<char>, sep: char)
    ensures
        join(split(s, sep), seq![sep]) == s,
    decreases s.len(),
{
    if s.len() == 0 {
        assert(join(split(s, sep), seq![sep]) =~= s);
    } else {
        let t = s.drop_last();
        let parts = split(t, sep);
        lemma_split_nonempty(t, sep);
        law_join_split(t, sep);
        assert(s =~= t.push(s.last()));
        if s.last() == sep {
            let all = parts.push(Seq::empty());
            assert(all.drop_last() =~= parts);
            assert(join(all, seq![sep]) =~= t + seq![sep] + Seq::<char>::empty());
            assert(join(all, seq![sep]) =~= s);
        } else {
            let last = parts.last().push(s.last());
            let all = parts.update(parts.len() - 1, last);
            assert(all.drop_last() =~= parts.drop_last());
            if parts.len() == 1 {
                assert(join(all, seq![sep]) =~= s);
            } else {
                let head = join(parts.drop_last(), seq![sep]) + seq![sep];
                assert(t =~= head + parts.last());
                assert(join(all, seq![sep]) =~= head + last);
                assert(head + last =~= s);
            }
        }
    }
}

/// The parts of `s` between occurrences of `sep`.
pub fn split_text(s: &str, sep: char) -> (r: Vec<String>)
    ensures
        texts(r@) == split(s@, sep),
        r@.len() >= 1,
{
    let v = chars_of(s);
    let mut r: Vec<String> = Vec::new();
    let mut cur = String::new();
    let ghost mut done: Seq<Seq<char>> = Seq::empty();
    let mut i: usize = 0;
    assert(texts(r@) =~= done);
    assert(split(v@.take(0), sep) =~= done.push(cur@));
    while i < v.len()
        invariant
            i <= v@.len(),
            texts(r@) == done,
            split(v@.take(i as int), sep) == done.push(cur@),
        decreases v@.len() - i,
    {
        let c = v[i];
        let ghost before = v@.take(i as int);
        let ghost after = v@.take(i + 1);
        assert(after.drop_last() =~= before);
        assert(after.last() == c);
        let ghost parts = done.push(cur@);
        if c == sep {
            r.push(cur);
            cur = String::new();
            proof {
                done = parts;
            }
            assert(texts(r@) =~= done);
            assert(split(after, sep) =~= done.push(cur@));
        } else {
            cur.push(c);
            assert(split(after, sep) =~= done.push(cur@));
        }
        i = i + 1;
    }
    assert(v@.take(v@.len() as int) =~= v@);
    let ghost last = cur@;
    r.push(cur);
    assert(texts(r@) =~= done.push(last));
    r
}

/// The strings of `parts` with `sep` between them.
pub fn join_texts(parts: &[String], sep: &str) -> (r: String)
    ensures
        r@ == join(texts(parts@), sep@),
{
    let mut r = String::new();
    let mut i: usize = 0;
    let ghost t = texts(parts@);
    while i < parts.len()
        invariant
            i <= parts@.len(),
            t == texts(parts@),
            r@ == join(t.take(i as int), sep@),
        decreases parts@.len() - i,
    {
        if i > 0 {
            r.append(sep);
        }
        r.append(parts[i].as_str());
        proof {
            assert(t.take(i + 1).drop_last() =~= t.take(i as int));
            if i == 0 {
                assert(t.take(0).len() == 0);
                assert(r@ =~= t[0]);
            }
        }
        i = i + 1;
    }
    assert(t.take(parts@.len() as int) =~= t);
    r
}

/// A line without the carriage return that stood before its line feed.
pub open spec fn strip_cr(line: Seq<char>) -> Seq<char> {
    if line.len() > 0 && line.last() == '\r' {
        line.drop_last()
    } else {
        line
    }
}

/// The lines of a text: each ends at a line feed, or at a carriage return
/// and a line feed; the end of the last one is optional.
pub open spec fn lines(s: Seq<char>) -> Seq<Seq<char>> {
    let parts = split(s, '\n');
    let ended = parts.drop_last().map_values(|l: Seq<char>| strip_cr(l));
    if parts.last().len() == 0 {
        ended
    } else {
        ended.push(parts.last())
    }
}

/// The lines of `s`.
pub fn lines_of(s: &str) -> (r: Vec<String>)
    ensures
        texts(r@) == lines(s@),
{
    let parts = split_text(s, '\n');
    let mut r: Vec<String> = Vec::new();
    let n: usize = parts.len() - 1;
    let ghost t = texts(parts@);
    let ghost ended = t.drop_last().map_values(|l: Seq<char>| strip_cr(l));
    let mut i: usize = 0;
    while i < n
        invariant
            i <= n,
            n == parts@.len() - 1,
            t == texts(parts@),
            ended == t.drop_last().map_values(|l: Seq<char>| strip_cr(l)),
            texts(r@) == ended.take(i as int),
        decreases n - i,
    {
        let line = chars_of(parts[i].as_str());
        let keep: usize = if line.len() > 0 && line[line.len() - 1] == '\r' {
            line.len() - 1
        } else {
            line.len()
        };
        let ghost before = r@;
        let l = string_of(line.as_slice(), 0, keep);
        assert(l@ =~= strip_cr(t[i as int]));
        r.push(l);
        assert(texts(r@) =~= texts(before).push(strip_cr(t[i as int])));
        assert(ended.take(i + 1) =~= ended.take(i as int).push(strip_cr(t[i as int])));
        i = i + 1;
    }
    assert(ended.take(n as int) =~= ended);
    let last = parts[n].clone();
    if !last.as_str().is_empty() {
        let ghost before = r@;
        r.push(last);
        assert(texts(r@) =~= texts(before).push(t.last()));
    }
    r
}

// --------------------------------------------------------------- trimming

/// `s` without the white space at its start.
pub open spec fn trim_start(s: Seq<char>) -> Seq<char>
    decreases s.len(),
{
    if s.len() > 0 && is_white(s[0]) {
        trim_start(s.drop_first())
    } else {
        s
    }
}

/// `s` without the white space at its end.
pub open spec fn trim_end(s: Seq<char>) -> Seq<char>
    decreases s.len(),
{
    if s.len() > 0 && is_white(s.last()) {
        trim_end(s.drop_last())
    } else {
        s
    }
}

/// `s` without the white space at both ends.
pub open spec fn trim(s: Seq<char>) -> Seq<char> {
    trim_end(trim_start(s))
}

/// `s` without the white space at both ends.
pub fn trim_text(s: &str) -> (r: String)
    ensures
        r@ == trim(s@),
{
    let v = chars_of(s);
    let mut i: usize = 0;
    assert(v@.skip(0) =~= v@);
    while i < v.len() && white(v[i])
        invariant
            i <= v@.len(),
            trim_start(v@) == trim_start(v@.skip(i as int)),
        decreases v@.len() - i,
    {
        assert(v@.skip(i as int).drop_first() =~= v@.skip(i + 1));
        i = i + 1;
    }
    let ghost t = v@.skip(i as int);
    assert(trim_start(v@) == t);
    let mut j: usize = v.len();
    assert(v@.subrange(i as int, j as int) =~= t);
    while j > i && white(v[j - 1])
        invariant
            i <= j <= v@.len(),
            trim_end(t) == trim_end(v@.subrange(i as int, j as int)),
        decreases j,
    {
        assert(v@.subrange(i as int, j as int).drop_last() =~= v@.subrange(i as int, j - 1));
        j = j - 1;
    }
    string_of(v.as_slice(), i, j)
}

/// Whether nothing but white space stands in `s`.
pub fn blank(s: &str) -> (r: bool)
    ensures
        r == (trim(s@).len() == 0),
{
    trim_text(s).as_str().is_empty()
}

// ---------------------------------------------------------------- matching

/// Whether `pat` stands in `s` at position `i`.
pub open spec fn matches_at(s: Seq<char>, pat: Seq<char>, i: int) -> bool {
    0 <= i && i + pat.len() <= s.len() && s.subrange(i, i + pat.len()) == pat
}

/// Whether `pat` stands anywhere in `s`.
pub open spec fn contains_text(s: Seq<char>, pat: Seq<char>) -> bool {
    exists|i: int| matches_at(s, pat, i)
}

/// Whether `s` begins with `pat`.
pub open spec fn starts_with(s: Seq<char>, pat: Seq<char>) -> bool {
    matches_at(s, pat, 0)
}

fn match_at(s: &[char], pat: &[char], i: usize) -> (r: bool)
    requires
        i <= s@.len(),
    ensures
        r == matches_at(s@, pat@, i as int),
{
    if pat.len() > s.len() - i {
        return false;
    }
    let n: usize = s.len();
    let mut k: usize = 0;
    while k < pat.len()
        invariant
            k <= pat@.len(),
            n == s@.len(),
            i + pat@.len() <= n,
            forall|j: int| 0 <= j < k ==> s@[i + j] == pat@[j],
        decreases pat@.len() - k,
    {
        if s[i + k] != pat[k] {
            assert(s@.subrange(i as int, i + pat@.len())[k as int] != pat@[k as int]);
            return false;
        }
        k = k + 1;
    }
    assert(s@.subrange(i as int, i + pat@.len()) =~= pat@);
    true
}

/// Whether `pat` stands anywhere in `s`.
pub fn has_substring(s: &str, pat: &str) -> (r: bool)
    ensures
        r == contains_text(s@, pat@),
{
    let v = chars_of(s);
    let p = chars_of(pat);
    let mut i: usize = 0;
    while i <= v.len()
        invariant
            i <= v@.len() + 1,
            v@ == s@,
            p@ == pat@,
            forall|j: int| 0 <= j < i ==> !matches_at(s@, pat@, j),
        decreases v@.len() + 1 - i,
    {
        if match_at(v.as_slice(), p.as_slice(), i) {
            return true;
        }
        if i == v.len() {
            return false;
        }
        i = i + 1;
    }
    false
}

/// Whether `s` begins with `pat`.
pub fn has_prefix(s: &str, pat: &str) -> (r: bool)
    ensures
        r == starts_with(s@, pat@),
{
    let v = chars_of(s);
    let p = chars_of(pat);
    match_at(v.as_slice(), p.as_slice(), 0)
}

/// What follows `pat` in `s`, if `s` begins with it.
pub fn after_prefix(s: &str, pat: &str) -> (r: Option<String>)
    ensures
        match r {
            Some(t) => starts_with(s@, pat@) && t@ == s@.skip(pat@.len() as int),
            None => !starts_with(s@, pat@),
        },
{
    let v = chars_of(s);
    let p = chars_of(pat);
    if match_at(v.as_slice(), p.as_slice(), 0) {
        let t = string_of(v.as_slice(), p.len(), v.len());
        assert(t@ =~= s@.skip(pat@.len() as int));
        Some(t)
    } else {
        None
    }
}

/// `s` without any `pat` at its start, repeatedly.
pub open spec fn trim_start_matches(s: Seq<char>, pat: Seq<char>) -> Seq<char>
    decreases s.len(),
{
    if pat.len() > 0 && starts_with(s, pat) {
        trim_start_matches(s.skip(pat.len() as int), pat)
    } else {
        s
    }
}

/// `s` without any `pat` at its end, repeatedly.
pub open spec fn trim_end_matches(s: Seq<char>, pat: Seq<char>) -> Seq<char>
    decreases s.len(),
{
    if pat.len() > 0 && matches_at(s, pat, s.len() - pat.len()) {
        trim_end_matches(s.take(s.len() - pat.len()), pat)
    } else {
        s
    }
}

/// `s` without any `pat` at its start, repeatedly.
pub fn strip_all_prefixes(s: &str, pat: &str) -> (r: String)
    requires
        pat@.len() > 0,
    ensures
        r@ == trim_start_matches(s@, pat@),
{
    let v = chars_of(s);
    let p = chars_of(pat);
    let n: usize = v.len();
    let mut i: usize = 0;
    assert(v@.skip(0) =~= v@);
    while match_at(v.as_slice(), p.as_slice(), i)
        invariant
            n == v@.len(),
            i <= n,
            p@ == pat@,
            pat@.len() > 0,
            trim_start_matches(v@, pat@) == trim_start_matches(v@.skip(i as int), pat@),
        decreases v@.len() - i,
    {
        proof {
            let t = v@.skip(i as int);
            assert(t.subrange(0, pat@.len() as int) =~= v@.subrange(i as int, i + pat@.len()));
            assert(t.skip(pat@.len() as int) =~= v@.skip(i + pat@.len()));
        }
        i = i + p.len();
    }
    proof {
        let t = v@.skip(i as int);
        if starts_with(t, pat@) {
            assert(t.subrange(0, pat@.len() as int) =~= v@.subrange(i as int, i + pat@.len()));
        }
        assert(v@.subrange(i as int, v@.len() as int) =~= t);
    }
    string_of(v.as_slice(), i, v.len())
}

/// `s` without any `pat` at its end, repeatedly.
pub fn strip_all_suffixes(s: &str, pat: &str) -> (r: String)
    requires
        pat@.len() > 0,
    ensures
        r@ == trim_end_matches(s@, pat@),
{
    let v = chars_of(s);
    let p = chars_of(pat);
    let mut j: usize = v.len();
    assert(v@.take(v@.len() as int) =~= v@);
    while j >= p.len() && match_at(v.as_slice(), p.as_slice(), j - p.len())
        invariant
            j <= v@.len(),
            p@ == pat@,
            pat@.len() > 0,
            trim_end_matches(v@, pat@) == trim_end_matches(v@.take(j as int), pat@),
        decreases j,
    {
        proof {
            let t = v@.take(j as int);
            let k = j - pat@.len();
            assert(t.subrange(k, k + pat@.len()) =~= v@.subrange(k, k + pat@.len()));
            assert(t.take(k) =~= v@.take(k));
        }
        j = j - p.len();
    }
    proof {
        let t = v@.take(j as int);
        let k = j - pat@.len();
        if matches_at(t, pat@, k) {
            assert(t.subrange(k, k + pat@.len()) =~= v@.subrange(k, k + pat@.len()));
        }
        assert(v@.subrange(0, j as int) =~= t);
    }
    string_of(v.as_slice(), 0, j)
}

// ------------------------------------------------------------ reading numbers

/// Whether every character of `s` is a decimal digit.
pub open spec fn all_digits(s: Seq<char>) -> bool {
    forall|i: int| 0 <= i < s.len() ==> '0' <= #[trigger] s[i] <= '9'
}

/// The number that a sequence of decimal digits stands for.
pub open spec fn dec_value(s: Seq<char>) -> nat
    decreases s.len(),
{
    if s.len() == 0 {
        0
    } else {
        dec_value(s.drop_last()) * 10 + (s.last() as nat - '0' as nat) as nat
    }
}

/// The unsigned number written in `s`: at least one decimal digit, after an
/// optional plus sign, and at most `max`.
pub open spec fn parse_dec(s: Seq<char>, max: nat) -> Option<nat> {
    let ds = if s.len() > 0 && s[0] == '+' {
        s.drop_first()
    } else {
        s
    };
    if ds.len() > 0 && all_digits(ds) && dec_value(ds) <= max {
        Some(dec_value(ds))
    } else {
        None
    }
}

/// A number is read back from its own decimal form.
pub proof fn law_number_round_trip(n: nat, max: nat)
    requires
        n <= max,
    ensures
        parse_dec(dec(n), max) == Some(n),
        dec_value(dec(n)) == n,
{
    lemma_dec_digits(n);
}

/// A decimal number begins with a digit.
pub proof fn lemma_dec_no_sign(n: nat)
    ensures
        dec(n).len() > 0,
        dec(n)[0] != '+',
        all_digits(dec(n)),
{
    lemma_dec_digits(n);
}

proof fn lemma_dec_digits(n: nat)
    ensures
        dec(n).len() > 0,
        all_digits(dec(n)),
        dec_value(dec(n)) == n,
        dec(n)[0] != '+',
    decreases n,
{
    if n < 10 {
        assert(dec(n).drop_last() =~= Seq::empty());
        assert(dec_value(dec(n).drop_last()) == 0);
        assert(dec(n).last() == digit(n));
    } else {
        lemma_dec_digits(n / 10);
        assert(dec(n).last() == digit(n % 10));
        assert(dec(n).drop_last() =~= dec(n / 10));
        assert forall|i: int| 0 <= i < dec(n).len() implies '0' <= #[trigger] dec(n)[i] <= '9' by {
            if i < dec(n / 10).len() {
                assert(dec(n)[i] == dec(n / 10)[i]);
            }
        }
        assert(dec(n)[0] == dec(n / 10)[0]);
    }
}

proof fn lemma_dec_value_prefix(s: Seq<char>, n: int)
    requires
        0 <= n <= s.len(),
        all_digits(s),
    ensures
        dec_value(s.take(n)) <= dec_value(s),
    decreases s.len(),
{
    if n == s.len() {
        assert(s.take(n) =~= s);
    } else {
        assert(s.drop_last().take(n) =~= s.take(n));
        lemma_dec_value_prefix(s.drop_last(), n);
        assert('0' <= s[s.len() - 1]);
    }
}

/// The unsigned number written in `s`, if there is one of at most `max`.
pub fn parse_number(s: &str, max: u32) -> (r: Option<u32>)
    ensures
        match r {
            Some(n) => parse_dec(s@, max as nat) == Some(n as nat),
            None => parse_dec(s@, max as nat) is None,
        },
{
    let v = chars_of(s);
    let from: usize = if v.len() > 0 && v[0] == '+' {
        1
    } else {
        0
    };
    let ghost ds = v@.skip(from as int);
    assert(ds =~= if s@.len() > 0 && s@[0] == '+' {
        s@.drop_first()
    } else {
        s@
    });
    if from == v.len() {
        return None;
    }
    let mut n: u64 = 0;
    let mut i: usize = from;
    while i < v.len()
        invariant
            from <= i <= v@.len(),
            ds == v@.skip(from as int),
            ds.len() > 0,
            parse_dec(s@, max as nat) == (if all_digits(ds) && dec_value(ds) <= max {
                Some(dec_value(ds))
            } else {
                None
            }),
            n == dec_value(ds.take(i - from)),
            n <= max,
            all_digits(ds.take(i - from)),
        decreases v@.len() - i,
    {
        let c = v[i];
        let ghost k = i - from;
        assert(ds[k] == c);
        if !('0' <= c && c <= '9') {
            return None;
        }
        let d: u64 = (c as u32 - '0' as u32) as u64;
        proof {
            let t = ds.take(k + 1);
            assert(t.drop_last() =~= ds.take(k));
            assert(t.last() == c);
            assert forall|j: int| 0 <= j < t.len() implies '0' <= #[trigger] t[j] <= '9' by {
                if j < k {
                    assert(ds.take(k)[j] == t[j]);
                }
            }
        }
        n = n * 10 + d;
        if n > max as u64 {
            proof {
                if all_digits(ds) {
                    lemma_dec_value_prefix(ds, k + 1);
                }
            }
            return None;
        }
        i = i + 1;
    }
    assert(ds.take(ds.len() as int) =~= ds);
    Some(n as u32)
}

// ------------------------------------------------------------- composition

/// The two texts, one after the other.
pub fn cat(a: &str, b: &str) -> (r: String)
    ensures
        r@ == a@ + b@,
{
    let mut r = a.to_owned();
    r.append(b);
    r
}

/// The three texts, one after the other.
pub fn cat3(a: &str, b: &str, c: &str) -> (r: String)
    ensures
        r@ == a@ + b@ + c@,
{
    let mut r = a.to_owned();
    r.append(b);
    r.append(c);
    r
}

/// The five texts, one after the other.
pub fn cat5(a: &str, b: &str, c: &str, d: &str, e: &str) -> (r: String)
    ensures
        r@ == a@ + b@ + c@ + d@ + e@,
{
    let mut r = cat3(a, b, c);
    r.append(d);
    r.append(e);
    r
}

/// `n` times the character `fill`.
pub fn repeated(fill: char, n: usize) -> (r: String)
    ensures
        r@ == Seq::new(n as nat, |i: int| fill),
{
    let mut r = String::new();
    let mut i: usize = 0;
    while i < n
        invariant
            i <= n,
            r@ == Seq::new(i as nat, |j: int| fill),
        decreases n - i,
    {
        r.push(fill);
        i = i + 1;
        assert(r@ =~= Seq::new(i as nat, |j: int| fill));
    }
    assert(r@ =~= Seq::new(n as nat, |j: int| fill));
    r
}

/// `s` preceded by as many `fill` as it takes to reach `width` characters.
pub fn padded_left(s: &str, width: usize, fill: char) -> (r: String)
    ensures
        r@ == pad_left(s@, width as nat, fill),
{
    let n: usize = s.unicode_len();
    if n >= width {
        s.to_owned()
    } else {
        let mut r = repeated(fill, width - n);
        r.append(s);
        r
    }
}

/// `s` followed by as many spaces as it takes to reach `width` characters.
pub fn padded_right(s: &str, width: usize) -> (r: String)
    ensures
        r@ == pad_right(s@, width as nat),
{
    let n: usize = s.unicode_len();
    if n >= width {
        s.to_owned()
    } else {
        let fill = repeated(' ', width - n);
        cat(s, fill.as_str())
    }
}

// ------------------------------------------------------------------ sorting

/// The order of texts by their characters, a prefix first.
pub open spec fn lex_le(a: Seq<char>, b: Seq<char>) -> bool
    decreases a.len(),
{
    if a.len() == 0 {
        true
    } else if b.len() == 0 {
        false
    } else if a[0] == b[0] {
        lex_le(a.drop_first(), b.drop_first())
    } else {
        a[0] < b[0]
    }
}

/// Whether a list of texts is in order.
pub open spec fn is_sorted(v: Seq<Seq<char>>) -> bool {
    forall|i: int, j: int| 0 <= i <= j < v.len() ==> lex_le(#[trigger] v[i], #[trigger] v[j])
}

pub proof fn lemma_lex_total(a: Seq<char>, b: Seq<char>)
    ensures
        lex_le(a, b) || lex_le(b, a),
    decreases a.len(),
{
    if a.len() > 0 && b.len() > 0 && a[0] == b[0] {
        lemma_lex_total(a.drop_first(), b.drop_first());
    }
}

pub proof fn lemma_lex_transitive(a: Seq<char>, b: Seq<char>, c: Seq<char>)
    requires
        lex_le(a, b),
        lex_le(b, c),
    ensures
        lex_le(a, c),
    decreases a.len(),
{
    if a.len() > 0 && b.len() > 0 && c.len() > 0 && a[0] == b[0] && b[0] == c[0] {
        lemma_lex_transitive(a.drop_first(), b.drop_first(), c.drop_first());
    }
}

pub proof fn lemma_lex_antisymmetric(a: Seq<char>, b: Seq<char>)
    requires
        lex_le(a, b),
        lex_le(b, a),
    ensures
        a == b,
    decreases a.len(),
{
    if a.len() > 0 && b.len() > 0 {
        lemma_lex_antisymmetric(a.drop_first(), b.drop_first());
        assert(a =~= seq![a[0]] + a.drop_first());
        assert(b =~= seq![b[0]] + b.drop_first());
    } else {
        assert(a =~= b);
    }
}

/// Whether `a` comes before `b` or is equal to it.
pub fn text_le(a: &str, b: &str) -> (r: bool)
    ensures
        r == lex_le(a@, b@),
{
    let x = chars_of(a);
    let y = chars_of(b);
    let mut i: usize = 0;
    assert(x@.skip(0) =~= x@);
    assert(y@.skip(0) =~= y@);
    while i < x.len() && i < y.len() && x[i] == y[i]
        invariant
            i <= x@.len(),
            i <= y@.len(),
            lex_le(x@, y@) == lex_le(x@.skip(i as int), y@.skip(i as int)),
        decreases x@.len() - i,
    {
        assert(x@.skip(i as int).drop_first() =~= x@.skip(i + 1));
        assert(y@.skip(i as int).drop_first() =~= y@.skip(i + 1));
        i = i + 1;
    }
    if i == x.len() {
        true
    } else if i == y.len() {
        false
    } else {
        assert(x@.skip(i as int)[0] == x@[i as int]);
        assert(y@.skip(i as int)[0] == y@[i as int]);
        x[i] < y[i]
    }
}

/// Whether `r` holds the texts of `v` in order.
pub open spec fn sorted_from(r: Seq<Seq<char>>, v: Seq<Seq<char>>) -> bool {
    is_sorted(r) && r.to_multiset() == v.to_multiset()
}

proof fn lemma_texts_insert(v: Seq<String>, k: int, s: String)
    requires
        0 <= k <= v.len(),
    ensures
        texts(v.insert(k, s)) == texts(v).insert(k, s@),
{
    assert(texts(v.insert(k, s)) =~= texts(v).insert(k, s@));
}

/// Puts `s` into the ordered list `v`, behind everything that does not come
/// after it.
fn insert_sorted(v: &mut Vec<String>, s: String)
    requires
        is_sorted(texts(old(v)@)),
    ensures
        is_sorted(texts(final(v)@)),
        texts(final(v)@).to_multiset() == texts(old(v)@).to_multiset().insert(s@),
{
    let ghost t = texts(v@);
    let ghost before = v@;
    let ghost x = s@;
    let mut k: usize = v.len();
    while k > 0 && !text_le(v[k - 1].as_str(), s.as_str())
        invariant
            k <= v@.len(),
            x == s@,
            t == texts(v@),
            forall|j: int| k <= j < t.len() ==> !lex_le(#[trigger] t[j], x),
        decreases k,
    {
        k = k - 1;
    }
    v.insert(k, s);
    proof {
        lemma_texts_insert(before, k as int, s);
        let u = t.insert(k as int, x);
        assert forall|i: int, j: int| 0 <= i <= j < u.len() implies lex_le(
            #[trigger] u[i],
            #[trigger] u[j],
        ) by {
            if i == k && j == k {
                lemma_lex_total(x, x);
            } else if j == k {
                assert(u[i] == t[i]);
                assert(lex_le(t[k - 1], x));
                assert(lex_le(t[i], t[k - 1]));
                lemma_lex_transitive(t[i], t[k - 1], x);
            } else if i == k {
                assert(u[j] == t[j - 1]);
                lemma_lex_total(x, t[j - 1]);
            } else {
                assert(u[i] == t[if i < k { i } else { i - 1 }]);
                assert(u[j] == t[if j < k { j } else { j - 1 }]);
            }
        }
        vstd::seq_lib::to_multiset_insert(t, k as int, x);
    }
}

/// The strings of `v`, in order.
pub fn sort_texts(v: Vec<String>) -> (r: Vec<String>)
    ensures
        sorted_from(texts(r@), texts(v@)),
{
    let mut r: Vec<String> = Vec::new();
    let mut i: usize = 0;
    let ghost t = texts(v@);
    assert(texts(r@) =~= t.take(0));
    while i < v.len()
        invariant
            i <= v@.len(),
            t == texts(v@),
            is_sorted(texts(r@)),
            texts(r@).to_multiset() == t.take(i as int).to_multiset(),
        decreases v@.len() - i,
    {
        insert_sorted(&mut r, v[i].clone());
        proof {
            broadcast use vstd::seq_lib::group_to_multiset_ensures;

            assert(t.take(i + 1) =~= t.take(i as int).push(t[i as int]));
        }
        i = i + 1;
    }
    assert(t.take(v@.len() as int) =~= t);
    r
}


// -------------------------------------------------------------------- words

/// The parts of a text between white space.
pub open spec fn words(s: Seq<char>) -> Seq<Seq<char>>
    decreases s.len(),
{
    if s.len() == 0 {
        Seq::empty()
    } else {
        let init = s.drop_last();
        let rest = words(init);
        if is_white(s.last()) {
            rest
        } else if init.len() == 0 || is_white(init.last()) {
            rest.push(seq![s.last()])
        } else {
            rest.drop_last().push(rest.last().push(s.last()))
        }
    }
}

/// A text without white space.
pub open spec fn solid(s: Seq<char>) -> bool {
    s.len() > 0 && forall|i: int| 0 <= i < s.len() ==> !is_white(#[trigger] s[i])
}

proof fn lemma_words_nonempty(s: Seq<char>)
    ensures
        s.len() > 0 && !is_white(s.last()) ==> words(s).len() > 0,
    decreases s.len(),
{
    if s.len() > 0 {
        lemma_words_nonempty(s.drop_last());
    }
}

/// A text without white space that follows white space, or nothing, is a word
/// of its own.
pub proof fn lemma_words_append(a: Seq<char>, b: Seq<char>)
    requires
        a.len() == 0 || is_white(a.last()),
        solid(b),
    ensures
        words(a + b) == words(a).push(b),
    decreases b.len(),
{
    let s = a + b;
    let c = b.drop_last();
    assert(s.drop_last() =~= a + c);
    assert(s.last() == b.last());
    assert(!is_white(b[b.len() - 1]));
    if c.len() == 0 {
        assert(a + c =~= a);
        assert(b =~= seq![b.last()]);
    } else {
        assert forall|i: int| 0 <= i < c.len() implies !is_white(#[trigger] c[i]) by {
            assert(c[i] == b[i]);
        }
        lemma_words_append(a, c);
        assert((a + c).last() == c.last());
        assert(!is_white(c[c.len() - 1]));
        assert(words(a).push(c).drop_last() =~= words(a));
        assert(c.push(b.last()) =~= b);
    }
}

/// The parts of a text between white space.
pub fn words_of(s: &str) -> (r: Vec<String>)
    ensures
        texts(r@) == words(s@),
{
    let cs = chars_of(s);
    let mut r: Vec<String> = Vec::new();
    let mut i: usize = 0;
    assert(texts(r@) =~= words(s@.take(0)));
    while i < cs.len()
        invariant
            i <= cs@.len(),
            cs@ == s@,
            texts(r@) == words(s@.take(i as int)),
        decreases cs@.len() - i,
    {
        let ghost before = r@;
        let ghost t = s@.take(i + 1);
        assert(t.drop_last() =~= s@.take(i as int));
        assert(t.last() == cs@[i as int]);
        let c = cs[i];
        if !white(c) {
            if i == 0 || white(cs[i - 1]) {
                let mut w = String::new();
                w.push(c);
                assert(w@ =~= seq![c]);
                r.push(w);
                assert(texts(r@) =~= texts(before).push(seq![c]));
            } else {
                proof {
                    lemma_words_nonempty(s@.take(i as int));
                }
                assert(s@.take(i as int).last() == cs@[i - 1]);
                let n: usize = r.len();
                assert(texts(before).len() == n);
                let mut w = r.remove(n - 1);
                let ghost w0 = w@;
                w.push(c);
                r.push(w);
                assert(texts(r@) =~= texts(before).drop_last().push(w0.push(c)));
            }
        }
        i = i + 1;
    }
    assert(s@.take(s@.len() as int) =~= s@);
    r
}

/// A text without the separator is one part.
pub proof fn lemma_split_single(s: Seq<char>, sep: char)
    requires
        !s.contains(sep),
    ensures
        split(s, sep) == seq![s],
    decreases s.len(),
{
    if s.len() == 0 {
        assert(s =~= Seq::empty());
        assert(split(s, sep) =~~= seq![s]);
    } else {
        let init = s.drop_last();
        assert forall|i: int| 0 <= i < init.len() implies init[i] != sep by {
            assert(s[i] != sep);
        }
        lemma_split_single(init, sep);
        assert(s[s.len() - 1] != sep);
        assert(init.push(s.last()) =~= s);
        assert(split(s, sep) =~~= seq![s]);
    }
}

/// Two texts without the separator, with the separator between them.
pub proof fn lemma_split_pair(a: Seq<char>, sep: char, b: Seq<char>)
    requires
        !a.contains(sep),
        !b.contains(sep),
    ensures
        split(a.push(sep) + b, sep) == seq![a, b],
    decreases b.len(),
{
    let s = a.push(sep) + b;
    if b.len() == 0 {
        lemma_split_single(a, sep);
        assert(s =~= a.push(sep));
        assert(s.drop_last() =~= a);
        assert(b =~= Seq::empty());
        assert(split(s, sep) =~~= seq![a, b]);
    } else {
        let init = b.drop_last();
        assert forall|i: int| 0 <= i < init.len() implies init[i] != sep by {
            assert(b[i] != sep);
        }
        lemma_split_pair(a, sep, init);
        assert(s.drop_last() =~= a.push(sep) + init);
        assert(s.last() == b.last());
        assert(b[b.len() - 1] != sep);
        assert(init.push(b.last()) =~= b);
        assert(split(s, sep) =~~= seq![a, b]);
    }
}

/// A text without line breaks is one line.
pub proof fn lemma_one_line(s: Seq<char>)
    requires
        s.len() > 0,
        !s.contains('\n'),
        s.last() != '\r',
    ensures
        lines(s) == seq![s],
{
    lemma_split_single(s, '\n');
    assert(lines(s) =~~= seq![s]);
}

/// Numbers are written as people write them: the digits of a number are those
/// of its tenth part, and its last digit behind them.
pub proof fn law_decimal(n: nat)
    ensures
        dec(n).len() > 0,
        dec(n).last() as nat == '0' as nat + n % 10,
        n < 10 ==> dec(n).len() == 1,
        n >= 10 ==> dec(n).drop_last() == dec(n / 10),
{
    if n >= 10 {
        assert(dec(n).drop_last() =~= dec(n / 10));
    }
}

} // verus!
