//! File paths as the operating system sees them: bytes, with `/` between
//! the components.

use vstd::prelude::*;
use vstd::utf8::*;

use crate::text::cat3;

verus! {

/// The byte that separates path components.
pub const SLASH: u8 = 0x2f;

/// The byte that begins a file extension.
pub const DOT: u8 = 0x2e;

// ------------------------------------------------------------ decoded text

/// The text that `String::from_utf8_lossy` makes of a sequence of bytes.
pub uninterp spec fn lossy(bytes: Seq<u8>) -> Seq<char>;

/// `String::from_utf8_lossy`: the text that the bytes stand for. What is
/// valid UTF-8 is decoded as it is; what the replacement of other bytes
/// looks like is left to the function.
#[verifier::external_body]
pub(crate) fn lossy_text(bytes: &[u8]) -> (s: String)
    ensures
        s@ == lossy(bytes@),
        valid_utf8(bytes@) ==> s@ == decode_utf8(bytes@),
{
    String::from_utf8_lossy(bytes).into_owned()
}

// -------------------------------------------------------------- components

/// A path without the separators and the `.` components at its end.
pub open spec fn clean_end(p: Seq<u8>) -> Seq<u8>
    decreases p.len(),
{
    if p.len() > 0 && p.last() == SLASH {
        clean_end(p.drop_last())
    } else if p.len() >= 2 && p.last() == DOT && p[p.len() - 2] == SLASH {
        clean_end(p.drop_last())
    } else {
        p
    }
}

/// Where the last component of a path begins.
pub open spec fn base_start(p: Seq<u8>) -> int
    decreases p.len(),
{
    if p.len() == 0 || p.last() == SLASH {
        p.len() as int
    } else {
        base_start(p.drop_last())
    }
}

/// The last component of a path, if it names a file.
pub open spec fn file_name(p: Seq<u8>) -> Option<Seq<u8>> {
    let t = clean_end(p);
    let b = t.skip(base_start(t));
    if b.len() == 0 || b == seq![DOT] || b == seq![DOT, DOT] {
        None
    } else {
        Some(b)
    }
}

/// The path that holds the last component, if there is one.
pub open spec fn parent(p: Seq<u8>) -> Option<Seq<u8>> {
    let t = clean_end(p);
    let head = t.take(base_start(t));
    if t.len() == 0 {
        None
    } else if head.len() > 0 && clean_end(head).len() == 0 {
        Some(seq![SLASH])
    } else {
        Some(clean_end(head))
    }
}

/// Where the extension of a file name begins, its dot included: the last dot
/// that is not the first byte, or the end.
pub open spec fn dot_at(name: Seq<u8>) -> int
    decreases name.len(),
{
    if name.len() <= 1 {
        -1
    } else if name.last() == DOT {
        name.len() - 1
    } else {
        dot_at(name.drop_last())
    }
}

/// A file name without its extension.
pub open spec fn stem_of(name: Seq<u8>) -> Seq<u8> {
    if dot_at(name) < 0 {
        name
    } else {
        name.take(dot_at(name))
    }
}

/// The extension of a file name, without its dot.
pub open spec fn extension_of(name: Seq<u8>) -> Option<Seq<u8>> {
    if dot_at(name) < 0 {
        None
    } else {
        Some(name.skip(dot_at(name) + 1))
    }
}

/// `name` inside the directory `dir`; an absolute `name` stands for itself.
pub open spec fn join_path(dir: Seq<u8>, name: Seq<u8>) -> Seq<u8> {
    if name.len() > 0 && name[0] == SLASH {
        name
    } else if dir.len() == 0 || dir.last() == SLASH {
        dir + name
    } else {
        dir.push(SLASH) + name
    }
}

/// The path with its file name replaced (or added, where it has none).
pub open spec fn with_name(p: Seq<u8>, name: Seq<u8>) -> Seq<u8> {
    match (file_name(p), parent(p)) {
        (Some(_), Some(dir)) => join_path(dir, name),
        _ => join_path(p, name),
    }
}

/// The path with its extension replaced (or added, or taken away where the new
/// one is empty); a path that names no file stays as it is.
pub open spec fn with_ext(p: Seq<u8>, ext: Seq<u8>) -> Seq<u8> {
    match file_name(p) {
        Some(name) => {
            let t = clean_end(p);
            let bare = t.take(base_start(t)) + stem_of(name);
            if ext.len() == 0 {
                bare
            } else {
                bare.push(DOT) + ext
            }
        },
        None => p,
    }
}

/// The name under which the cleaned version of an image is kept:
/// `page_001.png` becomes `page_001_clean.png`.
pub open spec fn clean_name(name: Seq<u8>) -> Seq<char> {
    match extension_of(name) {
        Some(ext) => lossy(stem_of(name)) + "_clean."@ + lossy(ext),
        None => lossy(stem_of(name)) + "_clean"@ + ""@,
    }
}

/// Where the cleaned version of an image is kept.
pub open spec fn clean_variant_of(p: Seq<u8>) -> Seq<u8> {
    match file_name(p) {
        Some(name) => with_name(p, encode_utf8(clean_name(name))),
        None => p,
    }
}

pub proof fn lemma_base_start(p: Seq<u8>)
    ensures
        0 <= base_start(p) <= p.len(),
    decreases p.len(),
{
    if p.len() > 0 && p.last() != SLASH {
        lemma_base_start(p.drop_last());
    }
}

pub proof fn lemma_clean_end(p: Seq<u8>)
    ensures
        clean_end(p).len() <= p.len(),
        clean_end(p) == p.take(clean_end(p).len() as int),
    decreases p.len(),
{
    if p.len() > 0 && (p.last() == SLASH || (p.len() >= 2 && p.last() == DOT && p[p.len() - 2]
        == SLASH)) {
        lemma_clean_end(p.drop_last());
        let n = clean_end(p).len() as int;
        assert(p.drop_last().take(n) =~= p.take(n));
    } else {
        assert(p.take(p.len() as int) =~= p);
    }
}

proof fn lemma_dot_at(name: Seq<u8>)
    ensures
        -1 <= dot_at(name) < name.len(),
    decreases name.len(),
{
    if name.len() > 1 && name.last() != DOT {
        lemma_dot_at(name.drop_last());
    }
}

/// The bytes `v[from..to]`.
pub fn bytes_of(v: &[u8], from: usize, to: usize) -> (r: Vec<u8>)
    requires
        from <= to <= v@.len(),
    ensures
        r@ == v@.subrange(from as int, to as int),
{
    let mut r: Vec<u8> = Vec::new();
    let mut i: usize = from;
    while i < to
        invariant
            from <= i <= to <= v@.len(),
            r@ == v@.subrange(from as int, i as int),
        decreases to - i,
    {
        r.push(v[i]);
        assert(v@.subrange(from as int, i + 1) =~= v@.subrange(from as int, i as int).push(
            v@[i as int],
        ));
        i = i + 1;
    }
    r
}

/// Appends a copy of `more`.
pub fn append_bytes(v: &mut Vec<u8>, more: &[u8])
    ensures
        final(v)@ == old(v)@ + more@,
{
    let mut i: usize = 0;
    let ghost start = v@;
    assert(v@ =~= start + more@.take(0));
    while i < more.len()
        invariant
            i <= more@.len(),
            v@ == start + more@.take(i as int),
        decreases more@.len() - i,
    {
        v.push(more[i]);
        assert(more@.take(i + 1) =~= more@.take(i as int).push(more@[i as int]));
        assert(v@ =~= start + more@.take(i + 1));
        i = i + 1;
    }
    assert(more@.take(more@.len() as int) =~= more@);
}

fn same_bytes(a: &[u8], b: &[u8]) -> (r: bool)
    ensures
        r == (a@ == b@),
{
    if a.len() != b.len() {
        return false;
    }
    let mut i: usize = 0;
    while i < a.len()
        invariant
            i <= a@.len(),
            a@.len() == b@.len(),
            forall|j: int| 0 <= j < i ==> a@[j] == b@[j],
        decreases a@.len() - i,
    {
        if a[i] != b[i] {
            return false;
        }
        i = i + 1;
    }
    assert(a@ =~= b@);
    true
}

/// The length of a path without the separators and the `.` components at its
/// end.
fn clean_len(p: &[u8]) -> (n: usize)
    ensures
        n <= p@.len(),
        clean_end(p@) == p@.take(n as int),
{
    let mut n: usize = p.len();
    assert(p@.take(n as int) =~= p@);
    while n > 0 && (p[n - 1] == SLASH || (n >= 2 && p[n - 1] == DOT && p[n - 2] == SLASH))
        invariant
            n <= p@.len(),
            clean_end(p@) == clean_end(p@.take(n as int)),
        decreases n,
    {
        assert(p@.take(n as int).drop_last() =~= p@.take(n - 1));
        n = n - 1;
    }
    n
}

/// Where the last component of `p[..n]` begins.
fn base_index(p: &[u8], n: usize) -> (i: usize)
    requires
        n <= p@.len(),
    ensures
        i <= n,
        i == base_start(p@.take(n as int)),
{
    let mut i: usize = n;
    while i > 0 && p[i - 1] != SLASH
        invariant
            i <= n <= p@.len(),
            base_start(p@.take(n as int)) == base_start(p@.take(i as int)),
        decreases i,
    {
        assert(p@.take(i as int).drop_last() =~= p@.take(i - 1));
        i = i - 1;
    }
    i
}

/// Where the extension of a file name begins, its dot included.
fn dot_index(name: &[u8]) -> (r: Option<usize>)
    ensures
        match r {
            Some(i) => i < name@.len() && dot_at(name@) == i,
            None => dot_at(name@) < 0,
        },
{
    let mut i: usize = name.len();
    assert(name@.take(i as int) =~= name@);
    while i > 1
        invariant
            i <= name@.len(),
            dot_at(name@) == dot_at(name@.take(i as int)),
        decreases i,
    {
        if name[i - 1] == DOT {
            return Some(i - 1);
        }
        assert(name@.take(i as int).drop_last() =~= name@.take(i - 1));
        i = i - 1;
    }
    None
}

/// A file path.
#[derive(Debug, PartialEq, Eq)]
pub struct FilePath {
    pub bytes: Vec<u8>,
}

impl View for FilePath {
    type V = Seq<u8>;

    open spec fn view(&self) -> Seq<u8> {
        self.bytes@
    }
}

impl Clone for FilePath {
    fn clone(&self) -> (r: Self)
        ensures
            r@ == self@,
    {
        let bytes = bytes_of(self.bytes.as_slice(), 0, self.bytes.len());
        assert(bytes@ =~= self@);
        FilePath { bytes }
    }
}

impl FilePath {
    /// The path made of the given bytes.
    pub fn from_bytes(bytes: Vec<u8>) -> (r: Self)
        ensures
            r@ == bytes@,
    {
        FilePath { bytes }
    }

    /// The path that a text writes down.
    pub fn from_text(s: &str) -> (r: Self)
        ensures
            r@ == encode_utf8(s@),
    {
        FilePath { bytes: s.as_bytes_vec() }
    }

    /// The empty path.
    pub fn empty() -> (r: Self)
        ensures
            r@ == Seq::<u8>::empty(),
    {
        FilePath { bytes: Vec::new() }
    }

    pub fn is_empty(&self) -> (r: bool)
        ensures
            r == (self@.len() == 0),
    {
        self.bytes.len() == 0
    }

    /// Whether both are the same path, byte for byte.
    pub fn same(&self, other: &FilePath) -> (r: bool)
        ensures
            r == (self@ == other@),
    {
        same_bytes(self.bytes.as_slice(), other.bytes.as_slice())
    }

    /// The path as text, for messages and command lines.
    pub fn display(&self) -> (s: String)
        ensures
            s@ == lossy(self@),
            valid_utf8(self@) ==> s@ == decode_utf8(self@),
    {
        lossy_text(self.bytes.as_slice())
    }

    /// The file or directory `name` inside this one.
    pub fn join(&self, name: &str) -> (r: Self)
        ensures
            r@ == join_path(self@, encode_utf8(name@)),
    {
        self.join_bytes(name.as_bytes())
    }

    fn join_bytes(&self, name: &[u8]) -> (r: Self)
        ensures
            r@ == join_path(self@, name@),
    {
        if name.len() > 0 && name[0] == SLASH {
            let bytes = bytes_of(name, 0, name.len());
            assert(bytes@ =~= name@);
            return FilePath { bytes };
        }
        let mut r = self.clone();
        let n: usize = r.bytes.len();
        if n > 0 && r.bytes[n - 1] != SLASH {
            r.bytes.push(SLASH);
        }
        append_bytes(&mut r.bytes, name);
        r
    }

    /// The last component, if it names a file.
    pub fn file_name(&self) -> (r: Option<FilePath>)
        ensures
            match r {
                Some(name) => file_name(self@) == Some(name@),
                None => file_name(self@) is None,
            },
    {
        let n: usize = clean_len(self.bytes.as_slice());
        let i: usize = base_index(self.bytes.as_slice(), n);
        let b = bytes_of(self.bytes.as_slice(), i, n);
        assert(b@ =~= self@.take(n as int).skip(i as int));
        if b.len() == 0 || (b.len() == 1 && b[0] == DOT) || (b.len() == 2 && b[0] == DOT && b[1]
            == DOT) {
            proof {
                if b@.len() == 1 {
                    assert(b@ =~= seq![DOT]);
                } else if b@.len() == 2 {
                    assert(b@ =~= seq![DOT, DOT]);
                }
            }
            None
        } else {
            proof {
                if b@ == seq![DOT] {
                    assert(b@[0] == DOT);
                }
                if b@ == seq![DOT, DOT] {
                    assert(b@[0] == DOT && b@[1] == DOT);
                }
            }
            Some(FilePath { bytes: b })
        }
    }

    /// The path that holds the last component, if there is one.
    pub fn parent(&self) -> (r: Option<FilePath>)
        ensures
            match r {
                Some(p) => parent(self@) == Some(p@),
                None => parent(self@) is None,
            },
    {
        let n: usize = clean_len(self.bytes.as_slice());
        if n == 0 {
            return None;
        }
        let i: usize = base_index(self.bytes.as_slice(), n);
        let head = bytes_of(self.bytes.as_slice(), 0, i);
        assert(head@ =~= self@.take(n as int).take(i as int));
        let m: usize = clean_len(head.as_slice());
        if i > 0 && m == 0 {
            let mut bytes: Vec<u8> = Vec::new();
            bytes.push(SLASH);
            assert(bytes@ =~= seq![SLASH]);
            Some(FilePath { bytes })
        } else {
            let bytes = bytes_of(head.as_slice(), 0, m);
            assert(bytes@ =~= head@.take(m as int));
            Some(FilePath { bytes })
        }
    }

    /// The path with its file name replaced (or added, where it has none).
    pub fn with_file_name(&self, name: &str) -> (r: Self)
        ensures
            r@ == with_name(self@, encode_utf8(name@)),
    {
        match (self.file_name(), self.parent()) {
            (Some(_), Some(dir)) => dir.join(name),
            _ => self.join(name),
        }
    }

    /// The path with its extension replaced (or added, or taken away where the
    /// new one is empty); a path that names no file stays as it is.
    pub fn with_extension(&self, ext: &str) -> (r: Self)
        ensures
            r@ == with_ext(self@, encode_utf8(ext@)),
    {
        match self.file_name() {
            None => self.clone(),
            Some(name) => {
                let n: usize = clean_len(self.bytes.as_slice());
                let i: usize = base_index(self.bytes.as_slice(), n);
                let mut bytes = bytes_of(self.bytes.as_slice(), 0, i);
                assert(bytes@ =~= self@.take(n as int).take(i as int));
                let stem = name.stem();
                append_bytes(&mut bytes, stem.bytes.as_slice());
                let tail = ext.as_bytes();
                if tail.len() > 0 {
                    bytes.push(DOT);
                    append_bytes(&mut bytes, tail);
                }
                FilePath { bytes }
            },
        }
    }

    /// The path with `suffix` written behind it.
    pub fn with_suffix(&self, suffix: &str) -> (r: Self)
        ensures
            r@ == self@ + encode_utf8(suffix@),
    {
        let mut r = self.clone();
        append_bytes(&mut r.bytes, suffix.as_bytes());
        r
    }

    /// This file name without its extension.
    fn stem(&self) -> (r: FilePath)
        ensures
            r@ == stem_of(self@),
    {
        match dot_index(self.bytes.as_slice()) {
            None => self.clone(),
            Some(i) => {
                let bytes = bytes_of(self.bytes.as_slice(), 0, i);
                assert(bytes@ =~= self@.take(i as int));
                FilePath { bytes }
            },
        }
    }

    /// The extension of this file name.
    fn extension(&self) -> (r: Option<FilePath>)
        ensures
            match r {
                Some(e) => extension_of(self@) == Some(e@),
                None => extension_of(self@) is None,
            },
    {
        match dot_index(self.bytes.as_slice()) {
            None => None,
            Some(i) => {
                let n: usize = self.bytes.len();
                let bytes = bytes_of(self.bytes.as_slice(), i + 1, n);
                assert(bytes@ =~= self@.skip(i + 1));
                Some(FilePath { bytes })
            },
        }
    }

    /// Where the cleaned version of this image is kept: `page_001.png` becomes
    /// `page_001_clean.png`.
    pub fn clean_variant(&self) -> (r: Self)
        ensures
            r@ == clean_variant_of(self@),
    {
        match self.file_name() {
            None => self.clone(),
            Some(name) => {
                let stem = name.stem().display();
                let new_name = match name.extension() {
                    Some(ext) => cat3(stem.as_str(), "_clean.", ext.display().as_str()),
                    None => cat3(stem.as_str(), "_clean", ""),
                };
                self.with_file_name(new_name.as_str())
            },
        }
    }
}

/// The paths that a list holds.
pub open spec fn paths(v: Seq<FilePath>) -> Seq<Seq<u8>> {
    v.map_values(|p: FilePath| p@)
}

/// The first place at which there is a file.
pub open spec fn first_file(candidates: Seq<Seq<u8>>, is_file: Seq<bool>) -> Option<Seq<u8>>
    decreases candidates.len(),
{
    if candidates.len() == 0 || is_file.len() == 0 {
        None
    } else if is_file[0] {
        Some(candidates[0])
    } else {
        first_file(candidates.skip(1), is_file.skip(1))
    }
}

/// The first place at which there is a file.
pub fn pick_file(candidates: &[FilePath], is_file: &[bool]) -> (r: Option<FilePath>)
    requires
        candidates@.len() == is_file@.len(),
    ensures
        match r {
            Some(p) => first_file(paths(candidates@), is_file@) == Some(p@),
            None => first_file(paths(candidates@), is_file@) is None,
        },
{
    let mut i: usize = 0;
    let ghost all = paths(candidates@);
    assert(all.skip(0) =~= all);
    assert(is_file@.skip(0) =~= is_file@);
    while i < candidates.len()
        invariant
            i <= candidates@.len(),
            candidates@.len() == is_file@.len(),
            all == paths(candidates@),
            first_file(all, is_file@) == first_file(all.skip(i as int), is_file@.skip(i as int)),
        decreases candidates@.len() - i,
    {
        assert(all.skip(i as int)[0] == candidates@[i as int]@);
        if is_file[i] {
            return Some(candidates[i].clone());
        }
        assert(all.skip(i as int).skip(1) =~= all.skip(i + 1));
        assert(is_file@.skip(i as int).skip(1) =~= is_file@.skip(i + 1));
        i = i + 1;
    }
    None
}

} // verus!
