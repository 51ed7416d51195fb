//! The external tools: how they are called and what their answers mean.

use vstd::prelude::*;
use vstd::utf8::*;

use crate::path;
use crate::path::{pick_file, FilePath};

pub mod filedialog;
pub mod laws;
pub mod outcomes;
pub mod pdf;
pub mod process;
pub mod scan;

verus! {

/// Where a program is looked for: a name with a slash is a path, any other
/// name is looked for in the given directories.
pub open spec fn program_places(name: Seq<char>, dirs: Seq<Seq<u8>>) -> Seq<Seq<u8>> {
    if name.contains('/') {
        seq![encode_utf8(name)]
    } else {
        dirs.map_values(|d: Seq<u8>| path::join_path(d, encode_utf8(name)))
    }
}

/// Where a program is looked for.
pub fn places_of(name: &str, dirs: &[FilePath]) -> (r: Vec<FilePath>)
    ensures
        path::paths(r@) == program_places(name@, path::paths(dirs@)),
{
    let mut r: Vec<FilePath> = Vec::new();
    if has_slash(name) {
        r.push(FilePath::from_text(name));
        assert(path::paths(r@) =~= seq![encode_utf8(name@)]);
        return r;
    }
    let mut i: usize = 0;
    let ghost all = program_places(name@, path::paths(dirs@));
    assert(path::paths(r@) =~= all.take(0));
    while i < dirs.len()
        invariant
            i <= dirs@.len(),
            !name@.contains('/'),
            all == program_places(name@, path::paths(dirs@)),
            path::paths(r@) == all.take(i as int),
        decreases dirs@.len() - i,
    {
        let ghost before = r@;
        r.push(dirs[i].join(name));
        assert(path::paths(r@) =~= path::paths(before).push(all[i as int]));
        assert(all.take(i + 1) =~= all.take(i as int).push(all[i as int]));
        i = i + 1;
    }
    assert(all.take(all.len() as int) =~= all);
    r
}

fn has_slash(name: &str) -> (r: bool)
    ensures
        r == name@.contains('/'),
{
    let cs = crate::text::chars_of(name);
    let mut i: usize = 0;
    while i < cs.len()
        invariant
            i <= cs@.len(),
            cs@ == name@,
            forall|j: int| 0 <= j < i ==> cs@[j] != '/',
        decreases cs@.len() - i,
    {
        if cs[i] == '/' {
            assert(name@[i as int] == '/');
            return true;
        }
        i = i + 1;
    }
    false
}

/// Where a program was found: the first of the places where it was looked
/// for at which there is a file.
pub fn which(places: &[FilePath], is_file: &[bool]) -> (r: Option<FilePath>)
    requires
        places@.len() == is_file@.len(),
    ensures
        match r {
            Some(p) => path::first_file(path::paths(places@), is_file@) == Some(p@),
            None => path::first_file(path::paths(places@), is_file@) is None,
        },
{
    pick_file(places, is_file)
}

/// A program is found exactly when there is a file at one of the places.
pub proof fn law_found_iff_some_file(places: Seq<Seq<u8>>, is_file: Seq<bool>)
    requires
        places.len() == is_file.len(),
    ensures
        path::first_file(places, is_file) is Some <==> is_file.contains(true),
    decreases places.len(),
{
    if places.len() > 0 {
        law_found_iff_some_file(places.skip(1), is_file.skip(1));
        if is_file[0] {
            assert(is_file.contains(true));
        } else {
            if is_file.contains(true) {
                let k = choose|k: int| 0 <= k < is_file.len() && is_file[k];
                assert(is_file.skip(1)[k - 1]);
                assert(is_file.skip(1).contains(true));
            }
            if is_file.skip(1).contains(true) {
                let k = choose|k: int| 0 <= k < is_file.skip(1).len() && is_file.skip(1)[k];
                assert(is_file[k + 1]);
            }
        }
    }
}

} // verus!
