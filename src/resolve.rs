use vstd::prelude::*;

use crate::entity::{opt_view, File, FileView};

verus! {

/// The file's inline content was cut short by the host.
pub open spec fn is_truncated(f: File) -> bool {
    f.truncated == Some(true)
}

/// Whether a fetched gist's truncated files are to be fetched in full: always
/// when the files go to a directory, whose files get the raw content; else
/// when full retrieval was asked for and the content is shown.
pub fn wants_full_content(greedy: bool, to_directory: bool, no_content: bool) -> (r: bool)
    ensures
        r == (to_directory || (greedy && !no_content)),
{
    to_directory || (greedy && !no_content)
}

/// The files to fetch again, in order: the index and raw URL of each
/// truncated file that has one.
pub fn truncated_targets(files: &Vec<(String, File)>) -> (r: Vec<(usize, String)>)
    ensures
        forall|k: int|
            0 <= k < r@.len() ==> {
                let i = (#[trigger] r@[k]).0 as int;
                &&& i < files@.len()
                &&& is_truncated(files@[i].1)
                &&& files@[i].1.raw_url matches Some(u) && u@ == r@[k].1@
            },
        forall|k: int, l: int| 0 <= k < l < r@.len() ==> #[trigger] r@[k].0 < #[trigger] r@[l].0,
        forall|i: int|
            0 <= i < files@.len() && is_truncated(#[trigger] files@[i].1)
                && files@[i].1.raw_url is Some ==> exists|k: int|
                0 <= k < r@.len() && #[trigger] r@[k].0 == i,
{
    let mut r: Vec<(usize, String)> = Vec::new();
    let mut i: usize = 0;
    while i < files.len()
        invariant
            i <= files@.len(),
            forall|k: int|
                0 <= k < r@.len() ==> {
                    let j = (#[trigger] r@[k]).0 as int;
                    &&& j < i
                    &&& is_truncated(files@[j].1)
                    &&& files@[j].1.raw_url matches Some(u) && u@ == r@[k].1@
                },
            forall|k: int, l: int| 0 <= k < l < r@.len() ==> #[trigger] r@[k].0 < #[trigger] r@[l].0,
            forall|j: int|
                0 <= j < i && is_truncated(#[trigger] files@[j].1) && files@[j].1.raw_url is Some
                    ==> exists|k: int| 0 <= k < r@.len() && #[trigger] r@[k].0 == j,
        decreases files@.len() - i,
    {
        let f = &files[i].1;
        let truncated = match f.truncated {
            Some(t) => t,
            None => false,
        };
        if truncated {
            match &f.raw_url {
                Some(u) => {
                    let ghost before = r@;
                    r.push((i, u.clone()));
                    assert forall|j: int|
                        0 <= j < i + 1 && is_truncated(#[trigger] files@[j].1)
                            && files@[j].1.raw_url is Some implies exists|k: int|
                        0 <= k < r@.len() && #[trigger] r@[k].0 == j by {
                        if j < i {
                            let k = choose|k: int| 0 <= k < before.len() && #[trigger] before[k].0 == j;
                            assert(r@[k] == before[k]);
                        } else {
                            assert(r@[before.len() as int].0 == j);
                        }
                    }
                },
                None => {},
            }
        }
        i = i + 1;
    }
    r
}

/// The file with its content replaced.
pub open spec fn with_content(f: FileView, content: Option<Seq<char>>) -> FileView {
    FileView { content, ..f }
}

/// Puts the full content of each truncated file in place: `fetched[i]` is
/// what fetching file `i` gave, none where that failed. Each truncated
/// file's content becomes exactly what was fetched for it; every other
/// file is left as it was.
pub fn resolve_truncated(files: &mut Vec<(String, File)>, fetched: &Vec<Option<String>>)
    requires
        old(files)@.len() == fetched@.len(),
    ensures
        final(files)@.len() == old(files)@.len(),
        forall|i: int|
            0 <= i < old(files)@.len() ==> if is_truncated(#[trigger] old(files)@[i].1) {
                &&& final(files)@[i].0 == old(files)@[i].0
                &&& final(files)@[i].1@ == with_content(old(files)@[i].1@, opt_view(fetched@[i]))
            } else {
                final(files)@[i] == old(files)@[i]
            },
{
    let mut i: usize = 0;
    while i < files.len()
        invariant
            files@.len() == old(files)@.len() == fetched@.len(),
            i <= files@.len(),
            forall|j: int| i <= j < files@.len() ==> #[trigger] files@[j] == old(files)@[j],
            forall|j: int|
                0 <= j < i ==> if is_truncated(#[trigger] old(files)@[j].1) {
                    &&& files@[j].0 == old(files)@[j].0
                    &&& files@[j].1@ == with_content(old(files)@[j].1@, opt_view(fetched@[j]))
                } else {
                    files@[j] == old(files)@[j]
                },
        decreases files@.len() - i,
    {
        let truncated = match files[i].1.truncated {
            Some(t) => t,
            None => false,
        };
        if truncated {
            let body = match &fetched[i] {
                Some(b) => Some(b.clone()),
                None => None,
            };
            files[i].1.content = body;
        }
        i = i + 1;
    }
}

} // verus!
