use vstd::prelude::*;
use crate::text::views;

verus! {

/// The least index `k >= from` at which `found[k]` holds.
pub open spec fn first_marked_from(found: Seq<bool>, from: int) -> Option<int>
    decreases found.len() - from,
{
    if from < 0 || from >= found.len() {
        None
    } else if found[from] {
        Some(from)
    } else {
        first_marked_from(found, from + 1)
    }
}

/// The directory `k` levels above `start`, where a directory is the list of its
/// component names below the filesystem root.
pub open spec fn ancestor(start: Seq<Seq<char>>, k: int) -> Seq<Seq<char>> {
    start.subrange(0, start.len() - k)
}

/// Where the upward search from `start` stops: the nearest ancestor, `start`
/// included, whose entry `found[k]` (for the ancestor `k` levels up) says that it
/// holds the marker; none if no ancestor up to the filesystem root does.
pub open spec fn root_search(start: Seq<Seq<char>>, found: Seq<bool>) -> Option<Seq<Seq<char>>> {
    match first_marked_from(found, 0) {
        Some(k) => Some(ancestor(start, k)),
        None => None,
    }
}

/// Why no project root was found.
#[derive(Debug, PartialEq, Eq)]
pub enum RootError {
    /// The working directory could not be determined.
    CurrentDirUnknown,
    /// No directory from the start up to the filesystem root holds the marker.
    NotFound,
}

/// Searches from `start` upwards for the first directory that holds the marker.
/// `start` lists the components of the starting directory below the filesystem
/// root; `marker_found[k]` tells whether the directory `k` levels above `start`
/// holds the marker, up to the root itself at `k == start.len()`.
pub fn find_project_root_by_marker(start: &Vec<String>, marker_found: &Vec<bool>) -> (r: Result<
    Vec<String>,
    RootError,
>)
    requires
        marker_found@.len() == start@.len() + 1,
    ensures
        match root_search(views(start@), marker_found@) {
            Some(dir) => r is Ok && views(r->Ok_0@) == dir,
            None => r == Err::<Vec<String>, RootError>(RootError::NotFound),
        },
{
    let n = start.len();
    let m = marker_found.len();
    let mut k: usize = 0;
    while k < m
        invariant
            m == n + 1,
            k <= m,
            marker_found@.len() == n + 1,
            n == start@.len(),
            first_marked_from(marker_found@, 0) == first_marked_from(marker_found@, k as int),
        decreases n + 1 - k,
    {
        if marker_found[k] {
            let keep = n - k;
            let mut dir: Vec<String> = Vec::new();
            let mut i: usize = 0;
            while i < keep
                invariant
                    i <= keep,
                    keep <= n,
                    n == start@.len(),
                    dir@ == start@.subrange(0, i as int),
                decreases keep - i,
            {
                let part = start[i].clone();
                dir.push(part);
                assert(dir@ =~= start@.subrange(0, i + 1));
                i = i + 1;
            }
            assert(views(dir@) =~= ancestor(views(start@), k as int));
            return Ok(dir);
        }
        k = k + 1;
    }
    Err(RootError::NotFound)
}

proof fn lemma_first_marked_at(found: Seq<bool>, from: int, d: int)
    requires
        0 <= from <= d < found.len(),
        found[d],
        forall|j: int| from <= j < d ==> !found[j],
    ensures
        first_marked_from(found, from) == Some(d),
    decreases d - from,
{
    if from < d {
        lemma_first_marked_at(found, from + 1, d);
    }
}

proof fn lemma_first_marked_none(found: Seq<bool>, from: int)
    requires
        0 <= from <= found.len(),
        forall|j: int| from <= j < found.len() ==> !found[j],
    ensures
        first_marked_from(found, from) is None,
    decreases found.len() - from,
{
    if from < found.len() {
        lemma_first_marked_none(found, from + 1);
    }
}

/// The search returns exactly the ancestor `d` levels up when that is the nearest
/// directory holding the marker, and fails when no directory up to the filesystem
/// root holds it.
pub proof fn lemma_root_search(start: Seq<Seq<char>>, found: Seq<bool>, d: int)
    requires
        found.len() == start.len() + 1,
    ensures
        0 <= d <= start.len() && found[d] && (forall|j: int| 0 <= j < d ==> !found[j])
            ==> root_search(start, found) == Some(ancestor(start, d)),
        (forall|j: int| 0 <= j < found.len() ==> !found[j]) ==> root_search(start, found) is None,
{
    if 0 <= d <= start.len() && found[d] && (forall|j: int| 0 <= j < d ==> !found[j]) {
        lemma_first_marked_at(found, 0, d);
    }
    if forall|j: int| 0 <= j < found.len() ==> !found[j] {
        lemma_first_marked_none(found, 0);
    }
}

} // verus!
