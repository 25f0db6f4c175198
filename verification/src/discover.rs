//! Finding the file that an open path stands for among the entries of its
//! directory.
//!
//! A path that leaves the format open names a stem: every regular file of
//! the directory whose name begins with the stem, and whose own extension
//! stands for a format, can take its place. The first such entry of the
//! listing is taken. The order of a listing is up to whoever made it.

use vstd::prelude::*;
use vstd::string::*;

use crate::error::Error;
use crate::format::{classify, lemma_classify_file_name, load_fmt, Format, LoadFormat};
use crate::path::{dir, dir_of, file_name, file_name_of, join, join_of, lemma_file_name_of_join, same_text, starts_with};

verus! {

/// One entry of a directory listing.
#[derive(Debug, Clone, PartialEq, Eq)]
pub struct Entry {
    /// The name of the entry within its directory.
    pub name: String,
    /// Whether the entry is a regular file.
    pub is_file: bool,
}

/// Whether `stem` is a file name that siblings can be looked up for: it is
/// not empty, and it is neither `.` nor `..`.
pub open spec fn usable_stem(stem: Seq<char>) -> bool {
    stem.len() > 0 && stem != "."@ && stem != ".."@
}

/// The directory in which the siblings of `path` are looked for: the one
/// that holds its file name, and the current one where the path names none.
pub open spec fn search_dir_of(path: Seq<char>) -> Seq<char> {
    if dir_of(path).len() == 0 {
        "."@
    } else {
        dir_of(path)
    }
}

/// Whether `entry` can stand for the stem: a regular file whose name begins
/// with the stem and names a format.
pub open spec fn is_candidate(stem: Seq<char>, entry: Entry) -> bool {
    &&& entry.is_file
    &&& stem.is_prefix_of(entry.name@)
    &&& classify(entry.name@) is Format
}

/// Whether the entry at `i` is the first candidate of the listing.
pub open spec fn is_first_candidate(stem: Seq<char>, entries: Seq<Entry>, i: int) -> bool {
    &&& 0 <= i < entries.len()
    &&& is_candidate(stem, entries[i])
    &&& forall|j: int| 0 <= j < i ==> !is_candidate(stem, #[trigger] entries[j])
}

/// The index of the first candidate of the listing, if it has one.
pub open spec fn first_candidate(stem: Seq<char>, entries: Seq<Entry>) -> Option<int>
    decreases entries.len(),
{
    if entries.len() == 0 {
        None
    } else {
        match first_candidate(stem, entries.drop_last()) {
            Some(i) => Some(i),
            None => if is_candidate(stem, entries.last()) {
                Some(entries.len() - 1)
            } else {
                None
            },
        }
    }
}

/// The path and the format that discovery settles on for `path`, given the
/// listing of its directory: those of the first candidate, if the path has a
/// usable stem and the listing a candidate.
pub open spec fn discovery(path: Seq<char>, entries: Seq<Entry>) -> Option<(Seq<char>, Format)> {
    let stem = file_name_of(path);
    if !usable_stem(stem) {
        None
    } else {
        match first_candidate(stem, entries) {
            Some(i) => Some(
                (join_of(search_dir_of(path), entries[i].name@), classify(entries[i].name@)->Format_0),
            ),
            None => None,
        }
    }
}

/// `first_candidate` gives the first candidate, and nothing only where the
/// listing has none.
pub proof fn lemma_first_candidate(stem: Seq<char>, entries: Seq<Entry>)
    ensures
        match first_candidate(stem, entries) {
            Some(i) => is_first_candidate(stem, entries, i),
            None => forall|j: int| 0 <= j < entries.len() ==> !is_candidate(stem, #[trigger] entries[j]),
        },
    decreases entries.len(),
{
    if entries.len() > 0 {
        let front = entries.drop_last();
        lemma_first_candidate(stem, front);
        assert forall|j: int| 0 <= j < front.len() implies front[j] == entries[j] by {}
        match first_candidate(stem, front) {
            Some(i) => {
                assert(front[i] == entries[i]);
                assert forall|j: int| 0 <= j < i implies !is_candidate(stem, #[trigger] entries[j]) by {
                    assert(front[j] == entries[j]);
                }
            },
            None => {
                assert forall|j: int| 0 <= j < front.len() implies !is_candidate(
                    stem,
                    #[trigger] entries[j],
                ) by {
                    assert(front[j] == entries[j]);
                }
            },
        }
    }
}

/// The first candidate is the one that `first_candidate` gives.
pub proof fn lemma_first_candidate_is(stem: Seq<char>, entries: Seq<Entry>, i: int)
    requires
        is_first_candidate(stem, entries, i),
    ensures
        first_candidate(stem, entries) == Some(i),
{
    lemma_first_candidate(stem, entries);
}

/// What discovery settles on is a sibling of the path it was asked for: its
/// file name begins with the stem, it lies in the directory that was
/// searched, and its own extension names the format it was found with.
pub proof fn lemma_discovery_is_sibling(path: Seq<char>, entries: Seq<Entry>)
    ensures
        match discovery(path, entries) {
            Some((at, fmt)) => {
                &&& classify(at) == LoadFormat::Format(fmt)
                &&& exists|i: int|
                    #![trigger entries[i]]
                    is_first_candidate(file_name_of(path), entries, i) && at == join_of(
                        search_dir_of(path),
                        entries[i].name@,
                    )
            },
            None => !usable_stem(file_name_of(path)) || forall|j: int|
                0 <= j < entries.len() ==> !is_candidate(file_name_of(path), #[trigger] entries[j]),
        },
{
    let stem = file_name_of(path);
    lemma_first_candidate(stem, entries);
    if discovery(path, entries) is Some {
        let i = first_candidate(stem, entries)->0;
        let name = entries[i].name@;
        lemma_file_name_of_join(search_dir_of(path), name);
        lemma_classify_file_name(join_of(search_dir_of(path), name));
        lemma_classify_file_name(name);
    }
}

/// The file name of `path`, where siblings can be looked up for it.
pub fn stem(path: &str) -> (found: Result<&str, Error>)
    ensures
        match found {
            Ok(stem) => stem@ == file_name_of(path@) && usable_stem(stem@),
            Err(e) => e == Error::InvalidPath && !usable_stem(file_name_of(path@)),
        },
{
    let name = file_name(path);
    proof {
        reveal_strlit("");
    }
    if same_text(name, "") || same_text(name, ".") || same_text(name, "..") {
        assert(name@.len() == 0 ==> name@ =~= ""@);
        Err(Error::InvalidPath)
    } else {
        Ok(name)
    }
}

/// The directory in which the siblings of `path` are looked for.
pub fn search_dir(path: &str) -> (found: &str)
    ensures
        found@ == search_dir_of(path@),
{
    let held = dir(path);
    proof {
        reveal_strlit("");
    }
    if same_text(held, "") {
        "."
    } else {
        assert(held@.len() == 0 ==> held@ =~= ""@);
        held
    }
}

/// The format that `entry` names, where it can stand for `stem`.
pub fn candidate(stem: &str, entry: &Entry) -> (fmt: Option<Format>)
    ensures
        match fmt {
            Some(fmt) => is_candidate(stem@, *entry) && classify(entry.name@) == LoadFormat::Format(fmt),
            None => !is_candidate(stem@, *entry),
        },
{
    if !entry.is_file {
        return None;
    }
    if !starts_with(entry.name.as_str(), stem) {
        return None;
    }
    match load_fmt(entry.name.as_str()) {
        LoadFormat::Format(fmt) => Some(fmt),
        _ => None,
    }
}

/// The file that stands for `path` among `entries`, the listing of
/// `search_dir(path)`: its path, and the format that its name gives.
///
/// Fails with `InvalidPath` where the path has no usable file name, and
/// where no entry can stand for it.
pub fn discover(path: &str, entries: &Vec<Entry>) -> (found: Result<(String, Format), Error>)
    ensures
        match discovery(path@, entries@) {
            Some((at, fmt)) => found matches Ok(got) && got.0@ == at && got.1 == fmt,
            None => found == Err::<(String, Format), Error>(Error::InvalidPath),
        },
{
    let stem = match stem(path) {
        Ok(stem) => stem,
        Err(e) => {
            return Err(e);
        },
    };
    let mut i: usize = 0;
    while i < entries.len()
        invariant
            i <= entries.len(),
            stem@ == file_name_of(path@),
            usable_stem(stem@),
            forall|j: int| 0 <= j < i ==> !is_candidate(stem@, #[trigger] entries@[j]),
        decreases entries.len() - i,
    {
        match candidate(stem, &entries[i]) {
            Some(fmt) => {
                proof {
                    lemma_first_candidate_is(stem@, entries@, i as int);
                }
                return Ok((join(search_dir(path), entries[i].name.as_str()), fmt));
            },
            None => {},
        }
        i += 1;
    }
    proof {
        lemma_first_candidate(stem@, entries@);
    }
    Err(Error::InvalidPath)
}

} // verus!
