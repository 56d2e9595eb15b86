//! The storage directory as the requests see it: a flat set of regular
//! files, each a name with its bytes.
//!
//! The directory lives on disk, and reading and writing it is the work of
//! the server around this library. This module says what that work amounts
//! to, so that what an upload leaves behind can be related to what a later
//! list request returns.

use crate::listing::{admits, is_regular_file_in, listing, EntryView, FileQueryView};
use crate::upload::StoreRequestView;
use vstd::prelude::*;

verus! {

/// The name of the storage directory, relative to where the server runs.
pub const STORAGE_DIR: &'static str = "files";

/// The regular files of the storage directory: their bytes, by name. A
/// download of a name returns the bytes held under it.
pub struct Directory {
    pub files: Map<Seq<char>, Seq<u8>>,
}

impl Directory {
    /// The directory after a store request was carried out: the file is
    /// created, or replaced if the name was taken, and every other file
    /// stays as it was.
    pub open spec fn store(self, request: StoreRequestView) -> Directory {
        Directory { files: self.files.insert(request.name, request.content) }
    }

    /// `entries` is a reading of the directory: its regular files are the
    /// files of the directory. It may hold entries of other kinds as well.
    pub open spec fn read_as(self, entries: Seq<EntryView>) -> bool {
        forall|name: Seq<char>|
            self.files.dom().contains(name) <==> #[trigger] is_regular_file_in(entries, name)
    }
}

/// A stored file holds the bytes of the request, and a list request that
/// follows names it whenever its filters admit the name.
pub proof fn lemma_stored_file_is_listed(
    dir: Directory,
    request: StoreRequestView,
    entries: Seq<EntryView>,
    query: FileQueryView,
)
    requires
        dir.store(request).read_as(entries),
        admits(query, EntryView::file(request.name)),
    ensures
        dir.store(request).files[request.name] == request.content,
        listing(entries, query).contains(request.name),
{
    assert(is_regular_file_in(entries, request.name));
    let j = choose|j: int|
        0 <= j < entries.len() && entries[j].is_file && entries[j].name == request.name;
    let pred = |e: EntryView| admits(query, e);
    entries.lemma_filter_contains(pred, j);
    let kept = entries.filter(pred);
    let at = choose|i: int| 0 <= i < kept.len() && kept[i] == entries[j];
    assert(listing(entries, query)[at] == request.name);
}

/// A second store under a name that is taken replaces the file: the
/// directory is as if the first store had never been, and holds the bytes
/// of the second.
pub proof fn lemma_later_store_replaces(
    dir: Directory,
    first: StoreRequestView,
    second: StoreRequestView,
)
    requires
        first.name == second.name,
    ensures
        dir.store(first).store(second) == dir.store(second),
        dir.store(first).store(second).files[second.name] == second.content,
{
    assert(dir.store(first).store(second).files =~= dir.store(second).files);
}

/// A store leaves every file of another name as it was.
pub proof fn lemma_store_keeps_other_files(
    dir: Directory,
    request: StoreRequestView,
    name: Seq<char>,
)
    requires
        name != request.name,
    ensures
        dir.store(request).files.dom().contains(name) == dir.files.dom().contains(name),
        dir.files.dom().contains(name) ==> dir.store(request).files[name] == dir.files[name],
{
}

} // verus!
