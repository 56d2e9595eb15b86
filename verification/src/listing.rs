//! The list request: which entries of the storage directory a query names.

use crate::status::Status;
use crate::text::{
    chars_of, contains, eq_ignore_ascii_case, eq_ignoring_ascii_case, extension, find_extension,
    is_substring, lowercase, to_lowercase,
};
use vstd::prelude::*;

verus! {

/// One entry of the storage directory, as the directory read reports it.
#[derive(Clone, Debug, PartialEq, Eq)]
pub struct Entry {
    /// The entry's name within the directory.
    pub name: String,
    /// Whether the entry is a regular file.
    pub is_file: bool,
}

/// The mathematical form of an [`Entry`].
pub struct EntryView {
    pub name: Seq<char>,
    pub is_file: bool,
}

impl EntryView {
    /// The entry of a regular file of this name.
    pub open spec fn file(name: Seq<char>) -> EntryView {
        EntryView { name, is_file: true }
    }
}

impl View for Entry {
    type V = EntryView;

    open spec fn view(&self) -> EntryView {
        EntryView { name: self.name@, is_file: self.is_file }
    }
}

/// The filters of one list request. Either may be absent.
#[derive(Clone, Debug, PartialEq, Eq)]
pub struct FileQuery {
    /// The `type` parameter: `all`, or one of the supported extensions.
    pub file_type: Option<String>,
    /// The `search` parameter: a text that the file name is to contain.
    pub search: Option<String>,
}

/// The mathematical form of a [`FileQuery`].
pub struct FileQueryView {
    pub file_type: Option<Seq<char>>,
    pub search: Option<Seq<char>>,
}

impl FileQueryView {
    /// The query with these two filters.
    pub open spec fn of(file_type: Option<Seq<char>>, search: Option<Seq<char>>) -> FileQueryView {
        FileQueryView { file_type, search }
    }
}

impl View for FileQuery {
    type V = FileQueryView;

    open spec fn view(&self) -> FileQueryView {
        FileQueryView { file_type: text_of(self.file_type), search: text_of(self.search) }
    }
}

/// The mathematical form of a parameter that may be absent.
pub open spec fn text_of(parameter: Option<String>) -> Option<Seq<char>> {
    match parameter {
        Some(text) => Some(text@),
        None => None,
    }
}

/// The extensions a type filter can select.
pub open spec fn is_supported_type(t: Seq<char>) -> bool {
    t == "pdf"@ || t == "docx"@ || t == "mp3"@
}

/// The name carries the extension `t`, up to the case of ASCII letters.
pub open spec fn has_extension(name: Seq<char>, t: Seq<char>) -> bool {
    match extension(name) {
        Some(e) => eq_ignoring_ascii_case(e, t),
        None => false,
    }
}

/// The type filter keeps the name. An absent filter and `all` keep every
/// name, a supported extension keeps the names that carry it, and any other
/// value keeps none.
pub open spec fn type_admits(file_type: Option<Seq<char>>, name: Seq<char>) -> bool {
    match file_type {
        None => true,
        Some(t) => t == "all"@ || (is_supported_type(t) && has_extension(name, t)),
    }
}

/// The search filter keeps the name. An absent or empty search keeps every
/// name; otherwise the lower-case form of the name has to contain the
/// lower-case form of the search text.
pub open spec fn search_admits(search: Option<Seq<char>>, name: Seq<char>) -> bool {
    match search {
        None => true,
        Some(s) => s.len() == 0 || is_substring(lowercase(s), lowercase(name)),
    }
}

/// The query names the entry: a regular file that passes both filters.
pub open spec fn admits(query: FileQueryView, entry: EntryView) -> bool {
    entry.is_file && type_admits(query.file_type, entry.name) && search_admits(
        query.search,
        entry.name,
    )
}

/// The names a list request returns: those of the admitted entries, in the
/// order in which the directory was read.
pub open spec fn listing(entries: Seq<EntryView>, query: FileQueryView) -> Seq<Seq<char>> {
    entries.filter(|e: EntryView| admits(query, e)).map_values(|e: EntryView| e.name)
}

/// The mathematical form of a sequence of entries.
pub open spec fn entry_views(entries: Seq<Entry>) -> Seq<EntryView> {
    entries.map_values(|e: Entry| e@)
}

/// The mathematical form of a sequence of names.
pub open spec fn name_views(names: Seq<String>) -> Seq<Seq<char>> {
    names.map_values(|s: String| s@)
}

/// What a type filter comes to, once the parameter has been read.
enum Selector {
    /// Every name passes.
    Everything,
    /// The names with this extension pass.
    Extension(Vec<char>),
    /// No name passes.
    Nothing,
}

impl Selector {
    spec fn admits(self, name: Seq<char>) -> bool {
        match self {
            Selector::Everything => true,
            Selector::Extension(t) => has_extension(name, t@),
            Selector::Nothing => false,
        }
    }
}

/// Compares a text with a literal.
fn is_text(s: &String, literal: &str) -> (r: bool)
    ensures
        r == (s@ == literal@),
{
    let other = literal.to_owned();
    *s == other
}

/// Reads the `type` parameter.
fn selector_of(file_type: &Option<String>) -> (sel: Selector)
    ensures
        forall|name: Seq<char>|
            #[trigger] sel.admits(name) == type_admits(text_of(*file_type), name),
{
    match file_type {
        None => Selector::Everything,
        Some(t) => {
            if is_text(t, "all") {
                Selector::Everything
            } else if is_text(t, "pdf") || is_text(t, "docx") || is_text(t, "mp3") {
                Selector::Extension(chars_of(t.as_str()))
            } else {
                Selector::Nothing
            }
        },
    }
}

/// Applies a type filter to one name.
fn selector_admits(sel: &Selector, name: &Vec<char>) -> (r: bool)
    ensures
        r == sel.admits(name@),
{
    match sel {
        Selector::Everything => true,
        Selector::Extension(t) => match find_extension(name) {
            Some(e) => eq_ignore_ascii_case(&e, t),
            None => false,
        },
        Selector::Nothing => false,
    }
}

/// Tells whether a name passes a search, given the lower-case forms of the
/// name and of the search text: the name has to contain the text.
pub fn search_matches(lowered_name: &str, lowered_search: &str) -> (r: bool)
    ensures
        r == is_substring(lowered_search@, lowered_name@),
{
    let hay = chars_of(lowered_name);
    let needle = chars_of(lowered_search);
    contains(&hay, &needle)
}

/// Reads the `search` parameter: the lower-case form of the text to look
/// for, or nothing where every name passes.
fn needle_of(search: &Option<String>) -> (needle: Option<String>)
    ensures
        forall|name: Seq<char>|
            #[trigger] search_admits(text_of(*search), name) == match needle {
                Some(text) => is_substring(text@, lowercase(name)),
                None => true,
            },
{
    match search {
        None => None,
        Some(s) => {
            if s.as_str().is_empty() {
                None
            } else {
                Some(to_lowercase(s.as_str()))
            }
        },
    }
}

/// Applies a search filter to one name.
fn needle_admits(needle: &Option<String>, name: &String) -> (r: bool)
    ensures
        r == match *needle {
            Some(text) => is_substring(text@, lowercase(name@)),
            None => true,
        },
{
    match needle {
        None => true,
        Some(text) => {
            let lowered_name = to_lowercase(name.as_str());
            search_matches(lowered_name.as_str(), text.as_str())
        },
    }
}

/// Selects the names that a list request returns from the entries of the
/// storage directory: the regular files that pass the type filter and the
/// search filter, in the order of `entries`.
pub fn select_names(entries: &Vec<Entry>, params: &FileQuery) -> (names: Vec<String>)
    ensures
        name_views(names@) == listing(entry_views(entries@), params@),
{
    let sel = selector_of(&params.file_type);
    let needle = needle_of(&params.search);
    let mut names: Vec<String> = Vec::new();
    let mut i: usize = 0;
    proof {
        lemma_listing_empty(params@);
    }
    while i < entries.len()
        invariant
            i <= entries.len(),
            name_views(names@) == listing(entry_views(entries@.take(i as int)), params@),
            forall|name: Seq<char>|
                #[trigger] sel.admits(name) == type_admits(params@.file_type, name),
            forall|name: Seq<char>|
                #[trigger] search_admits(params@.search, name) == match needle {
                    Some(text) => is_substring(text@, lowercase(name)),
                    None => true,
                },
        decreases entries.len() - i,
    {
        let entry = &entries[i];
        let name_chars = chars_of(entry.name.as_str());
        let keep = entry.is_file && selector_admits(&sel, &name_chars) && needle_admits(
            &needle,
            &entry.name,
        );
        proof {
            assert(search_admits(params@.search, entry@.name) == match needle {
                Some(text) => is_substring(text@, lowercase(entry@.name)),
                None => true,
            });
            assert(entry_views(entries@.take(i + 1)) =~= entry_views(entries@.take(i as int)).push(
                entry@,
            ));
            lemma_listing_push(entry_views(entries@.take(i as int)), entry@, params@);
        }
        if keep {
            names.push(entry.name.clone());
        }
        i += 1;
    }
    assert(entries@.take(i as int) =~= entries@);
    names
}

/// Answers a list request. `directory` holds the entries of the storage
/// directory, or nothing where the directory could not be read: then the
/// answer is a server error, whatever the filters. Otherwise the answer is
/// the selected names, and always a success.
pub fn list_files(directory: Option<&Vec<Entry>>, params: &FileQuery) -> (r: Result<
    Vec<String>,
    Status,
>)
    ensures
        match directory {
            None => r == Err::<Vec<String>, Status>(Status::InternalServerError),
            Some(entries) => r is Ok && name_views(r->Ok_0@) == listing(
                entry_views(entries@),
                params@,
            ),
        },
{
    match directory {
        None => Err(Status::InternalServerError),
        Some(entries) => Ok(select_names(entries, params)),
    }
}

/// Nothing is listed from an empty directory.
pub proof fn lemma_listing_empty(query: FileQueryView)
    ensures
        listing(Seq::<EntryView>::empty(), query) == Seq::<Seq<char>>::empty(),
{
    reveal(Seq::filter);
    assert(Seq::<EntryView>::empty().filter(|e: EntryView| admits(query, e))
        =~= Seq::<EntryView>::empty());
}

/// One more entry at the end of the directory adds its name at the end of
/// the listing if the query admits it, and changes nothing otherwise.
pub proof fn lemma_listing_push(entries: Seq<EntryView>, entry: EntryView, query: FileQueryView)
    ensures
        listing(entries.push(entry), query) == if admits(query, entry) {
            listing(entries, query).push(entry.name)
        } else {
            listing(entries, query)
        },
{
    let pred = |e: EntryView| admits(query, e);
    entries.lemma_filter_push(entry, pred);
    if admits(query, entry) {
        assert(entries.filter(pred).push(entry).map_values(|e: EntryView| e.name)
            =~= entries.filter(pred).map_values(|e: EntryView| e.name).push(entry.name));
    }
}

/// `name` is the name of a regular file among `entries`.
pub open spec fn is_regular_file_in(entries: Seq<EntryView>, name: Seq<char>) -> bool {
    exists|j: int| 0 <= j < entries.len() && entries[j].is_file && entries[j].name == name
}

/// Every listed name is the name of a regular file of the directory:
/// directories and special files are never listed, whatever the filters.
pub proof fn lemma_lists_only_regular_files(entries: Seq<EntryView>, query: FileQueryView)
    ensures
        forall|i: int|
            0 <= i < listing(entries, query).len() ==> is_regular_file_in(
                entries,
                #[trigger] listing(entries, query)[i],
            ),
{
    let pred = |e: EntryView| admits(query, e);
    let kept = entries.filter(pred);
    assert forall|i: int| 0 <= i < listing(entries, query).len() implies is_regular_file_in(
        entries,
        #[trigger] listing(entries, query)[i],
    ) by {
        entries.lemma_filter_pred(pred, i);
        entries.lemma_filter_contains_rev(pred, kept[i]);
    }
}

/// The type filter `all` lists what an absent type filter lists.
pub proof fn lemma_type_all_is_absent(entries: Seq<EntryView>, search: Option<Seq<char>>)
    ensures
        listing(entries, FileQueryView::of(Some("all"@), search)) == listing(
            entries,
            FileQueryView::of(None, search),
        ),
{
    let with_all = FileQueryView::of(Some("all"@), search);
    let without = FileQueryView::of(None, search);
    assert((|e: EntryView| admits(with_all, e)) =~= (|e: EntryView| admits(without, e)));
}

/// A supported type filter lists exactly the regular files that carry that
/// extension, up to the case of ASCII letters, and that pass the search.
pub proof fn lemma_type_selects_extension(
    entries: Seq<EntryView>,
    t: Seq<char>,
    search: Option<Seq<char>>,
)
    requires
        is_supported_type(t),
    ensures
        listing(entries, FileQueryView::of(Some(t), search)) == entries.filter(
            |e: EntryView| e.is_file && has_extension(e.name, t) && search_admits(search, e.name),
        ).map_values(|e: EntryView| e.name),
{
    let query = FileQueryView::of(Some(t), search);
    assert((|e: EntryView| admits(query, e)) =~= (|e: EntryView|
        e.is_file && has_extension(e.name, t) && search_admits(search, e.name))) by {
        lemma_all_is_no_extension();
    }
}

/// A type filter that is neither `all` nor a supported extension lists
/// nothing, whatever the directory holds.
pub proof fn lemma_unrecognized_type_lists_nothing(
    entries: Seq<EntryView>,
    t: Seq<char>,
    search: Option<Seq<char>>,
)
    requires
        t != "all"@,
        !is_supported_type(t),
    ensures
        listing(entries, FileQueryView::of(Some(t), search)).len() == 0,
{
    let query = FileQueryView::of(Some(t), search);
    let pred = |e: EntryView| admits(query, e);
    if entries.filter(pred).len() > 0 {
        entries.lemma_filter_pred(pred, 0);
    }
}

/// A search filter lists exactly those names of the listing without it that
/// pass the search: the filters apply one after the other.
pub proof fn lemma_search_refines_listing(
    entries: Seq<EntryView>,
    file_type: Option<Seq<char>>,
    s: Seq<char>,
)
    ensures
        listing(entries, FileQueryView::of(file_type, Some(s))) == listing(
            entries,
            FileQueryView::of(file_type, None),
        ).filter(|name: Seq<char>| search_admits(Some(s), name)),
    decreases entries.len(),
{
    let searched = FileQueryView::of(file_type, Some(s));
    let plain = FileQueryView::of(file_type, None);
    let passes = |name: Seq<char>| search_admits(Some(s), name);
    if entries.len() == 0 {
        lemma_listing_empty(searched);
        lemma_listing_empty(plain);
        reveal(Seq::filter);
    } else {
        let init = entries.drop_last();
        let last = entries.last();
        assert(entries =~= init.push(last));
        lemma_search_refines_listing(init, file_type, s);
        lemma_listing_push(init, last, searched);
        lemma_listing_push(init, last, plain);
        if admits(plain, last) {
            listing(init, plain).lemma_filter_push(last.name, passes);
        }
    }
}

/// A non-empty search text lists exactly those names of the listing without
/// it whose lower-case form contains the lower-case form of the text.
pub proof fn lemma_search_selects_containing(
    entries: Seq<EntryView>,
    file_type: Option<Seq<char>>,
    s: Seq<char>,
)
    requires
        s.len() > 0,
    ensures
        listing(entries, FileQueryView::of(file_type, Some(s))) == listing(
            entries,
            FileQueryView::of(file_type, None),
        ).filter(|name: Seq<char>| is_substring(lowercase(s), lowercase(name))),
{
    lemma_search_refines_listing(entries, file_type, s);
    assert((|name: Seq<char>| search_admits(Some(s), name)) =~= (|name: Seq<char>|
        is_substring(lowercase(s), lowercase(name))));
}

/// An empty search text lists what an absent search lists.
pub proof fn lemma_empty_search_is_absent(entries: Seq<EntryView>, file_type: Option<Seq<char>>)
    ensures
        listing(entries, FileQueryView::of(file_type, Some(Seq::<char>::empty())))
            == listing(entries, FileQueryView::of(file_type, None)),
{
    let with_empty = FileQueryView::of(file_type, Some(Seq::<char>::empty()));
    let without = FileQueryView::of(file_type, None);
    assert((|e: EntryView| admits(with_empty, e)) =~= (|e: EntryView| admits(without, e)));
}

/// `all` is none of the supported extensions.
proof fn lemma_all_is_no_extension()
    ensures
        !is_supported_type("all"@),
{
    reveal_strlit("all");
    reveal_strlit("pdf");
    reveal_strlit("docx");
    reveal_strlit("mp3");
    assert("all"@[0] != "pdf"@[0]);
    assert("all"@[0] != "docx"@[0]);
    assert("all"@[0] != "mp3"@[0]);
}

} // verus!
