use fileshare::listing::{list_files, search_matches, select_names, Entry, FileQuery};
use fileshare::status::Status;

fn file(name: &str) -> Entry {
    Entry { name: name.to_string(), is_file: true }
}

fn other(name: &str) -> Entry {
    Entry { name: name.to_string(), is_file: false }
}

fn query(file_type: Option<&str>, search: Option<&str>) -> FileQuery {
    FileQuery { file_type: file_type.map(|t| t.to_string()), search: search.map(|s| s.to_string()) }
}

fn names(list: &[&str]) -> Vec<String> {
    list.iter().map(|n| n.to_string()).collect()
}

fn directory() -> Vec<Entry> {
    vec![
        file("report.pdf"),
        other("archive.pdf"),
        file("Notes.DOCX"),
        file("song.mp3"),
        file("README"),
        other("music"),
        file("FOOTAGE.Pdf"),
        file(".pdf"),
        file("tool.exe"),
        file("draft.docx"),
    ]
}

#[test]
fn absent_filters_list_every_regular_file_in_order() {
    let listed = select_names(&directory(), &query(None, None));
    assert_eq!(
        listed,
        names(&[
            "report.pdf",
            "Notes.DOCX",
            "song.mp3",
            "README",
            "FOOTAGE.Pdf",
            ".pdf",
            "tool.exe",
            "draft.docx",
        ])
    );
}

#[test]
fn no_filter_combination_lists_a_directory() {
    let types = [None, Some("all"), Some("pdf"), Some("docx"), Some("mp3"), Some("exe"), Some("")];
    let searches = [None, Some(""), Some("a"), Some("pdf"), Some("music"), Some("ARCHIVE")];
    let dir = directory();
    for t in types {
        for s in searches {
            let listed = select_names(&dir, &query(t, s));
            assert!(!listed.contains(&"archive.pdf".to_string()));
            assert!(!listed.contains(&"music".to_string()));
            for name in &listed {
                assert!(dir.iter().any(|e| e.is_file && &e.name == name));
            }
        }
    }
}

#[test]
fn type_all_lists_what_an_absent_type_lists() {
    let dir = directory();
    for s in [None, Some(""), Some("o"), Some("PDF"), Some("zzz")] {
        assert_eq!(select_names(&dir, &query(Some("all"), s)), select_names(&dir, &query(None, s)));
    }
    assert_eq!(select_names(&dir, &query(Some("all"), None)).len(), 8);
}

#[test]
fn type_pdf_lists_the_pdf_files_whatever_their_case() {
    let listed = select_names(&directory(), &query(Some("pdf"), None));
    assert_eq!(listed, names(&["report.pdf", "FOOTAGE.Pdf"]));
}

#[test]
fn type_docx_and_mp3_list_their_files() {
    assert_eq!(
        select_names(&directory(), &query(Some("docx"), None)),
        names(&["Notes.DOCX", "draft.docx"])
    );
    assert_eq!(select_names(&directory(), &query(Some("mp3"), None)), names(&["song.mp3"]));
}

#[test]
fn unrecognized_type_lists_nothing() {
    let dir = directory();
    assert_eq!(select_names(&dir, &query(Some("exe"), None)), Vec::<String>::new());
    assert_eq!(select_names(&dir, &query(Some(""), None)), Vec::<String>::new());
    assert_eq!(select_names(&dir, &query(Some("txt"), Some("tool"))), Vec::<String>::new());
}

#[test]
fn type_parameter_is_matched_as_written() {
    let dir = directory();
    assert_eq!(select_names(&dir, &query(Some("PDF"), None)), Vec::<String>::new());
    assert_eq!(select_names(&dir, &query(Some("All"), None)), Vec::<String>::new());
    assert_eq!(select_names(&dir, &query(Some(".pdf"), None)), Vec::<String>::new());
}

#[test]
fn names_without_extension_pass_only_all_and_absent() {
    let dir = vec![file("README"), file(".pdf"), file("pdf")];
    assert_eq!(select_names(&dir, &query(None, None)), names(&["README", ".pdf", "pdf"]));
    assert_eq!(select_names(&dir, &query(Some("all"), None)), names(&["README", ".pdf", "pdf"]));
    assert_eq!(select_names(&dir, &query(Some("pdf"), None)), Vec::<String>::new());
}

#[test]
fn only_the_last_extension_counts() {
    let dir = vec![file("a.pdf.txt"), file("b.txt.pdf"), file("c.pdf."), file("d..pdf")];
    assert_eq!(select_names(&dir, &query(Some("pdf"), None)), names(&["b.txt.pdf", "d..pdf"]));
}

/// The same selection, written with the text operations of std.
fn selected_by_std(dir: &[Entry], file_type: Option<&str>, search: Option<&str>) -> Vec<String> {
    dir.iter()
        .filter(|entry| entry.is_file)
        .filter(|entry| {
            match std::path::Path::new(&entry.name).extension().and_then(|e| e.to_str()) {
                Some(ext) => match file_type {
                    Some("pdf") => ext.eq_ignore_ascii_case("pdf"),
                    Some("docx") => ext.eq_ignore_ascii_case("docx"),
                    Some("mp3") => ext.eq_ignore_ascii_case("mp3"),
                    Some("all") | None => true,
                    _ => false,
                },
                None => file_type.is_none() || file_type == Some("all"),
            }
        })
        .filter(|entry| match search {
            Some(text) => entry.name.to_lowercase().contains(&text.to_lowercase()),
            None => true,
        })
        .map(|entry| entry.name.clone())
        .collect()
}

#[test]
fn selection_agrees_with_the_text_operations_of_std() {
    let mut dir = directory();
    for name in ["a.PDF", "b.pDf.MP3", ".mp3", "x.", "İstanbul.docx", "ΣΑΣ.pdf", "straße.Mp3", "pdf"] {
        dir.push(file(name));
    }
    dir.push(other("folder.docx"));
    let types =
        [None, Some("all"), Some("pdf"), Some("docx"), Some("mp3"), Some("PDF"), Some("x"), Some("")];
    let searches = [
        None,
        Some(""),
        Some("pdf"),
        Some("PDF"),
        Some("."),
        Some("İ"),
        Some("σας"),
        Some("ΣΑΣ"),
        Some("SS"),
        Some("ß"),
        Some("o"),
    ];
    for t in types {
        for s in searches {
            assert_eq!(select_names(&dir, &query(t, s)), selected_by_std(&dir, t, s));
        }
    }
}

#[test]
fn search_foo_lists_the_names_that_contain_it() {
    let dir = vec![file("foo.txt"), file("barfoo"), file("bar.pdf"), file("FOOD.pdf"), file("f.oo")];
    assert_eq!(
        select_names(&dir, &query(None, Some("foo"))),
        names(&["foo.txt", "barfoo", "FOOD.pdf"])
    );
}

#[test]
fn search_text_is_lowered_too() {
    let dir = vec![file("foo.txt"), file("Report.PDF"), file("bar.pdf")];
    assert_eq!(select_names(&dir, &query(None, Some("FOO"))), names(&["foo.txt"]));
    assert_eq!(select_names(&dir, &query(None, Some("rEpOrT.pdf"))), names(&["Report.PDF"]));
}

#[test]
fn search_lowers_names_beyond_ascii() {
    let dir = vec![file("ÄRGER.pdf"), file("ΣΟΦΙΑ.mp3"), file("plain.pdf")];
    assert_eq!(select_names(&dir, &query(None, Some("ärger"))), names(&["ÄRGER.pdf"]));
    assert_eq!(select_names(&dir, &query(None, Some("σοφ"))), names(&["ΣΟΦΙΑ.mp3"]));
    assert_eq!(select_names(&dir, &query(None, Some("Ärger"))), names(&["ÄRGER.pdf"]));
}

#[test]
fn empty_search_lists_what_an_absent_search_lists() {
    let dir = directory();
    for t in [None, Some("all"), Some("pdf"), Some("docx"), Some("exe")] {
        assert_eq!(select_names(&dir, &query(t, Some(""))), select_names(&dir, &query(t, None)));
    }
    assert_eq!(select_names(&dir, &query(Some("pdf"), Some(""))).len(), 2);
}

#[test]
fn search_applies_to_the_type_filtered_files() {
    let dir = directory();
    assert_eq!(select_names(&dir, &query(Some("pdf"), Some("foot"))), names(&["FOOTAGE.Pdf"]));
    assert_eq!(select_names(&dir, &query(Some("docx"), Some("foot"))), Vec::<String>::new());
    assert_eq!(
        select_names(&dir, &query(Some("all"), Some("o"))),
        names(&["report.pdf", "Notes.DOCX", "song.mp3", "FOOTAGE.Pdf", "tool.exe", "draft.docx"])
    );
}

#[test]
fn search_looks_at_the_whole_name() {
    let dir = vec![file("report.pdf"), file("notes.txt")];
    assert_eq!(select_names(&dir, &query(None, Some(".pdf"))), names(&["report.pdf"]));
    assert_eq!(select_names(&dir, &query(None, Some("t.p"))), names(&["report.pdf"]));
}

#[test]
fn names_are_listed_in_directory_order_with_repeats() {
    let dir = vec![file("b.pdf"), file("a.pdf"), file("b.pdf")];
    assert_eq!(select_names(&dir, &query(Some("pdf"), None)), names(&["b.pdf", "a.pdf", "b.pdf"]));
}

#[test]
fn empty_directory_lists_nothing() {
    assert_eq!(select_names(&Vec::new(), &query(None, None)), Vec::<String>::new());
    assert_eq!(list_files(Some(&Vec::new()), &query(Some("pdf"), Some("x"))), Ok(Vec::new()));
}

#[test]
fn list_request_succeeds_with_the_selected_names() {
    let dir = directory();
    assert_eq!(
        list_files(Some(&dir), &query(Some("mp3"), None)),
        Ok(names(&["song.mp3"]))
    );
    assert_eq!(list_files(Some(&dir), &query(Some("exe"), None)), Ok(Vec::new()));
}

#[test]
fn unreadable_directory_is_a_server_error() {
    let failed = list_files(None, &query(None, None));
    assert_eq!(failed, Err(Status::InternalServerError));
    assert_eq!(failed.unwrap_err().code(), 500);
    assert_eq!(list_files(None, &query(Some("pdf"), Some("a"))), Err(Status::InternalServerError));
}

#[test]
fn search_matches_looks_for_the_lowered_text() {
    assert!(search_matches("report.pdf", "port"));
    assert!(search_matches("report.pdf", ""));
    assert!(!search_matches("report.pdf", "Port"));
    assert!(!search_matches("", "a"));
}

#[test]
fn status_codes() {
    assert_eq!(Status::Created.code(), 201);
    assert_eq!(Status::BadRequest.code(), 400);
    assert_eq!(Status::InternalServerError.code(), 500);
}
