use fileshare::text::{chars_of, contains, eq_ignore_ascii_case, find_extension, to_ascii_lower};

fn chars(s: &str) -> Vec<char> {
    s.chars().collect()
}

#[test]
fn chars_of_keeps_every_character_in_order() {
    assert_eq!(chars_of("a.Pdf"), vec!['a', '.', 'P', 'd', 'f']);
    assert_eq!(chars_of(""), Vec::<char>::new());
    assert_eq!(chars_of("é€x"), vec!['é', '€', 'x']);
}

#[test]
fn ascii_lower_folds_only_ascii_capitals() {
    assert_eq!(to_ascii_lower('A'), 'a');
    assert_eq!(to_ascii_lower('Z'), 'z');
    assert_eq!(to_ascii_lower('M'), 'm');
    assert_eq!(to_ascii_lower('a'), 'a');
    assert_eq!(to_ascii_lower('3'), '3');
    assert_eq!(to_ascii_lower('@'), '@');
    assert_eq!(to_ascii_lower('['), '[');
    assert_eq!(to_ascii_lower('É'), 'É');
}

#[test]
fn ascii_lower_agrees_with_std_on_ascii() {
    for b in 0u8..128 {
        let c = b as char;
        assert_eq!(to_ascii_lower(c), c.to_ascii_lowercase());
    }
}

#[test]
fn eq_ignore_ascii_case_compares_up_to_ascii_case() {
    assert!(eq_ignore_ascii_case(&chars("PDF"), &chars("pdf")));
    assert!(eq_ignore_ascii_case(&chars("pDf"), &chars("PdF")));
    assert!(eq_ignore_ascii_case(&chars(""), &chars("")));
    assert!(!eq_ignore_ascii_case(&chars("pdf"), &chars("pdfx")));
    assert!(!eq_ignore_ascii_case(&chars("pdf"), &chars("pd")));
    assert!(!eq_ignore_ascii_case(&chars("pdf"), &chars("pds")));
    assert!(!eq_ignore_ascii_case(&chars("É"), &chars("é")));
}

#[test]
fn eq_ignore_ascii_case_agrees_with_std() {
    let samples = ["", "pdf", "PDF", "Pdf", "docx", "DOCX", "mp3", "MP3", "mp4", "é", "É", "p d"];
    for a in samples {
        for b in samples {
            assert_eq!(eq_ignore_ascii_case(&chars(a), &chars(b)), a.eq_ignore_ascii_case(b));
        }
    }
}

#[test]
fn extension_is_what_follows_the_last_dot() {
    assert_eq!(find_extension(&chars("report.pdf")), Some(chars("pdf")));
    assert_eq!(find_extension(&chars("archive.tar.gz")), Some(chars("gz")));
    assert_eq!(find_extension(&chars("a.B")), Some(chars("B")));
    assert_eq!(find_extension(&chars(".hidden.txt")), Some(chars("txt")));
}

#[test]
fn extension_is_absent_without_a_dot_or_with_a_leading_dot_only() {
    assert_eq!(find_extension(&chars("README")), None);
    assert_eq!(find_extension(&chars("")), None);
    assert_eq!(find_extension(&chars(".bashrc")), None);
    assert_eq!(find_extension(&chars(".pdf")), None);
    assert_eq!(find_extension(&chars(".")), None);
}

#[test]
fn extension_is_empty_after_a_trailing_dot() {
    assert_eq!(find_extension(&chars("name.")), Some(chars("")));
    assert_eq!(find_extension(&chars("a.b.")), Some(chars("")));
}

#[test]
fn extension_agrees_with_std_on_entry_names() {
    let samples = [
        "report.pdf", "REPORT.PDF", "archive.tar.gz", "README", ".bashrc", ".hidden.txt", "name.",
        "a..b", "..pdf", "...", "é.mp3", "x.é", "no dot", "sp ace.do cx",
    ];
    for name in samples {
        let expected = std::path::Path::new(name).extension().and_then(|e| e.to_str()).map(chars);
        assert_eq!(find_extension(&chars(name)), expected);
    }
}

#[test]
fn contains_finds_a_run_of_characters() {
    assert!(contains(&chars("hello world"), &chars("lo wo")));
    assert!(contains(&chars("hello"), &chars("hello")));
    assert!(contains(&chars("hello"), &chars("h")));
    assert!(contains(&chars("hello"), &chars("o")));
    assert!(contains(&chars("aab"), &chars("ab")));
    assert!(!contains(&chars("hello"), &chars("hellos")));
    assert!(!contains(&chars("hello"), &chars("lol")));
    assert!(!contains(&chars(""), &chars("a")));
}

#[test]
fn contains_finds_the_empty_text_everywhere() {
    assert!(contains(&chars("hello"), &chars("")));
    assert!(contains(&chars(""), &chars("")));
}

#[test]
fn contains_agrees_with_std() {
    let samples = ["", "a", "ab", "ba", "aab", "abab", "report.pdf", "port", "é", "aé"];
    for hay in samples {
        for needle in samples {
            assert_eq!(contains(&chars(hay), &chars(needle)), hay.contains(needle));
        }
    }
}
