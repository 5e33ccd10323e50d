use typst_oxide::index::{backlink_params, Index, IndexError};
use typst_oxide::parser::labels::{
    is_heading_marks, is_heading_match, is_label_char, is_label_match, is_valid_label_name,
    label_from_capture, label_from_heading, labels_from_captures, name_chars,
};
use typst_oxide::parser::models::{Label, Wikilink};
use typst_oxide::parser::pattern::Capture;
use typst_oxide::parser::text::{begins_with, chars_of, finishes_with, push_chars, string_of};
use typst_oxide::parser::wikilinks::{
    copy_text, is_valid_optional_part, is_valid_part, is_valid_target, is_wikilink_match, wikilink_from_capture,
    wikilinks_from_captures, write_form, WikilinkError,
};
use typst_oxide::parser::ParseError;

fn capture(before: &str, groups: &[Option<&str>]) -> Capture {
    Capture {
        before: before.to_string(),
        groups: groups.iter().map(|g| g.map(|s| s.to_string())).collect(),
    }
}

fn chars(text: &str) -> Vec<char> {
    text.chars().collect()
}

#[test]
fn a_match_becomes_a_wikilink() {
    let cap = capture("ab\u{e9} ", &[Some("[[t:l|a]]"), Some("t"), Some("l"), Some("a")]);

    let w = wikilink_from_capture(&cap, &chars("ab\u{e9} [[t:l|a]] rest"), 7).unwrap();

    assert_eq!(
        w,
        Wikilink {
            target: "t".to_string(),
            alias: Some("a".to_string()),
            label: Some("l".to_string()),
            line: 7,
            column: 5,
        }
    );
}

#[test]
fn a_match_of_another_shape_is_no_wikilink() {
    let no_target = capture("", &[Some("[[]]"), None, None, None]);
    let too_few = capture("", &[Some("[[t]]"), Some("t")]);
    let good = capture("", &[Some("[[t]]"), Some("t"), None, None]);

    let line = chars("[[t]]");
    assert_eq!(wikilink_from_capture(&no_target, &chars("[[]]"), 1), None);
    assert_eq!(wikilink_from_capture(&too_few, &line, 1), None);
    let found = wikilinks_from_captures(&vec![no_target, good.clone(), too_few, good], &line, 3);
    assert_eq!(found.len(), 2);
    assert_eq!(found[0].line, 3);
    assert_eq!(found[1].column, 1);
    assert_eq!(wikilinks_from_captures(&vec![], &line, 3), vec![]);
}

#[test]
fn a_match_becomes_a_label() {
    let cap = capture("    ", &[Some("<label>"), Some("label")]);
    let line = chars("    <label>");

    assert_eq!(
        label_from_capture(&cap, &line, 2),
        Some(Label { name: "label".to_string(), line: 2, column: 5, is_implicit: false })
    );
    assert_eq!(label_from_capture(&capture("", &[Some("<>"), None]), &chars("<>"), 2), None);
    assert_eq!(label_from_capture(&capture("", &[Some("<a>")]), &chars("<a>"), 2), None);
    assert_eq!(labels_from_captures(&vec![cap.clone(), cap], &line, 9).len(), 2);
}

#[test]
fn a_heading_becomes_a_label() {
    let cap = capture("", &[Some("== Big  Title!"), Some("=="), Some("Big  Title!")]);
    let blank = capture("", &[Some("=   "), Some("="), Some(" ")]);
    let line = chars("== Big  Title!");

    assert_eq!(
        label_from_heading(&vec![cap.clone()], &line, 4),
        Some(Label { name: "big-title".to_string(), line: 4, column: 1, is_implicit: true })
    );
    assert_eq!(label_from_heading(&vec![blank.clone()], &chars("=   "), 4), None);
    assert!(is_heading_match(&blank, &chars("=   ")));
    assert_eq!(label_from_heading(&vec![], &line, 4), None);
    assert_eq!(label_from_heading(&vec![capture("", &[Some("= a"), Some("=")])], &chars("= a"), 4), None);
    assert_eq!(label_from_heading(&vec![cap.clone()], &chars("x== Big  Title!"), 4), None);
    assert!(!is_heading_match(&capture("", &[Some("=a"), Some("="), Some("a")]), &chars("=a")));
    assert!(!is_heading_match(&capture("", &[Some("-- a"), Some("--"), Some("a")]), &chars("-- a")));
    assert!(!is_heading_match(&capture("", &[Some("= a"), Some("="), Some("")]), &chars("= a")));
    assert!(!is_heading_match(&capture(" ", &[Some("= a"), Some("="), Some("a")]), &chars("= a")));
    assert!(!is_heading_match(&capture("", &[Some("= a"), Some("="), Some("b")]), &chars("= a")));
    assert!(is_heading_marks(&chars("===")));
    assert!(!is_heading_marks(&chars("")));
    assert!(!is_heading_marks(&chars("=-")));
    assert!(finishes_with(&chars("abc"), &chars("bc")));
    assert!(finishes_with(&chars("abc"), &chars("")));
    assert!(!finishes_with(&chars("abc"), &chars("ab")));
    assert!(!finishes_with(&chars("abc"), &chars("zabc")));
}

#[test]
fn characters_go_to_strings_and_back() {
    let chars = chars_of("a\u{e9}\u{4e16}-_ ");

    assert_eq!(chars, vec!['a', '\u{e9}', '\u{4e16}', '-', '_', ' ']);
    assert_eq!(string_of(&chars), "a\u{e9}\u{4e16}-_ ");
    assert_eq!(name_chars(&chars), vec!['a', '\u{e9}', '\u{4e16}', '-', '_', '-']);
    assert_eq!(chars_of(""), Vec::<char>::new());
    assert_eq!(copy_text(&Some("x".to_string())), Some("x".to_string()));
    assert_eq!(copy_text(&None), None);
}

#[test]
fn errors_say_what_went_wrong() {
    let broken = regex::Regex::new("(").unwrap_err();

    assert_eq!(WikilinkError::RegexError(broken.clone()).message(), "regex compilation failed");
    assert!(matches!(ParseError::Pattern(broken), ParseError::Pattern(_)));
}

#[test]
fn a_store_that_cannot_be_opened_is_an_error() {
    let temp_dir = tempfile::tempdir().unwrap();
    let missing = temp_dir.path().join("no/such/dir");

    let r = Index::new(missing.to_str().unwrap());

    assert!(matches!(r, Err(IndexError::Database(_))));
}

#[test]
fn the_search_for_backlinks_goes_by_the_stem() {
    let params = backlink_params("/ws/dir/note.name.typ").unwrap();

    assert_eq!(params, vec![rusqlite::types::Value::Text("note.name".to_string())]);
    assert!(matches!(backlink_params(""), Err(IndexError::InvalidFileName)));
}

#[test]
fn a_match_with_a_character_out_of_place_is_no_wikilink() {
    let colon = capture("", &[Some("[[a:b]]"), Some("a:b"), None, None]);
    let bracket = capture("", &[Some("[[a:b]]"), Some("a"), Some("b]"), None]);
    let bar = capture("", &[Some("[[a|b]]"), Some("a"), None, Some("b|c")]);
    let empty_alias = capture("", &[Some("[[a|]]"), Some("a"), None, Some("")]);
    let empty_target = capture("", &[Some("[[]]"), Some(""), None, None]);

    assert_eq!(wikilink_from_capture(&colon, &chars("[[a:b]]"), 1), None);
    assert_eq!(wikilink_from_capture(&bracket, &chars("[[a:b]]"), 1), None);
    assert_eq!(wikilink_from_capture(&bar, &chars("[[a|b]]"), 1), None);
    assert_eq!(wikilink_from_capture(&empty_alias, &chars("[[a|]]"), 1), None);
    assert_eq!(wikilink_from_capture(&empty_target, &chars("[[]]"), 1), None);
    assert!(is_valid_target("deep/path/../file.typ"));
    assert!(is_valid_target("a [b"));
    assert!(!is_valid_target("a\nb"));
    assert!(!is_valid_target(""));
    assert!(is_valid_part("a:b"));
    assert!(!is_valid_part("a]"));
    assert!(is_valid_optional_part(&None));
    assert!(!is_valid_optional_part(&Some(String::new())));
}

#[test]
fn a_match_with_a_character_out_of_place_is_no_label() {
    assert_eq!(label_from_capture(&capture("", &[Some("<a b>"), Some("a b")]), &chars("<a b>"), 1), None);
    assert_eq!(label_from_capture(&capture("", &[Some("<>"), Some("")]), &chars("<>"), 1), None);
    assert_eq!(
        label_from_capture(&capture("", &[Some("<\u{e9}>"), Some("\u{e9}")]), &chars("<\u{e9}>"), 1),
        None
    );
    assert!(is_valid_label_name("label:with:colons"));
    assert!(is_valid_label_name("label-with-dots..."));
    assert!(is_valid_label_name("A_z-0.9"));
    assert!(!is_valid_label_name("a/b"));
    assert!(is_label_char('Z') && is_label_char('0') && is_label_char(':'));
    assert!(!is_label_char('@') && !is_label_char('[') && !is_label_char('`') && !is_label_char('{'));
}

#[test]
fn a_match_that_does_not_stand_in_the_line_is_refused() {
    let cap = capture("ab ", &[Some("[[t|a]]"), Some("t"), None, Some("a")]);
    let label = capture("x", &[Some("<n>"), Some("n")]);

    assert!(is_wikilink_match(&cap, &chars("ab [[t|a]]")));
    assert!(is_wikilink_match(&cap, &chars("ab [[t|a]] and more")));
    assert!(!is_wikilink_match(&cap, &chars("ab  [[t|a]]")));
    assert!(!is_wikilink_match(&cap, &chars("ab [[t|a]")));
    assert!(!is_wikilink_match(&cap, &chars("")));
    assert_eq!(wikilink_from_capture(&cap, &chars("abc [[t|a]]"), 1), None);
    let other_whole = capture("", &[Some("[[t:a]]"), Some("t"), None, Some("a")]);
    assert!(!is_wikilink_match(&other_whole, &chars("[[t:a]]")));
    assert!(is_label_match(&label, &chars("x<n>")));
    assert!(!is_label_match(&label, &chars("<n>")));
    assert!(!is_label_match(&capture("", &[Some("<n"), Some("n")]), &chars("<n")));
    assert_eq!(write_form("t", &Some("l".to_string()), &None), chars("[[t:l]]"));
    assert_eq!(write_form("t", &Some("l".to_string()), &Some("a b".to_string())), chars("[[t:l|a b]]"));
    assert_eq!(write_form("t", &None, &None), chars("[[t]]"));
}

#[test]
fn texts_begin_with_their_prefixes() {
    assert!(begins_with(&chars("abc"), &chars("ab")));
    assert!(begins_with(&chars("abc"), &chars("")));
    assert!(begins_with(&chars("abc"), &chars("abc")));
    assert!(!begins_with(&chars("abc"), &chars("abcd")));
    assert!(!begins_with(&chars("abc"), &chars("b")));
    let mut out = chars("ab");
    push_chars(&mut out, &chars("cd"));
    assert_eq!(out, chars("abcd"));
}
