use typst_oxide::parser::labels::{heading_to_label, join_nonempty, split_on_dash, LabelParser};
use typst_oxide::parser::models::Label;
use typst_oxide::parser::text::split_lines;

fn label(name: &str, line: usize, column: usize, is_implicit: bool) -> Label {
    Label { name: name.to_string(), line, column, is_implicit }
}

#[test]
fn label_column_counts_characters() {
    let parser = LabelParser::new().unwrap();

    assert_eq!(parser.parse_labels("    <label>"), vec![label("label", 1, 5, false)]);
    assert_eq!(parser.parse_labels("\u{e9}\u{e9} <x>"), vec![label("x", 1, 4, false)]);
}

#[test]
fn heading_of_white_space_gives_no_label() {
    let parser = LabelParser::new().unwrap();

    assert_eq!(parser.parse_labels("=   "), vec![]);
    assert_eq!(parser.parse_labels("= "), vec![]);
    assert_eq!(parser.parse_labels("="), vec![]);
    assert_eq!(parser.parse_labels("== !?"), vec![]);
}

#[test]
fn labels_with_colons_and_dots() {
    let parser = LabelParser::new().unwrap();

    let labels = parser.parse_labels("<label:with:colons> and <label-with-dots...>");

    assert_eq!(
        labels,
        vec![label("label:with:colons", 1, 1, false), label("label-with-dots...", 1, 25, false)]
    );
}

#[test]
fn explicit_labels_come_before_the_heading_label() {
    let parser = LabelParser::new().unwrap();

    let labels = parser.parse_labels("text\n== My Heading <anchor>");

    assert_eq!(labels, vec![label("anchor", 2, 15, false), label("my-heading-anchor", 2, 1, true)]);
}

#[test]
fn lines_that_are_no_headings() {
    let parser = LabelParser::new().unwrap();

    assert_eq!(parser.parse_labels("==NoSpace"), vec![]);
    assert_eq!(parser.parse_labels(" = Indented"), vec![]);
    assert_eq!(parser.parse_labels("< > <> <a b>"), vec![]);
}

#[test]
fn heading_names_are_normalised() {
    assert_eq!(heading_to_label("Hello World"), "hello-world");
    assert_eq!(heading_to_label("  --Already__Fine--  "), "already__fine");
    assert_eq!(heading_to_label("A  &  B"), "a-b");
    assert_eq!(heading_to_label("\u{c9}t\u{e9} 2024!"), "\u{e9}t\u{e9}-2024");
    assert_eq!(heading_to_label("!!!"), "");
    assert_eq!(heading_to_label(""), "");
}

#[test]
fn splitting_and_joining_at_dashes() {
    let chars: Vec<char> = "-a--bc-".chars().collect();

    let parts = split_on_dash(&chars);

    let texts: Vec<String> = parts.iter().map(|p| p.iter().collect()).collect();
    assert_eq!(texts, vec!["", "a", "", "bc", ""]);
    let joined: String = join_nonempty(&parts).iter().collect();
    assert_eq!(joined, "a-bc");
    assert_eq!(split_on_dash(&vec![]), vec![vec![]]);
}

#[test]
fn lines_of_a_text() {
    assert_eq!(split_lines(""), Vec::<String>::new());
    assert_eq!(split_lines("a"), vec!["a"]);
    assert_eq!(split_lines("a\n"), vec!["a"]);
    assert_eq!(split_lines("a\n\nb\r\n"), vec!["a", "", "b"]);
    assert_eq!(split_lines("a\r"), vec!["a\r"]);
    assert_eq!(split_lines("\r\r\n\n"), vec!["\r", ""]);
    assert_eq!(split_lines("x\ry\n"), vec!["x\ry"]);
}
