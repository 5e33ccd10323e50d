use typst_oxide::parser::metadata::{
    collect_text_items, is_json_text, is_reserved_key, is_valid_fields, metadata_from_members,
    metadata_from_tool, parse_metadata_json, same_text, set_field, JsonEntry, MetadataError, ToolOutcome,
};
use typst_oxide::parser::models::Metadata;
use typst_oxide::parser::wikilinks::WikilinkParser;
use typst_oxide::parser::Parser;

fn text(s: &str) -> String {
    s.to_string()
}

#[test]
fn front_matter_is_read_from_json() {
    let json = r#"{"title": "Note", "tags": ["a", 1, "b", "a"], "alias": ["n"], "weight": 3, "nested": {"k": [true, null]}}"#;

    let m = parse_metadata_json(json).unwrap();

    assert_eq!(m.title, Some(text("Note")));
    assert_eq!(m.tags, vec![text("a"), text("b"), text("a")]);
    assert_eq!(m.alias, vec![text("n")]);
    assert_eq!(
        m.custom,
        vec![(text("nested"), text(r#"{"k":[true,null]}"#)), (text("weight"), text("3"))]
    );
}

#[test]
fn members_of_another_kind_than_expected() {
    let m = parse_metadata_json(r#"{"title": 5, "tags": "solo", "alias": {"a": 1}}"#).unwrap();

    assert_eq!(m, Metadata::default());
}

#[test]
fn json_that_is_no_object_gives_empty_front_matter() {
    assert_eq!(parse_metadata_json("[1, 2]").unwrap(), Metadata::default());
    assert_eq!(parse_metadata_json("\"title\"").unwrap(), Metadata::default());
    assert_eq!(parse_metadata_json("null").unwrap(), Metadata::default());
    assert_eq!(parse_metadata_json("{}").unwrap(), Metadata::default());
}

#[test]
fn malformed_json_is_an_error() {
    assert!(matches!(parse_metadata_json("{\"title\": "), Err(MetadataError::MalformedJson(_))));
    assert!(matches!(parse_metadata_json(""), Err(MetadataError::MalformedJson(_))));
    assert!(matches!(parse_metadata_json("title: x"), Err(MetadataError::MalformedJson(_))));
    assert_eq!(parse_metadata_json("{").unwrap_err().message(), "metadata is not valid JSON");
}

#[test]
fn outcome_of_the_tool_decides_the_front_matter() {
    assert!(matches!(metadata_from_tool(ToolOutcome::NotFound), Err(MetadataError::ToolNotFound)));
    let failed = metadata_from_tool(ToolOutcome::NotRun(text("permission denied"))).unwrap_err();
    assert_eq!(failed.message(), "failed to execute typst query: permission denied");
    assert_eq!(
        metadata_from_tool(ToolOutcome::NotFound).unwrap_err().message(),
        "typst command not found"
    );
    assert_eq!(metadata_from_tool(ToolOutcome::Declined).unwrap(), Metadata::default());
    let printed = metadata_from_tool(ToolOutcome::Printed(text(r#"{"title": "T"}"#))).unwrap();
    assert_eq!(printed.title, Some(text("T")));
    assert!(matches!(
        metadata_from_tool(ToolOutcome::Printed(text("oops"))),
        Err(MetadataError::MalformedJson(_))
    ));
}

#[test]
fn later_members_take_the_place_of_earlier_ones() {
    let entry = |key: &str, json: &str| JsonEntry { key: text(key), text: None, items: None, json: text(json) };
    let members = vec![
        entry("a", "1"),
        entry("b", "2"),
        JsonEntry { key: text("title"), text: Some(text("T")), items: None, json: text("\"T\"") },
        entry("a", "3"),
        JsonEntry { key: text("title"), text: None, items: None, json: text("7") },
    ];

    let m = metadata_from_members(&members);

    assert_eq!(m.title, None);
    assert_eq!(m.custom, vec![(text("a"), text("3")), (text("b"), text("2"))]);
}

#[test]
fn a_field_is_set_in_place_or_added() {
    let mut fields = vec![(text("a"), text("1")), (text("b"), text("2"))];

    set_field(&mut fields, text("b"), text("20"));
    set_field(&mut fields, text("c"), text("30"));
    set_field(&mut fields, text("a"), text("10"));

    assert_eq!(
        fields,
        vec![(text("a"), text("10")), (text("b"), text("20")), (text("c"), text("30"))]
    );
}

#[test]
fn small_helpers_on_texts() {
    assert!(same_text("title", "title"));
    assert!(!same_text("title", "titles"));
    assert!(!same_text("", "a"));
    assert!(is_json_text("{\"a\": [1, 2]}"));
    assert!(is_json_text(" 12 "));
    assert!(!is_json_text("{a}"));
    assert_eq!(collect_text_items(&vec![Some(text("x")), None, Some(text("y"))]), vec![text("x"), text("y")]);
}

#[test]
fn parsers_can_be_made_and_say_why_not() {
    assert!(WikilinkParser::new().is_ok());
    assert!(Parser::new().is_ok());
}

#[test]
fn text_is_parsed_with_given_front_matter() {
    let parser = Parser::new().unwrap();
    let mut metadata = Metadata::default();
    metadata.title = Some(text("T"));

    let file = parser.parse_text("= H\n[[x]]", "dir/n.typ", metadata.clone());

    assert_eq!(file.path, "dir/n.typ");
    assert_eq!(file.metadata, metadata);
    assert_eq!(file.wikilinks.len(), 1);
    assert_eq!(file.labels.len(), 1);
    assert_eq!(file.labels[0].name, "h");
}

#[test]
fn well_formed_front_matter_is_told_apart() {
    let fields = |list: Vec<(&str, &str)>| -> Vec<(String, String)> {
        list.iter().map(|(k, v)| (k.to_string(), v.to_string())).collect()
    };
    let with = |list: Vec<(&str, &str)>| {
        let mut m = Metadata::default();
        m.custom = fields(list);
        m
    };

    assert!(Metadata::default().is_well_formed());
    assert!(with(vec![("a", "1"), ("b", "{\"x\": []}"), ("c", "\"s\"")]).is_well_formed());
    assert!(!with(vec![("a", "1"), ("a", "2")]).is_well_formed());
    assert!(!with(vec![("a", "1"), ("b", "2"), ("a", "3")]).is_well_formed());
    assert!(!with(vec![("tags", "[]")]).is_well_formed());
    assert!(!with(vec![("alias", "[]")]).is_well_formed());
    assert!(!with(vec![("title", "1")]).is_well_formed());
    assert!(!with(vec![("a", "x y")]).is_well_formed());
    assert!(is_valid_fields(&fields(vec![])));
    assert!(!is_valid_fields(&fields(vec![("a", "")])));
    assert!(is_reserved_key("title") && is_reserved_key("tags") && is_reserved_key("alias"));
    assert!(!is_reserved_key("Title") && !is_reserved_key(""));
    assert!(parse_metadata_json("{\"z\": 1, \"a\": {\"b\": null}}").unwrap().is_well_formed());
}

#[test]
fn a_member_whose_text_is_no_json_is_passed_over() {
    let entry = |key: &str, json: &str| JsonEntry { key: text(key), text: None, items: None, json: text(json) };

    let m = metadata_from_members(&vec![entry("a", "1"), entry("b", "{"), entry("c", "[2]")]);

    assert_eq!(m.custom, vec![(text("a"), text("1")), (text("c"), text("[2]"))]);
}
