use tempfile::tempdir;
use typst_oxide::command::{
    handle_backward_links, handle_forward_links, BackwardLinksRequest, ForwardLinksRequest,
};
use typst_oxide::index::{FileTimes, Index, IndexError};
use typst_oxide::parser::models::{Label, Metadata, ParsedFile, Wikilink};

fn times() -> FileTimes {
    FileTimes { created: Some(1_700_000_000), modified: None, indexed: 1_700_000_100 }
}

fn path_in(dir: &std::path::Path, name: &str) -> String {
    dir.join(name).to_str().unwrap().to_string()
}

fn link(target: &str, line: usize, column: usize) -> Wikilink {
    Wikilink { target: target.to_string(), alias: None, label: None, line, column }
}

fn file(path: &str, wikilinks: Vec<Wikilink>) -> ParsedFile {
    ParsedFile { path: path.to_string(), metadata: Metadata::default(), wikilinks, labels: vec![] }
}

#[test]
fn test_cache_initialization() {
    let temp_dir = tempdir().unwrap();
    let cache = Index::new(temp_dir.path().to_str().unwrap()).unwrap();

    // Should not panic
    drop(cache);
}

#[test]
fn test_store_and_retrieve_file() {
    let temp_dir = tempdir().unwrap();
    let mut cache = Index::new(temp_dir.path().to_str().unwrap()).unwrap();

    let file_path = path_in(temp_dir.path(), "test.typ");

    let parsed = ParsedFile {
        path: file_path.clone(),
        metadata: Metadata {
            title: Some("Test Note".to_string()),
            tags: vec!["tag1".to_string(), "tag2".to_string()],
            alias: vec!["alias1".to_string()],
            custom: vec![],
        },
        wikilinks: vec![Wikilink {
            target: "other".to_string(),
            alias: Some("Other Note".to_string()),
            label: None,
            line: 1,
            column: 1,
        }],
        labels: vec![Label { name: "test-label".to_string(), line: 2, column: 5, is_implicit: false }],
    };

    cache.store_file(&file_path, &parsed, &times()).unwrap();

    let retrieved = cache.get_file(&file_path).unwrap().unwrap();
    assert_eq!(retrieved.metadata.title, Some("Test Note".to_string()));
    assert_eq!(retrieved.wikilinks.len(), 1);
    assert_eq!(retrieved.labels.len(), 1);
}

#[test]
fn test_backlinks() {
    let temp_dir = tempdir().unwrap();
    let mut cache = Index::new(temp_dir.path().to_str().unwrap()).unwrap();

    let file1_path = path_in(temp_dir.path(), "file1.typ");
    let file2_path = path_in(temp_dir.path(), "file2.typ");

    let parsed1 = file(&file1_path, vec![link("file2", 1, 1)]);
    let parsed2 = file(&file2_path, vec![]);

    cache.store_file(&file1_path, &parsed1, &times()).unwrap();
    cache.store_file(&file2_path, &parsed2, &times()).unwrap();

    let backlinks = cache.get_backward_links(&file2_path).unwrap();
    assert_eq!(backlinks.len(), 1);
    assert_eq!(backlinks[0].1.target, "file2");
}

#[test]
fn test_remove_file() {
    let temp_dir = tempdir().unwrap();
    let mut cache = Index::new(temp_dir.path().to_str().unwrap()).unwrap();

    let file_path = path_in(temp_dir.path(), "test.typ");
    let parsed = file(&file_path, vec![]);

    cache.store_file(&file_path, &parsed, &times()).unwrap();
    assert!(cache.get_file(&file_path).unwrap().is_some());

    cache.remove_file(&file_path).unwrap();
    assert!(cache.get_file(&file_path).unwrap().is_none());
}

#[test]
fn stored_file_is_read_back_the_same() {
    let temp_dir = tempdir().unwrap();
    let mut index = Index::new(temp_dir.path().to_str().unwrap()).unwrap();
    let path = path_in(temp_dir.path(), "notes/deep/a.typ");
    let parsed = ParsedFile {
        path: path.clone(),
        metadata: Metadata {
            title: Some("A".to_string()),
            tags: vec!["x".to_string(), "x".to_string(), "y".to_string()],
            alias: vec![],
            custom: vec![
                ("weight".to_string(), "3".to_string()),
                ("author".to_string(), "{\"name\":\"N\"}".to_string()),
            ],
        },
        wikilinks: vec![
            Wikilink {
                target: "b".to_string(),
                alias: Some("B".to_string()),
                label: Some("sec".to_string()),
                line: 3,
                column: 7,
            },
            link("c", 1, 1),
            link("b", 9, 2),
        ],
        labels: vec![
            Label { name: "intro".to_string(), line: 1, column: 1, is_implicit: true },
            Label { name: "intro".to_string(), line: 4, column: 2, is_implicit: false },
        ],
    };

    index.store_file(&path, &parsed, &times()).unwrap();

    assert_eq!(index.get_file(&path).unwrap(), Some(parsed.clone()));
    assert_eq!(index.get_forward_links(&path).unwrap(), parsed.wikilinks);
}

#[test]
fn empty_front_matter_is_read_back_empty() {
    let temp_dir = tempdir().unwrap();
    let mut index = Index::new(temp_dir.path().to_str().unwrap()).unwrap();
    let path = path_in(temp_dir.path(), "a.typ");

    index.store_file(&path, &file(&path, vec![]), &times()).unwrap();

    let read = index.get_file(&path).unwrap().unwrap();
    assert_eq!(read.metadata, Metadata::default());
    assert_eq!(read.metadata.tags, Vec::<String>::new());
    assert_eq!(read.wikilinks, vec![]);
    assert_eq!(read.labels, vec![]);
}

#[test]
fn storing_again_replaces_what_was_stored() {
    let temp_dir = tempdir().unwrap();
    let mut index = Index::new(temp_dir.path().to_str().unwrap()).unwrap();
    let a = path_in(temp_dir.path(), "a.typ");
    let b = path_in(temp_dir.path(), "b.typ");
    let mut first = file(&a, vec![link("one", 1, 1), link("two", 2, 1)]);
    first.metadata.title = Some("First".to_string());
    first.metadata.tags = vec!["old".to_string()];
    first.labels = vec![Label { name: "l".to_string(), line: 1, column: 1, is_implicit: false }];
    let second = file(&a, vec![link("three", 5, 5)]);

    index.store_file(&a, &first, &times()).unwrap();
    index.store_file(&b, &file(&b, vec![link("one", 1, 1)]), &times()).unwrap();
    index.store_file(&a, &second, &times()).unwrap();

    assert_eq!(index.get_forward_links(&a).unwrap(), vec![link("three", 5, 5)]);
    assert_eq!(index.get_file(&a).unwrap(), Some(second));
    assert_eq!(index.get_forward_links(&b).unwrap(), vec![link("one", 1, 1)]);
    let one = path_in(temp_dir.path(), "one.typ");
    assert_eq!(index.get_backward_links(&one).unwrap(), vec![(b.clone(), link("one", 1, 1))]);
    assert_eq!(index.get_all_metadata().unwrap(), vec![]);
}

#[test]
fn backward_links_go_by_the_stem() {
    let temp_dir = tempdir().unwrap();
    let mut index = Index::new(temp_dir.path().to_str().unwrap()).unwrap();
    let a = path_in(temp_dir.path(), "a.typ");
    let b = path_in(temp_dir.path(), "sub/b.typ");
    index.store_file(&a, &file(&a, vec![link("goal", 1, 1), link("other", 2, 1)]), &times()).unwrap();
    index.store_file(&b, &file(&b, vec![link("goal", 4, 4), link("goal.typ", 5, 1)]), &times()).unwrap();

    let found = index.get_backward_links(&path_in(temp_dir.path(), "anywhere/goal.typ")).unwrap();
    assert_eq!(found, vec![(a.clone(), link("goal", 1, 1)), (b.clone(), link("goal", 4, 4))]);
    let other_extension = index.get_backward_links(&path_in(temp_dir.path(), "deep/er/goal.md")).unwrap();
    assert_eq!(other_extension.len(), 2);
    assert!(matches!(index.get_backward_links("/elsewhere/goal.md"), Err(IndexError::OutOfScope)));

    index.remove_file(&a).unwrap();

    let left = index.get_backward_links(&path_in(temp_dir.path(), "goal.typ")).unwrap();
    assert_eq!(left, vec![(b, link("goal", 4, 4))]);
    assert_eq!(index.get_forward_links(&a).unwrap(), vec![]);
}

#[test]
fn unindexed_path_has_no_links_and_no_file() {
    let temp_dir = tempdir().unwrap();
    let mut index = Index::new(temp_dir.path().to_str().unwrap()).unwrap();
    let path = path_in(temp_dir.path(), "never.typ");

    assert_eq!(index.get_forward_links(&path).unwrap(), vec![]);
    assert_eq!(index.get_file(&path).unwrap(), None);
    index.remove_file(&path).unwrap();
    assert_eq!(index.get_backward_links(&path).unwrap(), vec![]);
}

#[test]
fn paths_outside_the_root_are_refused() {
    let temp_dir = tempdir().unwrap();
    let workspace = tempfile::tempdir_in(temp_dir.path()).unwrap();
    let root = workspace.path();
    let mut index = Index::new(root.to_str().unwrap()).unwrap();
    let outside = path_in(temp_dir.path(), "outside.typ");

    assert!(matches!(index.get_relative_path(&outside), Err(IndexError::OutOfScope)));
    assert!(matches!(
        index.store_file(&outside, &file(&outside, vec![]), &times()),
        Err(IndexError::OutOfScope)
    ));
    assert!(matches!(index.get_file(&outside), Err(IndexError::OutOfScope)));
    assert!(matches!(index.get_forward_links(&outside), Err(IndexError::OutOfScope)));
    assert!(matches!(index.get_backward_links(&outside), Err(IndexError::OutOfScope)));
    assert!(matches!(index.remove_file(&outside), Err(IndexError::OutOfScope)));
    let inside = path_in(root, "sub/in.typ");
    assert_eq!(index.get_relative_path(&inside).unwrap(), "sub/in.typ");
}

#[test]
fn a_path_without_a_file_name_has_no_backward_links() {
    let temp_dir = tempdir().unwrap();
    let index = Index::new(temp_dir.path().to_str().unwrap()).unwrap();

    let no_name = path_in(temp_dir.path(), "sub/..");
    assert!(matches!(index.get_backward_links(&no_name), Err(IndexError::InvalidFileName)));
    assert!(matches!(index.get_backward_links("/"), Err(IndexError::OutOfScope)));
    assert!(matches!(index.get_backward_links(".."), Err(IndexError::OutOfScope)));
    let request = BackwardLinksRequest { file_path: no_name };
    assert!(matches!(handle_backward_links(&index, request), Err(IndexError::InvalidFileName)));
    let request = BackwardLinksRequest { file_path: "/elsewhere/goal.typ".to_string() };
    assert!(matches!(handle_backward_links(&index, request), Err(IndexError::OutOfScope)));
}

#[test]
fn a_position_beyond_the_store_is_refused() {
    let temp_dir = tempdir().unwrap();
    let mut index = Index::new(temp_dir.path().to_str().unwrap()).unwrap();
    let path = path_in(temp_dir.path(), "a.typ");
    index.store_file(&path, &file(&path, vec![link("kept", 1, 1)]), &times()).unwrap();

    let r = index.store_file(&path, &file(&path, vec![link("b", usize::MAX, 1)]), &times());

    assert!(matches!(r, Err(IndexError::PositionTooLarge)));
    assert_eq!(index.get_forward_links(&path).unwrap(), vec![link("kept", 1, 1)]);
}

#[test]
fn all_metadata_is_ordered_by_path_and_key() {
    let temp_dir = tempdir().unwrap();
    let mut index = Index::new(temp_dir.path().to_str().unwrap()).unwrap();
    let a = path_in(temp_dir.path(), "a.typ");
    let b = path_in(temp_dir.path(), "b.typ");
    let mut fb = file(&b, vec![]);
    fb.metadata.title = Some("B".to_string());
    let mut fa = file(&a, vec![]);
    fa.metadata.title = Some("A".to_string());
    fa.metadata.alias = vec!["first".to_string()];
    index.store_file(&b, &fb, &times()).unwrap();
    index.store_file(&a, &fa, &times()).unwrap();

    let all = index.get_all_metadata().unwrap();

    let expected: Vec<(String, String, String)> = vec![
        ("a.typ".to_string(), "alias".to_string(), "first".to_string()),
        ("a.typ".to_string(), "title".to_string(), "A".to_string()),
        ("b.typ".to_string(), "title".to_string(), "B".to_string()),
    ];
    assert_eq!(all, expected);
}

#[test]
fn the_index_outlives_its_handle() {
    let temp_dir = tempdir().unwrap();
    let root = temp_dir.path().to_str().unwrap().to_string();
    let path = path_in(temp_dir.path(), "a.typ");
    {
        let mut index = Index::new(&root).unwrap();
        index.store_file(&path, &file(&path, vec![link("b", 2, 3)]), &times()).unwrap();
    }

    let index = Index::new(&root).unwrap();

    assert_eq!(index.get_forward_links(&path).unwrap(), vec![link("b", 2, 3)]);
}

#[test]
fn requests_are_answered_from_the_index() {
    let temp_dir = tempdir().unwrap();
    let mut index = Index::new(temp_dir.path().to_str().unwrap()).unwrap();
    let a = path_in(temp_dir.path(), "a.typ");
    let b = path_in(temp_dir.path(), "b.typ");
    index.store_file(&a, &file(&a, vec![link("b", 1, 1), link("b", 2, 1), link("c", 3, 1)]), &times()).unwrap();

    let forward = handle_forward_links(&index, ForwardLinksRequest { file_path: a.clone() }).unwrap();
    let backward = handle_backward_links(&index, BackwardLinksRequest { file_path: b }).unwrap();

    assert_eq!(forward.links, vec![link("b", 1, 1), link("b", 2, 1), link("c", 3, 1)]);
    assert_eq!(backward.links.len(), 2);
    assert_eq!(backward.links[0].source_file, a);
    assert_eq!(backward.links[0].wikilink, link("b", 1, 1));
    assert_eq!(backward.links[1].wikilink, link("b", 2, 1));
    let refused = handle_forward_links(&index, ForwardLinksRequest { file_path: "/nowhere/x.typ".to_string() });
    assert!(matches!(refused, Err(IndexError::OutOfScope)));
}

#[test]
fn front_matter_that_is_not_well_formed_is_refused() {
    let temp_dir = tempdir().unwrap();
    let mut index = Index::new(temp_dir.path().to_str().unwrap()).unwrap();
    let path = path_in(temp_dir.path(), "a.typ");
    index.store_file(&path, &file(&path, vec![link("kept", 1, 1)]), &times()).unwrap();
    let with_custom = |custom: Vec<(&str, &str)>| {
        let mut f = file(&path, vec![]);
        f.metadata.custom = custom.iter().map(|(k, v)| (k.to_string(), v.to_string())).collect();
        f
    };

    let reserved = index.store_file(&path, &with_custom(vec![("title", "\"T\"")]), &times());
    let no_json = index.store_file(&path, &with_custom(vec![("k", "not json")]), &times());
    let twice = index.store_file(&path, &with_custom(vec![("k", "1"), ("j", "2"), ("k", "3")]), &times());
    let outside = index.store_file("/elsewhere/a.typ", &with_custom(vec![("k", "no")]), &times());

    assert!(matches!(reserved, Err(IndexError::InvalidMetadata)));
    assert!(matches!(no_json, Err(IndexError::InvalidMetadata)));
    assert!(matches!(twice, Err(IndexError::InvalidMetadata)));
    assert!(matches!(outside, Err(IndexError::OutOfScope)));
    assert_eq!(index.get_forward_links(&path).unwrap(), vec![link("kept", 1, 1)]);
    let mut both = with_custom(vec![("k", "no")]);
    both.wikilinks = vec![link("b", usize::MAX, 1)];
    assert!(matches!(index.store_file(&path, &both, &times()), Err(IndexError::InvalidMetadata)));
    index.store_file(&path, &with_custom(vec![("k", "[1, 2]"), ("j", "null")]), &times()).unwrap();
    let read = index.get_file(&path).unwrap().unwrap();
    assert_eq!(read.metadata.custom, vec![("k".to_string(), "[1, 2]".to_string()), ("j".to_string(), "null".to_string())]);
}
