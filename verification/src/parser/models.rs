use crate::parser::metadata::is_json;
use vstd::prelude::*;

verus! {

/// One occurrence of a link to another note.
#[derive(Debug, Clone, PartialEq)]
pub struct Wikilink {
    pub target: String,
    pub alias: Option<String>,
    pub label: Option<String>,
    pub line: usize,
    pub column: usize,
}

/// What a `Wikilink` says, as mathematical values.
pub struct WikilinkModel {
    pub target: Seq<char>,
    pub alias: Option<Seq<char>>,
    pub label: Option<Seq<char>>,
    pub line: nat,
    pub column: nat,
}

impl DeepView for Wikilink {
    type V = WikilinkModel;

    open spec fn deep_view(&self) -> WikilinkModel {
        WikilinkModel {
            target: self.target@,
            alias: self.alias.deep_view(),
            label: self.label.deep_view(),
            line: self.line as nat,
            column: self.column as nat,
        }
    }
}

impl View for Wikilink {
    type V = WikilinkModel;

    open spec fn view(&self) -> WikilinkModel {
        self.deep_view()
    }
}

/// An anchor inside a note: written out as `<name>`, or derived from a heading.
#[derive(Debug, Clone, PartialEq)]
pub struct Label {
    pub name: String,
    pub line: usize,
    pub column: usize,
    pub is_implicit: bool,
}

/// What a `Label` says, as mathematical values.
pub struct LabelModel {
    pub name: Seq<char>,
    pub line: nat,
    pub column: nat,
    pub is_implicit: bool,
}

impl DeepView for Label {
    type V = LabelModel;

    open spec fn deep_view(&self) -> LabelModel {
        LabelModel {
            name: self.name@,
            line: self.line as nat,
            column: self.column as nat,
            is_implicit: self.is_implicit,
        }
    }
}

impl View for Label {
    type V = LabelModel;

    open spec fn view(&self) -> LabelModel {
        self.deep_view()
    }
}

/// The front matter of a note. A custom field holds its value as JSON text.
/// In a well-formed value no key occurs twice among the custom fields, none
/// is `title`, `tags` or `alias`, and every value is JSON.
#[derive(Debug, Clone, PartialEq)]
pub struct Metadata {
    pub title: Option<String>,
    pub tags: Vec<String>,
    pub alias: Vec<String>,
    pub custom: Vec<(String, String)>,
}

/// What a `Metadata` says, as mathematical values.
pub struct MetadataModel {
    pub title: Option<Seq<char>>,
    pub tags: Seq<Seq<char>>,
    pub alias: Seq<Seq<char>>,
    pub custom: Seq<(Seq<char>, Seq<char>)>,
}

/// Whether no key occurs twice among the fields.
pub open spec fn distinct_keys(fields: Seq<(Seq<char>, Seq<char>)>) -> bool {
    forall|i: int, j: int| 0 <= i < j < fields.len() ==> (#[trigger] fields[i]).0 != (#[trigger] fields[j]).0
}

/// Whether a key is one of those that hold the title, the tags or the
/// aliases.
pub open spec fn reserved_key(key: Seq<char>) -> bool {
    key == "title"@ || key == "tags"@ || key == "alias"@
}

/// Whether custom fields are as front matter holds them: no key occurs
/// twice, none is reserved, and every value is JSON.
pub open spec fn valid_fields(fields: Seq<(Seq<char>, Seq<char>)>) -> bool {
    &&& distinct_keys(fields)
    &&& forall|i: int| 0 <= i < fields.len() ==> !reserved_key((#[trigger] fields[i]).0)
    &&& forall|i: int| 0 <= i < fields.len() ==> is_json((#[trigger] fields[i]).1)
}

impl MetadataModel {
    /// The metadata of a note without front matter.
    pub open spec fn empty() -> MetadataModel {
        MetadataModel { title: None, tags: seq![], alias: seq![], custom: seq![] }
    }

    /// Whether the custom fields are valid: no key occurs twice, none is
    /// reserved, and every value is JSON.
    pub open spec fn well_formed(self) -> bool {
        valid_fields(self.custom)
    }
}

impl DeepView for Metadata {
    type V = MetadataModel;

    open spec fn deep_view(&self) -> MetadataModel {
        MetadataModel {
            title: self.title.deep_view(),
            tags: self.tags.deep_view(),
            alias: self.alias.deep_view(),
            custom: self.custom.deep_view(),
        }
    }
}

impl View for Metadata {
    type V = MetadataModel;

    open spec fn view(&self) -> MetadataModel {
        self.deep_view()
    }
}

impl Default for Metadata {
    fn default() -> (m: Self)
        ensures
            m@ == MetadataModel::empty(),
            m@.well_formed(),
    {
        let m = Metadata { title: None, tags: Vec::new(), alias: Vec::new(), custom: Vec::new() };
        assert(m.tags.deep_view() =~= seq![]);
        assert(m.alias.deep_view() =~= seq![]);
        assert(m.custom.deep_view() =~= seq![]);
        m
    }
}

/// All that was read from one note.
#[derive(Debug, Clone, PartialEq)]
pub struct ParsedFile {
    pub path: String,
    pub metadata: Metadata,
    pub wikilinks: Vec<Wikilink>,
    pub labels: Vec<Label>,
}

/// What a `ParsedFile` says, as mathematical values.
pub struct ParsedFileModel {
    pub path: Seq<char>,
    pub metadata: MetadataModel,
    pub wikilinks: Seq<WikilinkModel>,
    pub labels: Seq<LabelModel>,
}

impl DeepView for ParsedFile {
    type V = ParsedFileModel;

    open spec fn deep_view(&self) -> ParsedFileModel {
        ParsedFileModel {
            path: self.path@,
            metadata: self.metadata@,
            wikilinks: self.wikilinks.deep_view(),
            labels: self.labels.deep_view(),
        }
    }
}

impl View for ParsedFile {
    type V = ParsedFileModel;

    open spec fn view(&self) -> ParsedFileModel {
        self.deep_view()
    }
}

} // verus!
