use vstd::prelude::*;

pub mod labels;
pub mod metadata;
pub mod models;
pub mod pattern;
pub mod text;
pub mod wikilinks;

use crate::parser::labels::{labels_in, LabelParser, HEADING_PATTERN, LABEL_PATTERN};
use crate::parser::models::{Metadata, MetadataModel, ParsedFile, ParsedFileModel};
use crate::parser::pattern::regex_compiles;
use crate::parser::wikilinks::{wikilinks_in, WikilinkError, WikilinkParser, WIKILINK_PATTERN};

verus! {

/// Why a parser could not be made.
#[derive(Debug)]
pub enum ParseError {
    /// One of the patterns did not compile.
    Pattern(regex::Error),
}

/// What parsing the text `content` of the note at `path` gives, with the
/// front matter `metadata`.
pub open spec fn parsed_file_of(
    content: Seq<char>,
    path: Seq<char>,
    metadata: MetadataModel,
) -> ParsedFileModel {
    ParsedFileModel {
        path: path,
        metadata: metadata,
        wikilinks: wikilinks_in(content),
        labels: labels_in(content),
    }
}

/// Reads the wikilinks and the labels of a note.
pub struct Parser {
    wikilink_parser: WikilinkParser,
    label_parser: LabelParser,
}

impl Parser {
    /// Makes a parser. It fails only where one of the patterns does not
    /// compile.
    pub fn new() -> (r: Result<Self, ParseError>)
        ensures
            r is Ok <==> regex_compiles(WIKILINK_PATTERN@) && regex_compiles(LABEL_PATTERN@)
                && regex_compiles(HEADING_PATTERN@),
    {
        let wikilink_parser = match WikilinkParser::new() {
            Ok(parser) => parser,
            Err(WikilinkError::RegexError(e)) => {
                return Err(ParseError::Pattern(e));
            },
        };
        match LabelParser::new() {
            Ok(label_parser) => Ok(Parser { wikilink_parser, label_parser }),
            Err(e) => Err(ParseError::Pattern(e)),
        }
    }

    /// Parses the text of the note at `file_path`, whose front matter was
    /// read already.
    pub fn parse_text(&self, content: &str, file_path: &str, metadata: Metadata) -> (file: ParsedFile)
        ensures
            file@ == parsed_file_of(content@, file_path@, metadata@),
    {
        let wikilinks = self.wikilink_parser.parse_wikilinks(content, file_path);
        let labels = self.label_parser.parse_labels(content);
        ParsedFile { path: file_path.to_owned(), metadata, wikilinks, labels }
    }

    /// Parses the text of the note at `file_path` without front matter. It
    /// never fails.
    pub fn parse_content(&self, content: &str, file_path: &str) -> (r: Result<ParsedFile, ParseError>)
        ensures
            r matches Ok(file) && file@ == parsed_file_of(
                content@,
                file_path@,
                MetadataModel::empty(),
            ),
    {
        Ok(self.parse_text(content, file_path, Metadata::default()))
    }
}

} // verus!
