use vstd::prelude::*;

pub mod paths;
pub mod plan;
pub mod round_trip;
pub mod rows;
pub mod store;

use crate::index::paths::{file_stem, join, path_file_stem, path_strip_prefix, strip_prefix};
use crate::index::plan::{
    file_rows, file_statement, path_search, removal_for, replacement_for, storable_file, FileRows,
    Statement,
};
use crate::index::rows::{
    backlinks_from_rows, first_id, first_id_of, labels_from_rows, labels_of_table, metadata_from_pairs,
    metadata_of_rows, pairs_from_rows, pairs_of_table, row_model, table_model, triples_from_rows,
    wikilinks_from_rows, wikilinks_of_table, ValueModel,
};
use crate::parser::models::{ParsedFile, ParsedFileModel, Wikilink, WikilinkModel};
use rusqlite::types::Value;
use rusqlite::Connection;

verus! {

/// The name of the database file under the root of the workspace.
pub const DATABASE_FILE: &'static str = ".pkm-cache.db";

pub const CREATE_FILES: &'static str = "CREATE TABLE IF NOT EXISTS files (
    id INTEGER PRIMARY KEY,
    path TEXT UNIQUE NOT NULL,
    created_at DATETIME,
    modified_at DATETIME,
    last_parsed DATETIME
)";

pub const CREATE_METADATA: &'static str = "CREATE TABLE IF NOT EXISTS metadata (
    id INTEGER PRIMARY KEY,
    file_id INTEGER,
    key TEXT NOT NULL,
    value TEXT,
    FOREIGN KEY (file_id) REFERENCES files(id)
)";

pub const CREATE_WIKILINKS: &'static str = "CREATE TABLE IF NOT EXISTS wikilinks (
    id INTEGER PRIMARY KEY,
    file_id INTEGER,
    target TEXT NOT NULL,
    alias TEXT,
    label TEXT,
    line INTEGER,
    column INTEGER,
    FOREIGN KEY (file_id) REFERENCES files(id)
)";

pub const CREATE_LABELS: &'static str = "CREATE TABLE IF NOT EXISTS labels (
    id INTEGER PRIMARY KEY,
    file_id INTEGER,
    name TEXT NOT NULL,
    line INTEGER,
    column INTEGER,
    is_implicit BOOLEAN,
    FOREIGN KEY (file_id) REFERENCES files(id)
)";

pub const INDEX_FILES_PATH: &'static str = "CREATE INDEX IF NOT EXISTS idx_files_path ON files(path)";

pub const INDEX_METADATA_FILE: &'static str =
    "CREATE INDEX IF NOT EXISTS idx_metadata_file_id ON metadata(file_id)";

pub const INDEX_WIKILINKS_FILE: &'static str =
    "CREATE INDEX IF NOT EXISTS idx_wikilinks_file_id ON wikilinks(file_id)";

pub const INDEX_WIKILINKS_TARGET: &'static str =
    "CREATE INDEX IF NOT EXISTS idx_wikilinks_target ON wikilinks(target)";

pub const INDEX_LABELS_FILE: &'static str =
    "CREATE INDEX IF NOT EXISTS idx_labels_file_id ON labels(file_id)";

pub const INDEX_LABELS_NAME: &'static str = "CREATE INDEX IF NOT EXISTS idx_labels_name ON labels(name)";

pub const SELECT_FILE_ID: &'static str = "SELECT id FROM files WHERE path = ?";

pub const INSERT_FILE: &'static str =
    "INSERT INTO files (path, created_at, modified_at, last_parsed) VALUES (?, ?, ?, ?)";

pub const UPDATE_FILE: &'static str =
    "UPDATE files SET created_at = ?, modified_at = ?, last_parsed = ? WHERE id = ?";

pub const DELETE_FILE: &'static str = "DELETE FROM files WHERE id = ?";

pub const DELETE_METADATA: &'static str = "DELETE FROM metadata WHERE file_id = ?";

pub const DELETE_WIKILINKS: &'static str = "DELETE FROM wikilinks WHERE file_id = ?";

pub const DELETE_LABELS: &'static str = "DELETE FROM labels WHERE file_id = ?";

pub const INSERT_METADATA: &'static str = "INSERT INTO metadata (file_id, key, value) VALUES (?, ?, ?)";

pub const INSERT_WIKILINK: &'static str =
    "INSERT INTO wikilinks (file_id, target, alias, label, line, column) VALUES (?, ?, ?, ?, ?, ?)";

pub const INSERT_LABEL: &'static str =
    "INSERT INTO labels (file_id, name, line, column, is_implicit) VALUES (?, ?, ?, ?, ?)";

pub const SELECT_METADATA: &'static str = "SELECT m.key, m.value
    FROM metadata m
    JOIN files f ON m.file_id = f.id
    WHERE f.path = ?
    ORDER BY m.id";

pub const SELECT_WIKILINKS: &'static str = "SELECT w.target, w.alias, w.label, w.line, w.column
    FROM wikilinks w
    JOIN files f ON w.file_id = f.id
    WHERE f.path = ?
    ORDER BY w.id";

pub const SELECT_LABELS: &'static str = "SELECT l.name, l.line, l.column, l.is_implicit
    FROM labels l
    JOIN files f ON l.file_id = f.id
    WHERE f.path = ?
    ORDER BY l.id";

pub const SELECT_BACKLINKS: &'static str = "SELECT f.path, w.target, w.alias, w.label, w.line, w.column
    FROM wikilinks w
    JOIN files f ON w.file_id = f.id
    WHERE w.target = ?
    ORDER BY w.id";

pub const SELECT_ALL_METADATA: &'static str = "SELECT f.path, m.key, m.value
    FROM metadata m
    JOIN files f ON m.file_id = f.id
    ORDER BY f.path, m.key";

/// Why an operation of the index failed.
#[derive(Debug)]
pub enum IndexError {
    /// The path does not lie under the root of the workspace.
    OutOfScope,
    /// The path has no file name to take a stem from.
    InvalidFileName,
    /// The front matter is not well formed: a custom field has the key of
    /// another or a reserved key, or its value is no JSON.
    InvalidMetadata,
    /// A line or column number is too large to be stored.
    PositionTooLarge,
    /// The store answered with a row that is not of the expected form.
    MalformedRow,
    /// The store failed.
    Database(rusqlite::Error),
}

/// When a note was made, when it was last changed and when it is indexed,
/// in seconds since the epoch.
#[derive(Debug, Clone, Copy, PartialEq)]
pub struct FileTimes {
    pub created: Option<i64>,
    pub modified: Option<i64>,
    pub indexed: i64,
}

/// The outcome of the store, with a failure of it as an error of the index.
pub fn stored<T>(r: Result<T, rusqlite::Error>) -> (out: Result<T, IndexError>)
    ensures
        match r {
            Ok(v) => out == Ok::<T, IndexError>(v),
            Err(e) => out == Err::<T, IndexError>(IndexError::Database(e)),
        },
{
    match r {
        Ok(v) => Ok(v),
        Err(e) => Err(IndexError::Database(e)),
    }
}

/// The outcome of reading rows, with rows of an unexpected form as an error
/// of the index.
pub fn well_formed<T>(r: Option<T>) -> (out: Result<T, IndexError>)
    ensures
        match r {
            Some(v) => out == Ok::<T, IndexError>(v),
            None => out matches Err(IndexError::MalformedRow),
        },
{
    match r {
        Some(v) => Ok(v),
        None => Err(IndexError::MalformedRow),
    }
}

/// The statements that make the four tables and their indexes, each of
/// them only where it is missing.
pub fn schema_statements() -> (statements: Vec<&'static str>)
    ensures
        statements@ == seq![
            CREATE_FILES,
            CREATE_METADATA,
            CREATE_WIKILINKS,
            CREATE_LABELS,
            INDEX_FILES_PATH,
            INDEX_METADATA_FILE,
            INDEX_WIKILINKS_FILE,
            INDEX_WIKILINKS_TARGET,
            INDEX_LABELS_FILE,
            INDEX_LABELS_NAME,
        ],
{
    let mut statements: Vec<&'static str> = Vec::new();
    statements.push(CREATE_FILES);
    statements.push(CREATE_METADATA);
    statements.push(CREATE_WIKILINKS);
    statements.push(CREATE_LABELS);
    statements.push(INDEX_FILES_PATH);
    statements.push(INDEX_METADATA_FILE);
    statements.push(INDEX_WIKILINKS_FILE);
    statements.push(INDEX_WIKILINKS_TARGET);
    statements.push(INDEX_LABELS_FILE);
    statements.push(INDEX_LABELS_NAME);
    assert(statements@ =~= seq![
        CREATE_FILES,
        CREATE_METADATA,
        CREATE_WIKILINKS,
        CREATE_LABELS,
        INDEX_FILES_PATH,
        INDEX_METADATA_FILE,
        INDEX_WIKILINKS_FILE,
        INDEX_WIKILINKS_TARGET,
        INDEX_LABELS_FILE,
        INDEX_LABELS_NAME,
    ]);
    statements
}

/// The file that the rows stored for it hold: its front matter, its
/// wikilinks and its labels. There is none where a row is not of the
/// expected form.
pub open spec fn file_of_rows(
    path: Seq<char>,
    metadata: Seq<Seq<ValueModel>>,
    wikilinks: Seq<Seq<ValueModel>>,
    labels: Seq<Seq<ValueModel>>,
) -> Option<ParsedFileModel> {
    match (
        pairs_of_table(metadata),
        wikilinks_of_table(wikilinks),
        labels_of_table(labels),
    ) {
        (Some(pairs), Some(links), Some(anchors)) => Some(
            ParsedFileModel {
                path: path,
                metadata: metadata_of_rows(pairs),
                wikilinks: links,
                labels: anchors,
            },
        ),
        _ => None,
    }
}

/// Puts a file together from the rows stored for it.
pub fn file_from_rows(
    path: &str,
    metadata: &Vec<Vec<Value>>,
    wikilinks: &Vec<Vec<Value>>,
    labels: &Vec<Vec<Value>>,
) -> (r: Option<ParsedFile>)
    ensures
        r.deep_view() == file_of_rows(
            path@,
            table_model(metadata@),
            table_model(wikilinks@),
            table_model(labels@),
        ),
        r matches Some(file) ==> file@.metadata.well_formed(),
{
    let pairs = pairs_from_rows(metadata);
    let links = wikilinks_from_rows(wikilinks);
    let anchors = labels_from_rows(labels);
    match (pairs, links, anchors) {
        (Some(pairs), Some(links), Some(anchors)) => Some(
            ParsedFile {
                path: path.to_owned(),
                metadata: metadata_from_pairs(&pairs),
                wikilinks: links,
                labels: anchors,
            },
        ),
        _ => None,
    }
}

/// The answer to a request for a file, from the answer of the store to the
/// search for the file and the rows that the store holds for it: nothing
/// where the search found no row, else the file that the rows hold. It is
/// an error where the search or a row is not of the expected form.
pub open spec fn file_answer_of(
    path: Seq<char>,
    ids: Seq<Seq<ValueModel>>,
    metadata: Seq<Seq<ValueModel>>,
    wikilinks: Seq<Seq<ValueModel>>,
    labels: Seq<Seq<ValueModel>>,
) -> Result<Option<ParsedFileModel>, ()> {
    match first_id_of(ids) {
        Err(_) => Err(()),
        Ok(None) => Ok(None),
        Ok(Some(_)) => match file_of_rows(path, metadata, wikilinks, labels) {
            Some(file) => Ok(Some(file)),
            None => Err(()),
        },
    }
}

/// The answer to a request for the wikilinks of a note, from the answer of
/// the store to the search for the file and the rows of wikilinks that it
/// holds for it: an empty list where the search found no row, else the
/// wikilinks of the rows, in their order. It is an error where the search
/// or a row is not of the expected form.
pub open spec fn forward_links_answer_of(ids: Seq<Seq<ValueModel>>, wikilinks: Seq<Seq<ValueModel>>) -> Result<
    Seq<WikilinkModel>,
    (),
> {
    match first_id_of(ids) {
        Err(_) => Err(()),
        Ok(None) => Ok(seq![]),
        Ok(Some(_)) => match wikilinks_of_table(wikilinks) {
            Some(links) => Ok(links),
            None => Err(()),
        },
    }
}

/// Answers a request for a file from what the store answered.
pub fn file_answer(
    path: &str,
    ids: &Vec<Vec<Value>>,
    metadata: &Vec<Vec<Value>>,
    wikilinks: &Vec<Vec<Value>>,
    labels: &Vec<Vec<Value>>,
) -> (r: Result<Option<ParsedFile>, IndexError>)
    ensures
        match file_answer_of(
            path@,
            table_model(ids@),
            table_model(metadata@),
            table_model(wikilinks@),
            table_model(labels@),
        ) {
            Ok(answer) => r matches Ok(file) && file.deep_view() == answer,
            Err(_) => r matches Err(IndexError::MalformedRow),
        },
        ids.len() == 0 ==> r matches Ok(None),
        r matches Ok(Some(file)) ==> file@.metadata.well_formed(),
{
    match first_id(ids) {
        Ok(Some(_)) => match file_from_rows(path, metadata, wikilinks, labels) {
            Some(file) => Ok(Some(file)),
            None => Err(IndexError::MalformedRow),
        },
        Ok(None) => Ok(None),
        Err(e) => Err(e),
    }
}

/// Answers a request for the wikilinks of a note from what the store
/// answered.
pub fn forward_links_answer(ids: &Vec<Vec<Value>>, wikilinks: &Vec<Vec<Value>>) -> (r: Result<
    Vec<Wikilink>,
    IndexError,
>)
    ensures
        match forward_links_answer_of(table_model(ids@), table_model(wikilinks@)) {
            Ok(answer) => r matches Ok(links) && links.deep_view() == answer,
            Err(_) => r matches Err(IndexError::MalformedRow),
        },
        ids.len() == 0 ==> (r matches Ok(links) && links.len() == 0),
{
    match first_id(ids) {
        Ok(Some(_)) => well_formed(wikilinks_from_rows(wikilinks)),
        Ok(None) => {
            let none: Vec<Wikilink> = Vec::new();
            assert(none.deep_view() =~= seq![]);
            Ok(none)
        },
        Err(e) => Err(e),
    }
}

/// Runs the statements on the store, one after the other, and stops at the
/// first that fails. With no statement the store is not asked for anything
/// and nothing can fail; with one or more, only the store can.
fn run_all(conn: &Connection, statements: &Vec<Statement>) -> (r: Result<(), IndexError>)
    ensures
        statements.len() == 0 ==> r is Ok,
        r is Ok || r matches Err(IndexError::Database(_)),
{
    let mut i: usize = 0;
    while i < statements.len()
        invariant
            i <= statements.len(),
        decreases statements.len() - i,
    {
        match store::execute(conn, statements[i].sql, &statements[i].params) {
            Ok(_) => {},
            Err(e) => {
                return Err(IndexError::Database(e));
            },
        }
        i += 1;
    }
    Ok(())
}

/// The parameter of the search for the links that point to a note: the stem
/// of the note's file name, by which the targets of wikilinks are compared.
/// A path without a file name has none.
pub fn backlink_params(target_file: &str) -> (r: Result<Vec<Value>, IndexError>)
    ensures
        match path_file_stem(target_file@) {
            Some(stem) => r matches Ok(params) && row_model(params@) == seq![ValueModel::Text(stem)],
            None => r matches Err(IndexError::InvalidFileName),
        },
{
    match file_stem(target_file) {
        Some(stem) => {
            let mut params: Vec<Value> = Vec::new();
            params.push(Value::Text(stem));
            assert(row_model(params@) =~= seq![ValueModel::Text(stem@)]);
            Ok(params)
        },
        None => Err(IndexError::InvalidFileName),
    }
}

/// The index of a workspace: a database under its root that holds, for each
/// note, its front matter, its wikilinks and its labels.
pub struct Index {
    conn: Connection,
    root: String,
}

impl Index {
    /// The root of the workspace.
    pub closed spec fn root(&self) -> Seq<char> {
        self.root@
    }

    /// Whether a path lies under the root of the workspace.
    pub open spec fn in_scope(&self, path: Seq<char>) -> bool {
        path_strip_prefix(path, self.root()) is Some
    }

    /// Opens the index of the workspace at `root`, and makes its database
    /// and its tables where they are missing. It fails only where the store
    /// does.
    pub fn new(root: &str) -> (r: Result<Index, IndexError>)
        ensures
            r matches Ok(index) ==> index.root() == root@,
            r is Ok || r matches Err(IndexError::Database(_)),
    {
        let db_path = join(root, DATABASE_FILE);
        let conn = match store::open(db_path.as_str()) {
            Ok(conn) => conn,
            Err(e) => {
                return Err(IndexError::Database(e));
            },
        };
        let index = Index { conn, root: root.to_owned() };
        match index.initialize_tables() {
            Ok(()) => Ok(index),
            Err(e) => Err(e),
        }
    }

    fn initialize_tables(&self) -> (r: Result<(), IndexError>)
        ensures
            r is Ok || r matches Err(IndexError::Database(_)),
    {
        let statements = schema_statements();
        let none: Vec<Value> = Vec::new();
        let mut i: usize = 0;
        while i < statements.len()
            invariant
                i <= statements.len(),
            decreases statements.len() - i,
        {
            match store::execute(&self.conn, statements[i], &none) {
                Ok(_) => {},
                Err(e) => {
                    return Err(IndexError::Database(e));
                },
            }
            i += 1;
        }
        Ok(())
    }

    /// The path of a note relative to the root of the workspace. A path that
    /// does not lie under the root is out of scope.
    pub fn get_relative_path(&self, file_path: &str) -> (r: Result<String, IndexError>)
        ensures
            match path_strip_prefix(file_path@, self.root()) {
                Some(rest) => r matches Ok(relative) && relative@ == rest,
                None => r matches Err(IndexError::OutOfScope),
            },
    {
        match strip_prefix(file_path, self.root.as_str()) {
            Some(relative) => Ok(relative),
            None => Err(IndexError::OutOfScope),
        }
    }

    /// Stores what was read from the note at `file_path` in place of what
    /// the index held for it, in one transaction. A path out of scope,
    /// front matter that is not well formed and a position that cannot be
    /// stored are refused, in this order, before the store is asked for
    /// anything; after that only the store can fail.
    pub fn store_file(&mut self, file_path: &str, parsed: &ParsedFile, times: &FileTimes) -> (r: Result<
        (),
        IndexError,
    >)
        ensures
            final(self).root() == old(self).root(),
            !old(self).in_scope(file_path@) ==> r matches Err(IndexError::OutOfScope),
            old(self).in_scope(file_path@) && !parsed@.metadata.well_formed() ==> r matches Err(
                IndexError::InvalidMetadata,
            ),
            old(self).in_scope(file_path@) && parsed@.metadata.well_formed() && !storable_file(parsed@)
                ==> r matches Err(IndexError::PositionTooLarge),
            old(self).in_scope(file_path@) && parsed@.metadata.well_formed() && storable_file(parsed@)
                ==> r is Ok || r matches Err(IndexError::Database(_)) || r matches Err(
                IndexError::MalformedRow,
            ),
    {
        let relative = match self.get_relative_path(file_path) {
            Ok(relative) => relative,
            Err(e) => {
                return Err(e);
            },
        };
        if !parsed.metadata.is_well_formed() {
            return Err(IndexError::InvalidMetadata);
        }
        let rows = match file_rows(parsed) {
            Some(rows) => rows,
            None => {
                return Err(IndexError::PositionTooLarge);
            },
        };
        let tx = match store::begin(&mut self.conn) {
            Ok(tx) => tx,
            Err(e) => {
                return Err(IndexError::Database(e));
            },
        };
        let done = write_file(store::connection_of(&tx), relative, times, rows);
        match done {
            Ok(()) => stored(store::commit(tx)),
            Err(e) => Err(e),
        }
    }

    /// What the index holds for the note at `file_path`, or `None` where it
    /// holds nothing for it. The store is asked for the id of the file and
    /// for its rows in the three tables; `file_answer` says what is made of
    /// its answers.
    pub fn get_file(&self, file_path: &str) -> (r: Result<Option<ParsedFile>, IndexError>)
        ensures
            !self.in_scope(file_path@) <==> r matches Err(IndexError::OutOfScope),
            r matches Ok(Some(file)) ==> file@.path == file_path@ && file@.metadata.well_formed(),
            r is Ok || r matches Err(IndexError::OutOfScope) || r matches Err(IndexError::Database(_))
                || r matches Err(IndexError::MalformedRow),
    {
        let relative = match self.get_relative_path(file_path) {
            Ok(relative) => relative,
            Err(e) => {
                return Err(e);
            },
        };
        let ids = match query_file_rows(&self.conn, SELECT_FILE_ID, relative.as_str(), 1) {
            Ok(rows) => rows,
            Err(e) => {
                return Err(e);
            },
        };
        let metadata = match query_file_rows(&self.conn, SELECT_METADATA, relative.as_str(), 2) {
            Ok(rows) => rows,
            Err(e) => {
                return Err(e);
            },
        };
        let wikilinks = match query_file_rows(&self.conn, SELECT_WIKILINKS, relative.as_str(), 5) {
            Ok(rows) => rows,
            Err(e) => {
                return Err(e);
            },
        };
        let labels = match query_file_rows(&self.conn, SELECT_LABELS, relative.as_str(), 4) {
            Ok(rows) => rows,
            Err(e) => {
                return Err(e);
            },
        };
        file_answer(file_path, &ids, &metadata, &wikilinks, &labels)
    }

    /// The wikilinks of every indexed note whose target is the stem of
    /// `target_file`, each with the path of the note in which it stands. A
    /// path out of scope and a path without a file name are refused, in
    /// this order, before the store is asked for anything;
    /// `backlinks_from_rows` says what is made of its answer.
    pub fn get_backward_links(&self, target_file: &str) -> (r: Result<Vec<(String, Wikilink)>, IndexError>)
        ensures
            !self.in_scope(target_file@) <==> r matches Err(IndexError::OutOfScope),
            self.in_scope(target_file@) && path_file_stem(target_file@) is None <==> r matches Err(
                IndexError::InvalidFileName,
            ),
            r is Ok || r matches Err(IndexError::OutOfScope) || r matches Err(IndexError::InvalidFileName)
                || r matches Err(IndexError::Database(_)) || r matches Err(IndexError::MalformedRow),
    {
        match self.get_relative_path(target_file) {
            Ok(_) => {},
            Err(e) => {
                return Err(e);
            },
        }
        let params = match backlink_params(target_file) {
            Ok(params) => params,
            Err(e) => {
                return Err(e);
            },
        };
        match store::query(&self.conn, SELECT_BACKLINKS, &params, 6) {
            Ok(rows) => well_formed(backlinks_from_rows(self.root.as_str(), &rows)),
            Err(e) => Err(IndexError::Database(e)),
        }
    }

    /// The wikilinks of the note at `file_path`, in the order in which they
    /// were stored; none where the index holds nothing for the note. The
    /// store is asked for the id of the file and for its rows of wikilinks;
    /// `forward_links_answer` says what is made of its answers.
    pub fn get_forward_links(&self, file_path: &str) -> (r: Result<Vec<Wikilink>, IndexError>)
        ensures
            !self.in_scope(file_path@) <==> r matches Err(IndexError::OutOfScope),
            r is Ok || r matches Err(IndexError::OutOfScope) || r matches Err(IndexError::Database(_))
                || r matches Err(IndexError::MalformedRow),
    {
        let relative = match self.get_relative_path(file_path) {
            Ok(relative) => relative,
            Err(e) => {
                return Err(e);
            },
        };
        let ids = match query_file_rows(&self.conn, SELECT_FILE_ID, relative.as_str(), 1) {
            Ok(rows) => rows,
            Err(e) => {
                return Err(e);
            },
        };
        let wikilinks = match query_file_rows(&self.conn, SELECT_WIKILINKS, relative.as_str(), 5) {
            Ok(rows) => rows,
            Err(e) => {
                return Err(e);
            },
        };
        forward_links_answer(&ids, &wikilinks)
    }

    /// Every row of front matter in the index, as path, key and value,
    /// ordered by path and then by key.
    pub fn get_all_metadata(&self) -> (r: Result<Vec<(String, String, String)>, IndexError>)
        ensures
            r is Ok || r matches Err(IndexError::Database(_)) || r matches Err(IndexError::MalformedRow),
    {
        let none: Vec<Value> = Vec::new();
        match store::query(&self.conn, SELECT_ALL_METADATA, &none, 3) {
            Ok(rows) => well_formed(triples_from_rows(&rows)),
            Err(e) => Err(IndexError::Database(e)),
        }
    }

    /// Removes the note at `file_path` from the index, with its front
    /// matter, its wikilinks and its labels, in one transaction. Nothing
    /// happens where the index holds nothing for the note.
    pub fn remove_file(&mut self, file_path: &str) -> (r: Result<(), IndexError>)
        ensures
            final(self).root() == old(self).root(),
            !old(self).in_scope(file_path@) <==> r matches Err(IndexError::OutOfScope),
            r is Ok || r matches Err(IndexError::OutOfScope) || r matches Err(IndexError::Database(_))
                || r matches Err(IndexError::MalformedRow),
    {
        let relative = match self.get_relative_path(file_path) {
            Ok(relative) => relative,
            Err(e) => {
                return Err(e);
            },
        };
        let tx = match store::begin(&mut self.conn) {
            Ok(tx) => tx,
            Err(e) => {
                return Err(IndexError::Database(e));
            },
        };
        let done = erase_file(store::connection_of(&tx), relative);
        match done {
            Ok(()) => stored(store::commit(tx)),
            Err(e) => Err(e),
        }
    }
}

/// Looks for the id under which the store holds the note at the relative
/// path `relative`.
fn find_file(conn: &Connection, relative: String) -> (r: Result<Option<i64>, IndexError>)
    ensures
        r is Ok || r matches Err(IndexError::Database(_)) || r matches Err(IndexError::MalformedRow),
{
    match query_file_rows(conn, SELECT_FILE_ID, relative.as_str(), 1) {
        Ok(rows) => first_id(&rows),
        Err(e) => Err(e),
    }
}

/// Asks the store one question about the note at the relative path
/// `relative`: for the id of its file, or for the rows of one table that
/// belong to it.
fn query_file_rows(conn: &Connection, sql: &'static str, relative: &str, width: usize) -> (r: Result<
    Vec<Vec<Value>>,
    IndexError,
>)
    ensures
        r is Ok || r matches Err(IndexError::Database(_)),
{
    let search = path_search(sql, relative);
    stored(store::query(conn, search.sql, &search.params, width))
}

/// Writes the row of a file, keeping its id where the store holds the file
/// already, and puts the given rows in place of those that belonged to it:
/// it runs `file_statement` and then the statements of `replacement_for`.
fn write_file(conn: &Connection, relative: String, times: &FileTimes, rows: FileRows) -> (r: Result<
    (),
    IndexError,
>)
    ensures
        r is Ok || r matches Err(IndexError::Database(_)) || r matches Err(IndexError::MalformedRow),
{
    let known = match find_file(conn, relative.clone()) {
        Ok(known) => known,
        Err(e) => {
            return Err(e);
        },
    };
    let statement = file_statement(known, relative, times);
    match store::execute(conn, statement.sql, &statement.params) {
        Ok(_) => {},
        Err(e) => {
            return Err(IndexError::Database(e));
        },
    }
    let inserted = store::last_insert_rowid(conn);
    run_all(conn, &replacement_for(known, inserted, rows))
}

/// Removes the row of a file and the rows that belong to it, where the
/// store holds the file: it runs the statements of `removal_for`.
fn erase_file(conn: &Connection, relative: String) -> (r: Result<(), IndexError>)
    ensures
        r is Ok || r matches Err(IndexError::Database(_)) || r matches Err(IndexError::MalformedRow),
{
    match find_file(conn, relative) {
        Ok(known) => run_all(conn, &removal_for(known)),
        Err(e) => Err(e),
    }
}

} // verus!
