use crate::index::rows::{
    label_columns, label_values, metadata_rows, row_model, rows_of_metadata, table_model, value_model,
    wikilink_columns, wikilink_values, ValueModel,
};
use crate::index::{
    FileTimes, DELETE_FILE, DELETE_LABELS, DELETE_METADATA, DELETE_WIKILINKS, INSERT_FILE, INSERT_LABEL,
    INSERT_METADATA, INSERT_WIKILINK, UPDATE_FILE,
};
use crate::parser::models::{
    Label, LabelModel, Metadata, MetadataModel, ParsedFile, ParsedFileModel, Wikilink, WikilinkModel,
};
use rusqlite::types::Value;
use vstd::prelude::*;

verus! {

/// One statement for the store, with the values of its parameters.
#[derive(Debug, Clone, PartialEq)]
pub struct Statement {
    pub sql: &'static str,
    pub params: Vec<Value>,
}

/// What a `Statement` says, as mathematical values.
pub struct StatementModel {
    pub sql: Seq<char>,
    pub params: Seq<ValueModel>,
}

impl DeepView for Statement {
    type V = StatementModel;

    open spec fn deep_view(&self) -> StatementModel {
        StatementModel { sql: self.sql@, params: row_model(self.params@) }
    }
}

impl View for Statement {
    type V = StatementModel;

    open spec fn view(&self) -> StatementModel {
        self.deep_view()
    }
}

/// The rows that hold a file in the store, table by table, each row without
/// the id of the file.
#[derive(Debug, Clone, PartialEq)]
pub struct FileRows {
    pub metadata: Vec<Vec<Value>>,
    pub wikilinks: Vec<Vec<Value>>,
    pub labels: Vec<Vec<Value>>,
}

/// What `FileRows` holds, as mathematical values.
pub struct FileRowsModel {
    pub metadata: Seq<Seq<ValueModel>>,
    pub wikilinks: Seq<Seq<ValueModel>>,
    pub labels: Seq<Seq<ValueModel>>,
}

impl DeepView for FileRows {
    type V = FileRowsModel;

    open spec fn deep_view(&self) -> FileRowsModel {
        FileRowsModel {
            metadata: table_model(self.metadata@),
            wikilinks: table_model(self.wikilinks@),
            labels: table_model(self.labels@),
        }
    }
}

impl View for FileRows {
    type V = FileRowsModel;

    open spec fn view(&self) -> FileRowsModel {
        self.deep_view()
    }
}

/// Whether every wikilink and every label of the file has a line and a
/// column that can be stored.
pub open spec fn storable_file(file: ParsedFileModel) -> bool {
    &&& forall|i: int| 0 <= i < file.wikilinks.len() ==> (#[trigger] wikilink_columns(file.wikilinks[i])) is Some
    &&& forall|i: int| 0 <= i < file.labels.len() ==> (#[trigger] label_columns(file.labels[i])) is Some
}

/// The rows of key and value that hold front matter in the store, in the
/// order in which they are written.
pub open spec fn metadata_table(m: MetadataModel) -> Seq<Seq<ValueModel>> {
    Seq::new(
        rows_of_metadata(m).len(),
        |i: int| seq![ValueModel::Text(rows_of_metadata(m)[i].0), ValueModel::Text(rows_of_metadata(m)[i].1)],
    )
}

/// The rows that hold wikilinks in the store, in the order in which they
/// are written.
pub open spec fn wikilink_table(wikilinks: Seq<WikilinkModel>) -> Seq<Seq<ValueModel>> {
    Seq::new(wikilinks.len(), |i: int| wikilink_columns(wikilinks[i])->0)
}

/// The rows that hold labels in the store, in the order in which they are
/// written.
pub open spec fn label_table(labels: Seq<LabelModel>) -> Seq<Seq<ValueModel>> {
    Seq::new(labels.len(), |i: int| label_columns(labels[i])->0)
}

/// The rows that hold a file in the store.
pub open spec fn rows_of_file(file: ParsedFileModel) -> FileRowsModel {
    FileRowsModel {
        metadata: metadata_table(file.metadata),
        wikilinks: wikilink_table(file.wikilinks),
        labels: label_table(file.labels),
    }
}

/// The value that stores an optional time: an integer, or null.
pub open spec fn time_model(time: Option<i64>) -> ValueModel {
    match time {
        Some(t) => ValueModel::Integer(t),
        None => ValueModel::Null,
    }
}

/// The statement that writes the row of a file: an update of the times of
/// the row with the id `known`, which keeps the id, or the insertion of a
/// row for the path where the store holds none.
pub open spec fn file_statement_of(known: Option<i64>, relative: Seq<char>, times: FileTimes) -> StatementModel {
    match known {
        Some(id) => StatementModel {
            sql: UPDATE_FILE@,
            params: seq![
                time_model(times.created),
                time_model(times.modified),
                ValueModel::Integer(times.indexed),
                ValueModel::Integer(id),
            ],
        },
        None => StatementModel {
            sql: INSERT_FILE@,
            params: seq![
                ValueModel::Text(relative),
                time_model(times.created),
                time_model(times.modified),
                ValueModel::Integer(times.indexed),
            ],
        },
    }
}

/// The question `sql` about the note at a path relative to the root of the
/// workspace: the path is its only parameter.
pub open spec fn search_by_path(sql: Seq<char>, relative: Seq<char>) -> StatementModel {
    StatementModel { sql: sql, params: seq![ValueModel::Text(relative)] }
}

/// The statement `sql` with the id of a file as its only parameter.
pub open spec fn statement_for_file(sql: Seq<char>, file_id: i64) -> StatementModel {
    StatementModel { sql: sql, params: seq![ValueModel::Integer(file_id)] }
}

/// The statements that remove the front matter, the wikilinks and the
/// labels of a file.
pub open spec fn clearing_of(file_id: i64) -> Seq<StatementModel> {
    seq![
        statement_for_file(DELETE_METADATA@, file_id),
        statement_for_file(DELETE_WIKILINKS@, file_id),
        statement_for_file(DELETE_LABELS@, file_id),
    ]
}

/// One statement `sql` for each row, with the id of the file before the
/// values of the row.
pub open spec fn insertions_of(sql: Seq<char>, file_id: i64, rows: Seq<Seq<ValueModel>>) -> Seq<
    StatementModel,
> {
    Seq::new(
        rows.len(),
        |i: int| StatementModel { sql: sql, params: seq![ValueModel::Integer(file_id)] + rows[i] },
    )
}

/// The statements that put the given rows in place of all that the store
/// held for a file: first what removes the old rows of the three tables,
/// then the insertion of every new row, table by table and in order.
pub open spec fn replacement_of(file_id: i64, rows: FileRowsModel) -> Seq<StatementModel> {
    clearing_of(file_id) + insertions_of(INSERT_METADATA@, file_id, rows.metadata) + insertions_of(
        INSERT_WIKILINK@,
        file_id,
        rows.wikilinks,
    ) + insertions_of(INSERT_LABEL@, file_id, rows.labels)
}

/// The statements that remove a file from the store: what removes its rows
/// in the three tables, then what removes the row of the file.
pub open spec fn removal_of(file_id: i64) -> Seq<StatementModel> {
    clearing_of(file_id).push(statement_for_file(DELETE_FILE@, file_id))
}

/// The id of the row of a file after the row was written: the one under
/// which the store held the file, or the one of the row that was inserted.
pub open spec fn written_id(known: Option<i64>, inserted: i64) -> i64 {
    match known {
        Some(id) => id,
        None => inserted,
    }
}

/// The statements that follow the writing of the row of a file: the
/// replacement of its rows under the id of that row.
pub open spec fn replacement_after(known: Option<i64>, inserted: i64, rows: FileRowsModel) -> Seq<
    StatementModel,
> {
    replacement_of(written_id(known, inserted), rows)
}

/// The statements that remove a note from the store: none where the store
/// does not hold it, else the removal of the file with the id found.
pub open spec fn removal_after(known: Option<i64>) -> Seq<StatementModel> {
    match known {
        Some(id) => removal_of(id),
        None => seq![],
    }
}

/// The value that stores an optional time.
pub fn time_value(time: Option<i64>) -> (v: Value)
    ensures
        value_model(v) == time_model(time),
{
    match time {
        Some(t) => Value::Integer(t),
        None => Value::Null,
    }
}

/// The rows that store front matter.
pub fn metadata_values(m: &Metadata) -> (rows: Vec<Vec<Value>>)
    ensures
        table_model(rows@) == metadata_table(m@),
{
    let pairs = metadata_rows(m);
    let mut rows: Vec<Vec<Value>> = Vec::new();
    let mut i: usize = 0;
    while i < pairs.len()
        invariant
            i <= pairs.len(),
            rows.len() == i,
            pairs.deep_view() == rows_of_metadata(m@),
            forall|j: int| 0 <= j < i ==> row_model((#[trigger] rows[j])@) == metadata_table(m@)[j],
        decreases pairs.len() - i,
    {
        let mut row: Vec<Value> = Vec::new();
        row.push(Value::Text(pairs[i].0.clone()));
        row.push(Value::Text(pairs[i].1.clone()));
        assert(pairs.deep_view()[i as int] == pairs[i as int].deep_view());
        assert(row_model(row@) =~= metadata_table(m@)[i as int]);
        rows.push(row);
        i += 1;
    }
    assert(table_model(rows@) =~= metadata_table(m@));
    rows
}

/// The rows that store the wikilinks of a file; `None` where one has a line
/// or column that cannot be stored.
pub fn wikilink_rows(wikilinks: &Vec<Wikilink>) -> (r: Option<Vec<Vec<Value>>>)
    ensures
        r is Some <==> forall|i: int|
            0 <= i < wikilinks.len() ==> (#[trigger] wikilink_columns(wikilinks.deep_view()[i])) is Some,
        r matches Some(rows) ==> table_model(rows@) == wikilink_table(wikilinks.deep_view()),
{
    let mut rows: Vec<Vec<Value>> = Vec::new();
    let mut i: usize = 0;
    while i < wikilinks.len()
        invariant
            i <= wikilinks.len(),
            rows.len() == i,
            forall|j: int| 0 <= j < i ==> (#[trigger] wikilink_columns(wikilinks.deep_view()[j])) is Some,
            forall|j: int|
                0 <= j < i ==> wikilink_columns(wikilinks.deep_view()[j]) == Some(
                    row_model((#[trigger] rows[j])@),
                ),
        decreases wikilinks.len() - i,
    {
        assert(wikilinks.deep_view()[i as int] == wikilinks[i as int]@);
        match wikilink_values(&wikilinks[i]) {
            Some(values) => {
                rows.push(values);
            },
            None => {
                return None;
            },
        }
        i += 1;
    }
    assert(table_model(rows@) =~= wikilink_table(wikilinks.deep_view()));
    Some(rows)
}

/// The rows that store the labels of a file; `None` where one has a line or
/// column that cannot be stored.
pub fn label_rows(labels: &Vec<Label>) -> (r: Option<Vec<Vec<Value>>>)
    ensures
        r is Some <==> forall|i: int|
            0 <= i < labels.len() ==> (#[trigger] label_columns(labels.deep_view()[i])) is Some,
        r matches Some(rows) ==> table_model(rows@) == label_table(labels.deep_view()),
{
    let mut rows: Vec<Vec<Value>> = Vec::new();
    let mut i: usize = 0;
    while i < labels.len()
        invariant
            i <= labels.len(),
            rows.len() == i,
            forall|j: int| 0 <= j < i ==> (#[trigger] label_columns(labels.deep_view()[j])) is Some,
            forall|j: int|
                0 <= j < i ==> label_columns(labels.deep_view()[j]) == Some(row_model((#[trigger] rows[j])@)),
        decreases labels.len() - i,
    {
        assert(labels.deep_view()[i as int] == labels[i as int]@);
        match label_values(&labels[i]) {
            Some(values) => {
                rows.push(values);
            },
            None => {
                return None;
            },
        }
        i += 1;
    }
    assert(table_model(rows@) =~= label_table(labels.deep_view()));
    Some(rows)
}

/// The rows that store a file; `None` where a wikilink or a label has a
/// line or column that cannot be stored.
pub fn file_rows(parsed: &ParsedFile) -> (r: Option<FileRows>)
    ensures
        match r {
            Some(rows) => storable_file(parsed@) && rows@ == rows_of_file(parsed@),
            None => !storable_file(parsed@),
        },
{
    let wikilinks = match wikilink_rows(&parsed.wikilinks) {
        Some(rows) => rows,
        None => {
            return None;
        },
    };
    let labels = match label_rows(&parsed.labels) {
        Some(rows) => rows,
        None => {
            return None;
        },
    };
    Some(FileRows { metadata: metadata_values(&parsed.metadata), wikilinks, labels })
}

/// The statement that writes the row of a file.
pub fn file_statement(known: Option<i64>, relative: String, times: &FileTimes) -> (statement: Statement)
    ensures
        statement@ == file_statement_of(known, relative@, *times),
{
    let mut params: Vec<Value> = Vec::new();
    match known {
        Some(id) => {
            params.push(time_value(times.created));
            params.push(time_value(times.modified));
            params.push(Value::Integer(times.indexed));
            params.push(Value::Integer(id));
            assert(row_model(params@) =~= file_statement_of(known, relative@, *times).params);
            Statement { sql: UPDATE_FILE, params }
        },
        None => {
            params.push(Value::Text(relative));
            params.push(time_value(times.created));
            params.push(time_value(times.modified));
            params.push(Value::Integer(times.indexed));
            assert(row_model(params@) =~= file_statement_of(known, relative@, *times).params);
            Statement { sql: INSERT_FILE, params }
        },
    }
}

/// The question `sql` about the note at a path relative to the root.
pub fn path_search(sql: &'static str, relative: &str) -> (statement: Statement)
    ensures
        statement@ == search_by_path(sql@, relative@),
{
    let mut params: Vec<Value> = Vec::new();
    params.push(Value::Text(relative.to_owned()));
    assert(row_model(params@) =~= seq![ValueModel::Text(relative@)]);
    Statement { sql, params }
}

/// The statement `sql` with the id of a file as its only parameter.
pub fn for_file(sql: &'static str, file_id: i64) -> (statement: Statement)
    ensures
        statement@ == statement_for_file(sql@, file_id),
{
    let mut params: Vec<Value> = Vec::new();
    params.push(Value::Integer(file_id));
    assert(row_model(params@) =~= seq![ValueModel::Integer(file_id)]);
    Statement { sql, params }
}

/// Appends one statement `sql` for each row, with the id of the file before
/// the values of the row.
pub fn push_insertions(statements: &mut Vec<Statement>, sql: &'static str, file_id: i64, rows: Vec<Vec<Value>>)
    ensures
        final(statements).deep_view() == old(statements).deep_view() + insertions_of(
            sql@,
            file_id,
            table_model(rows@),
        ),
{
    let mut rows = rows;
    let ghost table = table_model(rows@);
    let ghost start = statements.deep_view();
    let mut i: usize = 0;
    assert(statements.deep_view() =~= start + insertions_of(sql@, file_id, table).take(0));
    while i < rows.len()
        invariant
            i <= rows.len(),
            rows.len() == table.len(),
            forall|j: int| i <= j < rows.len() ==> row_model((#[trigger] rows[j])@) == table[j],
            statements.deep_view() == start + insertions_of(sql@, file_id, table).take(i as int),
        decreases rows.len() - i,
    {
        let mut params: Vec<Value> = Vec::new();
        params.push(Value::Integer(file_id));
        let ghost before_rows = rows@;
        let ghost row = rows[i as int]@;
        assert(row_model(row) == table[i as int]);
        params.append(&mut rows[i]);
        assert(params@ =~= seq![Value::Integer(file_id)] + row);
        assert(row_model(params@) =~= seq![ValueModel::Integer(file_id)] + table[i as int]);
        let ghost before = statements.deep_view();
        statements.push(Statement { sql, params });
        assert(statements.deep_view() =~= before.push(insertions_of(sql@, file_id, table)[i as int]));
        assert(statements.deep_view() =~= start + insertions_of(sql@, file_id, table).take(i as int + 1));
        i += 1;
    }
    assert(insertions_of(sql@, file_id, table).take(rows.len() as int) =~= insertions_of(
        sql@,
        file_id,
        table,
    ));
}

/// The statements that put the given rows in place of all that the store
/// held for a file.
pub fn replacement(file_id: i64, rows: FileRows) -> (statements: Vec<Statement>)
    ensures
        statements.deep_view() == replacement_of(file_id, rows@),
{
    let mut statements: Vec<Statement> = Vec::new();
    statements.push(for_file(DELETE_METADATA, file_id));
    statements.push(for_file(DELETE_WIKILINKS, file_id));
    statements.push(for_file(DELETE_LABELS, file_id));
    assert(statements.deep_view() =~= clearing_of(file_id));
    let FileRows { metadata, wikilinks, labels } = rows;
    push_insertions(&mut statements, INSERT_METADATA, file_id, metadata);
    push_insertions(&mut statements, INSERT_WIKILINK, file_id, wikilinks);
    push_insertions(&mut statements, INSERT_LABEL, file_id, labels);
    statements
}

/// The statements that follow the writing of the row of a file, of which
/// `known` is the id under which the store held the file before, if it
/// did, and `inserted` the id of the row that the store inserted last.
pub fn replacement_for(known: Option<i64>, inserted: i64, rows: FileRows) -> (statements: Vec<Statement>)
    ensures
        statements.deep_view() == replacement_after(known, inserted, rows@),
{
    match known {
        Some(id) => replacement(id, rows),
        None => replacement(inserted, rows),
    }
}

/// The statements that remove a note from the store, of which `known` is
/// the id under which the store holds it, if it does.
pub fn removal_for(known: Option<i64>) -> (statements: Vec<Statement>)
    ensures
        statements.deep_view() == removal_after(known),
{
    match known {
        Some(id) => removal(id),
        None => {
            let statements: Vec<Statement> = Vec::new();
            assert(statements.deep_view() =~= removal_after(known));
            statements
        },
    }
}

/// The statements that remove a file from the store.
pub fn removal(file_id: i64) -> (statements: Vec<Statement>)
    ensures
        statements.deep_view() == removal_of(file_id),
{
    let mut statements: Vec<Statement> = Vec::new();
    statements.push(for_file(DELETE_METADATA, file_id));
    statements.push(for_file(DELETE_WIKILINKS, file_id));
    statements.push(for_file(DELETE_LABELS, file_id));
    statements.push(for_file(DELETE_FILE, file_id));
    assert(statements.deep_view() =~= removal_of(file_id));
    statements
}

} // verus!
