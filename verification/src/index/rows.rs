use crate::index::paths::{join, path_join};
use crate::index::IndexError;
use crate::parser::metadata::{
    is_json, is_json_text, same_text, set_field, with_field, with_field_keeps_fields_valid,
};
use crate::parser::models::{
    reserved_key, Label, LabelModel, Metadata, MetadataModel, Wikilink, WikilinkModel,
};
use rusqlite::types::Value;
use vstd::prelude::*;

verus! {

/// What a value of the store holds, as far as the index reads it.
pub enum ValueModel {
    Null,
    Integer(i64),
    Real,
    Text(Seq<char>),
    Blob,
}

pub open spec fn value_model(v: Value) -> ValueModel {
    match v {
        Value::Null => ValueModel::Null,
        Value::Integer(n) => ValueModel::Integer(n),
        Value::Real(_) => ValueModel::Real,
        Value::Text(s) => ValueModel::Text(s@),
        Value::Blob(_) => ValueModel::Blob,
    }
}

/// The values of one row.
pub open spec fn row_model(row: Seq<Value>) -> Seq<ValueModel> {
    Seq::new(row.len(), |i: int| value_model(row[i]))
}

/// The rows of one answer of the store.
pub open spec fn table_model(rows: Seq<Vec<Value>>) -> Seq<Seq<ValueModel>> {
    Seq::new(rows.len(), |i: int| row_model(rows[i]@))
}

/// The text in column `i`, where the row has that column and it holds text.
pub open spec fn text_column(row: Seq<ValueModel>, i: int) -> Option<Seq<char>> {
    if 0 <= i < row.len() {
        match row[i] {
            ValueModel::Text(s) => Some(s),
            _ => None,
        }
    } else {
        None
    }
}

/// The text in column `i` or its absence, where the row has that column and
/// it holds text or null.
pub open spec fn optional_text_column(row: Seq<ValueModel>, i: int) -> Option<Option<Seq<char>>> {
    if 0 <= i < row.len() {
        match row[i] {
            ValueModel::Text(s) => Some(Some(s)),
            ValueModel::Null => Some(None),
            _ => None,
        }
    } else {
        None
    }
}

/// The integer in column `i`, where the row has that column and it holds one.
pub open spec fn integer_column(row: Seq<ValueModel>, i: int) -> Option<i64> {
    if 0 <= i < row.len() {
        match row[i] {
            ValueModel::Integer(n) => Some(n),
            _ => None,
        }
    } else {
        None
    }
}

/// The line or column number in column `i`, where the row has that column
/// and it holds an integer that a `usize` can hold.
pub open spec fn position_column(row: Seq<ValueModel>, i: int) -> Option<nat> {
    match integer_column(row, i) {
        Some(n) => if 0 <= n <= usize::MAX {
            Some(n as nat)
        } else {
            None
        },
        None => None,
    }
}

/// How an optional text is stored: as text, or as null.
pub open spec fn optional_text_value(text: Option<Seq<char>>) -> ValueModel {
    match text {
        Some(s) => ValueModel::Text(s),
        None => ValueModel::Null,
    }
}

/// Whether a line or column number can be stored.
pub open spec fn storable(position: nat) -> bool {
    position <= i64::MAX
}

/// The columns that hold a wikilink: target, alias, label, line, column.
/// There are none where the line or the column cannot be stored.
pub open spec fn wikilink_columns(w: WikilinkModel) -> Option<Seq<ValueModel>> {
    if storable(w.line) && storable(w.column) {
        Some(
            seq![
                ValueModel::Text(w.target),
                optional_text_value(w.alias),
                optional_text_value(w.label),
                ValueModel::Integer(w.line as i64),
                ValueModel::Integer(w.column as i64),
            ],
        )
    } else {
        None
    }
}

/// The wikilink that a row of target, alias, label, line and column holds,
/// where the row has these five columns with values of their kinds.
pub open spec fn wikilink_of_row(row: Seq<ValueModel>) -> Option<WikilinkModel> {
    if row.len() == 5 && text_column(row, 0) is Some && optional_text_column(row, 1) is Some
        && optional_text_column(row, 2) is Some && position_column(row, 3) is Some
        && position_column(row, 4) is Some {
        Some(
            WikilinkModel {
                target: text_column(row, 0)->0,
                alias: optional_text_column(row, 1)->0,
                label: optional_text_column(row, 2)->0,
                line: position_column(row, 3)->0,
                column: position_column(row, 4)->0,
            },
        )
    } else {
        None
    }
}

/// The columns that hold a label: name, line, column, and 1 for a label
/// derived from a heading or 0 for one written out. There are none where the
/// line or the column cannot be stored.
pub open spec fn label_columns(l: LabelModel) -> Option<Seq<ValueModel>> {
    if storable(l.line) && storable(l.column) {
        Some(
            seq![
                ValueModel::Text(l.name),
                ValueModel::Integer(l.line as i64),
                ValueModel::Integer(l.column as i64),
                ValueModel::Integer(if l.is_implicit { 1i64 } else { 0i64 }),
            ],
        )
    } else {
        None
    }
}

/// The label that a row of name, line, column and flag holds, where the row
/// has these four columns with values of their kinds. A flag other than 0
/// stands for a label derived from a heading.
pub open spec fn label_of_row(row: Seq<ValueModel>) -> Option<LabelModel> {
    if row.len() == 4 && text_column(row, 0) is Some && position_column(row, 1) is Some
        && position_column(row, 2) is Some && integer_column(row, 3) is Some {
        Some(
            LabelModel {
                name: text_column(row, 0)->0,
                line: position_column(row, 1)->0,
                column: position_column(row, 2)->0,
                is_implicit: integer_column(row, 3)->0 != 0,
            },
        )
    } else {
        None
    }
}

/// The wikilinks of the rows, where every row holds one.
pub open spec fn wikilinks_of_table(table: Seq<Seq<ValueModel>>) -> Option<Seq<WikilinkModel>> {
    if forall|i: int| 0 <= i < table.len() ==> (#[trigger] wikilink_of_row(table[i])) is Some {
        Some(Seq::new(table.len(), |i: int| wikilink_of_row(table[i])->0))
    } else {
        None
    }
}

/// The labels of the rows, where every row holds one.
pub open spec fn labels_of_table(table: Seq<Seq<ValueModel>>) -> Option<Seq<LabelModel>> {
    if forall|i: int| 0 <= i < table.len() ==> (#[trigger] label_of_row(table[i])) is Some {
        Some(Seq::new(table.len(), |i: int| label_of_row(table[i])->0))
    } else {
        None
    }
}

/// The texts of a row, where it has `width` columns and each holds text.
pub open spec fn texts_of_row(row: Seq<ValueModel>, width: int) -> Option<Seq<Seq<char>>> {
    if row.len() == width && forall|i: int| 0 <= i < row.len() ==> (#[trigger] text_column(row, i)) is Some {
        Some(Seq::new(row.len(), |i: int| text_column(row, i)->0))
    } else {
        None
    }
}

/// The texts of the rows, where every row has `width` columns of text.
pub open spec fn texts_of_table(table: Seq<Seq<ValueModel>>, width: int) -> Option<Seq<Seq<Seq<char>>>> {
    if forall|i: int| 0 <= i < table.len() ==> (#[trigger] texts_of_row(table[i], width)) is Some {
        Some(Seq::new(table.len(), |i: int| texts_of_row(table[i], width)->0))
    } else {
        None
    }
}

/// The rows that hold a title: one with the key `title`, or none.
pub open spec fn title_rows(title: Option<Seq<char>>) -> Seq<(Seq<char>, Seq<char>)> {
    match title {
        Some(t) => seq![("title"@, t)],
        None => seq![],
    }
}

/// One row with the key `key` for each of the values.
pub open spec fn keyed_rows(key: Seq<char>, values: Seq<Seq<char>>) -> Seq<(Seq<char>, Seq<char>)> {
    Seq::new(values.len(), |i: int| (key, values[i]))
}

/// The rows of key and value that hold front matter: the title, then one row
/// for each tag, one for each alias, and one for each custom field.
pub open spec fn rows_of_metadata(m: MetadataModel) -> Seq<(Seq<char>, Seq<char>)> {
    title_rows(m.title) + keyed_rows("tags"@, m.tags) + keyed_rows("alias"@, m.alias) + m.custom
}

/// The front matter after one more row of key and value was read: `title`
/// sets the title, `tags` and `alias` add to their lists, and any other key
/// is a custom field where its value is JSON and is passed over where not.
pub open spec fn with_row(m: MetadataModel, row: (Seq<char>, Seq<char>)) -> MetadataModel {
    if row.0 == "title"@ {
        MetadataModel { title: Some(row.1), ..m }
    } else if row.0 == "tags"@ {
        MetadataModel { tags: m.tags.push(row.1), ..m }
    } else if row.0 == "alias"@ {
        MetadataModel { alias: m.alias.push(row.1), ..m }
    } else if is_json(row.1) {
        MetadataModel { custom: with_field(m.custom, row.0, row.1), ..m }
    } else {
        m
    }
}

/// The front matter after the rows were read into `start`, one by one.
pub open spec fn read_rows(start: MetadataModel, rows: Seq<(Seq<char>, Seq<char>)>) -> MetadataModel
    decreases rows.len(),
{
    if rows.len() == 0 {
        start
    } else {
        with_row(read_rows(start, rows.drop_last()), rows.last())
    }
}

/// The front matter that rows of key and value hold.
pub open spec fn metadata_of_rows(rows: Seq<(Seq<char>, Seq<char>)>) -> MetadataModel {
    read_rows(MetadataModel::empty(), rows)
}

/// Reading rows keeps front matter well formed.
pub proof fn read_rows_keeps_well_formed(start: MetadataModel, rows: Seq<(Seq<char>, Seq<char>)>)
    requires
        start.well_formed(),
    ensures
        read_rows(start, rows).well_formed(),
    decreases rows.len(),
{
    if rows.len() > 0 {
        read_rows_keeps_well_formed(start, rows.drop_last());
        let before = read_rows(start, rows.drop_last());
        let last = rows.last();
        if !reserved_key(last.0) && is_json(last.1) {
            with_field_keeps_fields_valid(before.custom, last.0, last.1);
        }
    }
}

/// The rows of key and value in an answer of the store, where every row has
/// two columns of text.
pub open spec fn pairs_of_table(table: Seq<Seq<ValueModel>>) -> Option<Seq<(Seq<char>, Seq<char>)>> {
    match texts_of_table(table, 2) {
        Some(texts) => Some(Seq::new(texts.len(), |i: int| (texts[i][0], texts[i][1]))),
        None => None,
    }
}

/// A copy of a value of the store, where it holds text.
pub fn text_of(v: &Value) -> (text: Option<String>)
    ensures
        text.deep_view() == text_column(seq![value_model(*v)], 0),
{
    match v {
        Value::Text(s) => Some(s.clone()),
        _ => None,
    }
}

/// A copy of a value of the store, where it holds text or null.
pub fn optional_text_of(v: &Value) -> (text: Option<Option<String>>)
    ensures
        text.deep_view() == optional_text_column(seq![value_model(*v)], 0),
{
    match v {
        Value::Text(s) => Some(Some(s.clone())),
        Value::Null => Some(None),
        _ => None,
    }
}

/// The line or column number that a value of the store holds.
pub fn position_of(v: &Value) -> (position: Option<usize>)
    ensures
        match position {
            Some(p) => position_column(seq![value_model(*v)], 0) == Some(p as nat),
            None => position_column(seq![value_model(*v)], 0) is None,
        },
{
    match v {
        Value::Integer(n) => {
            let n: i64 = *n;
            if n < 0 || n as u64 > usize::MAX as u64 {
                None
            } else {
                Some(n as usize)
            }
        },
        _ => None,
    }
}

/// The value that stores an optional text.
pub fn optional_text_to_value(text: &Option<String>) -> (v: Value)
    ensures
        value_model(v) == optional_text_value(text.deep_view()),
{
    match text {
        Some(s) => Value::Text(s.clone()),
        None => Value::Null,
    }
}

/// The value that stores a line or column number, where it can be stored.
pub fn position_to_value(position: usize) -> (v: Option<Value>)
    ensures
        storable(position as nat) ==> v is Some && value_model(v->0) == ValueModel::Integer(
            position as i64,
        ),
        !storable(position as nat) ==> v is None,
{
    if position as u64 > 0x7fff_ffff_ffff_ffffu64 {
        None
    } else {
        Some(Value::Integer(position as i64))
    }
}

/// The values that store a wikilink.
pub fn wikilink_values(w: &Wikilink) -> (r: Option<Vec<Value>>)
    ensures
        match r {
            Some(values) => wikilink_columns(w@) == Some(row_model(values@)),
            None => wikilink_columns(w@) is None,
        },
{
    let line = match position_to_value(w.line) {
        Some(v) => v,
        None => {
            return None;
        },
    };
    let column = match position_to_value(w.column) {
        Some(v) => v,
        None => {
            return None;
        },
    };
    let mut values: Vec<Value> = Vec::new();
    values.push(Value::Text(w.target.clone()));
    values.push(optional_text_to_value(&w.alias));
    values.push(optional_text_to_value(&w.label));
    values.push(line);
    values.push(column);
    assert(row_model(values@) =~= wikilink_columns(w@)->0);
    Some(values)
}

/// Reads a wikilink from the columns of a row that follow the first `from`.
pub fn wikilink_from_columns(row: &Vec<Value>, from: usize) -> (r: Option<Wikilink>)
    requires
        from <= row.len(),
    ensures
        r.deep_view() == wikilink_of_row(row_model(row@).skip(from as int)),
{
    if row.len() - from != 5 {
        return None;
    }
    let target = text_of(&row[from]);
    let alias = optional_text_of(&row[from + 1]);
    let label = optional_text_of(&row[from + 2]);
    let line = position_of(&row[from + 3]);
    let column = position_of(&row[from + 4]);
    match (target, alias, label, line, column) {
        (Some(target), Some(alias), Some(label), Some(line), Some(column)) => Some(
            Wikilink { target, alias, label, line, column },
        ),
        _ => None,
    }
}

/// Reads a wikilink from a row of the store.
pub fn wikilink_from_row(row: &Vec<Value>) -> (r: Option<Wikilink>)
    ensures
        r.deep_view() == wikilink_of_row(row_model(row@)),
{
    assert(row_model(row@).skip(0) =~= row_model(row@));
    wikilink_from_columns(row, 0)
}

/// The values that store a label.
pub fn label_values(l: &Label) -> (r: Option<Vec<Value>>)
    ensures
        match r {
            Some(values) => label_columns(l@) == Some(row_model(values@)),
            None => label_columns(l@) is None,
        },
{
    let line = match position_to_value(l.line) {
        Some(v) => v,
        None => {
            return None;
        },
    };
    let column = match position_to_value(l.column) {
        Some(v) => v,
        None => {
            return None;
        },
    };
    let flag: i64 = if l.is_implicit {
        1
    } else {
        0
    };
    let mut values: Vec<Value> = Vec::new();
    values.push(Value::Text(l.name.clone()));
    values.push(line);
    values.push(column);
    values.push(Value::Integer(flag));
    assert(row_model(values@) =~= label_columns(l@)->0);
    Some(values)
}

/// Reads a label from a row of the store.
pub fn label_from_row(row: &Vec<Value>) -> (r: Option<Label>)
    ensures
        r.deep_view() == label_of_row(row_model(row@)),
{
    if row.len() != 4 {
        return None;
    }
    let name = text_of(&row[0]);
    let line = position_of(&row[1]);
    let column = position_of(&row[2]);
    match (name, line, column, &row[3]) {
        (Some(name), Some(line), Some(column), Value::Integer(flag)) => Some(
            Label { name, line, column, is_implicit: *flag != 0 },
        ),
        _ => None,
    }
}

/// Reads the wikilinks from the rows of an answer of the store.
pub fn wikilinks_from_rows(rows: &Vec<Vec<Value>>) -> (r: Option<Vec<Wikilink>>)
    ensures
        r.deep_view() == wikilinks_of_table(table_model(rows@)),
{
    let ghost table = table_model(rows@);
    let mut out: Vec<Wikilink> = Vec::new();
    let mut i: usize = 0;
    while i < rows.len()
        invariant
            i <= rows.len(),
            table == table_model(rows@),
            out.len() == i,
            forall|j: int| 0 <= j < i ==> (#[trigger] wikilink_of_row(table[j])) == Some(out[j]@),
        decreases rows.len() - i,
    {
        match wikilink_from_row(&rows[i]) {
            Some(w) => {
                out.push(w);
            },
            None => {
                assert(wikilink_of_row(table[i as int]) is None);
                return None;
            },
        }
        i += 1;
    }
    assert(out.deep_view() =~= wikilinks_of_table(table)->0);
    Some(out)
}

/// Reads the labels from the rows of an answer of the store.
pub fn labels_from_rows(rows: &Vec<Vec<Value>>) -> (r: Option<Vec<Label>>)
    ensures
        r.deep_view() == labels_of_table(table_model(rows@)),
{
    let ghost table = table_model(rows@);
    let mut out: Vec<Label> = Vec::new();
    let mut i: usize = 0;
    while i < rows.len()
        invariant
            i <= rows.len(),
            table == table_model(rows@),
            out.len() == i,
            forall|j: int| 0 <= j < i ==> (#[trigger] label_of_row(table[j])) == Some(out[j]@),
        decreases rows.len() - i,
    {
        match label_from_row(&rows[i]) {
            Some(l) => {
                out.push(l);
            },
            None => {
                assert(label_of_row(table[i as int]) is None);
                return None;
            },
        }
        i += 1;
    }
    assert(out.deep_view() =~= labels_of_table(table)->0);
    Some(out)
}

/// Reads the texts of a row of `width` columns.
pub fn texts_from_row(row: &Vec<Value>, width: usize) -> (r: Option<Vec<String>>)
    ensures
        r.deep_view() == texts_of_row(row_model(row@), width as int),
{
    if row.len() != width {
        return None;
    }
    let ghost model = row_model(row@);
    let mut out: Vec<String> = Vec::new();
    let mut i: usize = 0;
    while i < row.len()
        invariant
            i <= row.len(),
            model == row_model(row@),
            out.len() == i,
            forall|j: int| 0 <= j < i ==> (#[trigger] text_column(model, j)) == Some(out[j]@),
        decreases row.len() - i,
    {
        match text_of(&row[i]) {
            Some(text) => {
                out.push(text);
            },
            None => {
                assert(text_column(model, i as int) is None);
                return None;
            },
        }
        i += 1;
    }
    assert(out.deep_view() =~= texts_of_row(model, width as int)->0);
    Some(out)
}

/// Reads the texts of the rows of an answer of the store, each of `width`
/// columns.
pub fn texts_from_rows(rows: &Vec<Vec<Value>>, width: usize) -> (r: Option<Vec<Vec<String>>>)
    ensures
        r.deep_view() == texts_of_table(table_model(rows@), width as int),
        r matches Some(texts) ==> forall|i: int| 0 <= i < texts.len() ==> (#[trigger] texts[i]).len() == width,
{
    let ghost table = table_model(rows@);
    let mut out: Vec<Vec<String>> = Vec::new();
    let mut i: usize = 0;
    while i < rows.len()
        invariant
            i <= rows.len(),
            table == table_model(rows@),
            out.len() == i,
            forall|j: int| 0 <= j < i ==> (#[trigger] texts_of_row(table[j], width as int)) == Some(out[j].deep_view()),
            forall|j: int| 0 <= j < i ==> (#[trigger] out[j]).len() == width,
        decreases rows.len() - i,
    {
        match texts_from_row(&rows[i], width) {
            Some(texts) => {
                assert(texts.deep_view().len() == width);
                out.push(texts);
            },
            None => {
                assert(texts_of_row(table[i as int], width as int) is None);
                return None;
            },
        }
        i += 1;
    }
    assert(out.deep_view() =~= texts_of_table(table, width as int)->0);
    Some(out)
}

/// The link that a row of source path, target, alias, label, line and column
/// holds, with the source path joined to `root`.
pub open spec fn backlink_of_row(root: Seq<char>, row: Seq<ValueModel>) -> Option<
    (Seq<char>, WikilinkModel),
> {
    if row.len() == 6 && text_column(row, 0) is Some && wikilink_of_row(row.skip(1)) is Some {
        Some((path_join(root, text_column(row, 0)->0), wikilink_of_row(row.skip(1))->0))
    } else {
        None
    }
}

/// The links of the rows, each with its source, where every row holds one.
pub open spec fn backlinks_of_table(root: Seq<char>, table: Seq<Seq<ValueModel>>) -> Option<
    Seq<(Seq<char>, WikilinkModel)>,
> {
    if forall|i: int| 0 <= i < table.len() ==> (#[trigger] backlink_of_row(root, table[i])) is Some {
        Some(Seq::new(table.len(), |i: int| backlink_of_row(root, table[i])->0))
    } else {
        None
    }
}

/// The rows of path, key and value in an answer of the store, where every
/// row has three columns of text.
pub open spec fn triples_of_table(table: Seq<Seq<ValueModel>>) -> Option<
    Seq<(Seq<char>, Seq<char>, Seq<char>)>,
> {
    match texts_of_table(table, 3) {
        Some(texts) => Some(Seq::new(texts.len(), |i: int| (texts[i][0], texts[i][1], texts[i][2]))),
        None => None,
    }
}

/// The id in the first row of an answer to a search for a file: `Ok(None)`
/// where the answer has no row, an error where the first row is not one
/// integer.
pub open spec fn first_id_of(table: Seq<Seq<ValueModel>>) -> Result<Option<i64>, ()> {
    if table.len() == 0 {
        Ok(None)
    } else if table[0].len() == 1 && integer_column(table[0], 0) is Some {
        Ok(Some(integer_column(table[0], 0)->0))
    } else {
        Err(())
    }
}

/// Reads the links that point to a note, each with the path of the note in
/// which it stands, from the rows of an answer of the store.
pub fn backlinks_from_rows(root: &str, rows: &Vec<Vec<Value>>) -> (r: Option<Vec<(String, Wikilink)>>)
    ensures
        r.deep_view() == backlinks_of_table(root@, table_model(rows@)),
{
    let ghost table = table_model(rows@);
    let mut out: Vec<(String, Wikilink)> = Vec::new();
    let mut i: usize = 0;
    while i < rows.len()
        invariant
            i <= rows.len(),
            table == table_model(rows@),
            out.len() == i,
            forall|j: int| 0 <= j < i ==> (#[trigger] backlink_of_row(root@, table[j])) == Some(out[j].deep_view()),
        decreases rows.len() - i,
    {
        let row = &rows[i];
        if row.len() != 6 {
            assert(backlink_of_row(root@, table[i as int]) is None);
            return None;
        }
        match (text_of(&row[0]), wikilink_from_columns(row, 1)) {
            (Some(source), Some(w)) => {
                let full = join(root, source.as_str());
                out.push((full, w));
            },
            _ => {
                assert(backlink_of_row(root@, table[i as int]) is None);
                return None;
            },
        }
        i += 1;
    }
    assert(out.deep_view() =~= backlinks_of_table(root@, table)->0);
    Some(out)
}

/// Reads rows of key and value from an answer of the store.
pub fn pairs_from_rows(rows: &Vec<Vec<Value>>) -> (r: Option<Vec<(String, String)>>)
    ensures
        r.deep_view() == pairs_of_table(table_model(rows@)),
{
    let texts = match texts_from_rows(rows, 2) {
        Some(texts) => texts,
        None => {
            return None;
        },
    };
    let mut out: Vec<(String, String)> = Vec::new();
    let mut i: usize = 0;
    while i < texts.len()
        invariant
            i <= texts.len(),
            out.len() == i,
            forall|j: int| 0 <= j < texts.len() ==> (#[trigger] texts[j]).len() == 2,
            forall|j: int| 0 <= j < i ==> (#[trigger] out[j]).deep_view() == (texts[j][0]@, texts[j][1]@),
        decreases texts.len() - i,
    {
        let row = &texts[i];
        out.push((row[0].clone(), row[1].clone()));
        i += 1;
    }
    assert(out.deep_view() =~= pairs_of_table(table_model(rows@))->0);
    Some(out)
}

/// Reads rows of path, key and value from an answer of the store.
pub fn triples_from_rows(rows: &Vec<Vec<Value>>) -> (r: Option<Vec<(String, String, String)>>)
    ensures
        r.deep_view() == triples_of_table(table_model(rows@)),
{
    let texts = match texts_from_rows(rows, 3) {
        Some(texts) => texts,
        None => {
            return None;
        },
    };
    let mut out: Vec<(String, String, String)> = Vec::new();
    let mut i: usize = 0;
    while i < texts.len()
        invariant
            i <= texts.len(),
            out.len() == i,
            forall|j: int| 0 <= j < texts.len() ==> (#[trigger] texts[j]).len() == 3,
            forall|j: int| 0 <= j < i ==> (#[trigger] out[j]).deep_view() == (
                texts[j][0]@,
                texts[j][1]@,
                texts[j][2]@,
            ),
        decreases texts.len() - i,
    {
        let row = &texts[i];
        out.push((row[0].clone(), row[1].clone(), row[2].clone()));
        i += 1;
    }
    assert(out.deep_view() =~= triples_of_table(table_model(rows@))->0);
    Some(out)
}

/// Reads the id of a file from the answer to a search for it.
pub fn first_id(rows: &Vec<Vec<Value>>) -> (r: Result<Option<i64>, IndexError>)
    ensures
        match first_id_of(table_model(rows@)) {
            Ok(id) => r == Ok::<Option<i64>, IndexError>(id),
            Err(_) => r matches Err(IndexError::MalformedRow),
        },
{
    if rows.len() == 0 {
        return Ok(None);
    }
    let row = &rows[0];
    if row.len() != 1 {
        return Err(IndexError::MalformedRow);
    }
    match &row[0] {
        Value::Integer(id) => Ok(Some(*id)),
        _ => Err(IndexError::MalformedRow),
    }
}

/// Appends one row with the key `key` for each of the values.
pub fn push_keyed(rows: &mut Vec<(String, String)>, key: &str, values: &Vec<String>)
    ensures
        final(rows).deep_view() == old(rows).deep_view() + keyed_rows(key@, values.deep_view()),
{
    let mut i: usize = 0;
    assert(rows.deep_view() =~= old(rows).deep_view() + keyed_rows(key@, values.deep_view().take(0)));
    while i < values.len()
        invariant
            i <= values.len(),
            rows.deep_view() == old(rows).deep_view() + keyed_rows(
                key@,
                values.deep_view().take(i as int),
            ),
        decreases values.len() - i,
    {
        let ghost before = rows.deep_view();
        rows.push((key.to_owned(), values[i].clone()));
        assert(rows.deep_view() =~= before.push((key@, values[i as int]@)));
        assert(rows.deep_view() =~= old(rows).deep_view() + keyed_rows(
            key@,
            values.deep_view().take(i as int + 1),
        ));
        i += 1;
    }
    assert(values.deep_view().take(values.len() as int) == values.deep_view());
}

/// The rows of key and value that hold the front matter.
pub fn metadata_rows(m: &Metadata) -> (rows: Vec<(String, String)>)
    ensures
        rows.deep_view() == rows_of_metadata(m@),
{
    let mut rows: Vec<(String, String)> = Vec::new();
    match &m.title {
        Some(title) => {
            rows.push(("title".to_owned(), title.clone()));
        },
        None => {},
    }
    assert(rows.deep_view() =~= title_rows(m@.title));
    push_keyed(&mut rows, "tags", &m.tags);
    push_keyed(&mut rows, "alias", &m.alias);
    let ghost fixed = rows.deep_view();
    let mut i: usize = 0;
    assert(rows.deep_view() =~= fixed + m.custom.deep_view().take(0));
    while i < m.custom.len()
        invariant
            i <= m.custom.len(),
            rows.deep_view() == fixed + m.custom.deep_view().take(i as int),
        decreases m.custom.len() - i,
    {
        let ghost before = rows.deep_view();
        let field = &m.custom[i];
        rows.push((field.0.clone(), field.1.clone()));
        assert(rows.deep_view() =~= before.push(m.custom[i as int].deep_view()));
        assert(rows.deep_view() =~= fixed + m.custom.deep_view().take(i as int + 1));
        i += 1;
    }
    assert(m.custom.deep_view().take(m.custom.len() as int) == m.custom.deep_view());
    rows
}

/// Reads the front matter from rows of key and value.
pub fn metadata_from_pairs(rows: &Vec<(String, String)>) -> (m: Metadata)
    ensures
        m@ == metadata_of_rows(rows.deep_view()),
        m@.well_formed(),
{
    proof {
        read_rows_keeps_well_formed(MetadataModel::empty(), rows.deep_view());
    }
    let mut m = Metadata::default();
    let mut i: usize = 0;
    assert(rows.deep_view().take(0) =~= seq![]);
    while i < rows.len()
        invariant
            i <= rows.len(),
            m@ == metadata_of_rows(rows.deep_view().take(i as int)),
        decreases rows.len() - i,
    {
        let ghost next = rows.deep_view().take(i as int + 1);
        assert(next.drop_last() == rows.deep_view().take(i as int));
        assert(next.last() == rows[i as int].deep_view());
        let key = &rows[i].0;
        let value = &rows[i].1;
        if same_text(key.as_str(), "title") {
            m.title = Some(value.clone());
        } else if same_text(key.as_str(), "tags") {
            let ghost before = m.tags.deep_view();
            m.tags.push(value.clone());
            assert(m.tags.deep_view() =~= before.push(value@));
        } else if same_text(key.as_str(), "alias") {
            let ghost before = m.alias.deep_view();
            m.alias.push(value.clone());
            assert(m.alias.deep_view() =~= before.push(value@));
        } else if is_json_text(value.as_str()) {
            set_field(&mut m.custom, key.clone(), value.clone());
        }
        i += 1;
    }
    assert(rows.deep_view().take(rows.len() as int) == rows.deep_view());
    m
}

} // verus!
