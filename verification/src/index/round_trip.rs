use crate::index::rows::{
    keyed_rows, label_columns, label_of_row, labels_of_table, metadata_of_rows, pairs_of_table, read_rows,
    rows_of_metadata, text_column, texts_of_row, title_rows, wikilink_columns, wikilink_of_row,
    wikilinks_of_table, ValueModel,
};
use crate::index::plan::{
    clearing_of, insertions_of, label_table, metadata_table, replacement_of, rows_of_file, storable_file,
    wikilink_table, FileRowsModel,
};
use crate::index::{file_answer_of, file_of_rows, INSERT_LABEL, INSERT_METADATA, INSERT_WIKILINK};
use crate::parser::metadata::{is_json, key_index, key_index_is_first, with_field};
use crate::parser::models::{
    distinct_keys, reserved_key, Label, MetadataModel, ParsedFile, ParsedFileModel, Wikilink,
};
use vstd::prelude::*;

verus! {

/// A wikilink that can be stored is read back from its columns as it was.
pub proof fn wikilink_is_read_back(w: Wikilink)
    requires
        wikilink_columns(w@) is Some,
    ensures
        wikilink_of_row(wikilink_columns(w@)->0) == Some(w@),
{
    let row = wikilink_columns(w@)->0;
    assert(row.len() == 5);
    assert(w@.line as i64 as nat == w@.line);
    assert(w@.column as i64 as nat == w@.column);
}

/// A label that can be stored is read back from its columns as it was.
pub proof fn label_is_read_back(l: Label)
    requires
        label_columns(l@) is Some,
    ensures
        label_of_row(label_columns(l@)->0) == Some(l@),
{
    let row = label_columns(l@)->0;
    assert(row.len() == 4);
    assert(l@.line as i64 as nat == l@.line);
    assert(l@.column as i64 as nat == l@.column);
}

/// Reading rows one after the other is the same as reading them at once.
pub proof fn read_rows_in_two_parts(
    start: MetadataModel,
    first: Seq<(Seq<char>, Seq<char>)>,
    second: Seq<(Seq<char>, Seq<char>)>,
)
    ensures
        read_rows(start, first + second) == read_rows(read_rows(start, first), second),
    decreases second.len(),
{
    if second.len() == 0 {
        assert(first + second =~= first);
    } else {
        read_rows_in_two_parts(start, first, second.drop_last());
        assert((first + second).drop_last() =~= first + second.drop_last());
        assert((first + second).last() == second.last());
    }
}

proof fn reserved_keys_differ()
    ensures
        "title"@ != "tags"@,
        "title"@ != "alias"@,
        "tags"@ != "alias"@,
{
    reveal_strlit("title");
    reveal_strlit("tags");
    reveal_strlit("alias");
    assert("title"@[0] == 't');
    assert("alias"@[0] == 'a');
    assert("title"@.len() == 5);
    assert("tags"@.len() == 4);
}

proof fn tag_rows_are_read_back(start: MetadataModel, tags: Seq<Seq<char>>)
    ensures
        read_rows(start, keyed_rows("tags"@, tags)) == (MetadataModel { tags: start.tags + tags, ..start }),
    decreases tags.len(),
{
    reserved_keys_differ();
    let rows = keyed_rows("tags"@, tags);
    if tags.len() == 0 {
        assert(start.tags + tags =~= start.tags);
    } else {
        tag_rows_are_read_back(start, tags.drop_last());
        assert(rows.drop_last() =~= keyed_rows("tags"@, tags.drop_last()));
        assert(rows.last() == ("tags"@, tags.last()));
        assert((start.tags + tags.drop_last()).push(tags.last()) =~= start.tags + tags);
    }
}

proof fn alias_rows_are_read_back(start: MetadataModel, alias: Seq<Seq<char>>)
    ensures
        read_rows(start, keyed_rows("alias"@, alias)) == (MetadataModel {
            alias: start.alias + alias,
            ..start
        }),
    decreases alias.len(),
{
    reserved_keys_differ();
    let rows = keyed_rows("alias"@, alias);
    if alias.len() == 0 {
        assert(start.alias + alias =~= start.alias);
    } else {
        alias_rows_are_read_back(start, alias.drop_last());
        assert(rows.drop_last() =~= keyed_rows("alias"@, alias.drop_last()));
        assert(rows.last() == ("alias"@, alias.last()));
        assert((start.alias + alias.drop_last()).push(alias.last()) =~= start.alias + alias);
    }
}

proof fn custom_rows_are_read_back(start: MetadataModel, fields: Seq<(Seq<char>, Seq<char>)>)
    requires
        start.custom.len() == 0,
        distinct_keys(fields),
        forall|i: int| 0 <= i < fields.len() ==> !reserved_key((#[trigger] fields[i]).0),
        forall|i: int| 0 <= i < fields.len() ==> is_json((#[trigger] fields[i]).1),
    ensures
        read_rows(start, fields) == (MetadataModel { custom: fields, ..start }),
    decreases fields.len(),
{
    if fields.len() == 0 {
        assert(start.custom =~= fields);
    } else {
        let before = fields.drop_last();
        let last = fields.last();
        assert(forall|j: int| 0 <= j < before.len() ==> before[j] == fields[j]);
        custom_rows_are_read_back(start, before);
        key_index_is_first(before, last.0);
        let i = key_index(before, last.0);
        if i < before.len() {
            assert(fields[i].0 == fields[fields.len() - 1].0);
        }
        assert(!reserved_key(last.0));
        assert(is_json(last.1));
        assert(with_field(before, last.0, last.1) =~= fields);
    }
}

/// Well-formed front matter is read back from its rows as it was: the
/// title, the tags and the aliases in their order, an empty list as an
/// empty list, and every custom field.
pub proof fn metadata_is_read_back(m: MetadataModel)
    requires
        m.well_formed(),
    ensures
        metadata_of_rows(rows_of_metadata(m)) == m,
{
    let empty = MetadataModel::empty();
    let titled = MetadataModel { title: m.title, ..empty };
    let tagged = MetadataModel { tags: m.tags, ..titled };
    let named = MetadataModel { alias: m.alias, ..tagged };
    let t = title_rows(m.title);
    let g = keyed_rows("tags"@, m.tags);
    let a = keyed_rows("alias"@, m.alias);
    assert(read_rows(empty, t) == titled) by {
        if m.title is Some {
            assert(t.drop_last() =~= seq![]);
            assert(read_rows(empty, t.drop_last()) == empty);
        }
    }
    tag_rows_are_read_back(titled, m.tags);
    assert(titled.tags + m.tags =~= m.tags);
    alias_rows_are_read_back(tagged, m.alias);
    assert(tagged.alias + m.alias =~= m.alias);
    custom_rows_are_read_back(named, m.custom);
    read_rows_in_two_parts(empty, t, g);
    read_rows_in_two_parts(empty, t + g, a);
    read_rows_in_two_parts(empty, t + g + a, m.custom);
    assert(named.custom =~= seq![]);
}

/// Every statement of a replacement has the id of the file as its first
/// parameter: storing a file again changes the rows of no other file.
pub proof fn replacement_touches_one_file(file_id: i64, rows: FileRowsModel)
    ensures
        forall|i: int|
            0 <= i < replacement_of(file_id, rows).len() ==> {
                &&& (#[trigger] replacement_of(file_id, rows)[i]).params.len() >= 1
                &&& replacement_of(file_id, rows)[i].params[0] == ValueModel::Integer(file_id)
            },
{
    let clearing = clearing_of(file_id);
    let metadata = insertions_of(INSERT_METADATA@, file_id, rows.metadata);
    let wikilinks = insertions_of(INSERT_WIKILINK@, file_id, rows.wikilinks);
    let labels = insertions_of(INSERT_LABEL@, file_id, rows.labels);
    let all = replacement_of(file_id, rows);
    assert(all == clearing + metadata + wikilinks + labels);
    assert forall|i: int| 0 <= i < all.len() implies {
        &&& (#[trigger] all[i]).params.len() >= 1
        &&& all[i].params[0] == ValueModel::Integer(file_id)
    } by {
        if i < clearing.len() {
            assert(all[i] == clearing[i]);
        } else if i < clearing.len() + metadata.len() {
            assert(all[i] == metadata[i - clearing.len()]);
        } else if i < clearing.len() + metadata.len() + wikilinks.len() {
            assert(all[i] == wikilinks[i - clearing.len() - metadata.len()]);
        } else {
            assert(all[i] == labels[i - clearing.len() - metadata.len() - wikilinks.len()]);
        }
    }
}

/// What was stored for a file is read back as it was, where the store
/// answers with the rows that were written for the file, in the order in
/// which they were written: the front matter, the wikilinks and the labels
/// are those of the file.
pub proof fn stored_rows_are_read_back(file: ParsedFile)
    requires
        storable_file(file@),
        file@.metadata.well_formed(),
    ensures
        file_of_rows(
            file@.path,
            rows_of_file(file@).metadata,
            rows_of_file(file@).wikilinks,
            rows_of_file(file@).labels,
        ) == Some(file@),
{
    let m = file@.metadata;
    let rows = rows_of_metadata(m);
    let mt = metadata_table(m);
    assert forall|i: int| 0 <= i < mt.len() implies (#[trigger] texts_of_row(mt[i], 2)) == Some(
        seq![rows[i].0, rows[i].1],
    ) by {
        let row = mt[i];
        assert(text_column(row, 0) == Some(rows[i].0));
        assert(text_column(row, 1) == Some(rows[i].1));
        assert(texts_of_row(row, 2)->0 =~= seq![rows[i].0, rows[i].1]);
    }
    assert(pairs_of_table(mt)->0 =~= rows);
    metadata_is_read_back(m);
    let wt = wikilink_table(file@.wikilinks);
    assert forall|i: int| 0 <= i < wt.len() implies (#[trigger] wikilink_of_row(wt[i])) == Some(
        file@.wikilinks[i],
    ) by {
        assert(file@.wikilinks[i] == file.wikilinks[i]@);
        assert(wikilink_columns(file@.wikilinks[i]) is Some);
        wikilink_is_read_back(file.wikilinks[i]);
    }
    assert(wikilinks_of_table(wt)->0 =~= file@.wikilinks);
    let lt = label_table(file@.labels);
    assert forall|i: int| 0 <= i < lt.len() implies (#[trigger] label_of_row(lt[i])) == Some(
        file@.labels[i],
    ) by {
        assert(file@.labels[i] == file.labels[i]@);
        assert(label_columns(file@.labels[i]) is Some);
        label_is_read_back(file.labels[i]);
    }
    assert(labels_of_table(lt)->0 =~= file@.labels);
}

/// A file that `Index::store_file` accepts is answered as it was stored,
/// where the store finds the row of the file, under whatever id, and
/// answers with the rows that were written for the file, in the order in
/// which they were written.
pub proof fn stored_file_is_answered(file: ParsedFile, file_id: i64)
    requires
        storable_file(file@),
        file@.metadata.well_formed(),
    ensures
        file_answer_of(
            file@.path,
            seq![seq![ValueModel::Integer(file_id)]],
            rows_of_file(file@).metadata,
            rows_of_file(file@).wikilinks,
            rows_of_file(file@).labels,
        ) == Ok::<Option<ParsedFileModel>, ()>(Some(file@)),
{
    stored_rows_are_read_back(file);
}

} // verus!
