use crate::parser::models::{distinct_keys, reserved_key, valid_fields, Metadata, MetadataModel};
use vstd::prelude::*;

verus! {

/// `serde_json::Error`, why a text is no JSON; it is only handed on.
#[verifier::external_type_specification]
#[verifier::external_body]
pub struct ExJsonError(serde_json::Error);

/// One member of a JSON object, as far as the front matter is read from it:
/// its key; its value where that is a string; the items of its value where
/// that is an array, each item that is a string as `Some`; and the value
/// written as JSON text.
#[derive(Debug, Clone, PartialEq)]
pub struct JsonEntry {
    pub key: String,
    pub text: Option<String>,
    pub items: Option<Vec<Option<String>>>,
    pub json: String,
}

/// What a `JsonEntry` holds, as mathematical values.
pub struct JsonEntryModel {
    pub key: Seq<char>,
    pub text: Option<Seq<char>>,
    pub items: Option<Seq<Option<Seq<char>>>>,
    pub json: Seq<char>,
}

impl DeepView for JsonEntry {
    type V = JsonEntryModel;

    open spec fn deep_view(&self) -> JsonEntryModel {
        JsonEntryModel {
            key: self.key@,
            text: self.text.deep_view(),
            items: self.items.deep_view(),
            json: self.json@,
        }
    }
}

impl View for JsonEntry {
    type V = JsonEntryModel;

    open spec fn view(&self) -> JsonEntryModel {
        self.deep_view()
    }
}

/// What `serde_json::from_str` reads from a text: `None` where the text is
/// no JSON, `Some(None)` where it is JSON but no object, else the members of
/// the object in the order in which `serde_json::Map` hands them out.
pub uninterp spec fn json_members(text: Seq<char>) -> Option<Option<Seq<JsonEntryModel>>>;

/// Calls `serde_json::from_str` for a `serde_json::Value` and hands out the
/// members of the object (`Value::as_object`), each with what `Value::as_str`,
/// `Value::as_array` and `Value::to_string` give for its value. The contract
/// claims that all this depends on the text alone.
#[verifier::external_body]
pub(crate) fn read_json_members(text: &str) -> (r: Result<Option<Vec<JsonEntry>>, serde_json::Error>)
    ensures
        match r {
            Ok(members) => json_members(text@) == Some(members.deep_view()),
            Err(_) => json_members(text@) is None,
        },
{
    let value: serde_json::Value = serde_json::from_str(text)?;
    Ok(value.as_object().map(|object| object.iter().map(|(key, member)| JsonEntry {
        key: key.clone(),
        text: member.as_str().map(String::from),
        items: member.as_array().map(|items| items.iter().map(|item| item.as_str().map(String::from)).collect()),
        json: member.to_string(),
    }).collect()))
}

/// Whether a text is JSON.
pub open spec fn is_json(text: Seq<char>) -> bool {
    json_members(text) is Some
}

/// Tells whether a text is JSON.
pub fn is_json_text(text: &str) -> (yes: bool)
    ensures
        yes == is_json(text@),
{
    read_json_members(text).is_ok()
}

/// Why the front matter of a note could not be read.
#[derive(Debug)]
pub enum MetadataError {
    /// The metadata tool is not installed.
    ToolNotFound,
    /// The metadata tool could not be run, with the reason.
    ToolFailed(String),
    /// What the metadata tool printed is no JSON.
    MalformedJson(serde_json::Error),
}

/// How a run of the metadata tool on a note ended.
#[derive(Debug, Clone, PartialEq)]
pub enum ToolOutcome {
    /// The tool is not installed.
    NotFound,
    /// The tool could not be run, with the reason.
    NotRun(String),
    /// The tool ran and ended without success.
    Declined,
    /// The tool ran with success and printed this text.
    Printed(String),
}


/// The items that are strings, in order.
pub open spec fn text_items(items: Seq<Option<Seq<char>>>) -> Seq<Seq<char>>
    decreases items.len(),
{
    if items.len() == 0 {
        seq![]
    } else {
        match items.last() {
            Some(text) => text_items(items.drop_last()).push(text),
            None => text_items(items.drop_last()),
        }
    }
}

/// Where `key` stands among the custom fields: the index of its first entry,
/// or the number of fields where it has none.
pub open spec fn key_index(fields: Seq<(Seq<char>, Seq<char>)>, key: Seq<char>) -> int
    decreases fields.len(),
{
    if fields.len() == 0 {
        0
    } else {
        let before = key_index(fields.drop_last(), key);
        if before < fields.len() - 1 {
            before
        } else if fields.last().0 == key {
            fields.len() - 1
        } else {
            fields.len() as int
        }
    }
}

/// The custom fields after `key` was given `value`: the value takes the
/// place of the one that the key had, or the field is added at the end.
pub open spec fn with_field(
    fields: Seq<(Seq<char>, Seq<char>)>,
    key: Seq<char>,
    value: Seq<char>,
) -> Seq<(Seq<char>, Seq<char>)> {
    let i = key_index(fields, key);
    if 0 <= i < fields.len() {
        fields.update(i, (key, value))
    } else {
        fields.push((key, value))
    }
}

/// The front matter after one more member of the JSON object was read:
/// `title` sets the title where its value is a string and clears it where not;
/// `tags` and `alias` take the strings of an array and leave the list as it
/// was for any other value; every other key becomes a custom field, with
/// the JSON text of its value (a member whose text is no JSON is passed
/// over).
pub open spec fn with_member(m: MetadataModel, e: JsonEntryModel) -> MetadataModel {
    if e.key == "title"@ {
        MetadataModel { title: e.text, ..m }
    } else if e.key == "tags"@ {
        match e.items {
            Some(items) => MetadataModel { tags: text_items(items), ..m },
            None => m,
        }
    } else if e.key == "alias"@ {
        match e.items {
            Some(items) => MetadataModel { alias: text_items(items), ..m },
            None => m,
        }
    } else if is_json(e.json) {
        MetadataModel { custom: with_field(m.custom, e.key, e.json), ..m }
    } else {
        m
    }
}

/// The front matter that the members of a JSON object stand for.
pub open spec fn metadata_of_members(members: Seq<JsonEntryModel>) -> MetadataModel
    decreases members.len(),
{
    if members.len() == 0 {
        MetadataModel::empty()
    } else {
        with_member(metadata_of_members(members.drop_last()), members.last())
    }
}

/// The front matter that a text of JSON stands for, where it is JSON.
pub open spec fn metadata_of_json(text: Seq<char>) -> Option<MetadataModel> {
    match json_members(text) {
        None => None,
        Some(None) => Some(MetadataModel::empty()),
        Some(Some(members)) => Some(metadata_of_members(members)),
    }
}

/// `key_index` gives the first place at which the key stands.
pub proof fn key_index_is_first(fields: Seq<(Seq<char>, Seq<char>)>, key: Seq<char>)
    ensures
        0 <= key_index(fields, key) <= fields.len(),
        key_index(fields, key) < fields.len() ==> fields[key_index(fields, key)].0 == key,
        forall|j: int| 0 <= j < key_index(fields, key) ==> (#[trigger] fields[j]).0 != key,
    decreases fields.len(),
{
    if fields.len() > 0 {
        key_index_is_first(fields.drop_last(), key);
        assert(forall|j: int| 0 <= j < fields.len() - 1 ==> fields.drop_last()[j] == fields[j]);
    }
}

/// Giving a field a value keeps the keys distinct.
pub proof fn with_field_keeps_keys_distinct(
    fields: Seq<(Seq<char>, Seq<char>)>,
    key: Seq<char>,
    value: Seq<char>,
)
    requires
        distinct_keys(fields),
    ensures
        distinct_keys(with_field(fields, key, value)),
{
    key_index_is_first(fields, key);
    let i = key_index(fields, key);
    let after = with_field(fields, key, value);
    assert forall|a: int, b: int| 0 <= a < b < after.len() implies (#[trigger] after[a]).0 != (
    #[trigger] after[b]).0 by {
        if i < fields.len() {
            assert(after[a].0 == fields[a].0);
            assert(after[b].0 == fields[b].0);
        } else {
            if b < fields.len() {
                assert(after[a] == fields[a]);
                assert(after[b] == fields[b]);
            } else {
                assert(after[a] == fields[a]);
            }
        }
    }
}

/// Giving a field with a key that is not reserved a value that is JSON
/// keeps the fields valid.
pub proof fn with_field_keeps_fields_valid(
    fields: Seq<(Seq<char>, Seq<char>)>,
    key: Seq<char>,
    value: Seq<char>,
)
    requires
        valid_fields(fields),
        !reserved_key(key),
        is_json(value),
    ensures
        valid_fields(with_field(fields, key, value)),
{
    with_field_keeps_keys_distinct(fields, key, value);
    key_index_is_first(fields, key);
    let i = key_index(fields, key);
    let after = with_field(fields, key, value);
    assert forall|k: int| 0 <= k < after.len() implies !reserved_key((#[trigger] after[k]).0) && is_json(
        after[k].1,
    ) by {
        if k != i {
            assert(after[k] == fields[k]);
        }
    }
}

/// The front matter that is read from the members of a JSON object is well
/// formed.
pub proof fn members_give_valid_fields(members: Seq<JsonEntryModel>)
    ensures
        metadata_of_members(members).well_formed(),
    decreases members.len(),
{
    if members.len() > 0 {
        members_give_valid_fields(members.drop_last());
        let before = metadata_of_members(members.drop_last());
        let last = members.last();
        if !reserved_key(last.key) && is_json(last.json) {
            with_field_keeps_fields_valid(before.custom, last.key, last.json);
        }
    }
}

/// Whether two texts are the same.
pub fn same_text(a: &str, b: &str) -> (same: bool)
    ensures
        same == (a@ == b@),
{
    let left = a.to_owned();
    let right = b.to_owned();
    left == right
}

/// The strings among the items of an array.
pub fn collect_text_items(items: &Vec<Option<String>>) -> (out: Vec<String>)
    ensures
        out.deep_view() == text_items(items.deep_view()),
{
    let mut out: Vec<String> = Vec::new();
    let mut i: usize = 0;
    assert(out.deep_view() =~= text_items(items.deep_view().take(0)));
    while i < items.len()
        invariant
            i <= items.len(),
            out.deep_view() == text_items(items.deep_view().take(i as int)),
        decreases items.len() - i,
    {
        let ghost next = items.deep_view().take(i as int + 1);
        assert(next.drop_last() == items.deep_view().take(i as int));
        assert(next.last() == items[i as int].deep_view());
        match &items[i] {
            Some(text) => {
                let ghost old_out = out.deep_view();
                let copy = text.clone();
                out.push(copy);
                assert(out.deep_view() =~= old_out.push(text@));
            },
            None => {},
        }
        i += 1;
    }
    assert(items.deep_view().take(items.len() as int) == items.deep_view());
    out
}

/// Gives the custom field `key` the value `value`.
pub fn set_field(fields: &mut Vec<(String, String)>, key: String, value: String)
    ensures
        final(fields).deep_view() == with_field(old(fields).deep_view(), key@, value@),
        distinct_keys(old(fields).deep_view()) ==> distinct_keys(final(fields).deep_view()),
        valid_fields(old(fields).deep_view()) && !reserved_key(key@) && is_json(value@) ==> valid_fields(
            final(fields).deep_view(),
        ),
{
    proof {
        if distinct_keys(fields.deep_view()) {
            with_field_keeps_keys_distinct(fields.deep_view(), key@, value@);
        }
        if valid_fields(fields.deep_view()) && !reserved_key(key@) && is_json(value@) {
            with_field_keeps_fields_valid(fields.deep_view(), key@, value@);
        }
    }
    let mut at: usize = 0;
    let mut i: usize = 0;
    while i < fields.len()
        invariant
            i <= fields.len(),
            at <= i,
            at as int == key_index(fields.deep_view().take(i as int), key@),
            *fields == *old(fields),
        decreases fields.len() - i,
    {
        let ghost next = fields.deep_view().take(i as int + 1);
        assert(next.drop_last() == fields.deep_view().take(i as int));
        assert(next.last() == fields[i as int].deep_view());
        if at == i && !same_text(fields[i].0.as_str(), key.as_str()) {
            at = i + 1;
        }
        i += 1;
    }
    assert(fields.deep_view().take(fields.len() as int) == fields.deep_view());
    let ghost before = fields.deep_view();
    if at < fields.len() {
        fields[at] = (key, value);
        assert(fields.deep_view() =~= before.update(at as int, (key@, value@)));
    } else {
        fields.push((key, value));
        assert(fields.deep_view() =~= before.push((key@, value@)));
    }
}

/// Reads the front matter from the members of a JSON object.
pub fn metadata_from_members(members: &Vec<JsonEntry>) -> (m: Metadata)
    ensures
        m@ == metadata_of_members(members.deep_view()),
        m@.well_formed(),
{
    proof {
        members_give_valid_fields(members.deep_view());
    }
    let mut m = Metadata::default();
    let mut i: usize = 0;
    assert(members.deep_view().take(0) =~= seq![]);
    while i < members.len()
        invariant
            i <= members.len(),
            m@ == metadata_of_members(members.deep_view().take(i as int)),
        decreases members.len() - i,
    {
        let ghost next = members.deep_view().take(i as int + 1);
        assert(next.drop_last() == members.deep_view().take(i as int));
        assert(next.last() == members[i as int]@);
        let member = &members[i];
        if same_text(member.key.as_str(), "title") {
            m.title = match &member.text {
                Some(text) => Some(text.clone()),
                None => None,
            };
        } else if same_text(member.key.as_str(), "tags") {
            match &member.items {
                Some(items) => {
                    m.tags = collect_text_items(items);
                },
                None => {},
            }
        } else if same_text(member.key.as_str(), "alias") {
            match &member.items {
                Some(items) => {
                    m.alias = collect_text_items(items);
                },
                None => {},
            }
        } else if is_json_text(member.json.as_str()) {
            set_field(&mut m.custom, member.key.clone(), member.json.clone());
        }
        i += 1;
    }
    assert(members.deep_view().take(members.len() as int) == members.deep_view());
    m
}

/// Tells whether a key is one of those that hold the title, the tags or the
/// aliases.
pub fn is_reserved_key(key: &str) -> (yes: bool)
    ensures
        yes == reserved_key(key@),
{
    same_text(key, "title") || same_text(key, "tags") || same_text(key, "alias")
}

/// Tells whether custom fields are valid.
pub fn is_valid_fields(fields: &Vec<(String, String)>) -> (yes: bool)
    ensures
        yes == valid_fields(fields.deep_view()),
{
    let ghost all = fields.deep_view();
    let mut i: usize = 0;
    while i < fields.len()
        invariant
            i <= fields.len(),
            all == fields.deep_view(),
            forall|a: int, b: int| 0 <= a < b < i ==> (#[trigger] all[a]).0 != (#[trigger] all[b]).0,
            forall|k: int| 0 <= k < i ==> !reserved_key((#[trigger] all[k]).0),
            forall|k: int| 0 <= k < i ==> is_json((#[trigger] all[k]).1),
        decreases fields.len() - i,
    {
        assert(all[i as int] == fields[i as int].deep_view());
        if is_reserved_key(fields[i].0.as_str()) || !is_json_text(fields[i].1.as_str()) {
            return false;
        }
        let mut j: usize = 0;
        while j < i
            invariant
                j <= i,
                i < fields.len(),
                all == fields.deep_view(),
                forall|a: int| 0 <= a < j ==> (#[trigger] all[a]).0 != all[i as int].0,
            decreases i - j,
        {
            assert(all[j as int] == fields[j as int].deep_view());
            assert(all[i as int] == fields[i as int].deep_view());
            if same_text(fields[j].0.as_str(), fields[i].0.as_str()) {
                return false;
            }
            j += 1;
        }
        i += 1;
    }
    true
}

impl Metadata {
    /// Tells whether the front matter is well formed.
    pub fn is_well_formed(&self) -> (yes: bool)
        ensures
            yes == self@.well_formed(),
    {
        is_valid_fields(&self.custom)
    }
}

/// Reads the front matter of a note from the JSON text that the metadata
/// tool printed. A text that is no JSON is an error; JSON that is no object
/// gives empty front matter.
pub fn parse_metadata_json(json_str: &str) -> (r: Result<Metadata, MetadataError>)
    ensures
        match r {
            Ok(m) => metadata_of_json(json_str@) == Some(m@) && m@.well_formed(),
            Err(e) => metadata_of_json(json_str@) is None && e is MalformedJson,
        },
{
    match read_json_members(json_str) {
        Ok(Some(members)) => Ok(metadata_from_members(&members)),
        Ok(None) => Ok(Metadata::default()),
        Err(e) => Err(MetadataError::MalformedJson(e)),
    }
}

/// The front matter of a note, from how the run of the metadata tool on it
/// ended. A tool that is missing or cannot be run is an error, each of its
/// own kind; a tool that ended without success stands for a note without
/// front matter; what a successful run printed is read as JSON.
pub fn metadata_from_tool(outcome: ToolOutcome) -> (r: Result<Metadata, MetadataError>)
    ensures
        match outcome {
            ToolOutcome::NotFound => r matches Err(MetadataError::ToolNotFound),
            ToolOutcome::NotRun(reason) => r matches Err(MetadataError::ToolFailed(why)) && why@
                == reason@,
            ToolOutcome::Declined => r matches Ok(m) && m@ == MetadataModel::empty(),
            ToolOutcome::Printed(text) => match r {
                Ok(m) => metadata_of_json(text@) == Some(m@) && m@.well_formed(),
                Err(e) => metadata_of_json(text@) is None && e is MalformedJson,
            },
        },
{
    match outcome {
        ToolOutcome::NotFound => Err(MetadataError::ToolNotFound),
        ToolOutcome::NotRun(reason) => Err(MetadataError::ToolFailed(reason)),
        ToolOutcome::Declined => Ok(Metadata::default()),
        ToolOutcome::Printed(text) => parse_metadata_json(text.as_str()),
    }
}

impl MetadataError {
    /// The error in words.
    pub fn message(&self) -> (text: String)
        ensures
            self is ToolNotFound ==> text@ == "typst command not found"@,
            self matches MetadataError::ToolFailed(reason) ==> text@ == "failed to execute typst query: "@
                + reason@,
            self is MalformedJson ==> text@ == "metadata is not valid JSON"@,
    {
        match self {
            MetadataError::ToolNotFound => "typst command not found".to_owned(),
            MetadataError::ToolFailed(reason) => {
                let mut text = "failed to execute typst query: ".to_owned();
                text.append(reason.as_str());
                text
            },
            MetadataError::MalformedJson(_) => "metadata is not valid JSON".to_owned(),
        }
    }
}

} // verus!
