use vstd::prelude::*;

verus! {

/// What one field of a stored record holds, as far as a task is read from it.
/// Of a number only its value as an unsigned 64-bit integer is kept, where it
/// is one; of a list or a nested record only that it is one.
#[derive(Clone, Debug, PartialEq, Eq)]
pub enum Field {
    Null,
    Bool(bool),
    Number(Option<u64>),
    Text(String),
    List,
    Record,
}

/// A field as mathematics sees it.
pub enum FieldView {
    Null,
    Bool(bool),
    Number(Option<u64>),
    Text(Seq<char>),
    List,
    Record,
}

impl View for Field {
    type V = FieldView;

    open spec fn view(&self) -> FieldView {
        match self {
            Field::Null => FieldView::Null,
            Field::Bool(flag) => FieldView::Bool(*flag),
            Field::Number(value) => FieldView::Number(*value),
            Field::Text(text) => FieldView::Text(text@),
            Field::List => FieldView::List,
            Field::Record => FieldView::Record,
        }
    }
}

impl DeepView for Field {
    type V = FieldView;

    open spec fn deep_view(&self) -> FieldView {
        self@
    }
}

/// A stored record as mathematics sees it: its fields, each under its key.
pub type RecordView = Seq<(Seq<char>, FieldView)>;

/// A stored record: its fields, each under its key.
pub type Record = Vec<(String, Field)>;

/// The records that serde_json reads from a text that is a JSON list of JSON
/// objects, each given by its fields as serde_json's map hands them out;
/// `None` for every other text.
pub uninterp spec fn json_records(text: Seq<char>) -> Option<Seq<RecordView>>;

/// The JSON string literal that serde_json writes for a text, quotes
/// included, where it writes one.
pub uninterp spec fn json_quoted(text: Seq<char>) -> Option<Seq<char>>;

/// `serde_json::from_str` into a list of `serde_json::Map`, each map then
/// handed out field by field, and each `serde_json::Value` as the `Field` of
/// its variant (a number by `Number::as_u64`); a text that serde_json refuses
/// gives `None`. The result is named, not stated: what is a JSON text is
/// serde_json's to say.
#[verifier::external_body]
pub(crate) fn parse_records(text: &str) -> (parsed: Option<Vec<Record>>)
    ensures
        parsed.deep_view() == json_records(text@),
{
    let maps = serde_json::from_str::<Vec<serde_json::Map<String, serde_json::Value>>>(text).ok()?;
    Some(maps.into_iter().map(|map| map.into_iter().map(|(key, value)| (key, match value {
        serde_json::Value::Null => Field::Null,
        serde_json::Value::Bool(flag) => Field::Bool(flag),
        serde_json::Value::Number(number) => Field::Number(number.as_u64()),
        serde_json::Value::String(text) => Field::Text(text),
        serde_json::Value::Array(_) => Field::List,
        serde_json::Value::Object(_) => Field::Record,
    })).collect()).collect())
}

/// `serde_json::to_string` on a `str`; where serde_json fails, `None`. The
/// result is named, not stated: how a text is escaped is serde_json's to say.
#[verifier::external_body]
pub(crate) fn quote(text: &str) -> (quoted: Option<String>)
    ensures
        quoted.deep_view() == json_quoted(text@),
{
    serde_json::to_string(text).ok()
}

/// The field that a record holds under a key: the last one, should the key
/// occur more than once.
pub open spec fn field_of(record: RecordView, key: Seq<char>) -> Option<FieldView>
    decreases record.len(),
{
    if record.len() == 0 {
        None
    } else if record.last().0 == key {
        Some(record.last().1)
    } else {
        field_of(record.drop_last(), key)
    }
}

/// Looks a key up in a record.
pub fn find_field<'a>(record: &'a Record, key: &str) -> (found: Option<&'a Field>)
    ensures
        found.deep_view() == field_of(record.deep_view(), key@),
{
    let wanted = key.to_owned();
    let mut found: Option<&'a Field> = None;
    let mut at: usize = 0;
    while at < record.len()
        invariant
            at <= record.len(),
            wanted@ == key@,
            found.deep_view() == field_of(record.deep_view().take(at as int), key@),
        decreases record.len() - at,
    {
        proof {
            let fields = record.deep_view();
            assert(fields.take(at + 1).drop_last() =~= fields.take(at as int));
        }
        if record[at].0 == wanted {
            found = Some(&record[at].1);
        }
        at += 1;
    }
    proof {
        assert(record.deep_view().take(at as int) =~= record.deep_view());
    }
    found
}

} // verus!
