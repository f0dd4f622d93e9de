//! JSON documents as trees, read by `serde_json`.

use crate::seek::{first_index, lemma_first_index_found, lemma_first_index_none};
use vstd::prelude::*;

verus! {

/// A JSON document.
#[derive(Debug, PartialEq, Eq)]
pub enum Json {
    Null,
    Bool(bool),
    /// A number: its value if it is an integer that fits `i64`, else nothing.
    Number(Option<i64>),
    Text(String),
    Array(Vec<Json>),
    /// An object: its members, in order.
    Object(Vec<Member>),
}

/// A member of a JSON object.
#[derive(Debug, PartialEq, Eq)]
pub struct Member {
    pub name: String,
    pub value: Json,
}

/// A JSON document as a mathematical value.
pub enum JsonView {
    Null,
    Bool(bool),
    Number(Option<i64>),
    Text(Seq<char>),
    Array(Seq<JsonView>),
    Object(Seq<MemberView>),
}

/// A member of an object as a mathematical value.
pub struct MemberView {
    pub name: Seq<char>,
    pub value: JsonView,
}

/// The document that a tree stands for.
pub open spec fn json_view(tree: Json) -> JsonView
    decreases tree, 0nat,
{
    match tree {
        Json::Null => JsonView::Null,
        Json::Bool(b) => JsonView::Bool(b),
        Json::Number(n) => JsonView::Number(n),
        Json::Text(s) => JsonView::Text(s@),
        Json::Array(items) => JsonView::Array(item_views(items, items.len() as nat)),
        Json::Object(members) => JsonView::Object(member_views(members, members.len() as nat)),
    }
}

/// The documents that the first `upto` items of an array stand for.
pub open spec fn item_views(items: Vec<Json>, upto: nat) -> Seq<JsonView>
    decreases items, upto,
{
    if upto == 0 || upto > items.len() {
        Seq::empty()
    } else {
        item_views(items, (upto - 1) as nat).push(json_view(items[upto - 1]))
    }
}

/// The members that the first `upto` members of an object stand for.
pub open spec fn member_views(members: Vec<Member>, upto: nat) -> Seq<MemberView>
    decreases members, upto,
{
    if upto == 0 || upto > members.len() {
        Seq::empty()
    } else {
        member_views(members, (upto - 1) as nat).push(
            MemberView {
                name: members[upto - 1].name@,
                value: json_view(members[upto - 1].value),
            },
        )
    }
}

impl View for Json {
    type V = JsonView;

    open spec fn view(&self) -> JsonView {
        json_view(*self)
    }
}

impl View for Member {
    type V = MemberView;

    open spec fn view(&self) -> MemberView {
        MemberView { name: self.name@, value: self.value@ }
    }
}

proof fn lemma_item_views(items: Vec<Json>, upto: nat)
    requires
        upto <= items.len(),
    ensures
        item_views(items, upto).len() == upto,
        forall|j: int| 0 <= j < upto ==> #[trigger] item_views(items, upto)[j] == items[j]@,
    decreases upto,
{
    if upto > 0 {
        lemma_item_views(items, (upto - 1) as nat);
    }
}

proof fn lemma_member_views(members: Vec<Member>, upto: nat)
    requires
        upto <= members.len(),
    ensures
        member_views(members, upto).len() == upto,
        forall|j: int| 0 <= j < upto ==> #[trigger] member_views(members, upto)[j] == members[j]@,
    decreases upto,
{
    if upto > 0 {
        lemma_member_views(members, (upto - 1) as nat);
    }
}

/// The view of an array holds the views of its items, in order.
pub proof fn lemma_array_view(items: Vec<Json>)
    ensures
        Json::Array(items)@ is Array,
        Json::Array(items)@->Array_0.len() == items.len(),
        forall|j: int|
            0 <= j < items.len() ==> #[trigger] Json::Array(items)@->Array_0[j] == items[j]@,
{
    lemma_item_views(items, items.len() as nat);
}

/// The view of an object holds the views of its members, in order.
pub proof fn lemma_object_view(members: Vec<Member>)
    ensures
        Json::Object(members)@ is Object,
        Json::Object(members)@->Object_0.len() == members.len(),
        forall|j: int|
            0 <= j < members.len() ==> #[trigger] Json::Object(members)@->Object_0[j]
                == members[j]@,
{
    lemma_member_views(members, members.len() as nat);
}

/// The property of a member to bear the name `name`.
pub open spec fn named(name: Seq<char>) -> spec_fn(MemberView) -> bool {
    |m: MemberView| m.name == name
}

/// The value of the first member called `name`.
pub open spec fn member_of(members: Seq<MemberView>, name: Seq<char>) -> Option<JsonView> {
    match first_index(members, named(name)) {
        Some(i) => Some(members[i].value),
        None => None,
    }
}

/// The member `name` of a document: nothing unless the document is an object
/// that has such a member.
pub open spec fn json_member(tree: JsonView, name: Seq<char>) -> Option<JsonView> {
    match tree {
        JsonView::Object(members) => member_of(members, name),
        _ => None,
    }
}

/// The text of the member `name` of a document: nothing unless the document
/// is an object whose member of that name is a text.
pub open spec fn json_text_member(tree: JsonView, name: Seq<char>) -> Option<Seq<char>> {
    match json_member(tree, name) {
        Some(JsonView::Text(t)) => Some(t),
        _ => None,
    }
}

/// The view of a document that may be absent.
pub open spec fn optional_view(found: Option<&Json>) -> Option<JsonView> {
    match found {
        Some(tree) => Some(tree@),
        None => None,
    }
}

impl Json {
    /// Looks up the member `name` of an object.
    pub fn member(&self, name: &String) -> (res: Option<&Json>)
        ensures
            optional_view(res) == json_member(self@, name@),
    {
        match self {
            Json::Object(members) => {
                let ghost views = self@->Object_0;
                proof {
                    lemma_object_view(*members);
                }
                let mut i: usize = 0;
                while i < members.len()
                    invariant
                        i <= members.len(),
                        self@ == JsonView::Object(views),
                        views.len() == members.len(),
                        forall|j: int|
                            0 <= j < members.len() ==> #[trigger] views[j] == members[j]@,
                        forall|j: int| 0 <= j < i ==> !named(name@)(#[trigger] views[j]),
                    decreases members.len() - i,
                {
                    if members[i].name == *name {
                        proof {
                            lemma_first_index_found(views, named(name@), i as int);
                        }
                        return Some(&members[i].value);
                    }
                    i += 1;
                }
                proof {
                    lemma_first_index_none(views, named(name@));
                }
                None
            },
            _ => None,
        }
    }

    /// Looks up the member `name` of an object and reads it as a text.
    pub fn text_member(&self, name: &String) -> (res: Option<String>)
        ensures
            res is Some <==> json_text_member(self@, name@) is Some,
            res matches Some(text) ==> json_text_member(self@, name@) == Some(text@),
    {
        match self.member(name) {
            Some(Json::Text(text)) => Some(text.clone()),
            _ => None,
        }
    }
}

/// `serde_json::Value`: what the parser hands back. Its inside is reached
/// through `open_value` alone.
#[verifier::external_type_specification]
#[verifier::external_body]
pub struct ExValue(serde_json::Value);

/// What `serde_json::from_str` makes of a text that is read as a
/// `serde_json::Value`: the document, or the message of its error.
pub uninterp spec fn json_reading(text: Seq<char>) -> Result<JsonView, Seq<char>>;

/// The document that a `serde_json::Value` holds.
pub uninterp spec fn value_tree(value: serde_json::Value) -> JsonView;

/// The views of a `Result` of a parsed value.
pub open spec fn value_result_view(res: Result<serde_json::Value, String>) -> Result<
    JsonView,
    Seq<char>,
> {
    match res {
        Ok(value) => Ok(value_tree(value)),
        Err(message) => Err(message@),
    }
}

/// The views of a `Result` of a document.
pub open spec fn json_result_view(res: Result<Json, String>) -> Result<JsonView, Seq<char>> {
    match res {
        Ok(tree) => Ok(tree@),
        Err(message) => Err(message@),
    }
}

/// `serde_json::from_str` at the type `serde_json::Value`: the value that the
/// text denotes, or the message of the parser's error. The result is named,
/// not described.
#[verifier::external_body]
fn read_value(text: &str) -> (res: Result<serde_json::Value, String>)
    ensures
        value_result_view(res) == json_reading(text@),
{
    match serde_json::from_str::<serde_json::Value>(text) {
        Ok(value) => Ok(value),
        Err(e) => Err(e.to_string()),
    }
}

/// The outermost level of a `serde_json::Value`: what kind of value it is,
/// with the values inside it left as they are.
enum Layer<'a> {
    Null,
    Bool(bool),
    Number(Option<i64>),
    Text(&'a String),
    Array(&'a Vec<serde_json::Value>),
    Object(Vec<Entry<'a>>),
}

/// A member of an object, its value left as it is.
struct Entry<'a> {
    name: &'a String,
    value: &'a serde_json::Value,
}

/// The document that a level stands for, given the documents that the values
/// inside it hold.
spec fn layer_view(layer: Layer) -> JsonView {
    match layer {
        Layer::Null => JsonView::Null,
        Layer::Bool(b) => JsonView::Bool(b),
        Layer::Number(n) => JsonView::Number(n),
        Layer::Text(s) => JsonView::Text(s@),
        Layer::Array(items) => JsonView::Array(
            Seq::new(items.len() as nat, |i: int| value_tree(items[i])),
        ),
        Layer::Object(entries) => JsonView::Object(
            Seq::new(
                entries.len() as nat,
                |i: int| MemberView { name: entries[i].name@, value: value_tree(*entries[i].value) },
            ),
        ),
    }
}

/// Opens a `serde_json::Value` by one level, variant by variant. Of a number
/// it keeps what `serde_json::Number::as_i64` gives; the members of an object
/// come in the order in which the value's map hands them out. The document
/// that the value holds is made of the documents that its parts hold.
#[verifier::external_body]
fn open_value<'a>(value: &'a serde_json::Value) -> (res: Layer<'a>)
    ensures
        layer_view(res) == value_tree(*value),
{
    match value {
        serde_json::Value::Null => Layer::Null,
        serde_json::Value::Bool(b) => Layer::Bool(*b),
        serde_json::Value::Number(n) => Layer::Number(n.as_i64()),
        serde_json::Value::String(s) => Layer::Text(s),
        serde_json::Value::Array(items) => Layer::Array(items),
        serde_json::Value::Object(members) => Layer::Object(
            members.iter().map(|(name, value)| Entry { name, value }).collect(),
        ),
    }
}

/// Copies a parsed value into a tree, level by level.
fn tree_of(value: &serde_json::Value) -> (res: Json)
    ensures
        res@ == value_tree(*value),
    decreases value_tree(*value),
{
    match open_value(value) {
        Layer::Null => Json::Null,
        Layer::Bool(b) => Json::Bool(b),
        Layer::Number(n) => Json::Number(n),
        Layer::Text(s) => Json::Text(s.clone()),
        Layer::Array(items) => {
            let ghost views = value_tree(*value)->Array_0;
            let mut out: Vec<Json> = Vec::new();
            let mut i: usize = 0;
            while i < items.len()
                invariant
                    i <= items.len(),
                    value_tree(*value) == JsonView::Array(views),
                    views.len() == items.len(),
                    forall|j: int| 0 <= j < items.len() ==> #[trigger] views[j] == value_tree(items[j]),
                    out.len() == i,
                    forall|j: int| 0 <= j < i ==> (#[trigger] out[j])@ == views[j],
                decreases items.len() - i,
            {
                proof {
                    let whole = value_tree(*value);
                    assert(views[i as int] == value_tree(items[i as int]));
                    assert(decreases_to!(whole => whole->Array_0));
                    assert(decreases_to!(whole->Array_0 => whole->Array_0[i as int]));
                }
                out.push(tree_of(&items[i]));
                i += 1;
            }
            proof {
                lemma_array_view(out);
                assert(Json::Array(out)@->Array_0 =~= views);
            }
            Json::Array(out)
        },
        Layer::Object(entries) => {
            let ghost views = value_tree(*value)->Object_0;
            let mut out: Vec<Member> = Vec::new();
            let mut i: usize = 0;
            while i < entries.len()
                invariant
                    i <= entries.len(),
                    value_tree(*value) == JsonView::Object(views),
                    views.len() == entries.len(),
                    forall|j: int|
                        0 <= j < entries.len() ==> #[trigger] views[j] == (MemberView {
                            name: entries[j].name@,
                            value: value_tree(*entries[j].value),
                        }),
                    out.len() == i,
                    forall|j: int| 0 <= j < i ==> (#[trigger] out[j])@ == views[j],
                decreases entries.len() - i,
            {
                proof {
                    let whole = value_tree(*value);
                    assert(views[i as int].value == value_tree(*entries[i as int].value));
                    assert(decreases_to!(whole => whole->Object_0));
                    assert(decreases_to!(whole->Object_0 => whole->Object_0[i as int]));
                    assert(decreases_to!(whole->Object_0[i as int] => whole->Object_0[i as int].value));
                }
                let name: String = entries[i].name.clone();
                let inner: Json = tree_of(entries[i].value);
                out.push(Member { name, value: inner });
                i += 1;
            }
            proof {
                lemma_object_view(out);
                assert(Json::Object(out)@->Object_0 =~= views);
            }
            Json::Object(out)
        },
    }
}

/// The JSON string that `serde_json::to_string` writes for a text: the text
/// between quotes, with the characters escaped that JSON wants escaped.
pub uninterp spec fn json_string(text: Seq<char>) -> Seq<char>;

/// `serde_json::to_string` on a string. The result is named, not described.
/// Writing a string cannot fail: the only errors on this path are those of
/// the writer, and the writer is a byte vector.
#[verifier::external_body]
pub(crate) fn write_json_string(text: &str) -> (res: String)
    ensures
        res@ == json_string(text@),
{
    match serde_json::to_string(text) {
        Ok(written) => written,
        Err(_) => String::new(),
    }
}

/// Reads a text as a JSON document.
pub fn parse_json(text: &str) -> (res: Result<Json, String>)
    ensures
        json_result_view(res) == json_reading(text@),
{
    match read_value(text) {
        Ok(value) => Ok(tree_of(&value)),
        Err(message) => Err(message),
    }
}

} // verus!
