//! The dataset interpreter: the text that the content store delivered, read
//! as a list of ownership records.
//!
//! A dataset is a JSON array of objects. Each object has the text members
//! `owner`, `cid` and `data_key`. A text member `version` is kept; a member
//! `version` that is no text is passed over, as every other member is. The
//! first record that does not fit is reported.

use crate::data::{record_views, DataStructFork, RecordView};
use crate::errors::{ErrorKind, Fault, PipelineError};
use crate::json::{
    json_reading, json_result_view, json_text_member, lemma_array_view, parse_json, Json,
    JsonView,
};
use crate::seek::{first_index, lemma_first_index_found, lemma_first_index_none};
use crate::text::{decimal, decimal_string};
use vstd::prelude::*;

verus! {

/// Why an item of a dataset is no ownership record.
#[derive(Debug, Clone, Copy, PartialEq, Eq)]
pub enum RecordProblem {
    /// The item is no object.
    NotAnObject,
    /// The object has no text member `owner`.
    Owner,
    /// The object has no text member `cid`.
    Cid,
    /// The object has no text member `data_key`.
    DataKey,
}

/// The record that an item of a dataset stands for, or the first thing that
/// is wrong with it.
pub open spec fn record_of(item: JsonView) -> Result<RecordView, RecordProblem> {
    if !(item is Object) {
        Err(RecordProblem::NotAnObject)
    } else if json_text_member(item, "owner"@) is None {
        Err(RecordProblem::Owner)
    } else if json_text_member(item, "cid"@) is None {
        Err(RecordProblem::Cid)
    } else if json_text_member(item, "data_key"@) is None {
        Err(RecordProblem::DataKey)
    } else {
        Ok(
            RecordView {
                owner: json_text_member(item, "owner"@)->Some_0,
                cid: json_text_member(item, "cid"@)->Some_0,
                data_key: json_text_member(item, "data_key"@)->Some_0,
                version: match json_text_member(item, "version"@) {
                    Some(v) => v,
                    None => Seq::empty(),
                },
            },
        )
    }
}

/// The views of a `Result` of a record.
pub open spec fn record_result_view(res: Result<DataStructFork, RecordProblem>) -> Result<
    RecordView,
    RecordProblem,
> {
    match res {
        Ok(record) => Ok(record@),
        Err(problem) => Err(problem),
    }
}

/// Reads one item of a dataset as an ownership record.
pub fn read_record(item: &Json) -> (res: Result<DataStructFork, RecordProblem>)
    ensures
        record_result_view(res) == record_of(item@),
{
    match item {
        Json::Object(_) => {},
        _ => {
            return Err(RecordProblem::NotAnObject);
        },
    }
    let owner: String = match item.text_member(&String::from_str("owner")) {
        Some(text) => text,
        None => {
            return Err(RecordProblem::Owner);
        },
    };
    let cid: String = match item.text_member(&String::from_str("cid")) {
        Some(text) => text,
        None => {
            return Err(RecordProblem::Cid);
        },
    };
    let data_key: String = match item.text_member(&String::from_str("data_key")) {
        Some(text) => text,
        None => {
            return Err(RecordProblem::DataKey);
        },
    };
    let version: String = match item.text_member(&String::from_str("version")) {
        Some(text) => text,
        None => String::new(),
    };
    Ok(DataStructFork { owner, cid, data_key, version })
}

/// The words that say what is wrong with a record.
pub open spec fn problem_words(problem: RecordProblem) -> Seq<char> {
    match problem {
        RecordProblem::NotAnObject => "expected an object"@,
        RecordProblem::Owner => "no text member `owner`"@,
        RecordProblem::Cid => "no text member `cid`"@,
        RecordProblem::DataKey => "no text member `data_key`"@,
    }
}

/// The cause that is reported for the record at `index`.
pub open spec fn record_cause(index: nat, problem: RecordProblem) -> Seq<char> {
    "record "@ + decimal(index) + ": "@ + problem_words(problem)
}

/// The cause that is reported for a document that is no array.
pub open spec fn list_cause() -> Seq<char> {
    "expected a list of records"@
}

/// The property of an item to be no ownership record.
pub open spec fn is_no_record() -> spec_fn(JsonView) -> bool {
    |item: JsonView| record_of(item) is Err
}

/// The records that a document stands for. A document that is no array is
/// refused, and so is an array with an item that is no record: the first such
/// item is reported.
pub open spec fn dataset_records(tree: JsonView) -> Result<Seq<RecordView>, Fault> {
    match tree {
        JsonView::Array(items) => match first_index(items, is_no_record()) {
            Some(i) => Err(
                Fault {
                    kind: ErrorKind::Structure,
                    cause: record_cause(i as nat, record_of(items[i])->Err_0),
                },
            ),
            None => Ok(items.map_values(|item: JsonView| record_of(item)->Ok_0)),
        },
        _ => Err(Fault { kind: ErrorKind::Structure, cause: list_cause() }),
    }
}

/// The records that a parsed text stands for: a text that is no JSON is
/// refused with the parser's message.
pub open spec fn dataset_of(parsed: Result<JsonView, Seq<char>>) -> Result<Seq<RecordView>, Fault> {
    match parsed {
        Ok(tree) => dataset_records(tree),
        Err(message) => Err(Fault { kind: ErrorKind::Structure, cause: message }),
    }
}

/// The views of a `Result` of a list of records.
pub open spec fn records_result_view(res: Result<Vec<DataStructFork>, PipelineError>) -> Result<
    Seq<RecordView>,
    Fault,
> {
    match res {
        Ok(records) => Ok(record_views(records@)),
        Err(e) => Err(e@),
    }
}

fn record_cause_text(index: usize, problem: RecordProblem) -> (res: String)
    ensures
        res@ == record_cause(index as nat, problem),
{
    let words: &'static str = match problem {
        RecordProblem::NotAnObject => "expected an object",
        RecordProblem::Owner => "no text member `owner`",
        RecordProblem::Cid => "no text member `cid`",
        RecordProblem::DataKey => "no text member `data_key`",
    };
    let place: String = decimal_string(index as u64);
    String::from_str("record ").concat(place.as_str()).concat(": ").concat(words)
}

/// Reads a document as a list of ownership records.
pub fn read_records(tree: &Json) -> (res: Result<Vec<DataStructFork>, PipelineError>)
    ensures
        records_result_view(res) == dataset_records(tree@),
{
    match tree {
        Json::Array(items) => {
            let ghost views = tree@->Array_0;
            proof {
                lemma_array_view(*items);
            }
            let mut records: Vec<DataStructFork> = Vec::new();
            let mut i: usize = 0;
            while i < items.len()
                invariant
                    i <= items.len(),
                    tree@ == JsonView::Array(views),
                    views.len() == items.len(),
                    forall|j: int| 0 <= j < items.len() ==> #[trigger] views[j] == items[j]@,
                    forall|j: int| 0 <= j < i ==> !is_no_record()(#[trigger] views[j]),
                    records.len() == i,
                    forall|j: int|
                        0 <= j < i ==> (#[trigger] records[j])@ == record_of(views[j])->Ok_0,
                decreases items.len() - i,
            {
                match read_record(&items[i]) {
                    Ok(record) => {
                        records.push(record);
                    },
                    Err(problem) => {
                        proof {
                            lemma_first_index_found(views, is_no_record(), i as int);
                        }
                        return Err(
                            PipelineError::new(
                                ErrorKind::Structure,
                                record_cause_text(i, problem),
                            ),
                        );
                    },
                }
                i += 1;
            }
            proof {
                lemma_first_index_none(views, is_no_record());
                assert(record_views(records@) =~= views.map_values(
                    |item: JsonView| record_of(item)->Ok_0,
                ));
            }
            Ok(records)
        },
        _ => Err(
            PipelineError::new(ErrorKind::Structure, String::from_str("expected a list of records")),
        ),
    }
}

/// Makes a list of ownership records of what the parser returned.
pub fn records_from(parsed: Result<Json, String>) -> (res: Result<
    Vec<DataStructFork>,
    PipelineError,
>)
    ensures
        records_result_view(res) == dataset_of(json_result_view(parsed)),
{
    match parsed {
        Ok(tree) => read_records(&tree),
        Err(message) => Err(PipelineError::new(ErrorKind::Structure, message)),
    }
}

/// Reads the text of a dataset as a list of ownership records.
pub fn interpret_dataset(text: &str) -> (res: Result<Vec<DataStructFork>, PipelineError>)
    ensures
        records_result_view(res) == dataset_of(json_reading(text@)),
{
    records_from(parse_json(text))
}

} // verus!
