//! The stored document: one JSON array of task objects, each with the
//! fields `text` and `created_at`, written without any space between the
//! tokens. An empty journal is the array `[]`.

use crate::decimal::{decimal_int, decimal_of_i64};
use crate::line::texts;
use crate::tasks::{task_views, Task, TaskView};
use vstd::prelude::*;

verus! {

/// The error type of `serde_json`. Nothing of what it holds is visible here.
#[verifier::external_type_specification]
#[verifier::external_body]
pub struct JsonFailure(serde_json::Error);

/// Whether `error` says that the input ended before a whole document was
/// read: the answer of `serde_json::Error::is_eof`. The error has no view,
/// so the name takes the error itself.
pub uninterp spec fn ended_early(error: serde_json::Error) -> bool;

/// `serde_json::Error::is_eof`: whether decoding failed because the input
/// ended before a whole document was read.
///
/// Trusted: the answer depends on the error alone, and is named
/// `ended_early`. Which errors it holds of is `serde_json`'s to say.
pub assume_specification[ serde_json::Error::is_eof ](error: &serde_json::Error) -> (ended: bool)
    ensures
        ended == ended_early(*error),
;

/// The JSON string that `serde_json` writes for `text`: the text between
/// double quotes, with the characters that JSON does not take as they are
/// written as escapes.
pub uninterp spec fn json_string_literal(text: Seq<char>) -> Seq<char>;

/// Writes `text` as a JSON string, with `serde_json::to_string`.
///
/// Trusted: what comes back is a function of the text alone, named
/// `json_string_literal`, and the call does not fail: it writes a `str` into
/// memory, where `serde_json` reports an error only for a value whose own
/// serialisation fails, for a map whose keys are no strings, and for a
/// writer that fails.
#[verifier::external_body]
pub(crate) fn json_string(text: &str) -> (written: Result<String, serde_json::Error>)
    ensures
        written is Ok,
        written->Ok_0@ == json_string_literal(text@),
{
    serde_json::to_string(text)
}

/// The object of a task whose text is written as `literal`: the field
/// `text` with the literal, then the field `created_at` with the second in
/// decimal.
pub open spec fn framed_object(literal: Seq<char>, created_at: int) -> Seq<char> {
    "{\"text\":"@ + literal + ",\"created_at\":"@ + decimal_int(created_at) + "}"@
}

/// The items in order, with a comma between neighbours.
pub open spec fn joined(items: Seq<Seq<char>>) -> Seq<char>
    decreases items.len(),
{
    if items.len() == 0 {
        Seq::empty()
    } else if items.len() == 1 {
        items[0]
    } else {
        joined(items.drop_last()) + ","@ + items.last()
    }
}

/// The array of the items: the joined items between square brackets.
pub open spec fn framed_array(items: Seq<Seq<char>>) -> Seq<char> {
    "["@ + joined(items) + "]"@
}

/// The object that stands for one task in the document.
pub open spec fn task_object(task: TaskView) -> Seq<char> {
    framed_object(json_string_literal(task.text), task.created_at)
}

/// The objects of the tasks, in the order of the tasks.
pub open spec fn task_objects(tasks: Seq<TaskView>) -> Seq<Seq<char>> {
    tasks.map_values(|task: TaskView| task_object(task))
}

/// The whole document of a journal: the array of its task objects.
pub open spec fn journal_text(tasks: Seq<TaskView>) -> Seq<char> {
    framed_array(task_objects(tasks))
}

/// Writes the object of a task from the JSON string of its text and its
/// creation second.
pub fn frame_object(literal: &str, created_at: i64) -> (object: String)
    ensures
        object@ == framed_object(literal@, created_at as int),
{
    let seconds: String = decimal_of_i64(created_at);
    let mut object: String = String::from_str("{\"text\":");
    object.append(literal);
    object.append(",\"created_at\":");
    object.append(seconds.as_str());
    object.append("}");
    object
}

/// Writes the array of the items.
pub fn frame_array(items: &Vec<String>) -> (array: String)
    ensures
        array@ == framed_array(texts(items@)),
{
    let ghost all: Seq<Seq<char>> = texts(items@);
    let mut array: String = String::from_str("[");
    let mut index: usize = 0;
    while index < items.len()
        invariant
            all == texts(items@),
            index <= items.len(),
            array@ == "["@ + joined(all.take(index as int)),
        decreases items.len() - index,
    {
        if index > 0 {
            array.append(",");
        }
        array.append(items[index].as_str());
        assert(all.take(index + 1).drop_last() =~= all.take(index as int));
        index = index + 1;
    }
    assert(all.take(index as int) =~= all);
    array.append("]");
    array
}

/// Writes the object of one task.
pub fn encode_task(task: &Task) -> (object: String)
    ensures
        object@ == task_object(task@),
{
    let literal: String = match json_string(task.text()) {
        Ok(written) => written,
        Err(_) => vstd::pervasive::unreached(),
    };
    frame_object(literal.as_str(), task.created_at())
}

/// Writes the document of a journal.
pub fn encode_journal(tasks: &Vec<Task>) -> (document: String)
    ensures
        document@ == journal_text(task_views(tasks@)),
{
    let mut objects: Vec<String> = Vec::new();
    let mut index: usize = 0;
    while index < tasks.len()
        invariant
            index <= tasks.len(),
            objects@.len() == index,
            forall|i: int| 0 <= i < index ==> #[trigger] objects@[i]@ == task_object(tasks@[i]@),
        decreases tasks.len() - index,
    {
        let object: String = encode_task(&tasks[index]);
        objects.push(object);
        index = index + 1;
    }
    assert(texts(objects@) =~= task_objects(task_views(tasks@)));
    frame_array(&objects)
}

} // verus!
