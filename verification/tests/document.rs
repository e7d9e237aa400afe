use rusty_journal::document::{encode_journal, encode_task, frame_array, frame_object};
use rusty_journal::tasks::Task;

fn task(text: &str, created_at: i64) -> Task {
    Task::from_parts(text.to_string(), created_at).expect("a second of the calendar")
}

fn decoded(document: &str) -> Vec<(String, i64)> {
    let values: Vec<serde_json::Value> = serde_json::from_str(document).expect("a JSON array");
    let mut fields = Vec::new();
    for value in values {
        let object = value.as_object().expect("a JSON object");
        assert_eq!(object.len(), 2);
        let text = object["text"].as_str().expect("a string").to_string();
        let created_at = object["created_at"].as_i64().expect("an integer");
        fields.push((text, created_at));
    }
    fields
}

#[test]
fn object_is_framed_around_the_literal() {
    assert_eq!(frame_object("\"x\"", -12), "{\"text\":\"x\",\"created_at\":-12}");
    assert_eq!(frame_object("\"\"", 0), "{\"text\":\"\",\"created_at\":0}");
}

#[test]
fn array_joins_items_with_commas() {
    assert_eq!(frame_array(&Vec::new()), "[]");
    assert_eq!(frame_array(&vec!["a".to_string()]), "[a]");
    assert_eq!(frame_array(&vec!["a".to_string(), "b".to_string(), "c".to_string()]), "[a,b,c]");
}

#[test]
fn task_is_written_as_an_object_with_two_fields() {
    assert_eq!(
        encode_task(&task("buy milk", 1_700_000_000)),
        "{\"text\":\"buy milk\",\"created_at\":1700000000}"
    );
}

#[test]
fn text_is_written_as_a_json_string() {
    assert_eq!(encode_task(&task("", 5)), "{\"text\":\"\",\"created_at\":5}");
    assert_eq!(
        encode_task(&task("say \"hi\"", 5)),
        "{\"text\":\"say \\\"hi\\\"\",\"created_at\":5}"
    );
    assert_eq!(encode_task(&task("a\\b", 5)), "{\"text\":\"a\\\\b\",\"created_at\":5}");
    assert_eq!(
        encode_task(&task("one\ntwo\tthree\r", 5)),
        "{\"text\":\"one\\ntwo\\tthree\\r\",\"created_at\":5}"
    );
    assert_eq!(
        encode_task(&task("\u{1}\u{8}\u{c}\u{1f}", 5)),
        "{\"text\":\"\\u0001\\b\\f\\u001f\",\"created_at\":5}"
    );
    assert_eq!(
        encode_task(&task("caf\u{e9} \u{1f600} a/b", 5)),
        "{\"text\":\"caf\u{e9} \u{1f600} a/b\",\"created_at\":5}"
    );
}

#[test]
fn creation_second_is_written_in_decimal() {
    assert_eq!(encode_task(&task("t", 0)), "{\"text\":\"t\",\"created_at\":0}");
    assert_eq!(encode_task(&task("t", -1)), "{\"text\":\"t\",\"created_at\":-1}");
    assert_eq!(
        encode_task(&task("t", 8_210_266_876_799)),
        "{\"text\":\"t\",\"created_at\":8210266876799}"
    );
    assert_eq!(
        encode_task(&task("t", -8_334_601_228_800)),
        "{\"text\":\"t\",\"created_at\":-8334601228800}"
    );
}

#[test]
fn empty_journal_is_the_empty_array() {
    assert_eq!(encode_journal(&Vec::new()), "[]");
}

#[test]
fn journal_is_the_array_of_its_tasks_in_order() {
    let tasks = vec![task("buy milk", 10), task("walk dog", 20), task("write", 30)];
    assert_eq!(
        encode_journal(&tasks),
        "[{\"text\":\"buy milk\",\"created_at\":10},{\"text\":\"walk dog\",\"created_at\":20},{\"text\":\"write\",\"created_at\":30}]"
    );
}

#[test]
fn document_decodes_to_the_tasks_it_was_written_from() {
    let texts = ["plain", "", "quote \" and \\ slash", "line\nbreak\u{0}\u{7f}", "\u{e9}\u{4e16}\u{1f600}"];
    let seconds = [0i64, -1, 1_700_000_000, 8_210_266_876_799, -8_334_601_228_800];
    let mut tasks = Vec::new();
    for (text, second) in texts.iter().zip(seconds.iter()) {
        tasks.push(task(text, *second));
    }
    let fields = decoded(&encode_journal(&tasks));
    assert_eq!(fields.len(), tasks.len());
    for (field, written) in fields.iter().zip(tasks.iter()) {
        assert_eq!(field.0, written.text());
        assert_eq!(field.1, written.created_at());
    }
}
