use ashbot::extract::{extract_source, ExtractError};
use ashbot::outcome::{render, CompileOutcome};
use ashbot::pipeline::{execute_and_render, plan_edit, require_token, ConfigError, EditAction};
use ashbot::table::ReplyTable;

#[test]
fn extract_well_formed_message() {
    let msg = b"?eval\n```\nprint(\"hi\")\n```";
    let src = extract_source(&msg[..]).unwrap();
    assert_eq!(src, b"\nprint(\"hi\")\n".to_vec());
}

#[test]
fn extract_keeps_interior_verbatim() {
    let msg = b"?eval ```  a\n\n b ```";
    let src = extract_source(&msg[..]).unwrap();
    assert_eq!(src, b"  a\n\n b ".to_vec());
}

#[test]
fn extract_empty_interior() {
    let msg = b"?eval``````";
    let src = extract_source(&msg[..]).unwrap();
    assert_eq!(src, Vec::<u8>::new());
}

#[test]
fn extract_missing_prefix() {
    assert_eq!(extract_source(b"hello there"), Err(ExtractError::MissingPrefix));
    assert_eq!(extract_source(b"?eva"), Err(ExtractError::MissingPrefix));
    assert_eq!(extract_source(b""), Err(ExtractError::MissingPrefix));
    assert_eq!(extract_source(b" ?eval ```a```"), Err(ExtractError::MissingPrefix));
}

#[test]
fn extract_no_fence() {
    let msg = b"?eval no fence here";
    assert_eq!(extract_source(&msg[..]), Err(ExtractError::MissingFence));
}

#[test]
fn extract_mismatched_fences() {
    assert_eq!(extract_source(b"?eval```abc"), Err(ExtractError::MissingFence));
    assert_eq!(extract_source(b"?eval abc```"), Err(ExtractError::MissingFence));
    assert_eq!(extract_source(b"?eval ```abc``` "), Err(ExtractError::MissingFence));
    assert_eq!(extract_source(b"?eval`````"), Err(ExtractError::MissingFence));
}

#[test]
fn render_success_capture_with_newline() {
    let shown = render(true, b"hi\n");
    assert_eq!(shown, b"Compilation result:\n```\nhi\n```".to_vec());
}

#[test]
fn render_success_capture_without_newline() {
    let shown = render(true, b"hi");
    assert_eq!(shown, b"Compilation result:\n```\nhi\n```".to_vec());
}

#[test]
fn render_error_message() {
    let shown = render(false, b"unexpected token");
    assert_eq!(shown, b"Compilation error:\n```\nunexpected token\n```".to_vec());
}

#[test]
fn render_empty_capture() {
    let shown = render(true, b"");
    assert_eq!(shown, b"Compilation result:\n```\n\n```".to_vec());
}

#[test]
fn compile_error_reply() {
    let c = CompileOutcome::Rejected(b"unexpected token".to_vec());
    let reply = execute_and_render(c);
    assert_eq!(reply, b"Compilation error:\n```\nunexpected token\n```".to_vec());
}

#[test]
fn missing_startup_token_is_fatal() {
    assert_eq!(require_token(None), Err(ConfigError::MissingToken));
    assert_eq!(require_token(Some("token-value".to_string())), Ok("token-value".to_string()));
}

#[test]
fn lookup_before_any_record() {
    let table = ReplyTable::new();
    assert_eq!(table.lookup(42), None);
    assert_eq!(table.len(), 0);
}

#[test]
fn record_then_lookup() {
    let mut table = ReplyTable::new();
    table.record(10, 100);
    assert_eq!(table.lookup(10), Some(100));
    assert_eq!(table.len(), 1);
}

#[test]
fn lookup_twice_returns_same_value() {
    let mut table = ReplyTable::new();
    table.record(7, 70);
    let first = table.lookup(7);
    let second = table.lookup(7);
    assert_eq!(first, second);
    let first_absent = table.lookup(8);
    let second_absent = table.lookup(8);
    assert_eq!(first_absent, second_absent);
}

#[test]
fn records_with_distinct_keys_keep_both_entries() {
    let mut table = ReplyTable::new();
    table.record(1, 11);
    table.record(2, 22);
    assert_eq!(table.lookup(1), Some(11));
    assert_eq!(table.lookup(2), Some(22));
    assert_eq!(table.len(), 2);
}

#[test]
fn record_same_key_overwrites() {
    let mut table = ReplyTable::new();
    table.record(5, 50);
    table.record(5, 51);
    assert_eq!(table.lookup(5), Some(51));
    assert_eq!(table.len(), 1);
}

#[test]
fn edit_of_tracked_message_updates_its_reply() {
    let mut table = ReplyTable::new();
    table.record(10, 100);
    assert_eq!(plan_edit(&table, 10), EditAction::Update(100));
    let new_reply = execute_and_render(CompileOutcome::Rejected(b"new diagnostic".to_vec()));
    assert_eq!(new_reply, b"Compilation error:\n```\nnew diagnostic\n```".to_vec());
    assert_eq!(plan_edit(&table, 10), EditAction::Update(100));
    assert_eq!(table.len(), 1);
}

#[test]
fn edit_of_untracked_message_is_ignored() {
    let mut table = ReplyTable::new();
    table.record(10, 100);
    assert_eq!(plan_edit(&table, 99), EditAction::Ignore);
}
