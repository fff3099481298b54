use ashbot::outcome::{CompileOutcome, RunOutcome};
use ashbot::pipeline::execute_and_render;
use ashbot::sandbox::run_module;

/// A module that writes `hi\n` to standard output and returns.
const PRINT_HI: &str = r#"
(module
  (import "wasi_snapshot_preview1" "fd_write"
    (func $fd_write (param i32 i32 i32 i32) (result i32)))
  (memory (export "memory") 1)
  (data (i32.const 8) "hi\n")
  (func (export "_start")
    (i32.store (i32.const 0) (i32.const 8))
    (i32.store (i32.const 4) (i32.const 3))
    (drop (call $fd_write (i32.const 1) (i32.const 0) (i32.const 1) (i32.const 20))))
)
"#;

/// A module whose entry point traps at once.
const TRAPPING: &str = r#"
(module
  (func (export "_start") unreachable)
)
"#;

/// A module with no entry point at all: the runtime substitutes a no-op.
const NO_ENTRY: &str = "(module)";

/// A module whose entry point loops forever.
const LOOPING: &str = r#"
(module
  (func (export "_start") (loop $spin (br $spin)))
)
"#;

#[test]
fn guest_output_is_captured() {
    match run_module(PRINT_HI.as_bytes()) {
        RunOutcome::Captured(captured) => assert_eq!(captured, b"hi\n".to_vec()),
        RunOutcome::Failed(message) => panic!("run failed: {}", String::from_utf8_lossy(&message)),
        RunOutcome::ResourceLimit => panic!("run failed: resource limit"),
    }
}

#[test]
fn successful_run_renders_success_template() {
    let reply = execute_and_render(CompileOutcome::Bytecode(PRINT_HI.as_bytes().to_vec()));
    assert_eq!(reply, b"Compilation result:\n```\nhi\n```".to_vec());
}

#[test]
fn guest_trap_is_an_error() {
    match run_module(TRAPPING.as_bytes()) {
        RunOutcome::Captured(_) => panic!("a trapping guest must not complete"),
        RunOutcome::Failed(message) => assert!(!message.is_empty()),
        RunOutcome::ResourceLimit => panic!("a trap is not the resource limit"),
    }
}

#[test]
fn trap_renders_error_template() {
    let reply = execute_and_render(CompileOutcome::Bytecode(TRAPPING.as_bytes().to_vec()));
    assert!(reply.starts_with(b"Compilation error:\n```\n"));
    assert!(reply.ends_with(b"```"));
}

#[test]
fn invalid_module_is_an_error() {
    match run_module(b"this is not a module") {
        RunOutcome::Captured(_) => panic!("invalid bytes must not run"),
        RunOutcome::Failed(message) => assert!(!message.is_empty()),
        RunOutcome::ResourceLimit => panic!("invalid bytes are not the resource limit"),
    }
}

#[test]
fn module_without_entry_point_captures_nothing() {
    match run_module(NO_ENTRY.as_bytes()) {
        RunOutcome::Captured(captured) => assert_eq!(captured, Vec::<u8>::new()),
        RunOutcome::Failed(message) => panic!("run failed: {}", String::from_utf8_lossy(&message)),
        RunOutcome::ResourceLimit => panic!("run failed: resource limit"),
    }
}

#[test]
fn endless_guest_is_stopped_at_the_resource_limit() {
    match run_module(LOOPING.as_bytes()) {
        RunOutcome::ResourceLimit => (),
        RunOutcome::Captured(_) => panic!("an endless guest must not complete"),
        RunOutcome::Failed(message) => {
            panic!("expected the resource limit, got: {}", String::from_utf8_lossy(&message))
        }
    }
}

#[test]
fn resource_limit_renders_error_template() {
    let reply = execute_and_render(CompileOutcome::Bytecode(LOOPING.as_bytes().to_vec()));
    assert_eq!(reply, b"Compilation error:\n```\nexceeded resource limit\n```".to_vec());
}

#[test]
fn command_message_to_reply_text() {
    let msg = b"?eval\n```\nprint(\"hi\")\n```";
    let source = ashbot::extract::extract_source(&msg[..]).unwrap();
    assert_eq!(source, b"\nprint(\"hi\")\n".to_vec());
    // Stand in for the external compiler: it accepts the source and emits
    // the module that prints `hi`.
    let compiled = CompileOutcome::Bytecode(PRINT_HI.as_bytes().to_vec());
    let reply = execute_and_render(compiled);
    assert_eq!(reply, b"Compilation result:\n```\nhi\n```".to_vec());
}

#[test]
fn runs_are_isolated_from_each_other() {
    let first = run_module(PRINT_HI.as_bytes());
    let second = run_module(PRINT_HI.as_bytes());
    match (first, second) {
        (RunOutcome::Captured(a), RunOutcome::Captured(b)) => {
            assert_eq!(a, b"hi\n".to_vec());
            assert_eq!(b, b"hi\n".to_vec());
        }
        _ => panic!("both runs should complete"),
    }
}
