//! Outcomes of a pipeline invocation and the result formatter.
//!
//! The formatter is a total function from an outcome to the display text
//! shown to the user: a fixed label, a fenced block holding either the
//! captured output or the error message, nothing else. The embedded text is
//! carried verbatim; the closing fence always begins on a fresh line, so a
//! capture that already ends with a newline is not given a second one.

use vstd::prelude::*;
use crate::extract::fence;

verus! {

/// What the external compiler made of the source: a bytecode module for the
/// sandbox, or the compiler's error message.
pub enum CompileOutcome {
    Bytecode(Vec<u8>),
    Rejected(Vec<u8>),
}

/// What the sandbox made of a compiled module: the bytes the guest wrote to
/// its captured standard output, or the error that stopped it (a module that
/// fails validation or linking, an ill-typed entry point, or a guest trap),
/// or the execution ceiling: the guest spent its fuel before returning.
pub enum RunOutcome {
    Captured(Vec<u8>),
    Failed(Vec<u8>),
    ResourceLimit,
}

/// The overall outcome of one evaluation, as the formatter sees it.
pub enum EvalOutcome {
    /// The compiler rejected the source; the message is its diagnostic.
    CompileRejected { message: Vec<u8> },
    /// The module compiled but the sandbox could not run it to completion.
    RunFailed { message: Vec<u8> },
    /// The module compiled but spent its execution ceiling before returning.
    ResourceLimit,
    /// The module ran; `captured` is everything it wrote to standard output.
    Completed { captured: Vec<u8> },
}

/// The overall outcome determined by a compile outcome and, when the module
/// was run, the run outcome. A compile error decides by itself.
pub open spec fn combine_spec(c: CompileOutcome, r: RunOutcome) -> EvalOutcome {
    match c {
        CompileOutcome::Rejected(message) => EvalOutcome::CompileRejected { message },
        CompileOutcome::Bytecode(_) => match r {
            RunOutcome::Captured(captured) => EvalOutcome::Completed { captured },
            RunOutcome::Failed(message) => EvalOutcome::RunFailed { message },
            RunOutcome::ResourceLimit => EvalOutcome::ResourceLimit,
        },
    }
}

/// The bytes of `Compilation result:` followed by a newline and an opening
/// fence on its own line.
pub open spec fn success_prefix() -> Seq<u8> {
    seq![
        67u8, 111u8, 109u8, 112u8, 105u8, 108u8, 97u8, 116u8, 105u8, 111u8, 110u8, 32u8, 114u8,
        101u8, 115u8, 117u8, 108u8, 116u8, 58u8, 10u8, 96u8, 96u8, 96u8, 10u8,
    ]
}

/// The bytes of `Compilation error:` followed by a newline and an opening
/// fence on its own line.
pub open spec fn error_prefix() -> Seq<u8> {
    seq![
        67u8, 111u8, 109u8, 112u8, 105u8, 108u8, 97u8, 116u8, 105u8, 111u8, 110u8, 32u8, 101u8,
        114u8, 114u8, 111u8, 114u8, 58u8, 10u8, 96u8, 96u8, 96u8, 10u8,
    ]
}

/// What closes the block after `text`: the closing fence, on a fresh line.
pub open spec fn closing(text: Seq<u8>) -> Seq<u8> {
    if text.len() > 0 && text[text.len() - 1] == 10 {
        fence()
    } else {
        seq![10u8] + fence()
    }
}

/// The display template: a success or error label, the embedded text
/// verbatim, and the closing fence.
pub open spec fn render_spec(ok: bool, text: Seq<u8>) -> Seq<u8> {
    (if ok {
        success_prefix()
    } else {
        error_prefix()
    }) + text + closing(text)
}

/// The message shown when a guest spends its execution ceiling: the bytes of
/// `exceeded resource limit`.
pub open spec fn resource_limit_text() -> Seq<u8> {
    seq![
        101u8, 120u8, 99u8, 101u8, 101u8, 100u8, 101u8, 100u8, 32u8, 114u8, 101u8, 115u8, 111u8,
        117u8, 114u8, 99u8, 101u8, 32u8, 108u8, 105u8, 109u8, 105u8, 116u8,
    ]
}

/// The text an outcome embeds in its display.
pub open spec fn outcome_text(o: EvalOutcome) -> Seq<u8> {
    match o {
        EvalOutcome::CompileRejected { message } => message@,
        EvalOutcome::RunFailed { message } => message@,
        EvalOutcome::ResourceLimit => resource_limit_text(),
        EvalOutcome::Completed { captured } => captured@,
    }
}

/// Whether an outcome is shown under the success label.
pub open spec fn outcome_ok(o: EvalOutcome) -> bool {
    o is Completed
}

/// The display text of an outcome.
pub open spec fn display_spec(o: EvalOutcome) -> Seq<u8> {
    render_spec(outcome_ok(o), outcome_text(o))
}

/// A compile error is always shown under the error template with the
/// compiler's message embedded verbatim, whatever the run outcome was.
pub proof fn lemma_compile_error_display(message: Vec<u8>, r: RunOutcome)
    ensures
        display_spec(combine_spec(CompileOutcome::Rejected(message), r)) == render_spec(
            false,
            message@,
        ),
{
}

/// A successful run is always shown under the success template with the
/// captured output embedded verbatim.
pub proof fn lemma_success_display(bytecode: Vec<u8>, captured: Vec<u8>)
    ensures
        display_spec(
            combine_spec(
                CompileOutcome::Bytecode(bytecode),
                RunOutcome::Captured(captured),
            ),
        ) == render_spec(true, captured@),
{
}

/// The success or error label, with the opening fence, as a vector.
fn label(ok: bool) -> (v: Vec<u8>)
    ensures
        v@ == if ok {
            success_prefix()
        } else {
            error_prefix()
        },
{
    let mut v: Vec<u8> = Vec::new();
    v.push(67);
    v.push(111);
    v.push(109);
    v.push(112);
    v.push(105);
    v.push(108);
    v.push(97);
    v.push(116);
    v.push(105);
    v.push(111);
    v.push(110);
    v.push(32);
    if ok {
        v.push(114);
        v.push(101);
        v.push(115);
        v.push(117);
        v.push(108);
        v.push(116);
    } else {
        v.push(101);
        v.push(114);
        v.push(114);
        v.push(111);
        v.push(114);
    }
    v.push(58);
    v.push(10);
    v.push(96);
    v.push(96);
    v.push(96);
    v.push(10);
    proof {
        if ok {
            assert(v@ =~= success_prefix());
        } else {
            assert(v@ =~= error_prefix());
        }
    }
    v
}

/// Renders `text` into the fenced display template under the success or
/// error label.
pub fn render(ok: bool, text: &[u8]) -> (r: Vec<u8>)
    ensures
        r@ == render_spec(ok, text@),
{
    let mut v = label(ok);
    let mut body = vstd::slice::slice_to_vec(text);
    v.append(&mut body);
    let n = text.len();
    if n == 0 || text[n - 1] != 10 {
        v.push(10);
    }
    v.push(96);
    v.push(96);
    v.push(96);
    proof {
        assert(v@ =~= render_spec(ok, text@));
    }
    v
}

/// The bytes of `exceeded resource limit`.
fn resource_limit_message() -> (v: Vec<u8>)
    ensures
        v@ == resource_limit_text(),
{
    let mut v: Vec<u8> = Vec::new();
    v.push(101);
    v.push(120);
    v.push(99);
    v.push(101);
    v.push(101);
    v.push(100);
    v.push(101);
    v.push(100);
    v.push(32);
    v.push(114);
    v.push(101);
    v.push(115);
    v.push(111);
    v.push(117);
    v.push(114);
    v.push(99);
    v.push(101);
    v.push(32);
    v.push(108);
    v.push(105);
    v.push(109);
    v.push(105);
    v.push(116);
    proof {
        assert(v@ =~= resource_limit_text());
    }
    v
}

/// Renders an evaluation outcome into its display text.
pub fn render_outcome(o: &EvalOutcome) -> (r: Vec<u8>)
    ensures
        r@ == display_spec(*o),
{
    match o {
        EvalOutcome::CompileRejected { message } => render(false, message.as_slice()),
        EvalOutcome::RunFailed { message } => render(false, message.as_slice()),
        EvalOutcome::ResourceLimit => {
            let message = resource_limit_message();
            render(false, message.as_slice())
        },
        EvalOutcome::Completed { captured } => render(true, captured.as_slice()),
    }
}

} // verus!
