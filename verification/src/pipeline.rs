//! The pipeline around one submission, and the decisions the event router
//! takes.
//!
//! Per message the flow is strictly sequential: extract, compile, run,
//! format, reply, record. Extraction, formatting and the correlator live in
//! their own modules; here the pieces are put together from the compile
//! outcome onward, and the edit path decides whether an edited message has a
//! reply to update at all.

use vstd::prelude::*;
use crate::outcome::{combine_spec, display_spec, render_spec, render_outcome, CompileOutcome,
    EvalOutcome, RunOutcome};
use crate::sandbox::run_module;
use crate::table::{lookup_spec, MessageRef, ReplyTable};

verus! {

/// Turns a compile outcome into the overall outcome of the invocation: a
/// compile error decides by itself, and a compiled module is run in the
/// sandbox and judged by how that run ends.
pub fn execute(c: CompileOutcome) -> (o: EvalOutcome)
    ensures
        c matches CompileOutcome::Rejected(message) ==> o == (EvalOutcome::CompileRejected {
            message,
        }),
        c is Bytecode ==> exists|r: RunOutcome| o == combine_spec(c, r),
{
    match c {
        CompileOutcome::Rejected(message) => EvalOutcome::CompileRejected { message },
        CompileOutcome::Bytecode(bytecode) => {
            let r = run_module(bytecode.as_slice());
            let ghost c_snapshot = CompileOutcome::Bytecode(bytecode);
            let ghost r_snapshot = r;
            let o = match r {
                RunOutcome::Captured(captured) => EvalOutcome::Completed { captured },
                RunOutcome::Failed(message) => EvalOutcome::RunFailed { message },
                RunOutcome::ResourceLimit => EvalOutcome::ResourceLimit,
            };
            proof {
                assert(o == combine_spec(c_snapshot, r_snapshot));
            }
            o
        },
    }
}

/// Runs the pipeline from the compile outcome onward and renders the display
/// text: a rejected compilation is shown under the error template with the
/// compiler's message verbatim, and a compiled module is run and shown by
/// how the run ended.
pub fn execute_and_render(c: CompileOutcome) -> (d: Vec<u8>)
    ensures
        c matches CompileOutcome::Rejected(message) ==> d@ == render_spec(false, message@),
        c is Bytecode ==> exists|r: RunOutcome| d@ == display_spec(combine_spec(c, r)),
{
    let ghost c_snapshot = c;
    let o = execute(c);
    let d = render_outcome(&o);
    proof {
        if c_snapshot is Bytecode {
            let r = choose|r: RunOutcome| o == combine_spec(c_snapshot, r);
            assert(d@ == display_spec(combine_spec(c_snapshot, r)));
        }
    }
    d
}

/// The one fatal startup condition.
#[derive(Clone, Copy, Debug, PartialEq, Eq, Structural)]
pub enum ConfigError {
    /// The secret store holds no authentication token for the chat
    /// transport.
    MissingToken,
}

/// The startup rule for configuration: the chat transport's authentication
/// token must come out of the secret store; its absence is a fatal startup
/// error — the only fatal error in this core.
pub fn require_token(token: Option<String>) -> (r: Result<String, ConfigError>)
    ensures
        token matches Some(t) ==> r == Ok::<String, ConfigError>(t),
        token is None ==> r == Err::<String, ConfigError>(ConfigError::MissingToken),
{
    match token {
        Some(t) => Ok(t),
        None => Err(ConfigError::MissingToken),
    }
}

/// What the edit path does with an edited message.
#[derive(Clone, Copy, Debug, PartialEq, Eq, Structural)]
pub enum EditAction {
    /// The message was never a tracked command: no reply, no edit.
    Ignore,
    /// The message has a recorded reply: re-evaluate and update it in place.
    Update(MessageRef),
}

/// Decides the edit path: an edited message is re-evaluated exactly when the
/// correlator has a reply recorded for it, and the update goes to that
/// reply; an untracked message triggers nothing.
pub fn plan_edit(table: &ReplyTable, edited: MessageRef) -> (a: EditAction)
    ensures
        a == match lookup_spec(table@, edited) {
            Some(reply) => EditAction::Update(reply),
            None => EditAction::Ignore,
        },
{
    match table.lookup(edited) {
        Some(reply) => EditAction::Update(reply),
        None => EditAction::Ignore,
    }
}

} // verus!

