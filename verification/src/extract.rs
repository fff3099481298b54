//! Source extraction: pulling a fenced code block out of a command message.
//!
//! A well-formed message starts with the command prefix `?eval`, followed by
//! optional whitespace, followed by a source block enclosed in triple-backtick
//! fences. The enclosed text is returned verbatim; a malformed message yields
//! an error and no further work.

use vstd::prelude::*;

verus! {

/// Why a message yielded no source block.
#[derive(Clone, Copy, PartialEq, Eq, Structural, Debug)]
pub enum ExtractError {
    /// The message does not begin with the command prefix.
    MissingPrefix,
    /// The fenced-block markers are missing or mismatched.
    MissingFence,
}

/// The command prefix that triggers evaluation: the bytes of `?eval`.
pub open spec fn cmd_prefix() -> Seq<u8> {
    seq![63u8, 101u8, 118u8, 97u8, 108u8]
}

/// An opening or closing fence: the bytes of three backticks.
pub open spec fn fence() -> Seq<u8> {
    seq![96u8, 96u8, 96u8]
}

/// ASCII whitespace, as trimmed between the prefix and the opening fence.
pub open spec fn is_space(b: u8) -> bool {
    b == 32 || (9 <= b && b <= 13)
}

/// The number of leading whitespace bytes of `s`.
pub open spec fn ws_len(s: Seq<u8>) -> nat
    decreases s.len(),
{
    if s.len() > 0 && is_space(s[0]) {
        1 + ws_len(s.drop_first())
    } else {
        0
    }
}

/// Whether `s` begins with the command prefix.
pub open spec fn has_prefix(s: Seq<u8>) -> bool {
    s.len() >= 5 && s.subrange(0, 5) == cmd_prefix()
}

/// The message body after the prefix, with leading whitespace removed.
pub open spec fn trimmed_body(s: Seq<u8>) -> Seq<u8>
    recommends
        has_prefix(s),
{
    let rest = s.skip(5);
    rest.skip(ws_len(rest) as int)
}

/// Whether `t` is a well-formed fenced block: an opening fence, any interior
/// text, and a closing fence that does not overlap the opening one.
pub open spec fn fenced_ok(t: Seq<u8>) -> bool {
    t.len() >= 6 && t.take(3) == fence() && t.skip(t.len() - 3) == fence()
}

/// The source block enclosed in `msg`, if the message is well formed.
pub open spec fn extract_spec(msg: Seq<u8>) -> Option<Seq<u8>> {
    if has_prefix(msg) {
        let t = trimmed_body(msg);
        if fenced_ok(t) {
            Some(t.subrange(3, t.len() - 3))
        } else {
            None
        }
    } else {
        None
    }
}

/// The leading-whitespace count is the position of the first non-space byte.
proof fn lemma_ws_len_at(s: Seq<u8>, k: int)
    requires
        0 <= k <= s.len(),
        forall|j: int| 0 <= j < k ==> is_space(s[j]),
        k == s.len() || !is_space(s[k]),
    ensures
        ws_len(s) == k,
    decreases s.len(),
{
    if k > 0 {
        assert(is_space(s[0]));
        let d = s.drop_first();
        assert(forall|j: int| 0 <= j < k - 1 ==> is_space(d[j]));
        lemma_ws_len_at(d, k - 1);
    }
}

/// Whether `b` is ASCII whitespace.
fn is_space_byte(b: u8) -> (r: bool)
    ensures
        r == is_space(b),
{
    b == 32 || (9 <= b && b <= 13)
}

/// Strips the command prefix, trims the whitespace after it, strips the two
/// fences, and returns the interior text verbatim.
///
/// Succeeds exactly on well-formed messages; a malformed message yields the
/// error naming the first missing part, so no compile or run is attempted.
pub fn extract_source(msg: &[u8]) -> (r: Result<Vec<u8>, ExtractError>)
    ensures
        r is Ok <==> extract_spec(msg@) is Some,
        r matches Ok(src) ==> Some(src@) == extract_spec(msg@),
        (r matches Err(e) && e == ExtractError::MissingPrefix) <==> !has_prefix(msg@),
        (r matches Err(e) && e == ExtractError::MissingFence) <==> (has_prefix(msg@)
            && !fenced_ok(trimmed_body(msg@))),
{
    let n = msg.len();
    if n < 5 || !(msg[0] == 63 && msg[1] == 101 && msg[2] == 118 && msg[3] == 97 && msg[4] == 108) {
        proof {
            if msg@.len() >= 5 {
                assert(forall|j: int| 0 <= j < 5 ==> msg@.subrange(0, 5)[j] == msg@[j]);
            }
        }
        return Err(ExtractError::MissingPrefix);
    }
    proof {
        assert(msg@.subrange(0, 5) =~= cmd_prefix());
    }

    let mut i: usize = 5;
    while i < n && is_space_byte(msg[i])
        invariant
            5 <= i <= n,
            n == msg@.len(),
            forall|j: int| 5 <= j < i ==> is_space(msg@[j]),
        decreases n - i,
    {
        i = i + 1;
    }
    proof {
        let rest = msg@.skip(5);
        assert(forall|j: int| 0 <= j < i - 5 ==> is_space(rest[j]));
        lemma_ws_len_at(rest, i - 5);
        assert(trimmed_body(msg@) =~= msg@.skip(i as int));
    }
    let ghost t = trimmed_body(msg@);

    if n - i < 6 {
        return Err(ExtractError::MissingFence);
    }
    if !(msg[i] == 96 && msg[i + 1] == 96 && msg[i + 2] == 96) {
        proof {
            assert(t.take(3)[0] == msg@[i as int]);
            assert(t.take(3)[1] == msg@[i + 1]);
            assert(t.take(3)[2] == msg@[i + 2]);
        }
        return Err(ExtractError::MissingFence);
    }
    if !(msg[n - 3] == 96 && msg[n - 2] == 96 && msg[n - 1] == 96) {
        proof {
            let c = t.skip(t.len() - 3);
            assert(c[0] == msg@[n - 3]);
            assert(c[1] == msg@[n - 2]);
            assert(c[2] == msg@[n - 1]);
        }
        return Err(ExtractError::MissingFence);
    }
    proof {
        assert(t.take(3) =~= fence());
        assert(t.skip(t.len() - 3) =~= fence());
        assert(t.subrange(3, t.len() - 3) =~= msg@.subrange(i + 3, n - 3));
    }
    let interior = vstd::slice::slice_subrange(msg, i + 3, n - 3);
    Ok(vstd::slice::slice_to_vec(interior))
}

} // verus!
