//! The reply correlator: a mapping from an originating message to the reply
//! the service produced for it.
//!
//! An entry is written once, when a command's reply has been sent, and read
//! on every edit event. The table itself is sequential; callers that share
//! it across tasks put it behind a lock, and each `record` or `lookup` is
//! one short critical section. Entries for distinct originals are
//! independent: recording one never disturbs another.

use vstd::prelude::*;
use std::collections::HashMap;

verus! {

broadcast use vstd::std_specs::hash::group_hash_axioms;

/// A message identity, as the chat transport numbers messages: unique within
/// its scope, compared only for equality, never dereferenced here.
pub type MessageRef = u64;

/// The original-to-reply mapping.
pub struct ReplyTable {
    entries: HashMap<MessageRef, MessageRef>,
}

/// What a lookup of `original` in a table holding `m` returns.
pub open spec fn lookup_spec(m: Map<MessageRef, MessageRef>, original: MessageRef) -> Option<
    MessageRef,
> {
    if m.contains_key(original) {
        Some(m[original])
    } else {
        None
    }
}

impl ReplyTable {
    /// The mathematical map this table holds.
    pub closed spec fn view(&self) -> Map<MessageRef, MessageRef> {
        self.entries@
    }

    /// An empty table: no message has been replied to yet.
    pub fn new() -> (t: Self)
        ensures
            t@ == Map::<MessageRef, MessageRef>::empty(),
    {
        ReplyTable { entries: HashMap::new() }
    }

    /// Records that `reply` is the service's response to `original`,
    /// inserting or overwriting the entry for `original` and leaving every
    /// other entry as it was.
    pub fn record(&mut self, original: MessageRef, reply: MessageRef)
        ensures
            final(self)@ == old(self)@.insert(original, reply),
    {
        self.entries.insert(original, reply);
    }

    /// Returns the reply currently mapped to `original`, or nothing. The
    /// result is a function of the table's contents alone, and a shared
    /// borrow leaves those contents as they are, so two lookups with no
    /// record between them return the same value.
    pub fn lookup(&self, original: MessageRef) -> (r: Option<MessageRef>)
        ensures
            r == lookup_spec(self@, original),
    {
        match self.entries.get(&original) {
            Some(reply) => Some(*reply),
            None => None,
        }
    }

    /// How many originals have a recorded reply.
    pub fn len(&self) -> (n: usize)
        ensures
            n == self@.len(),
    {
        self.entries.len()
    }
}

/// Lookup is idempotent: a lookup borrows the table shared and returns a
/// value determined by its contents alone, so two lookups of the same
/// original with no record in between return the same value.
pub fn lookup_twice(table: &ReplyTable, original: MessageRef) -> (p: (
    Option<MessageRef>,
    Option<MessageRef>,
))
    ensures
        p.0 == p.1,
{
    (table.lookup(original), table.lookup(original))
}

/// Records under distinct originals never lose each other's entry: after
/// recording `(a, ra)` and `(b, rb)` in either interleaving, both entries
/// are present with their own reply.
pub proof fn lemma_record_distinct_preserved(
    m: Map<MessageRef, MessageRef>,
    a: MessageRef,
    ra: MessageRef,
    b: MessageRef,
    rb: MessageRef,
)
    requires
        a != b,
    ensures
        lookup_spec(m.insert(a, ra).insert(b, rb), a) == Some(ra),
        lookup_spec(m.insert(a, ra).insert(b, rb), b) == Some(rb),
        lookup_spec(m.insert(b, rb).insert(a, ra), a) == Some(ra),
        lookup_spec(m.insert(b, rb).insert(a, ra), b) == Some(rb),
{
}

/// A lookup serialized against a record of the same original observes a
/// total order: before the record it sees the table as it was, after the
/// record it sees exactly the new reply — never a third value. A record
/// leaves the lookup of every other original unchanged.
pub proof fn lemma_record_lookup_ordered(
    m: Map<MessageRef, MessageRef>,
    original: MessageRef,
    reply: MessageRef,
    other: MessageRef,
)
    ensures
        lookup_spec(m.insert(original, reply), original) == Some(reply),
        other != original ==> lookup_spec(m.insert(original, reply), other) == lookup_spec(
            m,
            other,
        ),
{
}

} // verus!
