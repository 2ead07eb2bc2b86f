//! The counter core: the shared state, the query handler and the update
//! handler, together with the laws that hold of them.

use vstd::prelude::*;

verus! {

/// The one value the update operation always rejects.
pub const FORBIDDEN_VALUE: u64 = 10;

/// The record exchanged with callers: the counter's current or proposed value.
pub struct CounterValue {
    pub counter: u64,
}

/// The core's one error kind: the proposed value was the forbidden one.
/// It carries a human-readable message naming the rejected value.
pub enum CounterError {
    InvalidInput { message: String },
}

/// Whether the update operation accepts a proposed value.
pub open spec fn accepts(v: u64) -> bool {
    v != FORBIDDEN_VALUE
}

/// The state the counter holds after one update: the proposed value if it is
/// accepted, the old state otherwise.
pub open spec fn spec_update(state: u64, v: u64) -> u64 {
    if accepts(v) {
        v
    } else {
        state
    }
}

/// The message carried by a rejected update.
pub open spec fn rejection_message() -> Seq<char> {
    "do not like the number 10"@
}

/// Shared state of the service: the single process-wide counter.
///
/// It is created once at startup, initialized to zero, and every handler
/// invocation borrows access to it.
pub struct ExampleContext {
    counter: u64,
}

impl View for ExampleContext {
    type V = u64;

    closed spec fn view(&self) -> u64 {
        self.counter
    }
}

impl ExampleContext {
    /// Return a new context whose counter starts at zero.
    pub fn new() -> (ctx: ExampleContext)
        ensures
            ctx@ == 0u64,
    {
        ExampleContext { counter: 0 }
    }

    /// Return the current value of the counter; never fails, no side effects.
    pub fn get(&self) -> (v: u64)
        ensures
            v == self@,
    {
        self.counter
    }

    /// Replace the value of the counter unconditionally; never fails.
    pub fn set(&mut self, v: u64)
        ensures
            final(self)@ == v,
    {
        self.counter = v;
    }
}

/// Fetch the current value of the counter. Always succeeds, no side effects.
pub fn example_api_get_counter(ctx: &ExampleContext) -> (r: CounterValue)
    ensures
        r.counter == ctx@,
{
    CounterValue { counter: ctx.get() }
}

/// Update the current value of the counter. Every value is accepted except
/// the forbidden one; a rejected update leaves the counter unchanged and
/// returns an error whose message names the rejected value.
pub fn example_api_put_counter(ctx: &mut ExampleContext, update: CounterValue) -> (r: Result<
    (),
    CounterError,
>)
    ensures
        final(ctx)@ == spec_update(old(ctx)@, update.counter),
        r is Ok <==> accepts(update.counter),
        r matches Err(e) ==> (e matches CounterError::InvalidInput { message } && message@
            == rejection_message()),
{
    if update.counter == FORBIDDEN_VALUE {
        Err(
            CounterError::InvalidInput {
                message: "do not like the number 10".to_owned(),
            },
        )
    } else {
        ctx.set(update.counter);
        Ok(())
    }
}

/// An accepted update stores exactly the proposed value, so a query right
/// after it returns that value.
pub proof fn lemma_accepted_update_round_trip(state: u64, v: u64)
    requires
        accepts(v),
    ensures
        spec_update(state, v) == v,
{
}

/// A rejected update leaves the counter exactly as it was.
pub proof fn lemma_rejected_update_unchanged(state: u64)
    ensures
        spec_update(state, FORBIDDEN_VALUE) == state,
{
}

/// Updating twice in succession with the same accepted value leaves the
/// counter at that value after either call.
pub proof fn lemma_update_idempotent(state: u64, v: u64)
    requires
        accepts(v),
    ensures
        spec_update(spec_update(state, v), v) == spec_update(state, v),
        spec_update(state, v) == v,
{
}

/// The counter never holds the forbidden value: it starts at zero and every
/// update either keeps the old state or stores an accepted value.
pub proof fn lemma_update_preserves_validity(state: u64, v: u64)
    requires
        state != FORBIDDEN_VALUE,
    ensures
        spec_update(state, v) != FORBIDDEN_VALUE,
{
}

/// The state after a sequence of updates, applied first to last.
pub open spec fn apply_updates(state: u64, vs: Seq<u64>) -> u64
    decreases vs.len(),
{
    if vs.len() == 0 {
        state
    } else {
        apply_updates(spec_update(state, vs[0]), vs.subrange(1, vs.len() as int))
    }
}

/// However concurrent updates are serialized, the counter ends at one of the
/// submitted values: applying any nonempty sequence of accepted values, in
/// any order, leaves the counter at a value of that sequence — never a torn
/// or out-of-range one.
pub proof fn lemma_updates_yield_submitted_value(state: u64, vs: Seq<u64>)
    requires
        vs.len() > 0,
        forall|i: int| 0 <= i < vs.len() ==> accepts(vs[i]),
    ensures
        vs.contains(apply_updates(state, vs)),
    decreases vs.len(),
{
    let rest = vs.subrange(1, vs.len() as int);
    if vs.len() == 1 {
        assert(apply_updates(state, vs) == vs[0]);
        assert(vs.contains(vs[0]));
    } else {
        lemma_updates_yield_submitted_value(spec_update(state, vs[0]), rest);
        let w = apply_updates(spec_update(state, vs[0]), rest);
        let j = choose|j: int| 0 <= j < rest.len() && rest[j] == w;
        assert(vs[j + 1] == w);
    }
}

} // verus!
