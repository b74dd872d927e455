//! The retry envelope round one outbound call: exponential backoff up to a ceiling.
//!
//! The caller makes the call and reports what came back. The envelope decides whether the answer
//! is a document, whether to wait and call again, or whether to give up.

use vstd::prelude::*;
use crate::error::{ErrorKind, ScanError, ScanErrorView, Call};
use crate::json::{document_of, parse_document};

verus! {

/// How often a call is attempted at most: the first attempt and four retries.
pub const MAX_ATTEMPTS: u32 = 5;

/// Two to the power `n`.
pub open spec fn pow2(n: nat) -> nat
    decreases n,
{
    if n == 0 {
        1
    } else {
        2 * pow2((n - 1) as nat)
    }
}

/// The pause before retry number `attempt`, in milliseconds: two to the power `attempt` seconds.
pub open spec fn backoff_ms(attempt: nat) -> nat {
    pow2(attempt) * 1000
}

/// What to do after one attempt.
#[derive(Debug, PartialEq)]
pub enum FetchStep {
    /// The body was a document: the call is over.
    Done(serde_json::Value),
    /// Wait, then call again, with this many attempts made.
    Wait { retry: u32, wait_ms: u64 },
    /// The last attempt that the ceiling allows has failed: the call has failed for good.
    GiveUp(ScanError),
}

/// A `FetchStep` over sequences of characters.
pub enum FetchStepView {
    Done(serde_json::Value),
    Wait { retry: u32, wait_ms: u64 },
    GiveUp(ScanErrorView),
}

impl View for FetchStep {
    type V = FetchStepView;

    open spec fn view(&self) -> FetchStepView {
        match self {
            FetchStep::Done(document) => FetchStepView::Done(*document),
            FetchStep::Wait { retry, wait_ms } => FetchStepView::Wait {
                retry: *retry,
                wait_ms: *wait_ms,
            },
            FetchStep::GiveUp(error) => FetchStepView::GiveUp(error@),
        }
    }
}

/// The step after a failed attempt. `retry` counts the attempts made before the failed one, so
/// the failed attempt is number `retry + 1`; `body` is what it returned, empty where nothing
/// came back. The attempt that reaches the ceiling is the last.
pub open spec fn failure_step(call: Call, retry: u32, body: Seq<char>) -> FetchStepView {
    if retry + 1 >= MAX_ATTEMPTS {
        FetchStepView::GiveUp(
            ScanErrorView { kind: ErrorKind::Fetch(call), subject: body, detail: Seq::empty() },
        )
    } else {
        FetchStepView::Wait {
            retry: (retry + 1) as u32,
            wait_ms: backoff_ms((retry + 1) as nat) as u64,
        }
    }
}

/// The step after an attempt that returned `body`, or nothing where the transport failed.
pub open spec fn fetch_step(call: Call, retry: u32, body: Option<Seq<char>>) -> FetchStepView {
    match body {
        Some(text) => match document_of(text) {
            Some(document) => FetchStepView::Done(document),
            None => failure_step(call, retry, text),
        },
        None => failure_step(call, retry, Seq::empty()),
    }
}

/// Whether an attempt failed: nothing came back, or what came back is no document.
pub open spec fn attempt_failed(body: Option<Seq<char>>) -> bool {
    match body {
        Some(text) => document_of(text) is None,
        None => true,
    }
}

/// What a failed attempt returned, empty where nothing came back.
pub open spec fn failed_body(body: Option<Seq<char>>) -> Seq<char> {
    match body {
        Some(text) => text,
        None => Seq::empty(),
    }
}

/// Where a series of attempts ends when the first of them is made with `retry` attempts behind
/// it: with a document, with a failure, or nowhere yet (`None`) where the series runs out while
/// the envelope still waits.
pub open spec fn run_from(call: Call, attempts: Seq<Option<Seq<char>>>, retry: u32) -> Option<
    Result<serde_json::Value, ScanErrorView>,
>
    decreases attempts.len(),
{
    if attempts.len() == 0 {
        None
    } else {
        match fetch_step(call, retry, attempts[0]) {
            FetchStepView::Done(document) => Some(Ok(document)),
            FetchStepView::GiveUp(error) => Some(Err(error)),
            FetchStepView::Wait { retry: next, .. } => run_from(call, attempts.skip(1), next),
        }
    }
}

/// Where a series of attempts ends, from the first call on.
pub open spec fn run(call: Call, attempts: Seq<Option<Seq<char>>>) -> Option<
    Result<serde_json::Value, ScanErrorView>,
> {
    run_from(call, attempts, 0)
}

proof fn lemma_pow2_small()
    ensures
        pow2(0) == 1,
        pow2(1) == 2,
        pow2(2) == 4,
        pow2(3) == 8,
        pow2(4) == 16,
{
    reveal_with_fuel(pow2, 6);
}

/// The pauses of the envelope: 2, 4, 8 and 16 seconds.
pub proof fn lemma_backoff_ladder()
    ensures
        backoff_ms(1) == 2000,
        backoff_ms(2) == 4000,
        backoff_ms(3) == 8000,
        backoff_ms(4) == 16000,
{
    lemma_pow2_small();
}

/// Decides after a failed attempt: wait `2^(retry + 1)` seconds and call again, or give up
/// where the failed attempt was the last that the ceiling allows, with its body in the failure.
pub fn after_failure(call: Call, retry: u32, body: &str) -> (step: FetchStep)
    ensures
        step@ == failure_step(call, retry, body@),
{
    if retry >= MAX_ATTEMPTS - 1 {
        FetchStep::GiveUp(ScanError::about(ErrorKind::Fetch(call), body))
    } else {
        let next: u32 = retry + 1;
        let mut wait_ms: u64 = 1000;
        let mut i: u32 = 0;
        while i < next
            invariant
                i <= next <= 4,
                wait_ms == backoff_ms(i as nat),
                wait_ms <= 16000,
            decreases next - i,
        {
            proof {
                lemma_pow2_small();
            }
            wait_ms = wait_ms * 2;
            i += 1;
        }
        FetchStep::Wait { retry: next, wait_ms }
    }
}

/// Takes what one attempt returned (`None` where the transport failed) and decides the next
/// step. `retry` counts the attempts made before this one: 0 at the first call.
pub fn fetch(call: Call, body: Option<&str>, retry: u32) -> (step: FetchStep)
    ensures
        step@ == fetch_step(
            call,
            retry,
            match body {
                Some(text) => Some(text@),
                None => None,
            },
        ),
{
    match body {
        Some(text) => match parse_document(text) {
            Some(document) => FetchStep::Done(document),
            None => after_failure(call, retry, text),
        },
        None => {
            proof {
                reveal_strlit("");
                assert(""@ =~= Seq::<char>::empty());
            }
            after_failure(call, retry, "")
        },
    }
}

/// A run that starts with `retry` attempts behind it and fails `k` times before a body parses
/// ends with that document, as long as the attempt that parses is within the ceiling.
proof fn lemma_run_succeeds_from(
    call: Call,
    attempts: Seq<Option<Seq<char>>>,
    retry: u32,
    k: nat,
    document: serde_json::Value,
)
    requires
        retry + k < MAX_ATTEMPTS,
        k < attempts.len(),
        forall|i: int| 0 <= i < k ==> attempt_failed(#[trigger] attempts[i]),
        attempts[k as int] is Some,
        document_of(attempts[k as int]->0) == Some(document),
    ensures
        run_from(call, attempts, retry) == Some(Ok::<_, ScanErrorView>(document)),
    decreases k,
{
    if k == 0 {
    } else {
        assert(attempt_failed(attempts[0]));
        let rest = attempts.skip(1);
        assert forall|i: int| 0 <= i < k - 1 implies attempt_failed(#[trigger] rest[i]) by {
            assert(rest[i] == attempts[i + 1]);
        }
        assert(rest[(k - 1) as int] == attempts[k as int]);
        lemma_run_succeeds_from(call, rest, (retry + 1) as u32, (k - 1) as nat, document);
    }
}

/// A run that starts with `retry` attempts behind it and keeps failing gives up at the attempt
/// that reaches the ceiling, and reports that attempt's body.
proof fn lemma_run_gives_up_from(call: Call, attempts: Seq<Option<Seq<char>>>, retry: u32)
    requires
        retry < MAX_ATTEMPTS,
        attempts.len() >= MAX_ATTEMPTS - retry,
        forall|i: int| 0 <= i < MAX_ATTEMPTS - retry ==> attempt_failed(#[trigger] attempts[i]),
    ensures
        run_from(call, attempts, retry) == Some(
            Err::<serde_json::Value, _>(
                ScanErrorView {
                    kind: ErrorKind::Fetch(call),
                    subject: failed_body(attempts[MAX_ATTEMPTS - 1 - retry]),
                    detail: Seq::empty(),
                },
            ),
        ),
    decreases MAX_ATTEMPTS - retry,
{
    assert(attempt_failed(attempts[0]));
    if retry + 1 == MAX_ATTEMPTS {
    } else {
        let rest = attempts.skip(1);
        assert forall|i: int| 0 <= i < MAX_ATTEMPTS - (retry + 1) implies attempt_failed(
            #[trigger] rest[i],
        ) by {
            assert(rest[i] == attempts[i + 1]);
        }
        assert(rest[MAX_ATTEMPTS - 1 - (retry + 1)] == attempts[MAX_ATTEMPTS - 1 - retry]);
        lemma_run_gives_up_from(call, rest, (retry + 1) as u32);
    }
}

/// A call that fails `k` times and then returns a document ends with that document, for every
/// `k` below `MAX_ATTEMPTS`: the document comes at the fifth attempt at the latest.
pub proof fn lemma_retry_recovers(
    call: Call,
    attempts: Seq<Option<Seq<char>>>,
    k: nat,
    document: serde_json::Value,
)
    requires
        k < MAX_ATTEMPTS,
        k < attempts.len(),
        forall|i: int| 0 <= i < k ==> attempt_failed(#[trigger] attempts[i]),
        attempts[k as int] is Some,
        document_of(attempts[k as int]->0) == Some(document),
    ensures
        run(call, attempts) == Some(Ok::<_, ScanErrorView>(document)),
{
    lemma_run_succeeds_from(call, attempts, 0, k, document);
}

/// A call that fails at every attempt is given up at attempt number `MAX_ATTEMPTS`: no further
/// attempt is made, and the failure carries the body of that last attempt.
pub proof fn lemma_retry_gives_up(call: Call, attempts: Seq<Option<Seq<char>>>)
    requires
        attempts.len() >= MAX_ATTEMPTS,
        forall|i: int| 0 <= i < MAX_ATTEMPTS ==> attempt_failed(#[trigger] attempts[i]),
    ensures
        run(call, attempts) == Some(
            Err::<serde_json::Value, _>(
                ScanErrorView {
                    kind: ErrorKind::Fetch(call),
                    subject: failed_body(attempts[MAX_ATTEMPTS - 1]),
                    detail: Seq::empty(),
                },
            ),
        ),
{
    lemma_run_gives_up_from(call, attempts, 0);
}

/// The envelope never waits longer than sixteen seconds, and never after the last attempt.
pub proof fn lemma_waits_are_bounded(call: Call, retry: u32, body: Seq<char>)
    ensures
        match failure_step(call, retry, body) {
            FetchStepView::Wait { retry: next, wait_ms } => next == retry + 1 && next
                < MAX_ATTEMPTS && 2000 <= wait_ms <= 16000,
            FetchStepView::GiveUp(_) => retry + 1 >= MAX_ATTEMPTS,
            FetchStepView::Done(_) => false,
        },
{
    lemma_pow2_small();
}

} // verus!
