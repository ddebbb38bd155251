//! Bounded-retry confirmation polling.
//!
//! A submitted signature is polled up to [`CONFIRM_RETRIES`] times,
//! each attempt preceded by one [`CONFIRM_DELAY_MS`] wait. The first
//! report at or beyond `Confirmed` ends the run successfully; a
//! transport error on one attempt is retried, not fatal; an exhausted
//! budget fails with `TransactionTimeout`.

use vstd::prelude::*;

use crate::error::{GatewayError, GatewayResult, TransactionConfirmationStatus};
use crate::rpc::Rpc;
use crate::types::Signature;

verus! {

/// Maximum number of poll attempts for one submitted signature.
pub const CONFIRM_RETRIES: usize = 20;

/// Fixed delay, in milliseconds, that a driver waits before each poll
/// attempt, the first included.
pub const CONFIRM_DELAY_MS: u64 = 1500;

/// One poll attempt's outcome at the transport: the ledger's
/// per-signature statuses, or a transport error.
#[derive(Clone, Debug, PartialEq, Eq)]
pub enum PollResponse {
    Statuses(Vec<Option<TransactionConfirmationStatus>>),
    TransportError(GatewayError),
}

/// Does one reported status reach `Confirmed` or `Finalized`?
pub open spec fn status_confirms(s: Option<TransactionConfirmationStatus>) -> bool {
    s matches Some(c) && (c is Confirmed || c is Finalized)
}

/// Does any status in a report reach `Confirmed` or `Finalized`?
pub open spec fn statuses_confirm(s: Seq<Option<TransactionConfirmationStatus>>) -> bool {
    exists|i: int| 0 <= i < s.len() && status_confirms(s[i])
}

/// Does this attempt's response confirm the signature?
pub open spec fn response_confirms(r: PollResponse) -> bool {
    r matches PollResponse::Statuses(v) && statuses_confirm(v@)
}

/// Does any of the first `n` responses confirm?
pub open spec fn confirmed_before(rs: Seq<PollResponse>, n: int) -> bool {
    exists|i: int| 0 <= i < n && i < rs.len() && response_confirms(rs[i])
}

/// Whether a polling run over the per-attempt responses `rs` succeeds
/// within the retry budget.
pub open spec fn poll_succeeds(rs: Seq<PollResponse>) -> bool {
    confirmed_before(rs, CONFIRM_RETRIES as int)
}

/// Attempts the poller makes from attempt `i` on: up to and including
/// the first confirming response, or the whole budget.
pub open spec fn poll_attempts_from(rs: Seq<PollResponse>, i: int) -> int
    decreases CONFIRM_RETRIES as int - i,
{
    if i < 0 || i >= CONFIRM_RETRIES {
        CONFIRM_RETRIES as int
    } else if i < rs.len() && response_confirms(rs[i]) {
        i + 1
    } else {
        poll_attempts_from(rs, i + 1)
    }
}

/// Attempts the poller makes over the responses `rs`.
pub open spec fn poll_attempts(rs: Seq<PollResponse>) -> int {
    poll_attempts_from(rs, 0)
}

/// Total time a driver spends waiting over the run: one fixed delay
/// before every attempt.
pub open spec fn poll_wait_ms(rs: Seq<PollResponse>) -> int {
    poll_attempts(rs) * CONFIRM_DELAY_MS
}

/// Does any status in the report reach `Confirmed` or `Finalized`?
pub fn any_confirmed(statuses: &Vec<Option<TransactionConfirmationStatus>>) -> (b: bool)
    ensures
        b == statuses_confirm(statuses@),
{
    let n = statuses.len();
    let mut i: usize = 0;
    while i < n
        invariant
            i <= n,
            n == statuses@.len(),
            forall|j: int| 0 <= j < i ==> !status_confirms(statuses@[j]),
        decreases n - i,
    {
        let c = match statuses[i] {
            Some(TransactionConfirmationStatus::Confirmed) => true,
            Some(TransactionConfirmationStatus::Finalized) => true,
            _ => false,
        };
        if c {
            assert(status_confirms(statuses@[i as int]));
            return true;
        }
        i += 1;
    }
    false
}

/// The poller's decision after attempt `attempt` (counted from zero)
/// returned `resp`.
#[derive(Clone, Copy, Debug, PartialEq, Eq)]
pub enum PollDecision {
    Confirmed,
    Retry,
    TimedOut,
}

/// One decision of the bounded-retry policy: the first confirming
/// response wins immediately; anything else retries until the budget
/// is spent.
pub fn poll_step(attempt: usize, resp: &PollResponse) -> (d: PollDecision)
    requires
        attempt < CONFIRM_RETRIES,
    ensures
        d is Confirmed <==> response_confirms(*resp),
        d is TimedOut <==> !response_confirms(*resp) && attempt + 1 == CONFIRM_RETRIES,
        d is Retry <==> !response_confirms(*resp) && attempt + 1 < CONFIRM_RETRIES,
{
    let confirmed = match resp {
        PollResponse::Statuses(v) => any_confirmed(v),
        PollResponse::TransportError(_) => false,
    };
    if confirmed {
        PollDecision::Confirmed
    } else if attempt + 1 == CONFIRM_RETRIES {
        PollDecision::TimedOut
    } else {
        PollDecision::Retry
    }
}

/// Replays the polling loop over prerecorded per-attempt responses:
/// the retry policy itself, testable independently of any transport.
/// Returns the terminal outcome and the number of attempts made; a
/// driver waits [`CONFIRM_DELAY_MS`] once before each attempt.
pub fn run_confirmation(responses: &Vec<PollResponse>, sig: &Signature) -> (r: (
    GatewayResult<Signature>,
    usize,
))
    requires
        responses@.len() >= CONFIRM_RETRIES,
    ensures
        r.1 == poll_attempts(responses@),
        poll_succeeds(responses@) ==> (r.0 matches Ok(s) && s@ == sig@),
        !poll_succeeds(responses@) ==> r.0 == Err::<Signature, GatewayError>(
            GatewayError::TransactionTimeout,
        ),
{
    let mut attempt: usize = 0;
    while attempt < CONFIRM_RETRIES
        invariant
            responses@.len() >= CONFIRM_RETRIES,
            attempt <= CONFIRM_RETRIES,
            forall|j: int| 0 <= j < attempt ==> !response_confirms(responses@[j]),
            poll_attempts(responses@) == poll_attempts_from(responses@, attempt as int),
        decreases CONFIRM_RETRIES - attempt,
    {
        match poll_step(attempt, &responses[attempt]) {
            PollDecision::Confirmed => {
                return (Ok(sig.duplicate()), attempt + 1);
            },
            PollDecision::TimedOut => {
                proof {
                    assert(poll_attempts_from(responses@, attempt as int) == poll_attempts_from(
                        responses@,
                        attempt as int + 1,
                    ));
                    assert(poll_attempts_from(responses@, attempt as int + 1)
                        == CONFIRM_RETRIES as int);
                }
                return (Err(GatewayError::TransactionTimeout), attempt + 1);
            },
            PollDecision::Retry => {},
        }
        attempt += 1;
    }
    (Err(GatewayError::TransactionTimeout), CONFIRM_RETRIES)
}

/// Bounded confirmation polling as a capability extension, available
/// on every transport.
pub trait SolanaGateway: Rpc {
    /// Polls this transport until the signature confirms or the budget
    /// is exhausted, retrying across transport errors; a driver waits
    /// [`CONFIRM_DELAY_MS`] once before each attempt. Success returns
    /// the polled signature itself; the only failure is
    /// `TransactionTimeout`.
    fn confirm_signature(&mut self, sig: &Signature) -> (r: GatewayResult<Signature>)
        ensures
            final(self).submitted() == old(self).submitted(),
            r matches Ok(s) ==> s@ == sig@,
            r matches Err(e) ==> e == GatewayError::TransactionTimeout,
    ;
}

impl<R: Rpc> SolanaGateway for R {
    fn confirm_signature(&mut self, sig: &Signature) -> (r: GatewayResult<Signature>) {
        let mut attempt: usize = 0;
        while attempt < CONFIRM_RETRIES
            invariant
                attempt <= CONFIRM_RETRIES,
                self.submitted() == old(self).submitted(),
            decreases CONFIRM_RETRIES - attempt,
        {
            let mut probe: Vec<Signature> = Vec::new();
            probe.push(sig.duplicate());
            let resp = match self.get_signature_statuses(&probe) {
                Ok(v) => PollResponse::Statuses(v),
                Err(e) => PollResponse::TransportError(e),
            };
            match poll_step(attempt, &resp) {
                PollDecision::Confirmed => {
                    return Ok(sig.duplicate());
                },
                PollDecision::TimedOut => {
                    return Err(GatewayError::TransactionTimeout);
                },
                PollDecision::Retry => {},
            }
            attempt += 1;
        }
        Err(GatewayError::TransactionTimeout)
    }
}

/// The poller returns success on the first confirming response and
/// makes no further attempts: a first confirmation on attempt `k`
/// (counted from zero) means exactly `k + 1` attempts.
pub proof fn lemma_poll_first_confirmation(rs: Seq<PollResponse>, k: int)
    requires
        0 <= k < CONFIRM_RETRIES,
        k < rs.len(),
        response_confirms(rs[k]),
        forall|i: int| 0 <= i < k ==> !response_confirms(rs[i]),
    ensures
        poll_succeeds(rs),
        poll_attempts(rs) == k + 1,
{
    lemma_poll_attempts_reach(rs, 0, k);
}

/// Helper: with no confirmation before `k`, the count from `i` equals
/// the count from anywhere between `i` and `k`.
proof fn lemma_poll_attempts_reach(rs: Seq<PollResponse>, i: int, k: int)
    requires
        0 <= i <= k < CONFIRM_RETRIES,
        k < rs.len(),
        response_confirms(rs[k]),
        forall|j: int| 0 <= j < k ==> !response_confirms(rs[j]),
    ensures
        poll_attempts_from(rs, i) == k + 1,
    decreases k - i,
{
    if i < k {
        lemma_poll_attempts_reach(rs, i + 1, k);
    }
}

/// Statuses that never go beyond `Processed`, or are absent.
pub open spec fn pending_only(s: Seq<Option<TransactionConfirmationStatus>>) -> bool {
    forall|j: int|
        0 <= j < s.len() ==> ((#[trigger] s[j]) matches Some(c) ==> c
            is Processed)
}

/// A run where every attempt reports only `Processed` or absent
/// statuses spends the whole budget — all attempts, each preceded by
/// one fixed delay — and times out.
pub proof fn lemma_poll_exhausts_budget(rs: Seq<PollResponse>)
    requires
        rs.len() >= CONFIRM_RETRIES,
        forall|i: int|
            0 <= i < CONFIRM_RETRIES ==> ((#[trigger] rs[i]) matches PollResponse::Statuses(v)
                && pending_only(v@)),
    ensures
        !poll_succeeds(rs),
        poll_attempts(rs) == CONFIRM_RETRIES,
        poll_wait_ms(rs) == CONFIRM_RETRIES * CONFIRM_DELAY_MS,
{
    assert forall|i: int| 0 <= i < CONFIRM_RETRIES implies !response_confirms(rs[i]) by {
        if response_confirms(rs[i]) {
            let v = rs[i]->Statuses_0;
            let j = choose|j: int| 0 <= j < v@.len() && status_confirms(v@[j]);
            assert(v@[j] matches Some(c) ==> c is Processed);
        }
    }
    lemma_poll_attempts_exhaust(rs, 0);
}

/// Helper: with no confirmation anywhere in the budget, the count from
/// any attempt is the whole budget.
proof fn lemma_poll_attempts_exhaust(rs: Seq<PollResponse>, i: int)
    requires
        0 <= i <= CONFIRM_RETRIES,
        forall|j: int| 0 <= j < CONFIRM_RETRIES ==> !response_confirms(rs[j]),
    ensures
        poll_attempts_from(rs, i) == CONFIRM_RETRIES,
    decreases CONFIRM_RETRIES as int - i,
{
    if i < CONFIRM_RETRIES {
        lemma_poll_attempts_exhaust(rs, i + 1);
    }
}

/// A transport error on one attempt does not abort the run: if attempt
/// `k` fails at the transport and attempt `k + 1` confirms within the
/// budget, the run still succeeds.
pub proof fn lemma_poll_error_then_confirm(rs: Seq<PollResponse>, k: int)
    requires
        0 <= k,
        k + 1 < CONFIRM_RETRIES,
        k + 1 < rs.len(),
        rs[k] matches PollResponse::TransportError(_),
        response_confirms(rs[k + 1]),
    ensures
        poll_succeeds(rs),
{
    assert(confirmed_before(rs, CONFIRM_RETRIES as int)) by {
        assert(0 <= k + 1 < CONFIRM_RETRIES && k + 1 < rs.len() && response_confirms(rs[k + 1]));
    }
}

} // verus!
