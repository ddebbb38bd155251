//! The transaction submission pipeline.
//!
//! One submission runs strictly in sequence: stamp the freshest
//! blockhash (best effort), carry the dual-encoded transaction across
//! the signing boundary, decode the boundary's response, submit, and
//! poll for confirmation. Every run ends in exactly one terminal
//! status; denial and an undecodable payload end it before any
//! submission attempt.

use vstd::prelude::*;

use crate::codec::{b64_of, decode_from_signer, encodable, encode_for_signer, spec_encode, spec_encoded_len};
use crate::error::{GatewayError, GatewayResult};
use crate::poller::SolanaGateway;
use crate::rpc::Rpc;
use crate::types::{Blockhash, Signature, Transaction, TransactionView};

verus! {

/// The client-visible lifecycle of one submission. `Sending(n)` carries
/// the current poll attempt for observability; the other four non-start
/// values are terminal.
#[derive(Clone, Debug, PartialEq, Eq)]
pub enum TransactionStatus {
    Waiting,
    Sending(usize),
    Done(Signature),
    Denied,
    Timeout,
    Error(GatewayError),
}

/// The three shapes a signing-boundary response can take: a payload
/// (expected to be the dual encoding of the fully signed transaction),
/// the explicit denied/null sentinel, or a failure of the boundary
/// call itself.
#[derive(Clone, Debug, PartialEq, Eq)]
pub enum SignerResponse {
    Signed(String),
    Denied,
    Failed,
}

/// What the pipeline does with a signing-boundary response.
#[derive(Clone, Debug, PartialEq, Eq)]
pub enum SignerOutcome {
    /// A fully signed transaction decoded from the payload: submit it.
    Proceed(Transaction),
    /// Terminal, with no submission attempt.
    Abort(TransactionStatus),
}

/// Stamps a freshly fetched blockhash into the transaction in place.
/// A fetch failure changes nothing: the submission proceeds
/// best-effort with whatever blockhash the transaction already had.
pub fn stamp_blockhash(tx: &mut Transaction, fetched: GatewayResult<Blockhash>)
    requires
        old(tx).wf(),
        fetched matches Ok(h) ==> h.wf(),
    ensures
        final(tx).wf(),
        final(tx)@.message.body == old(tx)@.message.body,
        final(tx)@.signatures == old(tx)@.signatures,
        match fetched {
            Ok(h) => final(tx)@.message.recent_blockhash == h@,
            Err(_) => *final(tx) == *old(tx),
        },
{
    match fetched {
        Ok(h) => {
            tx.message.recent_blockhash = h;
            proof {
                assert(final(tx)@.signatures =~= old(tx)@.signatures);
            }
        },
        Err(_) => {},
    }
}

/// Classifies the signing boundary's response. Denial ends the run
/// `Denied`; a boundary failure ends it `Error(Unknown)`; a payload is
/// accepted exactly when it is the dual encoding of a well-formed
/// transaction, and anything else ends the run
/// `Error(FailedDeserialization)`.
pub fn handle_signer_response(resp: &SignerResponse) -> (r: SignerOutcome)
    ensures
        match resp {
            SignerResponse::Denied => r == SignerOutcome::Abort(TransactionStatus::Denied),
            SignerResponse::Failed => r == SignerOutcome::Abort(
                TransactionStatus::Error(GatewayError::Unknown),
            ),
            SignerResponse::Signed(s) => match r {
                SignerOutcome::Proceed(t) => t.wf() && s@ == b64_of(spec_encode(t@)),
                SignerOutcome::Abort(st) => st == TransactionStatus::Error(
                    GatewayError::FailedDeserialization,
                ) && (forall|tv: TransactionView| tv.wf() ==> b64_of(spec_encode(tv)) != s@),
            },
        },
{
    match resp {
        SignerResponse::Denied => SignerOutcome::Abort(TransactionStatus::Denied),
        SignerResponse::Failed => SignerOutcome::Abort(
            TransactionStatus::Error(GatewayError::Unknown),
        ),
        SignerResponse::Signed(s) => {
            match decode_from_signer(s) {
                Some(t) => SignerOutcome::Proceed(t),
                None => SignerOutcome::Abort(
                    TransactionStatus::Error(GatewayError::FailedDeserialization),
                ),
            }
        },
    }
}

/// Stamps the freshest blockhash into the transaction (best effort:
/// a failed fetch leaves it unchanged) and returns the dual-encoded
/// signing request for the now-stamped transaction.
pub fn prepare_signing_request<R: Rpc>(rpc: &mut R, tx: &mut Transaction) -> (s: String)
    requires
        old(tx).wf(),
        encodable(old(tx)@),
    ensures
        final(rpc).submitted() == old(rpc).submitted(),
        final(tx).wf(),
        encodable(final(tx)@),
        final(tx)@.message.body == old(tx)@.message.body,
        final(tx)@.signatures == old(tx)@.signatures,
        s@ == b64_of(spec_encode(final(tx)@)),
{
    let fetched = rpc.get_latest_blockhash();
    stamp_blockhash(tx, fetched);
    proof {
        assert(spec_encoded_len(tx@) == spec_encoded_len(old(tx)@));
    }
    encode_for_signer(tx)
}

/// Finishes a submission from the signing boundary's response: decode,
/// submit, and poll for confirmation.
///
/// Denial, a boundary failure, and an undecodable payload are terminal
/// with zero submission attempts; a decodable payload is submitted
/// exactly once and ends `Done`, `Timeout`, or `Error` with the
/// submission failure.
pub fn complete_submission<R: Rpc>(rpc: &mut R, resp: &SignerResponse) -> (st: TransactionStatus)
    ensures
        resp is Denied ==> st == TransactionStatus::Denied
            && final(rpc).submitted() == old(rpc).submitted(),
        resp is Failed ==> st == TransactionStatus::Error(GatewayError::Unknown)
            && final(rpc).submitted() == old(rpc).submitted(),
        (resp matches SignerResponse::Signed(s) && (forall|tv: TransactionView|
            tv.wf() ==> b64_of(spec_encode(tv)) != s@)) ==> st == TransactionStatus::Error(
            GatewayError::FailedDeserialization,
        ) && final(rpc).submitted() == old(rpc).submitted(),
        resp matches SignerResponse::Signed(s) ==> ((exists|tv: TransactionView|
            tv.wf() && b64_of(spec_encode(tv)) == s@) ==> ((exists|tv: TransactionView|
            tv.wf() && b64_of(spec_encode(tv)) == s@ && final(rpc).submitted() == old(
                rpc,
            ).submitted().push(tv)) && (st matches TransactionStatus::Done(sg) ==> sg.wf()) && (st
            is Done || st is Timeout || st is Error))),
        !(st is Waiting) && !(st is Sending),
{
    match handle_signer_response(resp) {
        SignerOutcome::Abort(st) => st,
        SignerOutcome::Proceed(t) => {
            match rpc.send_transaction(&t) {
                Err(e) => TransactionStatus::Error(e),
                Ok(sig) => {
                    match rpc.confirm_signature(&sig) {
                        Ok(s) => TransactionStatus::Done(s),
                        Err(_) => TransactionStatus::Timeout,
                    }
                },
            }
        },
    }
}

/// Drives one whole submission: stamp, encode, take the signing
/// boundary's one response, decode, submit, poll. Returns the signing
/// request that crossed the boundary (the dual encoding of the stamped
/// transaction, left in `tx`) and the terminal status.
pub fn submit_transaction<R: Rpc>(rpc: &mut R, tx: &mut Transaction, resp: &SignerResponse) -> (r: (
    String,
    TransactionStatus,
))
    requires
        old(tx).wf(),
        encodable(old(tx)@),
    ensures
        final(tx).wf(),
        final(tx)@.message.body == old(tx)@.message.body,
        final(tx)@.signatures == old(tx)@.signatures,
        r.0@ == b64_of(spec_encode(final(tx)@)),
        resp is Denied ==> r.1 == TransactionStatus::Denied
            && final(rpc).submitted() == old(rpc).submitted(),
        resp is Failed ==> r.1 == TransactionStatus::Error(GatewayError::Unknown)
            && final(rpc).submitted() == old(rpc).submitted(),
        (resp matches SignerResponse::Signed(s) && (forall|tv: TransactionView|
            tv.wf() ==> b64_of(spec_encode(tv)) != s@)) ==> r.1 == TransactionStatus::Error(
            GatewayError::FailedDeserialization,
        ) && final(rpc).submitted() == old(rpc).submitted(),
        resp matches SignerResponse::Signed(s) ==> ((exists|tv: TransactionView|
            tv.wf() && b64_of(spec_encode(tv)) == s@) ==> ((exists|tv: TransactionView|
            tv.wf() && b64_of(spec_encode(tv)) == s@ && final(rpc).submitted() == old(
                rpc,
            ).submitted().push(tv)) && (r.1 is Done || r.1 is Timeout || r.1 is Error))),
        !(r.1 is Waiting) && !(r.1 is Sending),
{
    let request = prepare_signing_request(rpc, tx);
    let status = complete_submission(rpc, resp);
    (request, status)
}

} // verus!
