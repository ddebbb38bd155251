use tx_gateway::error::{GatewayError, TransactionConfirmationStatus};
use tx_gateway::poller::{
    any_confirmed, poll_step, run_confirmation, PollDecision, PollResponse, SolanaGateway,
    CONFIRM_DELAY_MS, CONFIRM_RETRIES,
};
use tx_gateway::rpc::{normalize_confirmation, ScriptRpc};
use tx_gateway::types::Signature;

fn sig() -> Signature {
    Signature { bytes: vec![9; 64] }
}

fn statuses(s: Option<TransactionConfirmationStatus>) -> PollResponse {
    PollResponse::Statuses(vec![s])
}

fn pad_to_budget(mut v: Vec<PollResponse>) -> Vec<PollResponse> {
    while v.len() < CONFIRM_RETRIES {
        v.push(statuses(None));
    }
    v
}

#[test]
fn poll_constants() {
    assert_eq!(CONFIRM_RETRIES, 20);
    assert_eq!(CONFIRM_DELAY_MS, 1500);
}

#[test]
fn success_on_first_confirmation() {
    let responses = pad_to_budget(vec![statuses(Some(TransactionConfirmationStatus::Confirmed))]);
    let (res, attempts) = run_confirmation(&responses, &sig());
    assert_eq!(res, Ok(sig()));
    assert_eq!(attempts, 1);
}

#[test]
fn success_on_third_attempt_stops_there() {
    let responses = pad_to_budget(vec![
        statuses(None),
        statuses(Some(TransactionConfirmationStatus::Processed)),
        statuses(Some(TransactionConfirmationStatus::Finalized)),
        statuses(Some(TransactionConfirmationStatus::Finalized)),
    ]);
    let (res, attempts) = run_confirmation(&responses, &sig());
    assert_eq!(res, Ok(sig()));
    assert_eq!(attempts, 3);
}

#[test]
fn pending_only_exhausts_whole_budget() {
    let responses =
        pad_to_budget(vec![statuses(Some(TransactionConfirmationStatus::Processed)); 20]);
    let (res, attempts) = run_confirmation(&responses, &sig());
    assert_eq!(res, Err(GatewayError::TransactionTimeout));
    assert_eq!(attempts, CONFIRM_RETRIES);
}

#[test]
fn absent_statuses_time_out() {
    let responses = pad_to_budget(Vec::new());
    let (res, attempts) = run_confirmation(&responses, &sig());
    assert_eq!(res, Err(GatewayError::TransactionTimeout));
    assert_eq!(attempts, 20);
}

#[test]
fn transport_error_does_not_abort() {
    let responses = pad_to_budget(vec![
        PollResponse::TransportError(GatewayError::Unknown),
        statuses(Some(TransactionConfirmationStatus::Confirmed)),
    ]);
    let (res, attempts) = run_confirmation(&responses, &sig());
    assert_eq!(res, Ok(sig()));
    assert_eq!(attempts, 2);
}

#[test]
fn errors_on_every_attempt_time_out() {
    let responses = vec![PollResponse::TransportError(GatewayError::Unknown); 20];
    let (res, attempts) = run_confirmation(&responses, &sig());
    assert_eq!(res, Err(GatewayError::TransactionTimeout));
    assert_eq!(attempts, 20);
}

#[test]
fn step_decisions() {
    let confirmed = statuses(Some(TransactionConfirmationStatus::Finalized));
    let pending = statuses(Some(TransactionConfirmationStatus::Processed));
    assert!(matches!(poll_step(0, &confirmed), PollDecision::Confirmed));
    assert!(matches!(poll_step(19, &confirmed), PollDecision::Confirmed));
    assert!(matches!(poll_step(0, &pending), PollDecision::Retry));
    assert!(matches!(poll_step(19, &pending), PollDecision::TimedOut));
    assert!(matches!(
        poll_step(19, &PollResponse::TransportError(GatewayError::Unknown)),
        PollDecision::TimedOut
    ));
}

#[test]
fn any_confirmed_scans_all_positions() {
    assert!(!any_confirmed(&vec![]));
    assert!(!any_confirmed(&vec![None, Some(TransactionConfirmationStatus::Processed)]));
    assert!(any_confirmed(&vec![None, Some(TransactionConfirmationStatus::Confirmed)]));
    assert!(any_confirmed(&vec![Some(TransactionConfirmationStatus::Finalized), None]));
}

#[test]
fn normalization_flattens_raw_records() {
    assert_eq!(normalize_confirmation(None), None);
    assert_eq!(normalize_confirmation(Some(None)), None);
    assert_eq!(
        normalize_confirmation(Some(Some(TransactionConfirmationStatus::Confirmed))),
        Some(TransactionConfirmationStatus::Confirmed)
    );
}

#[test]
fn finality_order() {
    let p = TransactionConfirmationStatus::Processed.finality_rank();
    let c = TransactionConfirmationStatus::Confirmed.finality_rank();
    let f = TransactionConfirmationStatus::Finalized.finality_rank();
    assert!(p < c && c < f);
}

#[test]
fn confirm_signature_over_transport() {
    let mut rpc = ScriptRpc::empty();
    rpc.statuses = vec![
        Ok(None),
        Err(GatewayError::Unknown),
        Ok(Some(TransactionConfirmationStatus::Confirmed)),
    ];
    assert_eq!(rpc.confirm_signature(&sig()), Ok(sig()));
    // Exactly three attempts were made.
    assert_eq!(rpc.statuses.len(), 0);
}

#[test]
fn confirm_signature_times_out_on_exhausted_transport() {
    let mut rpc = ScriptRpc::empty();
    assert_eq!(rpc.confirm_signature(&sig()), Err(GatewayError::TransactionTimeout));
}
