use tx_gateway::codec::{encode_for_signer, encode_tx};
use tx_gateway::error::{GatewayError, TransactionConfirmationStatus};
use tx_gateway::rpc::{Gateway, Rpc, ScriptRpc};
use tx_gateway::submit::{
    complete_submission, handle_signer_response, prepare_signing_request, submit_transaction,
    stamp_blockhash, SignerOutcome, SignerResponse, TransactionStatus,
};
use tx_gateway::types::{Blockhash, Message, Signature, Transaction};

fn unsigned_tx() -> Transaction {
    Transaction {
        message: Message {
            recent_blockhash: Blockhash { bytes: vec![0x11; 32] },
            body: vec![4, 5, 6, 7],
        },
        signatures: vec![],
    }
}

fn signed_tx() -> Transaction {
    let mut tx = unsigned_tx();
    tx.message.recent_blockhash = Blockhash { bytes: vec![0x22; 32] };
    tx.signatures = vec![Signature { bytes: vec![3; 64] }];
    tx
}

fn net_sig() -> Signature {
    Signature { bytes: vec![3; 64] }
}

#[test]
fn stamping_overwrites_blockhash_on_success() {
    let mut tx = unsigned_tx();
    let fresh = Blockhash { bytes: vec![0x22; 32] };
    stamp_blockhash(&mut tx, Ok(fresh.clone()));
    assert_eq!(tx.message.recent_blockhash, fresh);
    assert_eq!(tx.message.body, vec![4, 5, 6, 7]);
    assert!(tx.signatures.is_empty());
}

#[test]
fn stamping_keeps_transaction_on_failure() {
    let mut tx = unsigned_tx();
    stamp_blockhash(&mut tx, Err(GatewayError::Unknown));
    assert_eq!(tx, unsigned_tx());
}

#[test]
fn preparing_stamps_fresh_hash_before_the_request() {
    let mut rpc = ScriptRpc::empty();
    rpc.blockhashes = vec![Ok(Blockhash { bytes: vec![0x22; 32] })];
    let mut tx = unsigned_tx();
    let request = prepare_signing_request(&mut rpc, &mut tx);
    assert_eq!(tx.message.recent_blockhash.bytes, vec![0x22; 32]);
    // The request carries the stamped transaction.
    assert_eq!(request, encode_for_signer(&tx));
}

#[test]
fn preparing_proceeds_on_fetch_failure_with_old_hash() {
    let mut rpc = ScriptRpc::empty();
    let mut tx = unsigned_tx();
    let request = prepare_signing_request(&mut rpc, &mut tx);
    assert_eq!(tx, unsigned_tx());
    assert_eq!(request, encode_for_signer(&unsigned_tx()));
}

#[test]
fn denial_is_terminal_with_zero_submissions() {
    let mut rpc = ScriptRpc::empty();
    rpc.send_results = vec![Ok(net_sig())];
    let st = complete_submission(&mut rpc, &SignerResponse::Denied);
    assert_eq!(st, TransactionStatus::Denied);
    // The scripted submission response was never consumed.
    assert_eq!(rpc.send_results.len(), 1);
}

#[test]
fn boundary_failure_maps_to_unknown() {
    let mut rpc = ScriptRpc::empty();
    rpc.send_results = vec![Ok(net_sig())];
    let st = complete_submission(&mut rpc, &SignerResponse::Failed);
    assert_eq!(st, TransactionStatus::Error(GatewayError::Unknown));
    assert_eq!(rpc.send_results.len(), 1);
}

#[test]
fn malformed_payload_fails_deserialization_with_zero_submissions() {
    let mut rpc = ScriptRpc::empty();
    rpc.send_results = vec![Ok(net_sig())];
    let st =
        complete_submission(&mut rpc, &SignerResponse::Signed("%%%not a payload%%%".to_string()));
    assert_eq!(st, TransactionStatus::Error(GatewayError::FailedDeserialization));
    assert_eq!(rpc.send_results.len(), 1);
}

#[test]
fn classification_of_signer_responses() {
    assert_eq!(
        handle_signer_response(&SignerResponse::Denied),
        SignerOutcome::Abort(TransactionStatus::Denied)
    );
    assert_eq!(
        handle_signer_response(&SignerResponse::Failed),
        SignerOutcome::Abort(TransactionStatus::Error(GatewayError::Unknown))
    );
    let payload = encode_for_signer(&signed_tx());
    assert_eq!(
        handle_signer_response(&SignerResponse::Signed(payload)),
        SignerOutcome::Proceed(signed_tx())
    );
}

#[test]
fn full_run_confirms_on_third_poll() {
    let mut rpc = ScriptRpc::empty();
    rpc.blockhashes = vec![Ok(Blockhash { bytes: vec![0x22; 32] })];
    rpc.send_results = vec![Ok(net_sig())];
    rpc.statuses = vec![
        Ok(None),
        Ok(Some(TransactionConfirmationStatus::Processed)),
        Ok(Some(TransactionConfirmationStatus::Finalized)),
        Ok(Some(TransactionConfirmationStatus::Finalized)),
        Ok(Some(TransactionConfirmationStatus::Finalized)),
    ];
    let mut tx = unsigned_tx();
    let payload = encode_for_signer(&signed_tx());
    let (request, st) = submit_transaction(&mut rpc, &mut tx, &SignerResponse::Signed(payload));
    assert_eq!(st, TransactionStatus::Done(net_sig()));
    assert_eq!(tx.message.recent_blockhash.bytes, vec![0x22; 32]);
    assert_eq!(request, encode_for_signer(&tx));
    // Exactly three poll attempts (and so three delays) were spent.
    assert_eq!(rpc.statuses.len(), 2);
    assert_eq!(rpc.send_results.len(), 0);
}

#[test]
fn full_run_denied_never_submits() {
    let mut rpc = ScriptRpc::empty();
    rpc.blockhashes = vec![Ok(Blockhash { bytes: vec![0x22; 32] })];
    rpc.send_results = vec![Ok(net_sig())];
    let mut tx = unsigned_tx();
    let (_, st) = submit_transaction(&mut rpc, &mut tx, &SignerResponse::Denied);
    assert_eq!(st, TransactionStatus::Denied);
    assert_eq!(rpc.send_results.len(), 1);
}

#[test]
fn submission_failure_surfaces_mapped_error() {
    let mut rpc = ScriptRpc::empty();
    rpc.send_results = vec![Err(GatewayError::InsufficientBalance)];
    let payload = encode_for_signer(&signed_tx());
    let st = complete_submission(&mut rpc, &SignerResponse::Signed(payload));
    assert_eq!(st, TransactionStatus::Error(GatewayError::InsufficientBalance));
}

#[test]
fn exhausted_polling_times_out() {
    let mut rpc = ScriptRpc::empty();
    rpc.send_results = vec![Ok(net_sig())];
    rpc.statuses = vec![Ok(Some(TransactionConfirmationStatus::Processed)); 20];
    let payload = encode_for_signer(&signed_tx());
    let st = complete_submission(&mut rpc, &SignerResponse::Signed(payload));
    assert_eq!(st, TransactionStatus::Timeout);
    assert_eq!(rpc.statuses.len(), 0);
}

#[test]
fn gateway_owns_a_fresh_client() {
    let gateway: Gateway<ScriptRpc> = Gateway::new("https://rpc.example".to_string());
    assert_eq!(gateway.rpc.blockhashes.len(), 0);
    assert_eq!(gateway.rpc.send_results.len(), 0);
}

#[test]
fn balance_lookup_follows_the_script() {
    let mut rpc = ScriptRpc::empty();
    rpc.balances = vec![Ok(1_000_000), Err(GatewayError::InvalidAddress)];
    let pk = tx_gateway::types::Pubkey { bytes: vec![5; 32] };
    assert_eq!(rpc.get_balance(&pk), Ok(1_000_000));
    assert_eq!(rpc.get_balance(&pk), Err(GatewayError::InvalidAddress));
    assert_eq!(rpc.get_balance(&pk), Err(GatewayError::Unknown));
}

#[test]
fn status_lookup_is_positionally_correlated() {
    let mut rpc = ScriptRpc::empty();
    rpc.statuses = vec![Ok(Some(TransactionConfirmationStatus::Confirmed))];
    let sigs = vec![net_sig(), net_sig(), net_sig()];
    let got = rpc.get_signature_statuses(&sigs).unwrap();
    assert_eq!(got.len(), 3);
}
