use tx_gateway::error::GatewayError;
use tx_gateway::types::Pubkey;
use tx_gateway::wallet::{wallet_event_update, Wallet};

fn connected() -> Wallet {
    Wallet::Connected(Pubkey { bytes: vec![1; 32] })
}

#[test]
fn fresh_session_is_disconnected() {
    assert_eq!(Wallet::default(), Wallet::Disconnected);
}

#[test]
fn null_sentinel_disconnects() {
    let w = wallet_event_update(connected(), &"null".to_string());
    assert_eq!(w, Wallet::Disconnected);
}

#[test]
fn valid_pubkey_event_connects() {
    let bytes: Vec<u8> = (0..32).collect();
    let payload = format!(
        "[{}]",
        bytes.iter().map(|b| b.to_string()).collect::<Vec<_>>().join(",")
    );
    let w = wallet_event_update(Wallet::Disconnected, &payload);
    assert_eq!(w, Wallet::Connected(Pubkey { bytes }));
}

#[test]
fn wrong_length_event_is_ignored() {
    let w = wallet_event_update(connected(), &"[1,2,3]".to_string());
    assert_eq!(w, connected());
}

#[test]
fn unparseable_event_is_ignored() {
    let w = wallet_event_update(connected(), &"{\"pubkey\": true}".to_string());
    assert_eq!(w, connected());
    let w = wallet_event_update(Wallet::Disconnected, &"[300,1]".to_string());
    assert_eq!(w, Wallet::Disconnected);
}

#[test]
fn error_kinds_are_comparable_and_cloneable() {
    let e = GatewayError::FailedDeserialization;
    let copy = e.clone();
    assert_eq!(e, copy);
    assert_ne!(GatewayError::Unknown, GatewayError::TransactionTimeout);
    assert_ne!(GatewayError::InvalidAddress, GatewayError::InsufficientBalance);
    assert_ne!(GatewayError::WalletDisconnected, GatewayError::Unknown);
}

#[test]
fn address_abbreviation() {
    let addr = "7xKXtg2CW87d97TXJSDpbD5jBkheTqA83TZRuJosgAsU".to_string();
    assert_eq!(
        tx_gateway::wallet::abbreviate_address(&addr),
        "7xKX...gAsU".to_string()
    );
    let short = "abc".to_string();
    assert_eq!(tx_gateway::wallet::abbreviate_address(&short), short);
}
