//! Wallet connection state, updated from wallet-provider events.
//!
//! The host page's wallet provider announces connection changes as
//! text events: the `"null"` sentinel for a disconnect, or a JSON
//! array of 32 bytes for the connected address.

use vstd::prelude::*;

use crate::types::{Pubkey, PUBKEY_BYTES};

verus! {

/// Whether a signing wallet is connected, and at which address.
#[derive(Clone, Debug, PartialEq, Eq)]
pub enum Wallet {
    Connected(Pubkey),
    Disconnected,
}

impl Default for Wallet {
    /// A fresh session starts disconnected.
    fn default() -> (w: Self)
        ensures
            w is Disconnected,
    {
        Wallet::Disconnected
    }
}

/// What serde_json parses a text as, when read as a JSON array of
/// bytes.
pub uninterp spec fn json_byte_array_of(s: Seq<char>) -> Option<Seq<u8>>;

/// Relies on serde_json's `from_str::<Vec<u8>>`: parses a JSON array
/// of integers in `0..=255` into those bytes, a function of the text
/// alone; any other text is rejected.
#[verifier::external_body]
fn parse_json_byte_array(s: &str) -> (r: Option<Vec<u8>>)
    ensures
        match (r, json_byte_array_of(s@)) {
            (Some(v), Some(m)) => v@ == m,
            (None, None) => true,
            _ => false,
        },
{
    serde_json::from_str::<Vec<u8>>(s).ok()
}

/// Applies one wallet-provider event to the connection state: the
/// `"null"` sentinel disconnects; a payload parsing as exactly 32
/// bytes connects to that address; any other payload leaves the state
/// unchanged.
pub fn wallet_event_update(current: Wallet, payload: &String) -> (w: Wallet)
    ensures
        payload@ == "null"@ ==> w is Disconnected,
        payload@ != "null"@ ==> match json_byte_array_of(payload@) {
            Some(b) => {
                if b.len() == PUBKEY_BYTES {
                    w matches Wallet::Connected(p) && p@ == b
                } else {
                    w == current
                }
            },
            None => w == current,
        },
{
    let sentinel: String = "null".to_owned();
    if *payload == sentinel {
        return Wallet::Disconnected;
    }
    match parse_json_byte_array(payload.as_str()) {
        Some(bytes) => {
            if bytes.len() == PUBKEY_BYTES {
                Wallet::Connected(Pubkey::new(bytes))
            } else {
                current
            }
        },
        None => current,
    }
}

/// Renders an address for display: its first four and its last four
/// characters around an ellipsis. A text too short to abbreviate, or
/// one that is not plain ASCII, is shown whole.
pub fn abbreviate_address(address: &String) -> (r: String)
    ensures
        ({
            if address@.len() >= 8 && vstd::utf8::is_ascii_chars(address@) {
                r@ == address@.subrange(0, 4) + "..."@ + address@.subrange(
                    address@.len() - 4,
                    address@.len() as int,
                )
            } else {
                r@ == address@
            }
        }),
{
    let n = address.as_str().unicode_len();
    if n < 8 || !address.as_str().is_ascii() {
        return address.clone();
    }
    let first = address.as_str().substring_ascii(0, 4);
    let last = address.as_str().substring_ascii(n - 4, n);
    let mut out: String = first.to_owned();
    out.append("...");
    out.append(last);
    out
}

} // verus!
