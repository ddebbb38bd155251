//! The remote ledger capability and the gateway that owns one client.
//!
//! The engine is written generically over the four-operation [`Rpc`]
//! capability, so any transport — or the deterministic in-memory
//! [`ScriptRpc`] double — can drive it.

use vstd::prelude::*;

use crate::error::{GatewayError, GatewayResult, TransactionConfirmationStatus};
use crate::types::{Blockhash, Pubkey, Signature, Transaction, TransactionView};

verus! {

/// The minimal remote-ledger operation set the engine needs. Every
/// operation either returns a success value or a normalized
/// [`GatewayError`]; no raw transport error escapes.
pub trait Rpc: Sized {
    /// The transactions this client has submitted, in order.
    spec fn submitted(&self) -> Seq<TransactionView>;

    /// Builds a client against the given endpoint URL.
    fn new(rpc_url: String) -> (r: Self)
        ensures
            r.submitted() == Seq::<TransactionView>::empty(),
    ;

    /// Current balance of the account at `pubkey`.
    fn get_balance(&mut self, pubkey: &Pubkey) -> (r: GatewayResult<u64>)
        ensures
            final(self).submitted() == old(self).submitted(),
    ;

    /// The ledger's most recent blockhash, fetched to stamp a
    /// transaction just before signing.
    fn get_latest_blockhash(&mut self) -> (r: GatewayResult<Blockhash>)
        ensures
            final(self).submitted() == old(self).submitted(),
            r matches Ok(h) ==> h.wf(),
    ;

    /// For each input signature, the ledger's commitment level, or
    /// `None` where the ledger has no record yet. The result is
    /// positionally correlated with the input.
    fn get_signature_statuses(&mut self, signatures: &Vec<Signature>) -> (r: GatewayResult<
        Vec<Option<TransactionConfirmationStatus>>,
    >)
        ensures
            final(self).submitted() == old(self).submitted(),
            r matches Ok(v) ==> v@.len() == signatures@.len(),
    ;

    /// Submits a fully signed transaction; returns its signature on
    /// acceptance into the pending pool. Acceptance does not imply
    /// confirmation.
    fn send_transaction(&mut self, transaction: &Transaction) -> (r: GatewayResult<Signature>)
        requires
            transaction.wf(),
        ensures
            final(self).submitted() == old(self).submitted().push(transaction@),
            r matches Ok(s) ==> s.wf(),
    ;
}

/// The owning handle to one remote ledger client, constructed once and
/// shared for the process lifetime.
pub struct Gateway<R: Rpc> {
    pub rpc: R,
}

impl<R: Rpc> Gateway<R> {
    /// Builds the gateway's client against the given endpoint URL.
    pub fn new(rpc_url: String) -> (g: Gateway<R>)
        ensures
            g.rpc.submitted() == Seq::<TransactionView>::empty(),
    {
        Gateway { rpc: R::new(rpc_url) }
    }
}

/// Flattens one raw status record: the ledger may have no record of
/// the signature at all, or a record that carries no commitment level
/// yet; both normalize to `None`.
pub fn normalize_confirmation(
    raw: Option<Option<TransactionConfirmationStatus>>,
) -> (r: Option<TransactionConfirmationStatus>)
    ensures
        r == match raw {
            Some(Some(s)) => Some(s),
            _ => None::<TransactionConfirmationStatus>,
        },
{
    match raw {
        Some(Some(s)) => Some(s),
        _ => None,
    }
}

/// A deterministic in-memory transport double: each operation consumes
/// the next scripted response, and answers `Unknown` once its script
/// is exhausted.
pub struct ScriptRpc {
    pub balances: Vec<GatewayResult<u64>>,
    pub blockhashes: Vec<GatewayResult<Blockhash>>,
    pub statuses: Vec<GatewayResult<Option<TransactionConfirmationStatus>>>,
    pub send_results: Vec<GatewayResult<Signature>>,
    pub submission_log: Ghost<Seq<TransactionView>>,
}

impl ScriptRpc {
    /// A double with nothing scripted: every operation fails `Unknown`.
    pub fn empty() -> (r: ScriptRpc)
        ensures
            r.submitted() == Seq::<TransactionView>::empty(),
            r.balances@.len() == 0,
            r.blockhashes@.len() == 0,
            r.statuses@.len() == 0,
            r.send_results@.len() == 0,
    {
        ScriptRpc {
            balances: Vec::new(),
            blockhashes: Vec::new(),
            statuses: Vec::new(),
            send_results: Vec::new(),
            submission_log: Ghost(Seq::empty()),
        }
    }
}

impl Rpc for ScriptRpc {
    open spec fn submitted(&self) -> Seq<TransactionView> {
        self.submission_log@
    }

    fn new(_rpc_url: String) -> (r: Self) {
        ScriptRpc::empty()
    }

    fn get_balance(&mut self, pubkey: &Pubkey) -> (r: GatewayResult<u64>) {
        if self.balances.len() == 0 {
            Err(GatewayError::Unknown)
        } else {
            self.balances.remove(0)
        }
    }

    fn get_latest_blockhash(&mut self) -> (r: GatewayResult<Blockhash>) {
        if self.blockhashes.len() == 0 {
            Err(GatewayError::Unknown)
        } else {
            let next = self.blockhashes.remove(0);
            match next {
                Ok(h) => {
                    if h.bytes.len() == 32 {
                        Ok(h)
                    } else {
                        Err(GatewayError::Unknown)
                    }
                },
                Err(e) => Err(e),
            }
        }
    }

    fn get_signature_statuses(&mut self, signatures: &Vec<Signature>) -> (r: GatewayResult<
        Vec<Option<TransactionConfirmationStatus>>,
    >) {
        if self.statuses.len() == 0 {
            return Err(GatewayError::Unknown);
        }
        let next = self.statuses.remove(0);
        match next {
            Ok(st) => {
                let mut out: Vec<Option<TransactionConfirmationStatus>> = Vec::new();
                let n = signatures.len();
                let mut i: usize = 0;
                while i < n
                    invariant
                        i <= n,
                        out@.len() == i,
                    decreases n - i,
                {
                    out.push(st);
                    i += 1;
                }
                Ok(out)
            },
            Err(e) => Err(e),
        }
    }

    fn send_transaction(&mut self, transaction: &Transaction) -> (r: GatewayResult<Signature>) {
        proof {
            self.submission_log@ = self.submission_log@.push(transaction@);
        }
        if self.send_results.len() == 0 {
            Err(GatewayError::Unknown)
        } else {
            let next = self.send_results.remove(0);
            match next {
                Ok(s) => {
                    if s.bytes.len() == 64 {
                        Ok(s)
                    } else {
                        Err(GatewayError::Unknown)
                    }
                },
                Err(e) => Err(e),
            }
        }
    }
}

} // verus!
