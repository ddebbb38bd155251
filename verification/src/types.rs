//! The ledger value types the engine works over.
//!
//! Addresses, blockhashes, signatures and transactions are modeled as
//! plain byte vectors with fixed-width well-formedness invariants, so
//! that every rule of the engine can be stated over their contents.

use vstd::prelude::*;

verus! {

/// Byte width of an address.
pub const PUBKEY_BYTES: usize = 32;

/// Byte width of a blockhash.
pub const BLOCKHASH_BYTES: usize = 32;

/// Byte width of a transaction signature.
pub const SIGNATURE_BYTES: usize = 64;

/// A ledger account address.
#[derive(Clone, Debug, PartialEq, Eq)]
pub struct Pubkey {
    pub bytes: Vec<u8>,
}

impl View for Pubkey {
    type V = Seq<u8>;

    open spec fn view(&self) -> Seq<u8> {
        self.bytes@
    }
}

impl Pubkey {
    pub open spec fn wf(self) -> bool {
        self@.len() == PUBKEY_BYTES
    }

    pub fn new(bytes: Vec<u8>) -> (r: Pubkey)
        requires
            bytes@.len() == PUBKEY_BYTES,
        ensures
            r.wf(),
            r@ == bytes@,
    {
        Pubkey { bytes }
    }
}

/// A short-lived recency reference; the ledger rejects transactions
/// whose blockhash has expired.
#[derive(Clone, Debug, PartialEq, Eq)]
pub struct Blockhash {
    pub bytes: Vec<u8>,
}

impl View for Blockhash {
    type V = Seq<u8>;

    open spec fn view(&self) -> Seq<u8> {
        self.bytes@
    }
}

impl Blockhash {
    pub open spec fn wf(self) -> bool {
        self@.len() == BLOCKHASH_BYTES
    }

    pub fn new(bytes: Vec<u8>) -> (r: Blockhash)
        requires
            bytes@.len() == BLOCKHASH_BYTES,
        ensures
            r.wf(),
            r@ == bytes@,
    {
        Blockhash { bytes }
    }
}

/// The unique identifier of a submitted transaction, returned on
/// acceptance into the pending pool.
#[derive(Clone, Debug, PartialEq, Eq)]
pub struct Signature {
    pub bytes: Vec<u8>,
}

impl View for Signature {
    type V = Seq<u8>;

    open spec fn view(&self) -> Seq<u8> {
        self.bytes@
    }
}

impl Signature {
    pub open spec fn wf(self) -> bool {
        self@.len() == SIGNATURE_BYTES
    }

    pub fn new(bytes: Vec<u8>) -> (r: Signature)
        requires
            bytes@.len() == SIGNATURE_BYTES,
        ensures
            r.wf(),
            r@ == bytes@,
    {
        Signature { bytes }
    }

    /// A structural copy of this signature.
    pub fn duplicate(&self) -> (r: Signature)
        ensures
            r@ == self@,
    {
        let bytes: Vec<u8> = vstd::slice::slice_to_vec(self.bytes.as_slice());
        Signature { bytes }
    }
}

/// Spec-level shape of a [`Message`].
#[verifier::ext_equal]
pub struct MessageView {
    pub recent_blockhash: Seq<u8>,
    pub body: Seq<u8>,
}

/// The payload a transaction commits to: the recency reference the
/// ledger checks, and the rest of the message (instructions and fee
/// payer) carried as opaque bytes.
#[derive(Clone, Debug, PartialEq, Eq)]
pub struct Message {
    pub recent_blockhash: Blockhash,
    pub body: Vec<u8>,
}

impl View for Message {
    type V = MessageView;

    open spec fn view(&self) -> MessageView {
        MessageView { recent_blockhash: self.recent_blockhash@, body: self.body@ }
    }
}

/// Spec-level shape of a [`Transaction`].
#[verifier::ext_equal]
pub struct TransactionView {
    pub message: MessageView,
    pub signatures: Seq<Seq<u8>>,
}

impl TransactionView {
    /// Well-formedness: fixed-width blockhash and signatures, and
    /// counts that fit the binary framing's length fields.
    pub open spec fn wf(self) -> bool {
        &&& self.message.recent_blockhash.len() == BLOCKHASH_BYTES
        &&& forall|i: int|
            0 <= i < self.signatures.len() ==> (#[trigger] self.signatures[i]).len()
                == SIGNATURE_BYTES
        &&& self.signatures.len() <= u64::MAX
        &&& self.message.body.len() <= u64::MAX
    }
}

/// A binary-serializable transaction: a message plus zero or more
/// signature slots. A signed transaction differs from an unsigned one
/// only in the signature slots being populated.
#[derive(Clone, Debug, PartialEq, Eq)]
pub struct Transaction {
    pub message: Message,
    pub signatures: Vec<Signature>,
}

impl View for Transaction {
    type V = TransactionView;

    open spec fn view(&self) -> TransactionView {
        TransactionView {
            message: self.message@,
            signatures: Seq::new(self.signatures@.len(), |i: int| self.signatures@[i]@),
        }
    }
}

impl Transaction {
    pub open spec fn wf(self) -> bool {
        self@.wf()
    }

    /// Builds a transaction and establishes its invariant.
    pub fn new(message: Message, signatures: Vec<Signature>) -> (r: Transaction)
        requires
            message.recent_blockhash.wf(),
            forall|i: int| 0 <= i < signatures@.len() ==> (#[trigger] signatures@[i]).wf(),
        ensures
            r.wf(),
            r@.message == message@,
            r@.signatures =~= Seq::new(signatures@.len(), |i: int| signatures@[i]@),
    {
        proof {
            vstd::std_specs::vec::axiom_spec_len(&signatures);
            vstd::std_specs::vec::axiom_spec_len(&message.body);
        }
        let r = Transaction { message, signatures };
        proof {
            assert forall|i: int| 0 <= i < r@.signatures.len() implies (#[trigger] r@.signatures[i]).len()
                == SIGNATURE_BYTES by {
                assert(r.signatures@[i].wf());
            }
        }
        r
    }
}

} // verus!
