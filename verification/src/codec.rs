//! The dual encoding a transaction crosses the signing boundary in.
//!
//! A transaction is framed into bytes (length-prefixed signature slots,
//! the fixed-width blockhash, then the length-prefixed message body) and
//! the bytes are carried as text in standard base64. The framing is
//! defined and verified here; the text layer relies on the `base64`
//! crate through trusted wrappers.

use vstd::prelude::*;

use crate::types::{
    Blockhash, Message, Signature, Transaction, TransactionView, BLOCKHASH_BYTES, SIGNATURE_BYTES,
};

verus! {

/// The eight little-endian bytes of a length field.
pub open spec fn u64_le_bytes(n: u64) -> Seq<u8> {
    seq![
        (n & 0xff) as u8,
        ((n >> 8) & 0xff) as u8,
        ((n >> 16) & 0xff) as u8,
        ((n >> 24) & 0xff) as u8,
        ((n >> 32) & 0xff) as u8,
        ((n >> 40) & 0xff) as u8,
        ((n >> 48) & 0xff) as u8,
        ((n >> 56) & 0xff) as u8,
    ]
}

/// Two length fields agree only on equal lengths.
pub proof fn lemma_u64_le_bytes_injective(a: u64, b: u64)
    requires
        u64_le_bytes(a) == u64_le_bytes(b),
    ensures
        a == b,
{
    assert(u64_le_bytes(a)[0] == u64_le_bytes(b)[0]);
    assert(u64_le_bytes(a)[1] == u64_le_bytes(b)[1]);
    assert(u64_le_bytes(a)[2] == u64_le_bytes(b)[2]);
    assert(u64_le_bytes(a)[3] == u64_le_bytes(b)[3]);
    assert(u64_le_bytes(a)[4] == u64_le_bytes(b)[4]);
    assert(u64_le_bytes(a)[5] == u64_le_bytes(b)[5]);
    assert(u64_le_bytes(a)[6] == u64_le_bytes(b)[6]);
    assert(u64_le_bytes(a)[7] == u64_le_bytes(b)[7]);
    assert((a & 0xff) as u8 == (b & 0xff) as u8
        && ((a >> 8) & 0xff) as u8 == ((b >> 8) & 0xff) as u8
        && ((a >> 16) & 0xff) as u8 == ((b >> 16) & 0xff) as u8
        && ((a >> 24) & 0xff) as u8 == ((b >> 24) & 0xff) as u8
        && ((a >> 32) & 0xff) as u8 == ((b >> 32) & 0xff) as u8
        && ((a >> 40) & 0xff) as u8 == ((b >> 40) & 0xff) as u8
        && ((a >> 48) & 0xff) as u8 == ((b >> 48) & 0xff) as u8
        && ((a >> 56) & 0xff) as u8 == ((b >> 56) & 0xff) as u8 ==> a == b) by (bit_vector);
}

/// Appends the eight little-endian bytes of `n`.
fn push_u64_le(out: &mut Vec<u8>, n: u64)
    ensures
        final(out)@ =~= old(out)@ + u64_le_bytes(n),
{
    out.push((n & 0xff) as u8);
    out.push(((n >> 8) & 0xff) as u8);
    out.push(((n >> 16) & 0xff) as u8);
    out.push(((n >> 24) & 0xff) as u8);
    out.push(((n >> 32) & 0xff) as u8);
    out.push(((n >> 40) & 0xff) as u8);
    out.push(((n >> 48) & 0xff) as u8);
    out.push(((n >> 56) & 0xff) as u8);
}

/// Reads the length field stored at `off`.
fn read_u64_le(bytes: &Vec<u8>, off: usize) -> (n: u64)
    requires
        off + 8 <= bytes@.len(),
    ensures
        u64_le_bytes(n) =~= bytes@.subrange(off as int, off as int + 8),
{
    proof {
        vstd::std_specs::vec::axiom_spec_len(bytes);
    }
    let b0 = bytes[off] as u64;
    let b1 = bytes[off + 1] as u64;
    let b2 = bytes[off + 2] as u64;
    let b3 = bytes[off + 3] as u64;
    let b4 = bytes[off + 4] as u64;
    let b5 = bytes[off + 5] as u64;
    let b6 = bytes[off + 6] as u64;
    let b7 = bytes[off + 7] as u64;
    let n = b0 | (b1 << 8) | (b2 << 16) | (b3 << 24) | (b4 << 32) | (b5 << 40) | (b6 << 48) | (b7
        << 56);
    proof {
        lemma_u64_le_recompose(b0, b1, b2, b3, b4, b5, b6, b7);
    }
    n
}

/// Recomposing eight bytes little-endian and taking the bytes back
/// gives the bytes again.
proof fn lemma_u64_le_recompose(b0: u64, b1: u64, b2: u64, b3: u64, b4: u64, b5: u64, b6: u64, b7: u64)
    requires
        b0 < 256,
        b1 < 256,
        b2 < 256,
        b3 < 256,
        b4 < 256,
        b5 < 256,
        b6 < 256,
        b7 < 256,
    ensures
        ({
            let n = b0 | (b1 << 8) | (b2 << 16) | (b3 << 24) | (b4 << 32) | (b5 << 40) | (b6 << 48)
                | (b7 << 56);
            &&& (n & 0xff) == b0
            &&& ((n >> 8) & 0xff) == b1
            &&& ((n >> 16) & 0xff) == b2
            &&& ((n >> 24) & 0xff) == b3
            &&& ((n >> 32) & 0xff) == b4
            &&& ((n >> 40) & 0xff) == b5
            &&& ((n >> 48) & 0xff) == b6
            &&& ((n >> 56) & 0xff) == b7
        }),
{
    assert(({
        let n = b0 | (b1 << 8) | (b2 << 16) | (b3 << 24) | (b4 << 32) | (b5 << 40) | (b6 << 48) | (
        b7 << 56);
        &&& (n & 0xff) == b0
        &&& ((n >> 8) & 0xff) == b1
        &&& ((n >> 16) & 0xff) == b2
        &&& ((n >> 24) & 0xff) == b3
        &&& ((n >> 32) & 0xff) == b4
        &&& ((n >> 40) & 0xff) == b5
        &&& ((n >> 48) & 0xff) == b6
        &&& ((n >> 56) & 0xff) == b7
    })) by (bit_vector)
        requires
            b0 < 256 && b1 < 256 && b2 < 256 && b3 < 256 && b4 < 256 && b5 < 256 && b6 < 256 && b7
                < 256,
    ;
}

/// The signature slots laid end to end, each slot its fixed 64 bytes.
pub open spec fn spec_encode_signatures(sigs: Seq<Seq<u8>>) -> Seq<u8>
    decreases sigs.len(),
{
    if sigs.len() == 0 {
        Seq::empty()
    } else {
        spec_encode_signatures(sigs.drop_last()) + sigs.last()
    }
}

/// The binary framing of a transaction: signature count, signature
/// slots, blockhash, body length, body.
pub open spec fn spec_encode(t: TransactionView) -> Seq<u8> {
    u64_le_bytes(t.signatures.len() as u64) + spec_encode_signatures(t.signatures)
        + t.message.recent_blockhash + u64_le_bytes(t.message.body.len() as u64) + t.message.body
}

/// Number of bytes the framing of `t` takes.
pub open spec fn spec_encoded_len(t: TransactionView) -> int {
    8 + t.signatures.len() * SIGNATURE_BYTES + BLOCKHASH_BYTES + 8 + t.message.body.len()
}

/// Fixed-width slots laid end to end take exactly their summed width.
pub proof fn lemma_encode_signatures_len(sigs: Seq<Seq<u8>>)
    requires
        forall|i: int| 0 <= i < sigs.len() ==> (#[trigger] sigs[i]).len() == SIGNATURE_BYTES,
    ensures
        spec_encode_signatures(sigs).len() == sigs.len() * SIGNATURE_BYTES,
    decreases sigs.len(),
{
    if sigs.len() == 0 {
    } else {
        lemma_encode_signatures_len(sigs.drop_last());
        assert(sigs.last().len() == SIGNATURE_BYTES);
        assert((sigs.len() - 1) * SIGNATURE_BYTES + SIGNATURE_BYTES == sigs.len()
            * SIGNATURE_BYTES) by (nonlinear_arith);
    }
}

/// Slot `i` of the laid-out signatures sits at offset `64 * i`.
pub proof fn lemma_encode_signatures_index(sigs: Seq<Seq<u8>>, i: int)
    requires
        forall|j: int| 0 <= j < sigs.len() ==> (#[trigger] sigs[j]).len() == SIGNATURE_BYTES,
        0 <= i < sigs.len(),
    ensures
        spec_encode_signatures(sigs).subrange(
            i * SIGNATURE_BYTES,
            (i + 1) * SIGNATURE_BYTES,
        ) =~= sigs[i],
    decreases sigs.len(),
{
    lemma_encode_signatures_len(sigs);
    if i == sigs.len() - 1 {
        lemma_encode_signatures_len(sigs.drop_last());
        assert((sigs.len() - 1) * SIGNATURE_BYTES + SIGNATURE_BYTES == sigs.len()
            * SIGNATURE_BYTES) by (nonlinear_arith);
    } else {
        lemma_encode_signatures_index(sigs.drop_last(), i);
        lemma_encode_signatures_len(sigs.drop_last());
        assert(0 <= i * SIGNATURE_BYTES && (i + 1) * SIGNATURE_BYTES <= (sigs.len() - 1)
            * SIGNATURE_BYTES) by (nonlinear_arith)
            requires
                0 <= i < sigs.len() - 1,
        ;
        assert(spec_encode_signatures(sigs).subrange(i * SIGNATURE_BYTES, (i + 1) * SIGNATURE_BYTES)
            =~= spec_encode_signatures(sigs.drop_last()).subrange(
            i * SIGNATURE_BYTES,
            (i + 1) * SIGNATURE_BYTES,
        ));
    }
}

/// Where each part of the framing of `t` sits in the encoded bytes.
pub proof fn lemma_encode_parts(t: TransactionView)
    requires
        t.wf(),
    ensures
        spec_encode(t).len() == spec_encoded_len(t),
        spec_encode(t).subrange(0, 8) =~= u64_le_bytes(t.signatures.len() as u64),
        spec_encode(t).subrange(8, 8 + t.signatures.len() * SIGNATURE_BYTES)
            =~= spec_encode_signatures(t.signatures),
        spec_encode(t).subrange(
            8 + t.signatures.len() * SIGNATURE_BYTES,
            8 + t.signatures.len() * SIGNATURE_BYTES + BLOCKHASH_BYTES,
        ) =~= t.message.recent_blockhash,
        spec_encode(t).subrange(
            8 + t.signatures.len() * SIGNATURE_BYTES + BLOCKHASH_BYTES,
            8 + t.signatures.len() * SIGNATURE_BYTES + BLOCKHASH_BYTES + 8,
        ) =~= u64_le_bytes(t.message.body.len() as u64),
        spec_encode(t).subrange(
            8 + t.signatures.len() * SIGNATURE_BYTES + BLOCKHASH_BYTES + 8,
            spec_encoded_len(t),
        ) =~= t.message.body,
{
    lemma_encode_signatures_len(t.signatures);
}

/// Frames a transaction into bytes.
pub fn encode_tx(tx: &Transaction) -> (r: Vec<u8>)
    requires
        tx.wf(),
        spec_encoded_len(tx@) <= usize::MAX,
    ensures
        r@ =~= spec_encode(tx@),
{
    proof {
        lemma_encode_signatures_len(tx@.signatures);
    }
    let mut out: Vec<u8> = Vec::new();
    push_u64_le(&mut out, tx.signatures.len() as u64);
    let mut i: usize = 0;
    while i < tx.signatures.len()
        invariant
            tx.wf(),
            spec_encoded_len(tx@) <= usize::MAX,
            i <= tx.signatures.len(),
            tx.signatures@.len() == tx@.signatures.len(),
            out@ =~= u64_le_bytes(tx@.signatures.len() as u64) + spec_encode_signatures(
                tx@.signatures.take(i as int),
            ),
        decreases tx.signatures@.len() - i,
    {
        proof {
            lemma_encode_signatures_len(tx@.signatures.take(i as int));
            assert(tx@.signatures.take(i + 1).drop_last() =~= tx@.signatures.take(i as int));
            assert(tx@.signatures.take(i + 1).last() =~= tx@.signatures[i as int]);
        }
        let sig: &Signature = &tx.signatures[i];
        let mut sig_bytes: Vec<u8> = vstd::slice::slice_to_vec(sig.bytes.as_slice());
        out.append(&mut sig_bytes);
        i += 1;
    }
    proof {
        assert(tx@.signatures.take(tx.signatures@.len() as int) =~= tx@.signatures);
    }
    let mut hash_bytes: Vec<u8> = vstd::slice::slice_to_vec(
        tx.message.recent_blockhash.bytes.as_slice(),
    );
    out.append(&mut hash_bytes);
    push_u64_le(&mut out, tx.message.body.len() as u64);
    let mut body_bytes: Vec<u8> = vstd::slice::slice_to_vec(tx.message.body.as_slice());
    out.append(&mut body_bytes);
    out
}

/// Copies `bytes[start .. start + width]` into a fresh vector.
fn copy_range(bytes: &Vec<u8>, start: usize, width: usize) -> (r: Vec<u8>)
    requires
        start + width <= bytes@.len(),
    ensures
        r@ =~= bytes@.subrange(start as int, start as int + width),
{
    proof {
        vstd::std_specs::vec::axiom_spec_len(bytes);
    }
    let s = vstd::slice::slice_subrange(bytes.as_slice(), start, start + width);
    vstd::slice::slice_to_vec(s)
}

/// Parses framed bytes back into a transaction.
///
/// Succeeds exactly on the byte strings the framing produces: a `Some`
/// result re-frames to the input, and on `None` no well-formed
/// transaction frames to the input.
pub fn decode_tx(bytes: &Vec<u8>) -> (r: Option<Transaction>)
    ensures
        match r {
            Some(t) => t.wf() && spec_encode(t@) =~= bytes@,
            None => forall|tv: TransactionView| tv.wf() ==> spec_encode(tv) != bytes@,
        },
{
    let len = bytes.len();
    if len < 48 {
        proof {
            assert forall|tv: TransactionView| tv.wf() implies spec_encode(tv) != bytes@ by {
                lemma_encode_parts(tv);
                assert(tv.signatures.len() * SIGNATURE_BYTES >= 0) by (nonlinear_arith);
            }
        }
        return None;
    }
    let count64 = read_u64_le(bytes, 0);
    let max_sigs = (len - 48) / 64;
    if count64 > max_sigs as u64 {
        proof {
            assert forall|tv: TransactionView| tv.wf() implies spec_encode(tv) != bytes@ by {
                if spec_encode(tv) == bytes@ {
                    lemma_encode_parts(tv);
                    assert(u64_le_bytes(count64) =~= u64_le_bytes(tv.signatures.len() as u64));
                    lemma_u64_le_bytes_injective(count64, tv.signatures.len() as u64);
                    assert(tv.signatures.len() * SIGNATURE_BYTES <= len - 48);
                    assert(tv.signatures.len() <= (len - 48) as int / 64) by (nonlinear_arith)
                        requires
                            tv.signatures.len() * SIGNATURE_BYTES <= len - 48,
                            len >= 48,
                    ;
                }
            }
        }
        return None;
    }
    let count = count64 as usize;
    proof {
        assert(count * SIGNATURE_BYTES <= max_sigs * SIGNATURE_BYTES && max_sigs * SIGNATURE_BYTES
            <= len - 48) by (nonlinear_arith)
            requires
                count <= max_sigs,
                max_sigs == (len - 48) as int / 64,
                len >= 48,
        ;
    }
    let mut sigs: Vec<Signature> = Vec::new();
    let mut i: usize = 0;
    while i < count
        invariant
            count * SIGNATURE_BYTES <= len - 48,
            len == bytes@.len(),
            i <= count,
            sigs@.len() == i,
            forall|j: int| 0 <= j < i ==> (#[trigger] sigs@[j]).wf(),
            spec_encode_signatures(Seq::new(sigs@.len(), |j: int| sigs@[j]@)) =~= bytes@.subrange(
                8,
                8 + 64 * i as int,
            ),
        decreases count - i,
    {
        proof {
            assert(i * 64 + 64 <= count * 64) by (nonlinear_arith)
                requires
                    i < count,
            ;
        }
        let start = 8 + i * 64;
        let slot = copy_range(bytes, start, 64);
        let ghost prev = Seq::new(sigs@.len(), |j: int| sigs@[j]@);
        sigs.push(Signature { bytes: slot });
        proof {
            let cur = Seq::new(sigs@.len(), |j: int| sigs@[j]@);
            assert(cur.drop_last() =~= prev);
            assert(cur.last() =~= bytes@.subrange(start as int, start as int + 64));
            assert(spec_encode_signatures(cur) =~= bytes@.subrange(8, 8 + 64 * (i + 1) as int));
        }
        i += 1;
    }
    let hash_off = 8 + count * 64;
    let hash = copy_range(bytes, hash_off, 32);
    let body_len_off = hash_off + 32;
    let body_len64 = read_u64_le(bytes, body_len_off);
    let body_off = body_len_off + 8;
    let rest = len - body_off;
    if body_len64 != rest as u64 {
        proof {
            assert forall|tv: TransactionView| tv.wf() implies spec_encode(tv) != bytes@ by {
                if spec_encode(tv) == bytes@ {
                    lemma_encode_parts(tv);
                    assert(u64_le_bytes(count64) =~= u64_le_bytes(tv.signatures.len() as u64));
                    lemma_u64_le_bytes_injective(count64, tv.signatures.len() as u64);
                    assert(tv.signatures.len() == count);
                    assert(u64_le_bytes(body_len64) =~= u64_le_bytes(
                        tv.message.body.len() as u64,
                    ));
                    lemma_u64_le_bytes_injective(body_len64, tv.message.body.len() as u64);
                    assert(tv.message.body.len() == len - 48 - count * SIGNATURE_BYTES);
                }
            }
        }
        return None;
    }
    let body = copy_range(bytes, body_off, rest);
    let tx = Transaction {
        message: Message { recent_blockhash: Blockhash { bytes: hash }, body },
        signatures: sigs,
    };
    proof {
        assert(tx@.signatures =~= Seq::new(sigs@.len(), |j: int| sigs@[j]@));
        assert(tx.wf());
        lemma_encode_parts(tx@);
        assert(tx@.signatures.len() as u64 == count64);
        assert(u64_le_bytes(tx@.signatures.len() as u64) =~= bytes@.subrange(0, 8));
        assert(tx@.message.body.len() as u64 == body_len64);
        assert(u64_le_bytes(tx@.message.body.len() as u64) =~= bytes@.subrange(
            body_len_off as int,
            body_len_off as int + 8,
        ));
        assert(spec_encode(tx@) =~= bytes@);
    }
    Some(tx)
}

/// Two well-formed transactions with the same framing are the same
/// transaction.
pub proof fn lemma_spec_encode_injective(a: TransactionView, b: TransactionView)
    requires
        a.wf(),
        b.wf(),
        spec_encode(a) == spec_encode(b),
    ensures
        a == b,
{
    lemma_encode_parts(a);
    lemma_encode_parts(b);
    assert(u64_le_bytes(a.signatures.len() as u64) =~= spec_encode(a).subrange(0, 8));
    lemma_u64_le_bytes_injective(a.signatures.len() as u64, b.signatures.len() as u64);
    assert(a.signatures.len() == b.signatures.len());
    assert(a.message.body.len() == spec_encode(a).len() - 48 - a.signatures.len()
        * SIGNATURE_BYTES);
    lemma_u64_le_bytes_injective(a.message.body.len() as u64, b.message.body.len() as u64);
    let n = a.signatures.len() as int;
    assert(spec_encode_signatures(a.signatures) =~= spec_encode_signatures(b.signatures));
    assert forall|i: int| 0 <= i < n implies a.signatures[i] == b.signatures[i] by {
        lemma_encode_signatures_index(a.signatures, i);
        lemma_encode_signatures_index(b.signatures, i);
        assert(a.signatures[i] =~= b.signatures[i]);
    }
    assert(a.signatures =~= b.signatures);
    assert(a.message.recent_blockhash =~= b.message.recent_blockhash);
    assert(a.message.body =~= b.message.body);
    assert(a =~= b);
}

/// What base64's STANDARD engine returns for a byte string.
pub uninterp spec fn b64_of(bytes: Seq<u8>) -> Seq<char>;

/// Relies on base64's `STANDARD` engine: `encode` returns the canonical
/// padded base64 text of the bytes, a function of the bytes alone and
/// an injective one.
#[verifier::external_body]
fn b64_encode(bytes: &Vec<u8>) -> (r: String)
    requires
        bytes@.len() * 4 + 4 <= usize::MAX,
    ensures
        r@ == b64_of(bytes@),
        forall|other: Seq<u8>| b64_of(other) == r@ ==> other == bytes@,
{
    base64::Engine::encode(&base64::engine::general_purpose::STANDARD, bytes.as_slice())
}

/// Relies on base64's `STANDARD` engine: `decode` succeeds exactly on
/// canonical padded base64 text (it requires canonical padding and
/// rejects trailing bits) and returns the unique byte string that
/// encodes to the input.
#[verifier::external_body]
fn b64_decode(s: &String) -> (r: Option<Vec<u8>>)
    ensures
        match r {
            Some(v) => s@ == b64_of(v@) && (forall|other: Seq<u8>|
                b64_of(other) == s@ ==> other == v@),
            None => forall|b: Seq<u8>| b64_of(b) != s@,
        },
{
    match base64::Engine::decode(&base64::engine::general_purpose::STANDARD, s.as_str()) {
        Ok(v) => Some(v),
        Err(_) => None,
    }
}

/// The framing of `t` fits the address space, with room for the base64
/// text on top.
pub open spec fn encodable(t: TransactionView) -> bool {
    spec_encoded_len(t) * 4 + 4 <= usize::MAX
}

/// Encodes a transaction for the signing boundary: binary framing
/// first, then base64 text.
pub fn encode_for_signer(tx: &Transaction) -> (s: String)
    requires
        tx.wf(),
        encodable(tx@),
    ensures
        s@ == b64_of(spec_encode(tx@)),
        forall|other: Seq<u8>| b64_of(other) == s@ ==> other == spec_encode(tx@),
{
    proof {
        lemma_encode_parts(tx@);
    }
    let bytes = encode_tx(tx);
    b64_encode(&bytes)
}

/// Decodes a signing-boundary payload: base64 text first, then the
/// binary framing. Succeeds exactly on the payloads that
/// [`encode_for_signer`] produces from a well-formed transaction.
pub fn decode_from_signer(s: &String) -> (r: Option<Transaction>)
    ensures
        match r {
            Some(t) => t.wf() && s@ == b64_of(spec_encode(t@)),
            None => forall|tv: TransactionView| tv.wf() ==> b64_of(spec_encode(tv)) != s@,
        },
{
    match b64_decode(s) {
        Some(bytes) => {
            match decode_tx(&bytes) {
                Some(t) => Some(t),
                None => {
                    proof {
                        assert forall|tv: TransactionView| tv.wf() implies b64_of(spec_encode(tv))
                            != s@ by {
                            if b64_of(spec_encode(tv)) == s@ {
                                assert(spec_encode(tv) == bytes@);
                            }
                        }
                    }
                    None
                },
            }
        },
        None => None,
    }
}

/// Round-trip law: a well-formed transaction carried through the dual
/// encoding and decoded back is reproduced exactly.
pub fn encode_decode_roundtrip(tx: &Transaction) -> (r: Option<Transaction>)
    requires
        tx.wf(),
        encodable(tx@),
    ensures
        r matches Some(t) && t@ == tx@,
{
    let s = encode_for_signer(tx);
    let r = decode_from_signer(&s);
    proof {
        match r {
            Some(ref t) => {
                assert(spec_encode(t@) == spec_encode(tx@));
                lemma_spec_encode_injective(t@, tx@);
            },
            None => {
                assert(b64_of(spec_encode(tx@)) == s@);
            },
        }
    }
    r
}

} // verus!
