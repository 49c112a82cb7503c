//! From messages to signed bytes.
//!
//! A transaction is drafted with a placeholder fee, which is all that a dry
//! run needs, and finalized with the fee that it will pay. Each of the two
//! has a sign document of its own: a signature over the draft says nothing
//! about the finalized transaction, and only a finalized transaction can be
//! assembled into raw bytes.

use crate::account::Account;
use crate::auth::{
    auth_info_bytes, secp256k1_envelope, secp256k1_pub_key, AuthInfo, AuthInfoView, Fee, FeeView,
    ModeInfo, SignMode, SignerInfo, SignerInfoView,
};
use crate::body::{tx_body_bytes, TxBody, TxBodyView};
use crate::envelope::{envelope_views, Envelope, EnvelopeView};
use crate::gas::{simulate_request, simulate_request_bytes};
use crate::hash::{sha256, TxHash};
use crate::wire::{
    bytes_field, lemma_repeated_push, put_bytes_field, put_scalar_bytes, put_uint64,
    repeated_field, scalar_bytes_field, uint64_field,
};
use vstd::prelude::*;
use vstd::utf8::encode_utf8;

verus! {

/// A body and an auth info: all of a transaction but its signatures.
pub ghost struct UnsignedTxView {
    pub body: TxBodyView,
    pub auth_info: AuthInfoView,
}

/// A transaction with a placeholder fee.
#[derive(Clone, Debug, PartialEq, Eq)]
pub struct Draft {
    pub body: TxBody,
    pub auth_info: AuthInfo,
}

impl View for Draft {
    type V = UnsignedTxView;

    open spec fn view(&self) -> UnsignedTxView {
        UnsignedTxView { body: self.body@, auth_info: self.auth_info@ }
    }
}

/// A transaction with the fee that it will pay. Made from a draft only.
#[derive(Clone, Debug, PartialEq, Eq)]
pub struct Finalized {
    body: TxBody,
    auth_info: AuthInfo,
}

impl View for Finalized {
    type V = UnsignedTxView;

    closed spec fn view(&self) -> UnsignedTxView {
        UnsignedTxView { body: self.body@, auth_info: self.auth_info@ }
    }
}

/// The raw bytes of a signed transaction with their hash.
#[derive(Debug, PartialEq, Eq)]
pub struct SignedTx {
    raw: Vec<u8>,
    hash: TxHash,
}

/// What a `SignedTx` holds.
pub ghost struct SignedTxView {
    pub raw: Seq<u8>,
    pub hash: Seq<u8>,
}

impl View for SignedTx {
    type V = SignedTxView;

    closed spec fn view(&self) -> SignedTxView {
        SignedTxView { raw: self.raw@, hash: self.hash@ }
    }
}

/// The transaction that `messages` and `memo` make for the signer with
/// `account` and `public_key`: no timeout, no extension options, one signer
/// who signs directly, with the account's sequence, and `fee`.
pub open spec fn unsigned_tx(
    messages: Seq<EnvelopeView>,
    memo: Seq<char>,
    account: Account,
    public_key: Seq<u8>,
    fee: FeeView,
) -> UnsignedTxView {
    UnsignedTxView {
        body: TxBodyView {
            messages,
            memo,
            timeout_height: 0,
            extension_options: Seq::empty(),
            non_critical_extension_options: Seq::empty(),
        },
        auth_info: AuthInfoView {
            signer_infos: seq![
                SignerInfoView {
                    public_key: Some(secp256k1_envelope(public_key)),
                    mode_info: ModeInfo::Single { mode: SignMode::Direct },
                    sequence: account.sequence,
                },
            ],
            fee,
        },
    }
}

/// The transaction `tx` with its fee replaced.
pub open spec fn with_fee(tx: UnsignedTxView, fee: FeeView) -> UnsignedTxView {
    UnsignedTxView {
        body: tx.body,
        auth_info: AuthInfoView { signer_infos: tx.auth_info.signer_infos, fee },
    }
}

/// The sign document: the exact bytes that a signature is made over.
pub open spec fn sign_doc_bytes(
    body: Seq<u8>,
    auth_info: Seq<u8>,
    chain_id: Seq<char>,
    account_number: u64,
) -> Seq<u8> {
    scalar_bytes_field(1, body) + scalar_bytes_field(2, auth_info) + scalar_bytes_field(
        3,
        encode_utf8(chain_id),
    ) + uint64_field(4, account_number)
}

/// The sign document of the transaction `tx`.
pub open spec fn sign_doc_of(tx: UnsignedTxView, chain_id: Seq<char>, account_number: u64) -> Seq<
    u8,
> {
    sign_doc_bytes(tx_body_bytes(tx.body), auth_info_bytes(tx.auth_info), chain_id, account_number)
}

/// A raw transaction: body and auth info as bytes, and the signatures.
pub open spec fn tx_raw_bytes(body: Seq<u8>, auth_info: Seq<u8>, signatures: Seq<Seq<u8>>) -> Seq<
    u8,
> {
    scalar_bytes_field(1, body) + scalar_bytes_field(2, auth_info) + repeated_field(3, signatures)
}

/// The raw transaction that `tx` and one signature make.
pub open spec fn signed_bytes(tx: UnsignedTxView, signature: Seq<u8>) -> Seq<u8> {
    tx_raw_bytes(tx_body_bytes(tx.body), auth_info_bytes(tx.auth_info), seq![signature])
}

/// A transaction as one message: body and auth info as messages, and the
/// signatures. Both are always written.
pub open spec fn tx_bytes(tx: UnsignedTxView, signatures: Seq<Seq<u8>>) -> Seq<u8> {
    bytes_field(1, tx_body_bytes(tx.body)) + bytes_field(2, auth_info_bytes(tx.auth_info))
        + repeated_field(3, signatures)
}

/// The sequence that a transaction is signed with: that of its first signer.
pub open spec fn signing_sequence(tx: UnsignedTxView) -> u64
    recommends
        tx.auth_info.signer_infos.len() > 0,
{
    tx.auth_info.signer_infos[0].sequence
}

/// The sequence that is signed is the one of the account that was handed in
/// for this very transaction: drafting takes it from the account, and
/// finalizing changes the fee and nothing else. Nothing is kept from one
/// transaction to the next.
pub proof fn lemma_sequence_threading(
    messages: Seq<EnvelopeView>,
    memo: Seq<char>,
    account: Account,
    public_key: Seq<u8>,
    placeholder: FeeView,
    fee: FeeView,
)
    ensures
        signing_sequence(unsigned_tx(messages, memo, account, public_key, placeholder))
            == account.sequence,
        signing_sequence(
            with_fee(unsigned_tx(messages, memo, account, public_key, placeholder), fee),
        ) == account.sequence,
        with_fee(unsigned_tx(messages, memo, account, public_key, placeholder), fee)
            == unsigned_tx(messages, memo, account, public_key, fee),
{
}

/// One signature as the list of signatures of a transaction.
proof fn lemma_single_signature(signature: Seq<u8>)
    ensures
        repeated_field(3, seq![signature]) == bytes_field(3, signature),
{
    lemma_repeated_push(3, Seq::empty(), signature);
    assert(Seq::<Seq<u8>>::empty().push(signature) =~= seq![signature]);
    assert(repeated_field(3, Seq::empty()) + bytes_field(3, signature) =~= bytes_field(
        3,
        signature,
    ));
}

/// Appends a sign document.
fn put_sign_doc(
    buf: &mut Vec<u8>,
    body: &TxBody,
    auth_info: &AuthInfo,
    chain_id: &str,
    account_number: u64,
)
    ensures
        final(buf)@ == old(buf)@ + sign_doc_bytes(
            tx_body_bytes(body@),
            auth_info_bytes(auth_info@),
            chain_id@,
            account_number,
        ),
{
    let body_bytes = body.encode();
    let auth_bytes = auth_info.encode();
    put_scalar_bytes(buf, 1, body_bytes.as_slice());
    put_scalar_bytes(buf, 2, auth_bytes.as_slice());
    put_scalar_bytes(buf, 3, chain_id.as_bytes());
    put_uint64(buf, 4, account_number);
    assert(buf@ =~= old(buf)@ + sign_doc_bytes(
        tx_body_bytes(body@),
        auth_info_bytes(auth_info@),
        chain_id@,
        account_number,
    ));
}

/// Drafts the transaction that carries `messages` and `memo` for the signer
/// with `account` and `public_key`, with `fee` as its placeholder fee.
pub fn tx_info(
    messages: Vec<Envelope>,
    memo: &str,
    account: &Account,
    public_key: &[u8],
    fee: Fee,
) -> (draft: Draft)
    ensures
        draft@ == unsigned_tx(envelope_views(messages@), memo@, *account, public_key@, fee@),
{
    let body = TxBody {
        messages,
        memo: memo.to_owned(),
        timeout_height: 0,
        extension_options: Vec::new(),
        non_critical_extension_options: Vec::new(),
    };
    let mut signer_infos: Vec<SignerInfo> = Vec::new();
    signer_infos.push(
        SignerInfo {
            public_key: Some(secp256k1_pub_key(public_key)),
            mode_info: ModeInfo::Single { mode: SignMode::Direct },
            sequence: account.sequence,
        },
    );
    let draft = Draft { body, auth_info: AuthInfo { signer_infos, fee } };
    proof {
        let want = unsigned_tx(envelope_views(messages@), memo@, *account, public_key@, fee@);
        assert(draft@.body.extension_options =~= want.body.extension_options);
        assert(draft@.body.non_critical_extension_options
            =~= want.body.non_critical_extension_options);
        assert(draft@.auth_info.signer_infos =~= want.auth_info.signer_infos);
    }
    draft
}

impl Draft {
    /// The bytes to sign for a dry run.
    pub fn sign_doc(&self, chain_id: &str, account_number: u64) -> (bytes: Vec<u8>)
        ensures
            bytes@ == sign_doc_of(self@, chain_id@, account_number),
    {
        let mut buf: Vec<u8> = Vec::new();
        put_sign_doc(&mut buf, &self.body, &self.auth_info, chain_id, account_number);
        assert(buf@ =~= sign_doc_of(self@, chain_id@, account_number));
        buf
    }

    /// The request for a dry run of this draft with `signature`, as a message.
    pub fn simulate_request(&self, signature: &[u8]) -> (bytes: Vec<u8>)
        ensures
            bytes@ == simulate_request_bytes(tx_bytes(self@, seq![signature@])),
    {
        let body_bytes = self.body.encode();
        let auth_bytes = self.auth_info.encode();
        let mut tx: Vec<u8> = Vec::new();
        put_bytes_field(&mut tx, 1, body_bytes.as_slice());
        put_bytes_field(&mut tx, 2, auth_bytes.as_slice());
        put_bytes_field(&mut tx, 3, signature);
        proof {
            lemma_single_signature(signature@);
            assert(tx@ =~= tx_bytes(self@, seq![signature@]));
        }
        simulate_request(tx.as_slice())
    }

    /// Replaces the placeholder fee by the fee that the transaction will pay.
    pub fn finalize(self, fee: Fee) -> (tx: Finalized)
        ensures
            tx@ == with_fee(self@, fee@),
    {
        Finalized {
            body: self.body,
            auth_info: AuthInfo { signer_infos: self.auth_info.signer_infos, fee },
        }
    }
}

impl Finalized {
    /// The bytes to sign for submission.
    pub fn sign_doc(&self, chain_id: &str, account_number: u64) -> (bytes: Vec<u8>)
        ensures
            bytes@ == sign_doc_of(self@, chain_id@, account_number),
    {
        let mut buf: Vec<u8> = Vec::new();
        put_sign_doc(&mut buf, &self.body, &self.auth_info, chain_id, account_number);
        assert(buf@ =~= sign_doc_of(self@, chain_id@, account_number));
        buf
    }

    /// The body of this transaction.
    pub fn body(&self) -> (body: &TxBody)
        ensures
            body@ == self@.body,
    {
        &self.body
    }

    /// The auth info of this transaction.
    pub fn auth_info(&self) -> (auth_info: &AuthInfo)
        ensures
            auth_info@ == self@.auth_info,
    {
        &self.auth_info
    }

    /// Puts this transaction and `signature` together and hashes the result.
    pub fn assemble(&self, signature: &[u8]) -> (signed: SignedTx)
        ensures
            signed@.raw == signed_bytes(self@, signature@),
            signed@.hash == sha256(signed@.raw),
    {
        let body_bytes = self.body.encode();
        let auth_bytes = self.auth_info.encode();
        let mut raw: Vec<u8> = Vec::new();
        put_scalar_bytes(&mut raw, 1, body_bytes.as_slice());
        put_scalar_bytes(&mut raw, 2, auth_bytes.as_slice());
        put_bytes_field(&mut raw, 3, signature);
        proof {
            lemma_single_signature(signature@);
            assert(raw@ =~= signed_bytes(self@, signature@));
        }
        let hash = TxHash::of(raw.as_slice());
        SignedTx { raw, hash }
    }
}

impl SignedTx {
    /// Keeps to what `assemble` builds: the hash is the hash of the bytes.
    #[verifier::type_invariant]
    spec fn hashed(self) -> bool {
        self.hash@ == sha256(self.raw@)
    }

    /// The raw bytes, as they are submitted.
    pub fn raw(&self) -> (raw: &Vec<u8>)
        ensures
            raw@ == self@.raw,
    {
        &self.raw
    }

    /// The hash of the raw bytes.
    pub fn hash(&self) -> (hash: TxHash)
        ensures
            hash@ == self@.hash,
            hash@ == sha256(self@.raw),
    {
        proof {
            use_type_invariant(self);
        }
        self.hash
    }
}

} // verus!
