//! Who signs a transaction and what they pay: signer infos and the fee.

use crate::envelope::{envelope_bytes, Envelope, EnvelopeView};
use crate::wire::{
    bytes_field, lemma_repeated_push, put_bytes_field, put_scalar_bytes, put_uint64,
    repeated_field, scalar_bytes_field, uint64_field,
};
use vstd::prelude::*;
use vstd::utf8::encode_utf8;

verus! {

/// An amount of one denomination. The amount is a decimal number, kept as
/// the text that goes on the wire.
#[derive(Clone, Debug, PartialEq, Eq)]
pub struct Coin {
    pub denom: String,
    pub amount: String,
}

/// What a `Coin` holds.
pub ghost struct CoinView {
    pub denom: Seq<char>,
    pub amount: Seq<char>,
}

impl View for Coin {
    type V = CoinView;

    open spec fn view(&self) -> CoinView {
        CoinView { denom: self.denom@, amount: self.amount@ }
    }
}

/// What the signer pays and how much gas the transaction may use.
#[derive(Clone, Debug, PartialEq, Eq)]
pub struct Fee {
    pub amount: Vec<Coin>,
    pub gas_limit: u64,
    pub payer: String,
    pub granter: String,
}

/// What a `Fee` holds.
pub ghost struct FeeView {
    pub amount: Seq<CoinView>,
    pub gas_limit: u64,
    pub payer: Seq<char>,
    pub granter: Seq<char>,
}

/// What each coin of a list holds.
pub open spec fn coin_views(s: Seq<Coin>) -> Seq<CoinView> {
    s.map_values(|c: Coin| c@)
}

impl View for Fee {
    type V = FeeView;

    open spec fn view(&self) -> FeeView {
        FeeView {
            amount: coin_views(self.amount@),
            gas_limit: self.gas_limit,
            payer: self.payer@,
            granter: self.granter@,
        }
    }
}

/// How a signature is to be made and checked.
#[derive(Clone, Copy, Debug, PartialEq, Eq)]
pub enum SignMode {
    Unspecified,
    Direct,
    Textual,
    DirectAux,
    LegacyAminoJson,
    Eip191,
}

/// How a signer signs. This client describes single signers only.
#[derive(Clone, Copy, Debug, PartialEq, Eq)]
pub enum ModeInfo {
    Single { mode: SignMode },
}

/// One signer of a transaction.
#[derive(Clone, Debug, PartialEq, Eq)]
pub struct SignerInfo {
    pub public_key: Option<Envelope>,
    pub mode_info: ModeInfo,
    pub sequence: u64,
}

/// What a `SignerInfo` holds.
pub ghost struct SignerInfoView {
    pub public_key: Option<EnvelopeView>,
    pub mode_info: ModeInfo,
    pub sequence: u64,
}

impl View for SignerInfo {
    type V = SignerInfoView;

    open spec fn view(&self) -> SignerInfoView {
        SignerInfoView {
            public_key: match self.public_key {
                Some(e) => Some(e@),
                None => None,
            },
            mode_info: self.mode_info,
            sequence: self.sequence,
        }
    }
}

/// The signers of a transaction and its fee.
#[derive(Clone, Debug, PartialEq, Eq)]
pub struct AuthInfo {
    pub signer_infos: Vec<SignerInfo>,
    pub fee: Fee,
}

/// What an `AuthInfo` holds.
pub ghost struct AuthInfoView {
    pub signer_infos: Seq<SignerInfoView>,
    pub fee: FeeView,
}

/// What each signer info of a list holds.
pub open spec fn signer_info_views(s: Seq<SignerInfo>) -> Seq<SignerInfoView> {
    s.map_values(|i: SignerInfo| i@)
}

impl View for AuthInfo {
    type V = AuthInfoView;

    open spec fn view(&self) -> AuthInfoView {
        AuthInfoView { signer_infos: signer_info_views(self.signer_infos@), fee: self.fee@ }
    }
}

/// The name of the schema of a secp256k1 public key.
pub const SECP256K1_PUB_KEY_TYPE_URL: &'static str = "/cosmos.crypto.secp256k1.PubKey";

/// The number that stands for a sign mode on the wire.
pub open spec fn sign_mode_number(mode: SignMode) -> u64 {
    match mode {
        SignMode::Unspecified => 0,
        SignMode::Direct => 1,
        SignMode::Textual => 2,
        SignMode::DirectAux => 3,
        SignMode::LegacyAminoJson => 127,
        SignMode::Eip191 => 191,
    }
}

/// A coin on the wire.
pub open spec fn coin_bytes(c: CoinView) -> Seq<u8> {
    scalar_bytes_field(1, encode_utf8(c.denom)) + scalar_bytes_field(2, encode_utf8(c.amount))
}

/// Each coin of a list as a message.
pub open spec fn coin_payloads(cs: Seq<CoinView>) -> Seq<Seq<u8>> {
    Seq::new(cs.len(), |i: int| coin_bytes(cs[i]))
}

/// A fee on the wire.
pub open spec fn fee_bytes(f: FeeView) -> Seq<u8> {
    repeated_field(1, coin_payloads(f.amount)) + uint64_field(2, f.gas_limit) + scalar_bytes_field(
        3,
        encode_utf8(f.payer),
    ) + scalar_bytes_field(4, encode_utf8(f.granter))
}

/// A mode info on the wire: the single-signer case is field 1, and in it the
/// mode is field 1.
pub open spec fn mode_info_bytes(m: ModeInfo) -> Seq<u8> {
    match m {
        ModeInfo::Single { mode } => bytes_field(1, uint64_field(1, sign_mode_number(mode))),
    }
}

/// A secp256k1 public key in its envelope.
pub open spec fn secp256k1_envelope(key: Seq<u8>) -> EnvelopeView {
    EnvelopeView { type_url: SECP256K1_PUB_KEY_TYPE_URL@, value: scalar_bytes_field(1, key) }
}

/// An optional envelope as a field: written where there is one.
pub open spec fn optional_envelope_field(number: u32, e: Option<EnvelopeView>) -> Seq<u8> {
    match e {
        Some(e) => bytes_field(number, envelope_bytes(e)),
        None => Seq::empty(),
    }
}

/// A signer info on the wire.
pub open spec fn signer_info_bytes(s: SignerInfoView) -> Seq<u8> {
    optional_envelope_field(1, s.public_key) + bytes_field(2, mode_info_bytes(s.mode_info))
        + uint64_field(3, s.sequence)
}

/// Each signer info of a list as a message.
pub open spec fn signer_info_payloads(ss: Seq<SignerInfoView>) -> Seq<Seq<u8>> {
    Seq::new(ss.len(), |i: int| signer_info_bytes(ss[i]))
}

/// An auth info on the wire. The fee is always written, also where it is empty.
pub open spec fn auth_info_bytes(a: AuthInfoView) -> Seq<u8> {
    repeated_field(1, signer_info_payloads(a.signer_infos)) + bytes_field(2, fee_bytes(a.fee))
}

impl SignMode {
    /// The number that stands for this mode on the wire.
    pub fn number(&self) -> (n: u64)
        ensures
            n == sign_mode_number(*self),
    {
        match self {
            SignMode::Unspecified => 0,
            SignMode::Direct => 1,
            SignMode::Textual => 2,
            SignMode::DirectAux => 3,
            SignMode::LegacyAminoJson => 127,
            SignMode::Eip191 => 191,
        }
    }
}

impl ModeInfo {
    /// This mode info as a message.
    pub fn encode(&self) -> (bytes: Vec<u8>)
        ensures
            bytes@ == mode_info_bytes(*self),
    {
        let mut inner: Vec<u8> = Vec::new();
        let mut buf: Vec<u8> = Vec::new();
        match self {
            ModeInfo::Single { mode } => {
                put_uint64(&mut inner, 1, mode.number());
                assert(inner@ =~= uint64_field(1, sign_mode_number(*mode)));
                put_bytes_field(&mut buf, 1, inner.as_slice());
            },
        }
        assert(buf@ =~= mode_info_bytes(*self));
        buf
    }
}

impl Coin {
    /// This coin as a message.
    pub fn encode(&self) -> (bytes: Vec<u8>)
        ensures
            bytes@ == coin_bytes(self@),
    {
        let mut buf: Vec<u8> = Vec::new();
        put_scalar_bytes(&mut buf, 1, self.denom.as_str().as_bytes());
        put_scalar_bytes(&mut buf, 2, self.amount.as_str().as_bytes());
        assert(buf@ =~= coin_bytes(self@));
        buf
    }
}

impl Fee {
    /// This fee as a message.
    pub fn encode(&self) -> (bytes: Vec<u8>)
        ensures
            bytes@ == fee_bytes(self@),
    {
        let mut buf: Vec<u8> = Vec::new();
        let ghost all = coin_views(self.amount@);
        let mut i: usize = 0;
        proof {
            assert(coin_payloads(all.take(0)) =~= Seq::<Seq<u8>>::empty());
            assert(buf@ =~= repeated_field(1, coin_payloads(all.take(0))));
        }
        while i < self.amount.len()
            invariant
                i <= self.amount@.len(),
                all == coin_views(self.amount@),
                buf@ == repeated_field(1, coin_payloads(all.take(i as int))),
            decreases self.amount@.len() - i,
        {
            let payload = self.amount[i].encode();
            put_bytes_field(&mut buf, 1, payload.as_slice());
            proof {
                let done = coin_payloads(all.take(i as int));
                lemma_repeated_push(1, done, payload@);
                assert(coin_payloads(all.take(i + 1)) =~= done.push(payload@));
            }
            i = i + 1;
        }
        proof {
            assert(all.take(i as int) =~= all);
        }
        put_uint64(&mut buf, 2, self.gas_limit);
        put_scalar_bytes(&mut buf, 3, self.payer.as_str().as_bytes());
        put_scalar_bytes(&mut buf, 4, self.granter.as_str().as_bytes());
        assert(buf@ =~= fee_bytes(self@));
        buf
    }
}

/// Puts a secp256k1 public key into its envelope.
pub fn secp256k1_pub_key(key: &[u8]) -> (e: Envelope)
    ensures
        e@ == secp256k1_envelope(key@),
{
    let mut value: Vec<u8> = Vec::new();
    put_scalar_bytes(&mut value, 1, key);
    assert(value@ =~= scalar_bytes_field(1, key@));
    Envelope::wrap(SECP256K1_PUB_KEY_TYPE_URL, value)
}

impl SignerInfo {
    /// This signer info as a message.
    pub fn encode(&self) -> (bytes: Vec<u8>)
        ensures
            bytes@ == signer_info_bytes(self@),
    {
        let mut buf: Vec<u8> = Vec::new();
        match &self.public_key {
            Some(key) => {
                let payload = key.encode();
                put_bytes_field(&mut buf, 1, payload.as_slice());
            },
            None => {},
        }
        assert(buf@ =~= optional_envelope_field(1, self@.public_key));
        let mode = self.mode_info.encode();
        put_bytes_field(&mut buf, 2, mode.as_slice());
        put_uint64(&mut buf, 3, self.sequence);
        assert(buf@ =~= signer_info_bytes(self@));
        buf
    }
}

impl AuthInfo {
    /// This auth info as a message.
    pub fn encode(&self) -> (bytes: Vec<u8>)
        ensures
            bytes@ == auth_info_bytes(self@),
    {
        let mut buf: Vec<u8> = Vec::new();
        let ghost all = signer_info_views(self.signer_infos@);
        let mut i: usize = 0;
        proof {
            assert(signer_info_payloads(all.take(0)) =~= Seq::<Seq<u8>>::empty());
            assert(buf@ =~= repeated_field(1, signer_info_payloads(all.take(0))));
        }
        while i < self.signer_infos.len()
            invariant
                i <= self.signer_infos@.len(),
                all == signer_info_views(self.signer_infos@),
                buf@ == repeated_field(1, signer_info_payloads(all.take(i as int))),
            decreases self.signer_infos@.len() - i,
        {
            let payload = self.signer_infos[i].encode();
            put_bytes_field(&mut buf, 1, payload.as_slice());
            proof {
                let done = signer_info_payloads(all.take(i as int));
                lemma_repeated_push(1, done, payload@);
                assert(signer_info_payloads(all.take(i + 1)) =~= done.push(payload@));
            }
            i = i + 1;
        }
        proof {
            assert(all.take(i as int) =~= all);
        }
        let fee = self.fee.encode();
        put_bytes_field(&mut buf, 2, fee.as_slice());
        assert(buf@ =~= auth_info_bytes(self@));
        buf
    }
}

} // verus!
