use cosmos_client::account::Account;
use cosmos_client::auth::{
    secp256k1_pub_key, AuthInfo, Coin, Fee, ModeInfo, SignMode, SignerInfo,
    SECP256K1_PUB_KEY_TYPE_URL,
};
use cosmos_client::body::TxBody;
use cosmos_client::envelope::Envelope;
use cosmos_client::gas::{simulate_request, SIMULATE_QUERY_PATH};
use cosmos_client::hash::TxHash;
use cosmos_client::tx::{tx_info, Draft};
use cosmos_sdk_proto::cosmos::base::v1beta1::Coin as ProstCoin;
use cosmos_sdk_proto::cosmos::crypto::secp256k1::PubKey;
use cosmos_sdk_proto::cosmos::tx::signing::v1beta1::SignMode as ProstSignMode;
use cosmos_sdk_proto::cosmos::tx::v1beta1::mode_info::{Single, Sum};
use cosmos_sdk_proto::cosmos::tx::v1beta1::{
    AuthInfo as ProstAuthInfo, Fee as ProstFee, ModeInfo as ProstModeInfo, SignDoc,
    SignerInfo as ProstSignerInfo, SimulateRequest, Tx, TxBody as ProstTxBody, TxRaw,
};
use cosmos_sdk_proto::traits::Message;
use cosmos_sdk_proto::Any;

fn envelope(type_url: &str, value: &[u8]) -> Envelope {
    Envelope { type_url: type_url.to_string(), value: value.to_vec() }
}

fn coin(denom: &str, amount: &str) -> Coin {
    Coin { denom: denom.to_string(), amount: amount.to_string() }
}

fn fee(amount: Vec<Coin>, gas_limit: u64) -> Fee {
    Fee { amount, gas_limit, payer: String::new(), granter: String::new() }
}

fn prost_fee(f: &Fee) -> ProstFee {
    ProstFee {
        amount: f
            .amount
            .iter()
            .map(|c| ProstCoin { denom: c.denom.clone(), amount: c.amount.clone() })
            .collect(),
        gas_limit: f.gas_limit,
        payer: f.payer.clone(),
        granter: f.granter.clone(),
    }
}

fn prost_mode(mode: SignMode) -> i32 {
    match mode {
        SignMode::Unspecified => ProstSignMode::Unspecified as i32,
        SignMode::Direct => ProstSignMode::Direct as i32,
        SignMode::Textual => ProstSignMode::Textual as i32,
        SignMode::DirectAux => ProstSignMode::DirectAux as i32,
        SignMode::LegacyAminoJson => ProstSignMode::LegacyAminoJson as i32,
        SignMode::Eip191 => ProstSignMode::Eip191 as i32,
    }
}

fn prost_signer(s: &SignerInfo) -> ProstSignerInfo {
    let ModeInfo::Single { mode } = s.mode_info;
    ProstSignerInfo {
        public_key: s
            .public_key
            .as_ref()
            .map(|e| Any { type_url: e.type_url.clone(), value: e.value.clone() }),
        mode_info: Some(ProstModeInfo { sum: Some(Sum::Single(Single { mode: prost_mode(mode) })) }),
        sequence: s.sequence,
    }
}

#[allow(deprecated)]
fn prost_auth(a: &AuthInfo) -> ProstAuthInfo {
    ProstAuthInfo {
        signer_infos: a.signer_infos.iter().map(prost_signer).collect(),
        fee: Some(prost_fee(&a.fee)),
        tip: None,
    }
}

fn prost_body(b: &TxBody) -> ProstTxBody {
    let any = |e: &Envelope| Any { type_url: e.type_url.clone(), value: e.value.clone() };
    ProstTxBody {
        messages: b.messages.iter().map(any).collect(),
        memo: b.memo.clone(),
        timeout_height: b.timeout_height,
        extension_options: b.extension_options.iter().map(any).collect(),
        non_critical_extension_options: b.non_critical_extension_options.iter().map(any).collect(),
    }
}

fn sample_draft() -> Draft {
    tx_info(
        vec![envelope("/cosmos.bank.v1beta1.MsgSend", &[1, 2, 3]), envelope("/x.Y", &[])],
        "a memo",
        &Account { account_number: 11, sequence: 5 },
        &[2; 33],
        fee(vec![coin("muno", "2500")], 100_000),
    )
}

#[test]
fn sign_mode_numbers() {
    assert_eq!(SignMode::Unspecified.number(), 0);
    assert_eq!(SignMode::Direct.number(), 1);
    assert_eq!(SignMode::Textual.number(), 2);
    assert_eq!(SignMode::DirectAux.number(), 3);
    assert_eq!(SignMode::LegacyAminoJson.number(), 127);
    assert_eq!(SignMode::Eip191.number(), 191);
}

#[test]
fn mode_info_encoding_agrees_with_prost() {
    for mode in [
        SignMode::Unspecified,
        SignMode::Direct,
        SignMode::Textual,
        SignMode::DirectAux,
        SignMode::LegacyAminoJson,
        SignMode::Eip191,
    ] {
        let theirs =
            ProstModeInfo { sum: Some(Sum::Single(Single { mode: prost_mode(mode) })) };
        assert_eq!(ModeInfo::Single { mode }.encode(), theirs.encode_to_vec());
    }
    assert_eq!(ModeInfo::Single { mode: SignMode::Direct }.encode(), vec![0x0a, 0x02, 0x08, 0x01]);
    assert_eq!(ModeInfo::Single { mode: SignMode::Unspecified }.encode(), vec![0x0a, 0x00]);
}

#[test]
fn coin_and_fee_encoding_agree_with_prost() {
    assert_eq!(
        coin("muno", "2500").encode(),
        ProstCoin { denom: "muno".to_string(), amount: "2500".to_string() }.encode_to_vec()
    );
    assert_eq!(coin("", "").encode(), Vec::<u8>::new());
    let fees = vec![
        fee(vec![], 0),
        fee(vec![coin("muno", "1")], 200_000),
        fee(vec![coin("a", "1"), coin("", ""), coin("b", "340282366920938463463374607431768211455")], u64::MAX),
        Fee {
            amount: vec![coin("muno", "7")],
            gas_limit: 1,
            payer: "union1payer".to_string(),
            granter: "union1granter".to_string(),
        },
    ];
    for f in fees {
        assert_eq!(f.encode(), prost_fee(&f).encode_to_vec());
    }
}

#[test]
fn public_key_envelope_agrees_with_prost() {
    let key = [3u8; 33];
    let e = secp256k1_pub_key(&key);
    assert_eq!(e.type_url, "/cosmos.crypto.secp256k1.PubKey");
    assert_eq!(e.type_url, SECP256K1_PUB_KEY_TYPE_URL);
    assert_eq!(e.value, PubKey { key: key.to_vec() }.encode_to_vec());
    assert_eq!(secp256k1_pub_key(&[]).value, Vec::<u8>::new());
}

#[test]
fn signer_info_and_auth_info_encoding_agree_with_prost() {
    let signers = vec![
        SignerInfo {
            public_key: Some(secp256k1_pub_key(&[2; 33])),
            mode_info: ModeInfo::Single { mode: SignMode::Direct },
            sequence: 0,
        },
        SignerInfo {
            public_key: None,
            mode_info: ModeInfo::Single { mode: SignMode::LegacyAminoJson },
            sequence: u64::MAX,
        },
        SignerInfo {
            public_key: Some(Envelope::empty()),
            mode_info: ModeInfo::Single { mode: SignMode::Unspecified },
            sequence: 300,
        },
    ];
    for s in &signers {
        assert_eq!(s.encode(), prost_signer(s).encode_to_vec());
    }
    let auths = vec![
        AuthInfo { signer_infos: vec![], fee: fee(vec![], 0) },
        AuthInfo { signer_infos: signers.clone(), fee: fee(vec![coin("muno", "12")], 99) },
    ];
    for a in auths {
        assert_eq!(a.encode(), prost_auth(&a).encode_to_vec());
    }
}

#[test]
fn auth_info_with_empty_fee_still_writes_the_fee() {
    let a = AuthInfo { signer_infos: vec![], fee: fee(vec![], 0) };
    assert_eq!(a.encode(), vec![0x12, 0x00]);
}

#[test]
fn body_encoding_agrees_with_prost() {
    let bodies = vec![
        TxBody {
            messages: vec![],
            memo: String::new(),
            timeout_height: 0,
            extension_options: vec![],
            non_critical_extension_options: vec![],
        },
        TxBody {
            messages: vec![envelope("/a.M", &[1, 2, 3]), envelope("/b.M", &[])],
            memo: "hello \u{1f600}".to_string(),
            timeout_height: 77,
            extension_options: vec![envelope("/e", &[9])],
            non_critical_extension_options: vec![envelope("/n", &[8]), envelope("", &[])],
        },
    ];
    for b in bodies {
        assert_eq!(b.encode(), prost_body(&b).encode_to_vec());
    }
}

#[test]
fn draft_has_one_direct_signer_with_the_account_sequence() {
    let messages = vec![envelope("/cosmos.bank.v1beta1.MsgSend", &[1, 2, 3])];
    let placeholder = fee(vec![coin("muno", "2500")], 100_000);
    let draft = tx_info(
        messages.clone(),
        "memo",
        &Account { account_number: 11, sequence: 5 },
        &[2; 33],
        placeholder.clone(),
    );
    assert_eq!(
        draft.body,
        TxBody {
            messages,
            memo: "memo".to_string(),
            timeout_height: 0,
            extension_options: vec![],
            non_critical_extension_options: vec![],
        }
    );
    assert_eq!(
        draft.auth_info,
        AuthInfo {
            signer_infos: vec![SignerInfo {
                public_key: Some(secp256k1_pub_key(&[2; 33])),
                mode_info: ModeInfo::Single { mode: SignMode::Direct },
                sequence: 5,
            }],
            fee: placeholder,
        }
    );
}

#[test]
fn sequence_comes_from_the_account_of_each_call() {
    let mk = |sequence: u64| {
        tx_info(
            vec![envelope("/a.M", &[1])],
            "",
            &Account { account_number: 1, sequence },
            &[2; 33],
            fee(vec![], 10),
        )
    };
    let first = mk(5);
    let second = mk(6);
    assert_eq!(first.auth_info.signer_infos[0].sequence, 5);
    assert_eq!(second.auth_info.signer_infos[0].sequence, 6);
    let finalized = second.finalize(fee(vec![coin("muno", "3")], 20));
    assert_eq!(finalized.auth_info().signer_infos[0].sequence, 6);
    assert_eq!(finalized.auth_info().signer_infos.len(), 1);
}

#[test]
fn finalize_replaces_the_fee_only() {
    let draft = sample_draft();
    let real = fee(vec![coin("muno", "31")], 1234);
    let finalized = draft.clone().finalize(real.clone());
    assert_eq!(*finalized.body(), draft.body);
    assert_eq!(finalized.auth_info().signer_infos, draft.auth_info.signer_infos);
    assert_eq!(finalized.auth_info().fee, real);
}

#[test]
fn sign_doc_agrees_with_prost() {
    let draft = sample_draft();
    let theirs = SignDoc {
        body_bytes: prost_body(&draft.body).encode_to_vec(),
        auth_info_bytes: prost_auth(&draft.auth_info).encode_to_vec(),
        chain_id: "union-testnet-9".to_string(),
        account_number: 11,
    };
    assert_eq!(draft.sign_doc("union-testnet-9", 11), theirs.encode_to_vec());
    let finalized = draft.finalize(fee(vec![coin("muno", "31")], 1234));
    let theirs = SignDoc {
        body_bytes: prost_body(finalized.body()).encode_to_vec(),
        auth_info_bytes: prost_auth(finalized.auth_info()).encode_to_vec(),
        chain_id: "".to_string(),
        account_number: 0,
    };
    assert_eq!(finalized.sign_doc("", 0), theirs.encode_to_vec());
}

#[test]
fn sign_doc_changes_with_the_fee() {
    let draft = sample_draft();
    let before = draft.sign_doc("chain", 11);
    let after = draft.finalize(fee(vec![coin("muno", "31")], 1234)).sign_doc("chain", 11);
    assert_ne!(before, after);
}

#[test]
fn simulate_request_agrees_with_prost() {
    let draft = sample_draft();
    let signature = vec![9u8; 64];
    let tx = Tx {
        body: Some(prost_body(&draft.body)),
        auth_info: Some(prost_auth(&draft.auth_info)),
        signatures: vec![signature.clone()],
    };
    #[allow(deprecated)]
    let theirs = SimulateRequest { tx: None, tx_bytes: tx.encode_to_vec() };
    assert_eq!(draft.simulate_request(&signature), theirs.encode_to_vec());
    assert_eq!(simulate_request(&[1, 2]), vec![0x12, 0x02, 1, 2]);
    assert_eq!(simulate_request(&[]), Vec::<u8>::new());
    assert_eq!(SIMULATE_QUERY_PATH, "/cosmos.tx.v1beta1.Service/Simulate");
}

#[test]
fn raw_transaction_agrees_with_prost_and_is_hashed() {
    let finalized = sample_draft().finalize(fee(vec![coin("muno", "31")], 1234));
    for signature in [vec![9u8; 64], vec![]] {
        let theirs = TxRaw {
            body_bytes: prost_body(finalized.body()).encode_to_vec(),
            auth_info_bytes: prost_auth(finalized.auth_info()).encode_to_vec(),
            signatures: vec![signature.clone()],
        };
        let signed = finalized.assemble(&signature);
        assert_eq!(*signed.raw(), theirs.encode_to_vec());
        assert_eq!(signed.hash(), TxHash::of(signed.raw()));
        assert_eq!(signed.hash(), TxHash::of(&theirs.encode_to_vec()));
    }
}

#[test]
fn identical_inputs_give_identical_bytes_and_hash() {
    let one = sample_draft().finalize(fee(vec![coin("muno", "31")], 1234)).assemble(&[5; 64]);
    let two = sample_draft().finalize(fee(vec![coin("muno", "31")], 1234)).assemble(&[5; 64]);
    assert_eq!(one, two);
    let other = sample_draft().finalize(fee(vec![coin("muno", "32")], 1234)).assemble(&[5; 64]);
    assert_ne!(one.hash(), other.hash());
}
