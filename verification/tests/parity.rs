use cosmos_client::account::{Account, QueryAccountResponse};
use cosmos_client::envelope::Envelope;
use cosmos_client::gas::GasInfo;
use cosmos_client::response::TxMsgData;
use cosmos_client::wire::{read_fields, DecodeError};
use cosmos_sdk_proto::cosmos::auth::v1beta1::{BaseAccount, QueryAccountResponse as ProstAccountResponse};
use cosmos_sdk_proto::cosmos::base::abci::v1beta1::{GasInfo as ProstGasInfo, TxMsgData as ProstTxMsgData};
use cosmos_sdk_proto::traits::Message;
use cosmos_sdk_proto::Any;

/// A small deterministic generator of byte strings that look like messages:
/// mostly keys of low field numbers, short lengths and printable bytes, with
/// an odd byte now and then.
struct Bytes {
    state: u64,
}

impl Bytes {
    fn next(&mut self) -> u64 {
        self.state = self.state.wrapping_mul(6364136223846793005).wrapping_add(1442695040888963407);
        self.state >> 33
    }

    fn byte(&mut self) -> u8 {
        const COMMON: [u8; 24] = [
            0x00, 0x01, 0x02, 0x03, 0x04, 0x08, 0x09, 0x0a, 0x0d, 0x10, 0x12, 0x15, 0x18, 0x1a,
            0x20, 0x22, 0x28, 0x2a, 0x61, 0x7f, 0x80, 0x81, 0xc3, 0xff,
        ];
        if self.next() % 8 == 0 {
            (self.next() % 256) as u8
        } else {
            COMMON[(self.next() % 24) as usize]
        }
    }

    fn message(&mut self) -> Vec<u8> {
        let len = self.next() % 14;
        (0..len).map(|_| self.byte()).collect()
    }
}

/// Groups are the one thing that prost reads and this library refuses.
fn has_group(input: &[u8]) -> bool {
    fn within(input: &[u8], depth: usize) -> bool {
        match read_fields(input) {
            Err(DecodeError::UnsupportedGroup) => true,
            Err(_) => false,
            Ok(fields) => {
                depth < 3
                    && fields.iter().any(|f| match &f.value {
                        cosmos_client::wire::RawValue::Bytes(b) => within(b, depth + 1),
                        _ => false,
                    })
            }
        }
    }
    within(input, 0)
}

#[test]
fn envelope_decoding_agrees_with_prost_on_generated_input() {
    let mut gen = Bytes { state: 1 };
    let mut accepted = 0;
    for _ in 0..40_000 {
        let input = gen.message();
        if has_group(&input) {
            continue;
        }
        let ours = Envelope::decode(&input).ok().map(|e| (e.type_url, e.value));
        let theirs = Any::decode(&input[..]).ok().map(|a| (a.type_url, a.value));
        assert_eq!(ours, theirs, "input {:?}", input);
        accepted += ours.is_some() as usize;
    }
    assert!(accepted > 1000);
}

#[test]
fn response_list_decoding_agrees_with_prost_on_generated_input() {
    let mut gen = Bytes { state: 2 };
    let mut accepted = 0;
    for _ in 0..40_000 {
        let input = gen.message();
        if has_group(&input) {
            continue;
        }
        let ours = TxMsgData::decode(&input).ok().map(|d| {
            d.msg_responses.into_iter().map(|e| (e.type_url, e.value)).collect::<Vec<_>>()
        });
        let theirs = ProstTxMsgData::decode(&input[..]).ok().map(|d| {
            d.msg_responses.into_iter().map(|a| (a.type_url, a.value)).collect::<Vec<_>>()
        });
        assert_eq!(ours, theirs, "input {:?}", input);
        accepted += ours.is_some() as usize;
    }
    assert!(accepted > 1000);
}

#[test]
fn account_decoding_agrees_with_prost_on_generated_input() {
    let mut gen = Bytes { state: 3 };
    let mut accepted = 0;
    for _ in 0..40_000 {
        let input = gen.message();
        if has_group(&input) {
            continue;
        }
        let ours = Account::decode(&input).ok().map(|a| (a.account_number, a.sequence));
        let theirs =
            BaseAccount::decode(&input[..]).ok().map(|a| (a.account_number, a.sequence));
        assert_eq!(ours, theirs, "input {:?}", input);
        accepted += ours.is_some() as usize;
    }
    assert!(accepted > 1000);
}

#[test]
fn account_response_decoding_agrees_with_prost_on_generated_input() {
    let mut gen = Bytes { state: 4 };
    let mut accepted = 0;
    for _ in 0..40_000 {
        let input = gen.message();
        if has_group(&input) {
            continue;
        }
        let ours = QueryAccountResponse::decode(&input)
            .ok()
            .map(|r| r.account.map(|e| (e.type_url, e.value)));
        let theirs = ProstAccountResponse::decode(&input[..])
            .ok()
            .map(|r| r.account.map(|a| (a.type_url, a.value)));
        assert_eq!(ours, theirs, "input {:?}", input);
        accepted += ours.is_some() as usize;
    }
    assert!(accepted > 1000);
}

#[test]
fn gas_info_decoding_agrees_with_prost_on_generated_input() {
    let mut gen = Bytes { state: 5 };
    let mut accepted = 0;
    for _ in 0..40_000 {
        let input = gen.message();
        if has_group(&input) {
            continue;
        }
        let ours = GasInfo::default().merge(&input).ok().map(|g| (g.gas_wanted, g.gas_used));
        let theirs = ProstGasInfo::decode(&input[..]).ok().map(|g| (g.gas_wanted, g.gas_used));
        assert_eq!(ours, theirs, "input {:?}", input);
        accepted += ours.is_some() as usize;
    }
    assert!(accepted > 1000);
}
