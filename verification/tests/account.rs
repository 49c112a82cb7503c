use cosmos_client::account::{
    account_info, account_not_found, account_request, Account, QueryAccountResponse,
    ACCOUNT_NOT_FOUND_CODE, ACCOUNT_NOT_FOUND_CODESPACE, ACCOUNT_QUERY_PATH,
    BASE_ACCOUNT_TYPE_URL,
};
use cosmos_client::envelope::{Envelope, TryFromAnyError};
use cosmos_client::error::BroadcastTxCommitError;
use cosmos_client::rpc::GrpcAbciQueryError;
use cosmos_client::wire::DecodeError;
use cosmos_sdk_proto::cosmos::auth::v1beta1::{
    BaseAccount, QueryAccountRequest, QueryAccountResponse as ProstResponse,
};
use cosmos_sdk_proto::traits::Message;
use cosmos_sdk_proto::Any;

fn query_error(error_code: u32, codespace: &str) -> GrpcAbciQueryError {
    GrpcAbciQueryError {
        error_code,
        codespace: codespace.to_string(),
        log: "some log".to_string(),
    }
}

fn record(account_number: u64, sequence: u64) -> Vec<u8> {
    BaseAccount {
        address: "union1qqqq".to_string(),
        pub_key: Some(Any { type_url: "/cosmos.crypto.secp256k1.PubKey".to_string(), value: vec![0x0a, 0x01, 0x02] }),
        account_number,
        sequence,
    }
    .encode_to_vec()
}

fn response(account: Option<Envelope>) -> Result<Option<QueryAccountResponse>, GrpcAbciQueryError> {
    Ok(Some(QueryAccountResponse { account }))
}

#[test]
fn names_of_the_account_query() {
    assert_eq!(ACCOUNT_QUERY_PATH, "/cosmos.auth.v1beta1.Query/Account");
    assert_eq!(BASE_ACCOUNT_TYPE_URL, "/cosmos.auth.v1beta1.BaseAccount");
    assert_eq!(ACCOUNT_NOT_FOUND_CODE, 22);
    assert_eq!(ACCOUNT_NOT_FOUND_CODESPACE, "sdk");
}

#[test]
fn default_account_is_all_zero() {
    assert_eq!(Account::default(), Account { account_number: 0, sequence: 0 });
}

#[test]
fn account_request_agrees_with_prost() {
    for address in ["union1abcdef", ""] {
        assert_eq!(
            account_request(address),
            QueryAccountRequest { address: address.to_string() }.encode_to_vec()
        );
    }
}

#[test]
fn account_record_is_read() {
    assert_eq!(Account::decode(&record(42, 7)), Ok(Account { account_number: 42, sequence: 7 }));
    assert_eq!(Account::decode(&[]), Ok(Account { account_number: 0, sequence: 0 }));
    assert_eq!(
        Account::decode(&record(u64::MAX, u64::MAX)),
        Ok(Account { account_number: u64::MAX, sequence: u64::MAX })
    );
    // a later field replaces an earlier one
    assert_eq!(
        Account::decode(&[0x20, 0x01, 0x20, 0x02]),
        Ok(Account { account_number: 0, sequence: 2 })
    );
}

#[test]
fn account_record_with_bad_fields_is_an_error() {
    assert_eq!(Account::decode(&[0x1a, 0x00]), Err(DecodeError::UnexpectedWireType));
    assert_eq!(Account::decode(&[0x22, 0x00]), Err(DecodeError::UnexpectedWireType));
    assert_eq!(Account::decode(&[0x08, 0x00]), Err(DecodeError::UnexpectedWireType));
    assert_eq!(Account::decode(&[0x10, 0x00]), Err(DecodeError::UnexpectedWireType));
    assert_eq!(Account::decode(&[0x0a, 0x01, 0xff]), Err(DecodeError::InvalidUtf8));
    assert_eq!(Account::decode(&[0x12, 0x02, 0x08, 0x01]), Err(DecodeError::UnexpectedWireType));
    assert_eq!(Account::decode(&[0x18]), Err(DecodeError::InvalidVarint));
    for bytes in [
        vec![0x1au8, 0x00],
        vec![0x0a, 0x01, 0xff],
        vec![0x12, 0x02, 0x08, 0x01],
        vec![0x18],
    ] {
        assert!(BaseAccount::decode(&bytes[..]).is_err());
    }
}

#[test]
fn account_opens_from_its_envelope_only() {
    let good = Envelope { type_url: BASE_ACCOUNT_TYPE_URL.to_string(), value: record(3, 4) };
    assert_eq!(Account::from_envelope(good), Ok(Account { account_number: 3, sequence: 4 }));
    let other = Envelope { type_url: "/cosmos.auth.v1beta1.ModuleAccount".to_string(), value: record(3, 4) };
    assert_eq!(
        Account::from_envelope(other),
        Err(TryFromAnyError::IncorrectTypeUrl {
            found: "/cosmos.auth.v1beta1.ModuleAccount".to_string(),
            expected: "/cosmos.auth.v1beta1.BaseAccount".to_string(),
        })
    );
    let broken = Envelope { type_url: BASE_ACCOUNT_TYPE_URL.to_string(), value: vec![0x18] };
    assert_eq!(
        Account::from_envelope(broken),
        Err(TryFromAnyError::Decode(DecodeError::InvalidVarint))
    );
}

#[test]
fn account_response_is_read() {
    let theirs = ProstResponse {
        account: Some(Any { type_url: BASE_ACCOUNT_TYPE_URL.to_string(), value: record(1, 2) }),
    };
    assert_eq!(
        QueryAccountResponse::decode(&theirs.encode_to_vec()),
        Ok(QueryAccountResponse {
            account: Some(Envelope { type_url: BASE_ACCOUNT_TYPE_URL.to_string(), value: record(1, 2) }),
        })
    );
    assert_eq!(QueryAccountResponse::decode(&[]), Ok(QueryAccountResponse { account: None }));
    assert_eq!(
        QueryAccountResponse::decode(&[0x0a, 0x00]),
        Ok(QueryAccountResponse { account: Some(Envelope::empty()) })
    );
    assert_eq!(QueryAccountResponse::decode(&[0x08, 0x01]), Err(DecodeError::UnexpectedWireType));
    assert_eq!(QueryAccountResponse::decode(&[0x0a, 0x02, 0x08, 0x01]), Err(DecodeError::UnexpectedWireType));
}

#[test]
fn second_record_is_merged_into_the_first() {
    let bytes = [0x0a, 0x03, 0x0a, 0x01, b'a', 0x0a, 0x03, 0x12, 0x01, 0x09];
    let ours = QueryAccountResponse::decode(&bytes).unwrap().account.unwrap();
    let theirs = ProstResponse::decode(&bytes[..]).unwrap().account.unwrap();
    assert_eq!(ours, Envelope { type_url: "a".to_string(), value: vec![9] });
    assert_eq!((ours.type_url, ours.value), (theirs.type_url, theirs.value));
}

#[test]
fn account_not_found_is_no_account() {
    assert!(account_not_found(&query_error(22, "sdk")));
    assert_eq!(account_info(Err(query_error(22, "sdk"))), Ok(None));
    assert_eq!(account_info(Err(query_error(22, "sdk"))).unwrap().unwrap_or_default(), Account { account_number: 0, sequence: 0 });
}

#[test]
fn any_other_query_error_is_passed_on() {
    for (code, codespace) in [(22, "wasm"), (22, "SDK"), (22, ""), (22, "sdk "), (21, "sdk"), (23, "sdk"), (1, "sdk"), (5, "bank")] {
        assert!(!account_not_found(&query_error(code, codespace)));
        let result = account_info(Err(query_error(code, codespace)));
        assert_eq!(result, Err(BroadcastTxCommitError::Query(query_error(code, codespace))));
        let error = result.unwrap_err();
        assert_eq!(error.as_grpc_abci_query_error(), Some(&query_error(code, codespace)));
        assert_eq!(error.as_json_rpc_error(), None);
    }
}

#[test]
fn answer_without_a_record_is_no_account() {
    assert_eq!(account_info(Ok(None)), Ok(None));
    assert_eq!(account_info(response(None)), Ok(None));
}

#[test]
fn answer_with_a_record_is_the_account() {
    let good = Envelope { type_url: BASE_ACCOUNT_TYPE_URL.to_string(), value: record(9, 31) };
    assert_eq!(account_info(response(Some(good))), Ok(Some(Account { account_number: 9, sequence: 31 })));
}

#[test]
fn record_of_another_type_is_an_account_decode_error() {
    let other = Envelope { type_url: "/other.Account".to_string(), value: record(9, 31) };
    assert_eq!(
        account_info(response(Some(other))),
        Err(BroadcastTxCommitError::AccountDecode(TryFromAnyError::IncorrectTypeUrl {
            found: "/other.Account".to_string(),
            expected: BASE_ACCOUNT_TYPE_URL.to_string(),
        }))
    );
    let broken = Envelope { type_url: BASE_ACCOUNT_TYPE_URL.to_string(), value: vec![0x1a, 0x00] };
    assert_eq!(
        account_info(response(Some(broken))),
        Err(BroadcastTxCommitError::AccountDecode(TryFromAnyError::Decode(DecodeError::UnexpectedWireType)))
    );
}
