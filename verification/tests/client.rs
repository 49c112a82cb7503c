use cosmos_client::client::TxClient;

#[test]
fn client_hands_out_what_it_was_built_with() {
    let client = TxClient::new("wallet", 7u32, vec![1u8, 2]);
    assert_eq!(*client.wallet(), "wallet");
    assert_eq!(*client.rpc(), 7);
    assert_eq!(*client.gas(), vec![1u8, 2]);
}
