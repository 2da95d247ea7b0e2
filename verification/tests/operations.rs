use kakarot_client::account::NonceQuery;
use kakarot_client::address::{Address, H256};
use kakarot_client::block::{
    BlockId, BlockNumberOrTag, BlockTag, MaybePendingBlock, MaybePendingBlockWithTxs,
    StarknetBlockId,
};
use kakarot_client::blocks::{
    latest_block_number, number_of_block, BlockNumberQuery, BlockTransactions, EthBlockQuery,
};
use kakarot_client::client::KakarotClient;
use kakarot_client::config::{Constants, KakarotRpcConfig, Network};
use kakarot_client::error::{
    ConversionError, EthApiError, MaybeUnknownErrorCode, ProviderError, StarknetError,
    StarknetErrorWithMessage,
};
use kakarot_client::events::{
    EmittedEvent, EventFilter, EventFilterWithPage, EventsPage, ResultPageRequest,
};
use kakarot_client::felt::Felt;
use kakarot_client::simulation::{
    FeeEstimate, FeeUnit, GatewayReply, PostSimulation, TransactionSimulationInfo,
    TransactionTrace,
};
use kakarot_client::step::Step;
use kakarot_client::transaction::{
    BroadcastedInvokeTransaction, CallInput, CallRequest, MaybePendingTransactionReceipt,
    TransactionKind, TransactionReceipt,
};
use kakarot_client::uint::U256;
use std::sync::Arc;

type Failure = EthApiError<&'static str>;

fn felt(n: u64) -> Felt {
    Felt::from_u64(n)
}

fn address(last: u8) -> Address {
    let mut bytes = [0u8; 20];
    bytes[19] = last;
    Address { bytes }
}

fn client(network: Network, gateway: Option<&str>) -> KakarotClient<&'static str> {
    let config = KakarotRpcConfig {
        kakarot_address: felt(100),
        proxy_account_class_hash: felt(101),
        externally_owned_account_class_hash: felt(102),
        contract_account_class_hash: felt(103),
        network,
    };
    let constants = Constants {
        base_fee_per_gas: 7,
        max_priority_fee_per_gas: 3,
        minimum_gas_fee: 21_000,
        chain_id: 1234,
        estimate_gas: U256::from_u64(50_000),
        max_fee: felt(40),
        native_token: String::from("0x49d3"),
        gas_price_account: felt(55),
        counter_call_mainnet: vec![felt(1), felt(2)],
        counter_call_testnet1: vec![felt(3)],
        counter_call_testnet2: vec![felt(4), felt(5), felt(6)],
        gateway_url: gateway.map(|url| reqwest::Url::parse(url).unwrap()),
    };
    KakarotClient::new(config, constants, Arc::new("provider"))
}

fn plain_client() -> KakarotClient<&'static str> {
    client(Network::Other, None)
}

fn gateway_client(network: Network) -> KakarotClient<&'static str> {
    client(network, Some("https://example.org/feeder_gateway/"))
}

const NO_PERCENTILES: Option<Vec<f64>> = None;

const LATEST: BlockId = BlockId::Number(BlockNumberOrTag::Latest);

fn pending<S, T: std::fmt::Debug>(step: Step<S, T, &'static str>) -> S {
    match step {
        Step::Pending(request) => request,
        Step::Done(outcome) => panic!("{:?}", outcome),
    }
}

fn done<S, T>(step: Step<S, T, &'static str>) -> Result<T, Failure> {
    match step {
        Step::Pending(_) => panic!("a request is pending"),
        Step::Done(outcome) => outcome,
    }
}

fn starknet_error(code: StarknetError) -> ProviderError<&'static str> {
    ProviderError::StarknetError(StarknetErrorWithMessage {
        code: MaybeUnknownErrorCode::Known(code),
        message: String::from("m"),
    })
}

fn info(gas_usage: u64, gas_price: u64) -> TransactionSimulationInfo<u8> {
    TransactionSimulationInfo {
        trace: TransactionTrace {
            function_invocation: Some(1),
            fee_transfer_invocation: None,
            validate_invocation: None,
            signature: vec![],
        },
        fee_estimation: FeeEstimate {
            overall_fee: 9,
            unit: FeeUnit::Wei,
            gas_price,
            gas_usage,
        },
    }
}

#[test]
fn client_keeps_its_configuration() {
    let client = plain_client();
    assert_eq!(client.kakarot_address(), felt(100));
    assert_eq!(client.proxy_account_class_hash(), felt(101));
    assert_eq!(client.externally_owned_account_class_hash(), felt(102));
    assert_eq!(client.contract_account_class_hash(), felt(103));
    assert_eq!(client.base_fee_per_gas(), U256::from_u64(7));
    assert_eq!(client.max_priority_fee_per_gas(), 3);
    let provider = client.starknet_provider();
    assert_eq!(*provider, "provider");
    assert!(Arc::ptr_eq(&provider, &client.starknet_provider()));
}

#[test]
fn call_asks_the_kakarot_contract() {
    let request = plain_client().call(address(1), address(2), vec![9, 8], LATEST);
    assert!(matches!(request.block_id, BlockId::Number(BlockNumberOrTag::Latest)));
    let call = pending(request.resume(Ok(StarknetBlockId::Number(5))));
    assert_eq!(call.kakarot_address, felt(100));
    assert_eq!(call.origin, felt(1));
    assert_eq!(call.to, felt(2));
    assert_eq!(call.calldata, vec![felt(9), felt(8)]);
    assert_eq!(call.block_id, StarknetBlockId::Number(5));
}

#[test]
fn call_fails_on_a_block_id_without_conversion() {
    let request = plain_client().call(address(1), address(2), vec![], LATEST);
    let outcome = done(request.resume(Err(ConversionError::FeltOutOfRange)));
    assert!(matches!(
        outcome,
        Err(EthApiError::ConversionError(ConversionError::FeltOutOfRange))
    ));
}

#[test]
fn nonce_of_a_contract_account_is_managed() {
    let client = plain_client();
    let block = StarknetBlockId::Tag(BlockTag::Pending);
    let address_query = pending::<_, U256>(client.nonce(address(4), LATEST).resume(&client, Ok(block)));
    assert_eq!(address_query.query.kakarot_address, felt(100));
    assert_eq!(address_query.query.ethereum_address, felt(4));
    assert_eq!(address_query.query.block_id, block);
    let class_query = pending(address_query.resume(Ok(felt(77))));
    assert_eq!(class_query.starknet_address, felt(77));
    match pending(class_query.resume(&client, Ok(felt(103)))) {
        NonceQuery::Managed(account) => {
            assert_eq!(account.starknet_address, felt(77));
            assert_eq!(account.block_id, block);
        }
        other => panic!("{:?}", other),
    }
}

#[test]
fn nonce_of_another_account_is_native() {
    let client = plain_client();
    let block = StarknetBlockId::Number(1);
    let request = pending::<_, U256>(client.nonce(address(4), LATEST).resume(&client, Ok(block)));
    let request = pending(request.resume(Ok(felt(77))));
    match pending(request.resume(&client, Ok(felt(102)))) {
        NonceQuery::Native(account) => {
            let nonce = account.resume::<&str>(Ok(felt(12))).unwrap();
            assert_eq!(nonce, U256::from_u64(12));
            assert!(matches!(
                account.resume(Err(ProviderError::Other("down"))),
                Err(EthApiError::RequestError(ProviderError::Other("down")))
            ));
        }
        other => panic!("{:?}", other),
    }
}

#[test]
fn nonce_of_a_missing_account_is_zero() {
    let client = plain_client();
    let request =
        pending::<_, U256>(client.nonce(address(4), LATEST).resume(&client, Ok(StarknetBlockId::Number(1))));
    let request = pending(request.resume(Ok(felt(77))));
    let missing = EthApiError::RequestError(starknet_error(StarknetError::ContractNotFound));
    assert_eq!(done(request.resume(&client, Err(missing))).unwrap(), U256::zero());
    let other = EthApiError::RequestError(starknet_error(StarknetError::BlockNotFound));
    assert!(matches!(
        done(request.resume(&client, Err(other))),
        Err(EthApiError::RequestError(ProviderError::StarknetError(_)))
    ));
    let unknown = EthApiError::RequestError(ProviderError::RateLimited);
    assert!(matches!(
        done(request.resume(&client, Err(unknown))),
        Err(EthApiError::RequestError(ProviderError::RateLimited))
    ));
}

#[test]
fn nonce_needs_the_starknet_address() {
    let client = plain_client();
    let request =
        pending::<_, U256>(client.nonce(address(4), LATEST).resume(&client, Ok(StarknetBlockId::Number(1))));
    let missing = EthApiError::RequestError(starknet_error(StarknetError::ContractNotFound));
    assert!(done(request.resume(Err(missing))).is_err());
}

#[test]
fn balance_is_that_in_the_native_token() {
    let client = plain_client();
    let block = StarknetBlockId::Number(6);
    let request = pending::<_, U256>(client.balance(address(4), LATEST).resume(&client, Ok(block)));
    assert_eq!(request.query.kakarot_address, felt(100));
    assert_eq!(request.query.ethereum_address, felt(4));
    let request = pending(request.resume::<_, &str>(&client, Ok(felt(70))));
    assert_eq!(request.token, felt(0x49d3));
    assert_eq!(request.account, felt(70));
    assert_eq!(request.block_id, block);
}

#[test]
fn balance_without_an_address_does_not_read_the_token() {
    let mut client = plain_client();
    client.constants.native_token = String::from("no number");
    let block = StarknetBlockId::Number(6);
    let request = pending::<_, U256>(client.balance(address(4), LATEST).resume(&client, Ok(block)));
    let failure: Failure = EthApiError::RequestError(ProviderError::RateLimited);
    assert!(matches!(
        done(request.resume(&client, Err(failure))),
        Err(EthApiError::RequestError(ProviderError::RateLimited))
    ));
}

#[test]
fn base_fee_does_not_depend_on_the_network() {
    for network in [
        Network::MainnetGateway,
        Network::Goerli1Gateway,
        Network::Goerli2Gateway,
        Network::Other,
    ] {
        assert_eq!(client(network, None).base_fee_per_gas(), U256::from_u64(7));
    }
}

#[test]
fn storage_is_asked_by_both_halves_of_the_index() {
    let client = plain_client();
    let block = StarknetBlockId::Number(6);
    let index = U256 { hi: u128::MAX, lo: 3 };
    let request =
        pending::<_, U256>(client.storage_at(address(4), index, LATEST).resume(&client, Ok(block)));
    assert_eq!(request.query.kakarot_address, felt(100));
    assert_eq!(request.query.ethereum_address, felt(4));
    let request = pending(request.resume(Ok::<Felt, Failure>(felt(70))));
    assert_eq!(request.account, felt(70));
    assert_eq!(request.key_low, felt(3));
    assert_eq!(request.key_high.to_u256(), U256::from_u128(u128::MAX));
    assert_eq!(request.block_id, block);
}

#[test]
fn addresses_are_looked_up() {
    let client = plain_client();
    let block = StarknetBlockId::Hash(felt(8));
    let request = client.get_evm_address(&felt(5), &block);
    assert_eq!(request.kakarot_address, felt(100));
    assert_eq!(request.starknet_address, felt(5));
    assert_eq!(request.block_id, block);
    let request = client.compute_starknet_address(&address(200), &block);
    assert_eq!(request.kakarot_address, felt(100));
    assert_eq!(request.ethereum_address, felt(200));
    assert_eq!(request.block_id, block);
}

#[test]
fn token_balances_are_asked_one_by_one() {
    let client = plain_client();
    let request = client.token_balances(address(1), vec![address(2), address(3)]);
    assert_eq!(request.queries.len(), 2);
    for (i, query) in request.queries.iter().enumerate() {
        assert_eq!(query.kakarot_address, felt(100));
        assert_eq!(query.token_address, address(2 + i as u8));
        assert_eq!(query.token, felt(2 + i as u64));
        assert_eq!(query.account, felt(1));
        assert!(matches!(query.block_id, BlockId::Number(BlockNumberOrTag::Latest)));
    }
    let balances = request.resume(vec![10, 20]);
    assert_eq!(balances.address, address(1));
    assert_eq!(balances.token_balances, vec![10, 20]);
}

#[test]
fn block_numbers_are_found() {
    let client = plain_client();
    let step = client.map_block_id_to_block_number(&StarknetBlockId::Number(8));
    assert_eq!(done(step).unwrap(), 8);
    let step = client.map_block_id_to_block_number(&StarknetBlockId::Tag(BlockTag::Pending));
    assert!(matches!(pending::<_, u64>(step), BlockNumberQuery::Latest));
    let hash = StarknetBlockId::Hash(felt(9));
    match pending::<_, u64>(client.map_block_id_to_block_number(&hash)) {
        BlockNumberQuery::ByHash(block_id) => assert_eq!(block_id, hash),
        other => panic!("{:?}", other),
    }
    assert_eq!(latest_block_number::<&str>(Ok(3)).unwrap(), 3);
    assert!(matches!(
        latest_block_number(Err(ProviderError::Other("down"))),
        Err(EthApiError::RequestError(ProviderError::Other("down")))
    ));
    let block = MaybePendingBlock::Block { block_number: 4 };
    assert_eq!(number_of_block::<&str>(Ok(block)).unwrap(), 4);
    match number_of_block::<&str>(Ok(MaybePendingBlock::PendingBlock)) {
        Err(EthApiError::RequestError(ProviderError::StarknetError(e))) => {
            assert_eq!(e.code, MaybeUnknownErrorCode::Known(StarknetError::BlockNotFound));
            assert_eq!(e.message, "");
        }
        other => panic!("{:?}", other),
    }
    assert!(number_of_block::<&str>(Err(ProviderError::RateLimited)).is_err());
}

#[test]
fn blocks_are_fetched_in_the_form_asked_for() {
    let client = plain_client();
    let id = StarknetBlockId::Number(2);
    assert!(matches!(
        client.get_eth_block_from_starknet_block(id, true),
        EthBlockQuery::WithTxs(StarknetBlockId::Number(2))
    ));
    let query = client.get_eth_block_from_starknet_block(id, false);
    assert!(matches!(query, EthBlockQuery::WithTxHashes(StarknetBlockId::Number(2))));
    let request = pending::<_, u8>(query.resume(Ok("block")));
    assert_eq!(request.block, "block");
    let outcome = done(query.resume::<u8, u8, _>(Err(ProviderError::RateLimited)));
    assert!(matches!(outcome, Err(EthApiError::RequestError(ProviderError::RateLimited))));
}

#[test]
fn transactions_that_convert_are_counted() {
    let client = plain_client();
    let request = client.get_transaction_count_by_block(LATEST);
    let request = pending::<_, u64>(request.resume(Ok(StarknetBlockId::Number(3))));
    assert_eq!(request.block_id, StarknetBlockId::Number(3));
    let block = MaybePendingBlockWithTxs::Block {
        block_hash: felt(0x0102),
        block_number: 3,
        transactions: vec!["a", "b", "c"],
    };
    let request = pending(request.resume::<_, _, &str>(&client, Ok(block)));
    let mut hash = [0u8; 32];
    hash[30] = 1;
    hash[31] = 2;
    for (conversion, transaction) in request.filter.conversions.iter().zip(["a", "b", "c"]) {
        assert_eq!(conversion.transaction, transaction);
        assert_eq!(conversion.block_hash, Some(H256 { bytes: hash }));
        assert_eq!(conversion.block_number, Some(U256::from_u64(3)));
        assert_eq!(conversion.transaction_index, None);
    }
    assert_eq!(request.filter.conversions.len(), 3);
    let failure: Failure = EthApiError::ContractError(String::from("no"));
    assert_eq!(request.resume(vec![Ok(1), Err(failure), Ok(3)]), 2);
}

#[test]
fn pending_blocks_give_no_place() {
    let client = plain_client();
    let request = client.get_transaction_count_by_block(LATEST);
    let request = pending::<_, u64>(request.resume(Ok(StarknetBlockId::Number(3))));
    let block = MaybePendingBlockWithTxs::PendingBlock { transactions: vec!["a"] };
    let request = pending(request.resume::<_, _, &str>(&client, Ok(block)));
    assert_eq!(request.filter.conversions[0].block_hash, None);
    assert_eq!(request.filter.conversions[0].block_number, None);
}

#[test]
fn transactions_keep_their_order() {
    let request = plain_client().filter_starknet_into_eth_txs(vec!["a", "b", "c"], None, None);
    let failure: Failure = EthApiError::ContractError(String::from("no"));
    match request.resume(vec![Ok(1), Err(failure), Ok(3)]) {
        BlockTransactions::Full(transactions) => assert_eq!(transactions, vec![1, 3]),
        other => panic!("{:?}", other),
    }
    assert_eq!(BlockTransactions::<u8>::Uncle.len(), 0);
    assert_eq!(BlockTransactions::<u8>::Hashes(vec![H256 { bytes: [0; 32] }]).len(), 0);
}

#[test]
fn transactions_are_placed_by_their_receipt() {
    let client = plain_client();
    let receipts = [
        (
            MaybePendingTransactionReceipt::Receipt(TransactionReceipt::Invoke {
                block_hash: felt(5),
                block_number: 6,
            }),
            true,
        ),
        (MaybePendingTransactionReceipt::Receipt(TransactionReceipt::Declare), false),
        (MaybePendingTransactionReceipt::PendingReceipt, false),
    ];
    for (receipt, placed) in receipts {
        let request = client.transaction_by_block_id_and_index(LATEST, 2);
        let request = pending::<_, u8>(request.resume(Ok(StarknetBlockId::Number(6))));
        assert_eq!(request.index, 2);
        assert_eq!(request.block_id, StarknetBlockId::Number(6));
        let request = pending::<_, u8>(request.resume(Ok("tx")));
        assert_eq!(request.transaction, "tx");
        let request = pending::<_, u8>(request.resume(Ok(felt(44))));
        assert_eq!(request.transaction_hash, felt(44));
        let request = pending::<_, u8>(request.resume(Ok(receipt)));
        assert_eq!(request.transaction, "tx");
        assert_eq!(request.transaction_index, Some(U256::from_u64(2)));
        if placed {
            assert_eq!(request.block_hash, Some(H256::from_felt(felt(5))));
            assert_eq!(request.block_number, Some(U256::from_u64(6)));
        } else {
            assert_eq!(request.block_hash, None);
            assert_eq!(request.block_number, None);
        }
    }
}

#[test]
fn fee_history_repeats_the_base_fee() {
    let client = plain_client();
    let step = client.fee_history(U256::from_u64(2), BlockNumberOrTag::Number(10), NO_PERCENTILES);
    let history = done(step).unwrap();
    assert_eq!(history.base_fee_per_gas, vec![U256::from_u64(7); 3]);
    assert_eq!(history.gas_used_percent, vec![90; 2]);
    assert_eq!(history.oldest_block, U256::from_u64(8));
    assert_eq!(history.reward, Some(vec![vec![]]));
    let step = client.fee_history(U256::from_u64(2), BlockNumberOrTag::Earliest, NO_PERCENTILES);
    assert_eq!(done(step).unwrap().oldest_block, U256::zero());
    let step = client.fee_history(U256::from_u64(1), BlockNumberOrTag::Earliest, NO_PERCENTILES);
    assert_eq!(done(step).unwrap().oldest_block, U256::zero());
    let step = client.fee_history(U256::zero(), BlockNumberOrTag::Earliest, NO_PERCENTILES);
    assert_eq!(done(step).unwrap().oldest_block, U256::from_u64(1));
}

#[test]
fn fee_history_ignores_the_percentiles() {
    let client = plain_client();
    for percentiles in [None, Some(vec![]), Some(vec![90.0, 10.0]), Some(vec![f64::NAN, -1.0])] {
        let count = U256::from_u64(2);
        let step = client.fee_history(count, BlockNumberOrTag::Number(10), percentiles.clone());
        let history = done(step).unwrap();
        assert_eq!(history.base_fee_per_gas, vec![U256::from_u64(7); 3]);
        assert_eq!(history.gas_used_percent, vec![90; 2]);
        assert_eq!(history.oldest_block, U256::from_u64(8));
        assert_eq!(history.reward, Some(vec![vec![]]));
        let request = pending(client.fee_history(count, BlockNumberOrTag::Latest, percentiles));
        let history = request.resume::<_, &str>(&client, Ok(10)).unwrap();
        assert_eq!(history.oldest_block, U256::from_u64(8));
        assert_eq!(history.reward, Some(vec![vec![]]));
    }
}

#[test]
fn fee_history_asks_for_the_latest_block() {
    let client = plain_client();
    for tag in [
        BlockNumberOrTag::Latest,
        BlockNumberOrTag::Finalized,
        BlockNumberOrTag::Safe,
        BlockNumberOrTag::Pending,
    ] {
        let request = pending(client.fee_history(U256::from_u64(4), tag, NO_PERCENTILES));
        let history = request.resume::<_, &str>(&client, Ok(100)).unwrap();
        assert_eq!(history.oldest_block, U256::from_u64(96));
        assert_eq!(history.base_fee_per_gas.len(), 5);
        assert!(matches!(
            request.resume(&client, Err(ProviderError::Other("down"))),
            Err(EthApiError::RequestError(ProviderError::Other("down")))
        ));
    }
}

#[test]
fn fee_history_of_too_many_blocks_fails() {
    let step = plain_client().fee_history(U256 { hi: 1, lo: 0 }, BlockNumberOrTag::Latest, NO_PERCENTILES);
    match done(step) {
        Err(EthApiError::ConversionError(ConversionError::ValueOutOfRange(text))) => {
            assert_eq!(text, "Uint<256> value is too large for usize")
        }
        other => panic!("{:?}", other),
    }
}

fn transaction(is_query: bool) -> BroadcastedInvokeTransaction {
    BroadcastedInvokeTransaction {
        sender_address: felt(0xabc),
        calldata: vec![felt(0), felt(16)],
        max_fee: felt(0),
        signature: vec![],
        nonce: felt(3),
        is_query,
    }
}

fn string_of(value: &serde_json::Value, key: &str) -> String {
    String::from(value[key].as_str().unwrap())
}

#[test]
fn simulation_is_posted_to_the_gateway() {
    let client = gateway_client(Network::Goerli1Gateway);
    let post = pending::<_, TransactionSimulationInfo<u8>>(client.simulate_transaction(
        transaction(false),
        120,
        true,
    ));
    assert_eq!(
        post.url.as_str(),
        "https://example.org/feeder_gateway/simulate_transaction?blockNumber=120&skipValidate=true"
    );
    assert_eq!(
        post.body.to_string(),
        "{\"calldata\":[\"0x0\",\"0x10\"],\"max_fee\":\"0x0\",\"nonce\":\"0x3\",\
         \"sender_address\":\"0xabc\",\"signature\":[],\"type\":\"INVOKE_FUNCTION\",\
         \"version\":\"0x1\"}"
    );
}

#[test]
fn simulation_of_a_query_has_the_query_version() {
    let client = gateway_client(Network::MainnetGateway);
    let post = pending::<_, TransactionSimulationInfo<u8>>(client.simulate_transaction(
        transaction(true),
        0,
        false,
    ));
    assert_eq!(string_of(&post.body, "version"), "0x100000000000000000000000000000001");
    assert_eq!(string_of(&post.body, "type"), "INVOKE_FUNCTION");
    assert_eq!(
        post.url.as_str(),
        "https://example.org/feeder_gateway/simulate_transaction?blockNumber=0&skipValidate=false"
    );
}

#[test]
fn simulation_needs_a_base_url() {
    let client = client(Network::Goerli1Gateway, Some("mailto:a@example.org"));
    let step = client.simulate_transaction::<u8, &str>(transaction(false), 1, true);
    match done(step) {
        Err(EthApiError::FeederGatewayError(text)) => assert_eq!(
            text,
            "gateway url parsing error: RelativeUrlWithCannotBeABaseBase"
        ),
        other => panic!("{:?}", other),
    }
}

#[test]
fn simulation_without_a_gateway_has_a_fixed_fee() {
    let step = plain_client().simulate_transaction::<u8, &str>(transaction(false), 1, true);
    let info = done(step).unwrap();
    assert_eq!(info.fee_estimation.gas_usage, 50_000);
    assert_eq!(info.fee_estimation.gas_price, 40);
    assert_eq!(info.fee_estimation.overall_fee, 2_000_000);
    assert!(info.trace.function_invocation.is_none());
    assert!(info.trace.fee_transfer_invocation.is_none());
    assert!(info.trace.validate_invocation.is_none());
    assert!(info.trace.signature.is_empty());
}

fn post() -> PostSimulation {
    pending::<_, TransactionSimulationInfo<u8>>(
        gateway_client(Network::Goerli1Gateway).simulate_transaction(transaction(false), 1, true),
    )
}

fn gateway_error(reply: GatewayReply<u8>) -> String {
    match post().resume::<u8, &str>(reply) {
        Err(EthApiError::FeederGatewayError(text)) => text,
        other => panic!("{:?}", other),
    }
}

#[test]
fn simulation_reports_the_gateways_failures() {
    let text = String::from("E");
    assert_eq!(gateway_error(GatewayReply::PostError(text.clone())), "gateway post error: E");
    assert_eq!(gateway_error(GatewayReply::HttpError(text.clone())), "http error: E");
    assert_eq!(
        gateway_error(GatewayReply::DecodeError(text)),
        "error while decoding response body to TransactionSimulationInfo: E"
    );
    let simulated = post().resume::<u8, &str>(GatewayReply::Simulated(info(5, 6))).unwrap();
    assert_eq!(simulated.fee_estimation.gas_usage, 5);
}

#[test]
fn gas_price_without_a_gateway_is_the_base_fee() {
    assert_eq!(done(plain_client().gas_price()).unwrap(), U256::from_u64(7));
}

#[test]
fn gas_price_is_that_of_the_simulated_call() {
    let networks = [
        (Network::MainnetGateway, vec![felt(1), felt(2)]),
        (Network::Goerli1Gateway, vec![felt(3)]),
        (Network::Goerli2Gateway, vec![felt(4), felt(5), felt(6)]),
    ];
    for (network, calldata) in networks {
        let client = gateway_client(network);
        let request = pending(client.gas_price());
        assert_eq!(request.block_id, StarknetBlockId::Tag(BlockTag::Latest));
        assert_eq!(request.sender_address, felt(55));
        assert_eq!(request.calldata, calldata);
        let request = pending(request.resume(Ok(felt(17))));
        assert_eq!(request.transaction.nonce, felt(17));
        assert_eq!(request.transaction.sender_address, felt(55));
        assert_eq!(request.transaction.max_fee, felt(0));
        assert_eq!(request.transaction.calldata, calldata);
        assert!(request.transaction.signature.is_empty());
        assert!(request.transaction.is_query);
        let last = pending(request.resume::<_, u8, _>(&client, Ok(30)));
        match &last.simulation {
            Step::Pending(post) => assert_eq!(
                post.url.query(),
                Some("blockNumber=30&skipValidate=true")
            ),
            Step::Done(_) => panic!("no simulation"),
        }
        assert_eq!(last.resume(Ok(info(1, 88))).unwrap(), U256::from_u64(88));
    }
}

fn call_request() -> CallRequest {
    CallRequest {
        from: Some(address(1)),
        to: Some(address(2)),
        max_fee_per_gas: None,
        max_priority_fee_per_gas: None,
        gas: None,
        value: None,
        input: CallInput { input: Some(vec![9]), data: Some(vec![1, 2]) },
        chain_id: None,
    }
}

#[test]
fn estimate_without_a_gateway_is_fixed() {
    let request = CallRequest { from: None, ..call_request() };
    let step = plain_client().estimate_gas(request, LATEST);
    assert_eq!(done(step).unwrap(), U256::from_u64(50_000));
}

#[test]
fn estimate_needs_a_sender() {
    let request = CallRequest { from: None, ..call_request() };
    match done(gateway_client(Network::Goerli2Gateway).estimate_gas(request, LATEST)) {
        Err(EthApiError::MissingParameterError(text)) => assert_eq!(text, "from for estimate_gas"),
        other => panic!("{:?}", other),
    }
}

#[test]
fn estimate_is_that_of_the_simulated_request() {
    let client = gateway_client(Network::Goerli1Gateway);
    let block = StarknetBlockId::Hash(felt(31));
    let request = pending(client.estimate_gas(call_request(), LATEST));
    assert_eq!(request.nonce.operation.ethereum_address, address(1));
    let request = pending(request.resume::<_, &str>(&client, Ok(U256::from_u64(6))));
    let transaction = &request.operation.transaction;
    assert_eq!(transaction.chain_id, 1234);
    assert_eq!(transaction.nonce, 6);
    assert_eq!(transaction.gas_limit, 0);
    assert_eq!(transaction.max_fee_per_gas, 7);
    assert_eq!(transaction.max_priority_fee_per_gas, 3);
    assert!(matches!(transaction.to, TransactionKind::Call(to) if to == address(2)));
    assert_eq!(transaction.value, 0);
    assert!(transaction.access_list.is_empty());
    assert_eq!(transaction.input, vec![1, 2]);
    let request = pending(request.resume::<_, &str>(&client, Ok(block)));
    assert!(matches!(
        request.block_number,
        Step::Pending(BlockNumberQuery::ByHash(StarknetBlockId::Hash(_)))
    ));
    let request = pending(request.resume(&client, Ok(64)));
    assert_eq!(request.query.kakarot_address, felt(100));
    assert_eq!(request.query.ethereum_address, felt(1));
    assert_eq!(request.query.block_id, block);
    let request = pending(request.resume::<&str>(Ok(felt(700))));
    assert_eq!(request.signature.r, U256::zero());
    assert_eq!(request.signature.s, U256::zero());
    assert!(!request.signature.odd_y_parity);
    assert!(!request.with_header);
    let request = request.resume(&client, vec![2, 200]);
    assert_eq!(request.kakarot_address, felt(100));
    assert_eq!(request.data, vec![felt(2), felt(200)]);
    let last = request.resume::<_, u8, &str>(&client, vec![felt(1), felt(100), felt(2)]);
    match &last.simulation {
        Step::Pending(post) => {
            assert_eq!(post.url.query(), Some("blockNumber=64&skipValidate=true"));
            assert_eq!(string_of(&post.body, "sender_address"), "0x2bc");
            assert_eq!(string_of(&post.body, "nonce"), "0x6");
            assert_eq!(string_of(&post.body, "version"), "0x1");
        }
        Step::Done(_) => panic!("no simulation"),
    }
    assert_eq!(last.resume(&client, Ok(info(30_000, 1))).unwrap(), U256::from_u64(30_000));
}

#[test]
fn estimate_has_a_least_amount() {
    let client = gateway_client(Network::Goerli1Gateway);
    for (usage, estimate) in [(0, 21_000), (20_999, 21_000), (21_000, 21_000), (21_001, 21_001)] {
        let request = pending(client.estimate_gas(call_request(), LATEST));
        let request = pending(request.resume::<_, &str>(&client, Ok(U256::zero())));
        let request = pending(request.resume::<_, &str>(&client, Ok(StarknetBlockId::Number(1))));
        let request = pending(request.resume(&client, Ok(1)));
        let request = pending(request.resume::<&str>(Ok(felt(2))));
        let last = request.resume(&client, vec![]).resume::<_, u8, &str>(&client, vec![]);
        assert_eq!(last.resume(&client, Ok(info(usage, 1))).unwrap(), U256::from_u64(estimate));
    }
}

#[test]
fn estimate_keeps_what_the_request_gives() {
    let client = gateway_client(Network::Goerli1Gateway);
    let request = CallRequest {
        to: None,
        max_fee_per_gas: Some(U256::from_u64(11)),
        max_priority_fee_per_gas: Some(U256::from_u64(12)),
        gas: Some(U256::from_u64(13)),
        value: Some(U256::from_u128(u128::MAX)),
        input: CallInput { input: Some(vec![9]), data: None },
        chain_id: Some(5),
        ..call_request()
    };
    let request = pending(client.estimate_gas(request, LATEST));
    let request = pending(request.resume::<_, &str>(&client, Ok(U256::zero())));
    let transaction = request.operation.transaction;
    assert_eq!(transaction.chain_id, 5);
    assert_eq!(transaction.gas_limit, 13);
    assert_eq!(transaction.max_fee_per_gas, 11);
    assert_eq!(transaction.max_priority_fee_per_gas, 12);
    assert!(matches!(transaction.to, TransactionKind::Create));
    assert_eq!(transaction.value, u128::MAX);
    assert!(transaction.input.is_empty());
}

#[test]
fn estimate_fails_on_numbers_that_do_not_fit() {
    let client = gateway_client(Network::Goerli1Gateway);
    let large = U256 { hi: 1, lo: 0 };
    let requests = [
        CallRequest { gas: Some(large), ..call_request() },
        CallRequest { max_fee_per_gas: Some(large), ..call_request() },
        CallRequest { max_priority_fee_per_gas: Some(large), ..call_request() },
        CallRequest { value: Some(large), ..call_request() },
    ];
    for request in requests {
        let request = pending(client.estimate_gas(request, LATEST));
        assert!(matches!(
            done(request.resume::<_, &str>(&client, Ok(U256::zero()))),
            Err(EthApiError::ConversionError(ConversionError::UintConversionError(_)))
        ));
    }
    let request = pending(client.estimate_gas(call_request(), LATEST));
    assert!(matches!(
        done(request.resume::<_, &str>(&client, Ok(large))),
        Err(EthApiError::ConversionError(ConversionError::UintConversionError(_)))
    ));
}

#[test]
fn sent_transactions_are_waited_for() {
    let client = plain_client();
    let request = client.send_transaction(vec![1, 2, 3]);
    assert_eq!(request.bytes, vec![1, 2, 3]);
    let request = pending(request.resume(Ok(transaction(false))));
    assert_eq!(request.transaction.sender_address, felt(0xabc));
    let request = pending(request.resume(&client, Ok(felt(258))));
    assert_eq!(request.wait, client.wait_for_confirmation_on_l2(felt(258)));
    assert_eq!(request.wait.interval, 1000);
    assert_eq!(request.wait.timeout, 15_000);
    assert_eq!(request.wait.transaction_hash, felt(258));
    let hash = request.resume::<&str>(Ok(())).unwrap();
    assert_eq!(hash.bytes[30..], [1, 2]);
    let failure: Failure = EthApiError::ContractError(String::from("timeout"));
    assert!(matches!(request.resume(Err(failure)), Err(EthApiError::ContractError(_))));
}

fn event(block_number: u64) -> EmittedEvent {
    EmittedEvent {
        from_address: felt(1),
        keys: vec![],
        data: vec![],
        block_hash: felt(2),
        block_number,
        transaction_hash: felt(3),
    }
}

fn event_filter() -> EventFilterWithPage {
    EventFilterWithPage {
        event_filter: EventFilter {
            from_block: None,
            to_block: Some(StarknetBlockId::Number(9)),
            address: Some(felt(1)),
            keys: None,
        },
        result_page_request: ResultPageRequest {
            continuation_token: Some(String::from("start")),
            chunk_size: 2,
        },
    }
}

#[test]
fn events_are_collected_page_by_page() {
    let request = plain_client().filter_events(event_filter());
    assert_eq!(request.continuation_token.as_deref(), Some("start"));
    assert_eq!(request.chunk_size, 2);
    let page = EventsPage {
        events: vec![event(1), event(2)],
        continuation_token: Some(String::from("next")),
    };
    let request = pending(request.resume(Ok(page)));
    assert_eq!(request.continuation_token.as_deref(), Some("next"));
    assert_eq!(request.chunk_size, 2);
    assert_eq!(request.filter.to_block, Some(StarknetBlockId::Number(9)));
    let page = EventsPage { events: vec![event(3)], continuation_token: None };
    let events = done(request.resume(Ok(page))).unwrap();
    let numbers: Vec<u64> = events.iter().map(|e| e.block_number).collect();
    assert_eq!(numbers, vec![1, 2, 3]);
}

#[test]
fn events_are_lost_with_a_failed_page() {
    let request = plain_client().filter_events(event_filter());
    let page = EventsPage {
        events: vec![event(1)],
        continuation_token: Some(String::from("next")),
    };
    let request = pending(request.resume(Ok(page)));
    assert!(matches!(
        done(request.resume(Err(ProviderError::Other("down")))),
        Err(EthApiError::RequestError(ProviderError::Other("down")))
    ));
}
