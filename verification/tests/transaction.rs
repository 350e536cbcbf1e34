use hdnode::account::Address;
use hdnode::json::Json;
use hdnode::json::Number;
use hdnode::jsonrpc::Client;
use hdnode::jsonrpc::Error;
use hdnode::jsonrpc::Id;
use hdnode::jsonrpc::JsonRpc;
use hdnode::jsonrpc::Params;
use hdnode::jsonrpc::Request;
use hdnode::jsonrpc::Response;
use hdnode::node::eth::prepare;
use hdnode::node::eth::Eth;
use hdnode::node::eth::Handle;
use hdnode::node::transaction::Answers;
use hdnode::node::transaction::Failure;
use hdnode::node::transaction::Inner;
use hdnode::node::transaction::Plan;
use hdnode::node::transaction::Transaction;
use hdnode::node::transaction::TransactionRequest;
use hdnode::node::types::Block;
use hdnode::node::types::FeeHistory;
use hdnode::serialization::Bytes;
use hdnode::serialization::Quantity;
use hdnode::serialization::Str;

fn q(n: u128) -> Quantity {
    Quantity::new(n)
}

fn bare() -> TransactionRequest {
    TransactionRequest {
        from: Str(Address([0x11; 20])),
        to: Some(Str(Address([0x22; 20]))),
        gas: None,
        gas_price: None,
        max_fee_per_gas: None,
        max_priority_fee_per_gas: None,
        value: q(1),
        data: Bytes(vec![]),
        nonce: None,
        access_list: None,
        chain_id: None,
        transaction_type: None,
    }
}

fn answers() -> Answers {
    Answers {
        chain_id: Some(q(1)),
        nonce: Some(q(5)),
        gas: Some(q(0x5208)),
        gas_price: Some(q(2)),
        base_fee: Some(q(4)),
        max_priority_fee: Some(q(1)),
    }
}

fn eth() -> Eth {
    Eth::new(Client::new("http://localhost:8545").unwrap())
}

fn answer(request: &Request, result: &str) -> Response {
    Response {
        jsonrpc: JsonRpc::V2,
        result: Ok(Json::decode(result).unwrap()),
        id: request.id.clone(),
    }
}

fn refusal(request: &Request) -> Response {
    Response {
        jsonrpc: JsonRpc::V2,
        result: Err(Error { code: -32601, message: "no such method".to_string(), data: None }),
        id: request.id.clone(),
    }
}

fn answer_for(request: &Request) -> Response {
    match request.method.as_str() {
        "eth_chainId" => answer(request, r#""0x1""#),
        "eth_getTransactionCount" => answer(request, r#""0x5""#),
        "eth_estimateGas" => answer(request, r#""0x5208""#),
        "eth_gasPrice" => answer(request, r#""0x2""#),
        "eth_maxPriorityFeePerGas" => answer(request, r#""0x1""#),
        "eth_feeHistory" => answer(
            request,
            r#"{"baseFeePerGas":["0x3","0x4"],"gasUsedRatio":[0.5],"oldestBlock":"0x10"}"#,
        ),
        _ => refusal(request),
    }
}

#[test]
fn plan_asks_for_what_is_left_out() {
    assert_eq!(
        bare().plan(),
        Ok(Plan { estimate_gas: true, gas_price: true, base_fee: true, max_priority_fee: true })
    );
    let mut priced = bare();
    priced.gas = Some(q(21000));
    priced.gas_price = Some(q(7));
    assert_eq!(
        priced.plan(),
        Ok(Plan { estimate_gas: false, gas_price: false, base_fee: false, max_priority_fee: false })
    );
    let mut tipped = bare();
    tipped.max_priority_fee_per_gas = Some(q(1));
    assert_eq!(
        tipped.plan(),
        Ok(Plan { estimate_gas: true, gas_price: false, base_fee: true, max_priority_fee: false })
    );
    let mut capped = bare();
    capped.max_fee_per_gas = Some(q(9));
    assert_eq!(
        capped.plan(),
        Ok(Plan { estimate_gas: true, gas_price: false, base_fee: false, max_priority_fee: true })
    );
    let mut both = bare();
    both.max_fee_per_gas = Some(q(9));
    both.max_priority_fee_per_gas = Some(q(1));
    assert_eq!(
        both.plan(),
        Ok(Plan { estimate_gas: true, gas_price: false, base_fee: false, max_priority_fee: false })
    );
}

#[test]
fn plan_refuses_a_gas_price_beside_the_fee_market() {
    let mut request = bare();
    request.gas_price = Some(q(1));
    request.max_fee_per_gas = Some(q(2));
    assert_eq!(request.plan(), Err(Failure::InvalidParams));
    let mut request = bare();
    request.gas_price = Some(q(1));
    request.max_priority_fee_per_gas = Some(q(2));
    assert_eq!(request.plan(), Err(Failure::InvalidParams));
    assert_eq!(request.merge(&answers()).unwrap_err(), Failure::InvalidParams);
}

#[test]
fn merge_prefers_the_fee_market() {
    let (from, transaction) = bare().merge(&answers()).unwrap();
    assert_eq!(from, Address([0x11; 20]));
    match &transaction.inner {
        Inner::Eip1559(t) => {
            assert_eq!(t.chain_id, q(1));
            assert_eq!(t.nonce, q(5));
            assert_eq!(t.gas_limit, q(0x5208));
            assert_eq!(t.max_priority_fee_per_gas, q(1));
            assert_eq!(t.max_fee_per_gas, q(2 * 4 + 1));
            assert_eq!(t.to, Some(Address([0x22; 20])));
            assert_eq!(t.value, q(1));
            assert!(t.data.is_empty());
            assert!(t.access_list.is_empty());
        }
        other => panic!("not of the fee market: {:?}", other),
    }
    assert_eq!(transaction.args.chain_id, Some(q(1)));
    assert_eq!(transaction.args.nonce, Some(q(5)));
    assert_eq!(transaction.args.gas, Some(q(0x5208)));
    assert_eq!(transaction.args.gas_price, None);
    assert_eq!(transaction.args.max_fee_per_gas, Some(q(9)));
}

#[test]
fn merge_falls_back_to_the_gas_price() {
    let mut no_base_fee = answers();
    no_base_fee.base_fee = None;
    let (_, transaction) = bare().merge(&no_base_fee).unwrap();
    match &transaction.inner {
        Inner::Legacy(t) => {
            assert_eq!(t.gas_price, q(2));
            assert_eq!(t.chain_id, Some(q(1)));
            assert_eq!(t.nonce, q(5));
            assert_eq!(t.gas_limit, q(0x5208));
        }
        other => panic!("not legacy: {:?}", other),
    }
    let mut nothing = no_base_fee;
    nothing.gas_price = None;
    assert_eq!(bare().merge(&nothing).unwrap_err(), Failure::InternalError);
}

#[test]
fn merge_fills_the_fee_cap_from_the_base_fee() {
    let mut request = bare();
    request.max_priority_fee_per_gas = Some(q(10));
    let (_, transaction) = request.merge(&answers()).unwrap();
    assert_eq!(transaction.args.max_fee_per_gas, Some(q(2 * 4 + 10)));
    assert_eq!(transaction.args.max_priority_fee_per_gas, Some(q(10)));
    assert!(matches!(transaction.inner, Inner::Eip1559(_)));
    let mut request = bare();
    request.max_priority_fee_per_gas = Some(q(10));
    let mut silent = answers();
    silent.base_fee = None;
    assert_eq!(request.merge(&silent).unwrap_err(), Failure::InternalError);
}

#[test]
fn merge_fills_the_priority_fee_beside_a_fee_cap() {
    let mut request = bare();
    request.max_fee_per_gas = Some(q(100));
    let (_, transaction) = request.merge(&answers()).unwrap();
    assert_eq!(transaction.args.max_fee_per_gas, Some(q(100)));
    assert_eq!(transaction.args.max_priority_fee_per_gas, Some(q(1)));
    let mut request = bare();
    request.max_fee_per_gas = Some(q(100));
    let mut silent = answers();
    silent.max_priority_fee = None;
    assert_eq!(request.merge(&silent).unwrap_err(), Failure::InternalError);
}

#[test]
fn merge_keeps_what_the_client_gave() {
    let mut request = bare();
    request.gas = Some(q(30000));
    request.gas_price = Some(q(7));
    request.chain_id = Some(q(1));
    request.nonce = Some(q(5));
    request.data = Bytes(vec![1, 2, 3]);
    request.to = None;
    let mut little = answers();
    little.gas = None;
    little.gas_price = None;
    little.base_fee = None;
    little.max_priority_fee = None;
    let (_, transaction) = request.merge(&little).unwrap();
    match &transaction.inner {
        Inner::Legacy(t) => {
            assert_eq!(t.gas_limit, q(30000));
            assert_eq!(t.gas_price, q(7));
            assert_eq!(t.data, vec![1, 2, 3]);
            assert_eq!(t.to, None);
        }
        other => panic!("not legacy: {:?}", other),
    }
}

#[test]
fn merge_holds_chain_and_nonce_against_the_node() {
    let mut request = bare();
    request.chain_id = Some(q(5));
    assert_eq!(request.merge(&answers()).unwrap_err(), Failure::InvalidParams);
    let mut request = bare();
    request.nonce = Some(q(6));
    assert_eq!(request.merge(&answers()).unwrap_err(), Failure::InvalidParams);
    let mut silent = answers();
    silent.chain_id = None;
    assert_eq!(bare().merge(&silent).unwrap_err(), Failure::InternalError);
    let mut silent = answers();
    silent.nonce = None;
    assert_eq!(bare().merge(&silent).unwrap_err(), Failure::InternalError);
    let mut silent = answers();
    silent.gas = None;
    assert_eq!(bare().merge(&silent).unwrap_err(), Failure::InternalError);
}

#[test]
fn merge_does_not_wrap_the_fee_cap() {
    let mut huge = answers();
    huge.base_fee = Some(Quantity { hi: 1 << 127, lo: 0 });
    assert_eq!(bare().merge(&huge).unwrap_err(), Failure::InternalError);
    let mut huge = answers();
    huge.base_fee = Some(Quantity { hi: (1 << 127) - 1, lo: u128::MAX });
    huge.max_priority_fee = Some(q(2));
    assert_eq!(bare().merge(&huge).unwrap_err(), Failure::InternalError);
    huge.max_priority_fee = Some(q(1));
    let (_, transaction) = bare().merge(&huge).unwrap();
    assert_eq!(
        transaction.args.max_fee_per_gas,
        Some(Quantity { hi: u128::MAX, lo: u128::MAX })
    );
}

#[test]
fn access_list_decides_the_kind() {
    let mut request = bare();
    request.gas_price = Some(q(7));
    request.access_list = Some(vec![(Str(Address([0x33; 20])), vec![Bytes([4; 32]), Bytes([5; 32])])]);
    assert_eq!(
        request.hdwallet_access_list(),
        vec![(Address([0x33; 20]), vec![[4u8; 32], [5u8; 32]])]
    );
    let (_, transaction) = request.merge(&answers()).unwrap();
    match &transaction.inner {
        Inner::Eip2930(t) => {
            assert_eq!(t.gas_price, q(7));
            assert_eq!(t.chain_id, q(1));
            assert_eq!(t.access_list, vec![(Address([0x33; 20]), vec![[4u8; 32], [5u8; 32]])]);
        }
        other => panic!("not with an access list: {:?}", other),
    }
    assert!(bare().hdwallet_access_list().is_empty());
}

#[test]
fn from_args_takes_a_filled_request() {
    let mut request = bare();
    request.chain_id = Some(q(1));
    request.nonce = Some(q(0));
    request.gas = Some(q(21000));
    request.max_fee_per_gas = Some(q(3));
    request.max_priority_fee_per_gas = Some(q(1));
    let transaction = Transaction::from_args(request);
    assert!(matches!(transaction.inner, Inner::Eip1559(_)));
}

#[test]
fn request_as_the_node_sees_it() {
    let mut request = bare();
    request.gas = Some(q(21000));
    request.data = Bytes(vec![0xde, 0xad]);
    request.access_list = Some(vec![(Str(Address([0x33; 20])), vec![Bytes([4; 32])])]);
    let text = request.to_json().encode().unwrap();
    let expected = format!(
        r#"{{"accessList":[["0x{}",["0x{}"]]],"data":"0xdead","gas":"0x5208","to":"0x{}","value":"0x1"}}"#,
        "33".repeat(20),
        "04".repeat(32),
        "22".repeat(20),
    );
    assert_eq!(text, expected);
    let mut creation = bare();
    creation.to = None;
    assert_eq!(creation.to_json().encode().unwrap(), r#"{"data":"0x","to":null,"value":"0x1"}"#);
}

#[test]
fn request_from_json() {
    let text = format!(
        r#"{{"from":"0x{}","to":"0x{}","value":"0x1"}}"#,
        "11".repeat(20),
        "22".repeat(20)
    );
    let request = TransactionRequest::from_json(&Json::decode(&text).unwrap()).unwrap();
    assert_eq!(request.from.0, Address([0x11; 20]));
    assert_eq!(request.to.unwrap().0, Address([0x22; 20]));
    assert_eq!(request.value, q(1));
    assert!(request.data.0.is_empty());
    assert_eq!(request.gas, None);
    assert!(request.access_list.is_none());

    let text = format!(
        r#"{{"from":"0x{}","to":null,"gas":"0x5208","gasPrice":"0x2","maxFeePerGas":null,
            "data":"0xdead","nonce":"0x0","chainId":"0x1","type":"0x1",
            "accessList":[["0x{}",["0x{}"]]]}}"#,
        "11".repeat(20),
        "33".repeat(20),
        "04".repeat(32)
    );
    let request = TransactionRequest::from_json(&Json::decode(&text).unwrap()).unwrap();
    assert!(request.to.is_none());
    assert_eq!(request.gas, Some(q(0x5208)));
    assert_eq!(request.gas_price, Some(q(2)));
    assert_eq!(request.max_fee_per_gas, None);
    assert_eq!(request.value, q(0));
    assert_eq!(request.data.0, vec![0xde, 0xad]);
    assert_eq!(request.nonce, Some(q(0)));
    assert_eq!(request.chain_id, Some(q(1)));
    assert_eq!(request.transaction_type, Some(q(1)));
    let list = request.access_list.unwrap();
    assert_eq!(list.len(), 1);
    assert_eq!(list[0].0 .0, Address([0x33; 20]));
    assert_eq!(list[0].1[0].0, [4u8; 32]);
}

#[test]
fn request_that_is_none() {
    let from = format!(r#""from":"0x{}""#, "11".repeat(20));
    let cases = [
        r#"{"to":null}"#.to_string(),
        format!(r#"{{{from},"input":"0x"}}"#),
        format!(r#"{{{from},"value":null}}"#),
        format!(r#"{{{from},"data":null}}"#),
        format!(r#"{{{from},"gas":21000}}"#),
        format!(r#"{{{from},"gas":"21000"}}"#),
        format!(r#"{{{from},"to":"0x22"}}"#),
        format!(r#"{{{from},"accessList":[["0x{}"]]}}"#, "33".repeat(20)),
        format!(r#"{{{from},"accessList":[["0x{}",["0x04"]]]}}"#, "33".repeat(20)),
        format!(r#"[{{{from}}}]"#),
    ];
    for case in cases {
        let json = Json::decode(&case).unwrap();
        assert!(TransactionRequest::from_json(&json).is_none(), "{}", case);
    }
}

#[test]
fn calls_are_prepared_with_positional_parameters() {
    let request = prepare("eth_chainId", Json::Array(vec![]), 7).unwrap();
    assert_eq!(
        request,
        Request {
            jsonrpc: JsonRpc::V2,
            method: "eth_chainId".to_string(),
            params: Some(Params::Array(vec![])),
            id: Id::Number(Number::from_u64(7)),
        }
    );
    assert!(prepare("eth_chainId", Json::Null, 7).is_none());
    assert!(prepare("eth_chainId", Json::Object(vec![]), 7).is_none());
}

#[test]
fn blocks_by_name_and_number() {
    assert_eq!(Block::Latest.to_json(), Json::String("latest".to_string()));
    assert_eq!(Block::Pending.to_json(), Json::String("pending".to_string()));
    assert_eq!(Block::Number(q(16)).to_json(), Json::String("0x10".to_string()));
}

#[test]
fn fee_history_gives_the_next_base_fee() {
    let json = Json::decode(
        r#"{"baseFeePerGas":["0x3","0x4"],"gasUsedRatio":[0.5],"oldestBlock":"0x10",
            "reward":[["0x1"]]}"#,
    )
    .unwrap();
    let history = FeeHistory::from_json(&json).unwrap();
    assert_eq!(history.base_fee_per_gas, vec![q(3), q(4)]);
    assert_eq!(history.oldest_block, q(16));
    assert_eq!(history.reward, Some(vec![vec![q(1)]]));
    assert_eq!(history.next_base_fee(), Some(q(4)));
    let short = Json::decode(r#"{"baseFeePerGas":["0x3"],"gasUsedRatio":[],"oldestBlock":"0x10"}"#)
        .unwrap();
    assert_eq!(FeeHistory::from_json(&short).unwrap().next_base_fee(), None);
    for bad in [
        r#"{"gasUsedRatio":[],"oldestBlock":"0x10"}"#,
        r#"{"baseFeePerGas":["3"],"gasUsedRatio":[],"oldestBlock":"0x10"}"#,
        r#"{"baseFeePerGas":[],"oldestBlock":"0x10"}"#,
        r#"{"baseFeePerGas":[],"gasUsedRatio":[]}"#,
        r#"{"baseFeePerGas":[],"gasUsedRatio":[],"oldestBlock":"0x10","reward":[["x"]]}"#,
    ] {
        assert!(FeeHistory::from_json(&Json::decode(bad).unwrap()).is_none(), "{}", bad);
    }
}

#[test]
fn fill_asks_in_one_batch() {
    let mut eth = eth();
    let (filling, batch) = bare().fill(&mut eth).unwrap();
    let requests = batch.execute();
    let methods: Vec<&str> = requests.iter().map(|r| r.method.as_str()).collect();
    assert_eq!(
        methods,
        vec![
            "eth_chainId",
            "eth_getTransactionCount",
            "eth_estimateGas",
            "eth_gasPrice",
            "eth_feeHistory",
            "eth_maxPriorityFeePerGas",
        ]
    );
    let ids: Vec<Id> = requests.iter().map(|r| r.id.clone()).collect();
    let expected: Vec<Id> = (1..=6).map(|n| Id::Number(Number::from_u64(n))).collect();
    assert_eq!(ids, expected);
    assert_eq!(eth.ids, 7);
    assert_eq!(filling.chain_id, Handle::Slot(0));
    assert_eq!(filling.nonce, 1);
    assert_eq!(filling.gas, Some(2));
    assert_eq!(filling.gas_price, Some(3));
    assert_eq!(filling.base_fee, Some(4));
    assert_eq!(filling.max_priority_fee, Some(5));
    assert_eq!(
        requests[1].params,
        Some(Params::Array(vec![
            Json::String(format!("0x{}", "11".repeat(20))),
            Json::String("latest".to_string()),
        ]))
    );
    assert_eq!(
        requests[2].params,
        Some(Params::Array(vec![bare().to_json(), Json::String("pending".to_string())]))
    );
    assert_eq!(
        requests[4].params,
        Some(Params::Array(vec![
            Json::String("0x1".to_string()),
            Json::String("latest".to_string()),
            Json::Array(vec![]),
        ]))
    );

    let responses: Vec<Response> = requests.iter().map(answer_for).collect();
    let (from, transaction) = filling.finish(&mut eth, &responses).unwrap();
    assert_eq!(from, Address([0x11; 20]));
    assert!(matches!(transaction.inner, Inner::Eip1559(_)));
    assert_eq!(transaction.args.max_fee_per_gas, Some(q(9)));
    assert_eq!(eth.chain_id_cache.get(), Some(q(1)));
}

#[test]
fn fill_asks_for_less_once_the_chain_is_known() {
    let mut eth = eth();
    eth.learn_chain_id(Some(q(1)));
    eth.learn_chain_id(Some(q(2)));
    assert_eq!(eth.chain_id_cache.get(), Some(q(1)));
    let mut request = bare();
    request.gas = Some(q(21000));
    request.gas_price = Some(q(2));
    let (filling, batch) = request.fill(&mut eth).unwrap();
    let requests = batch.execute();
    assert_eq!(requests.len(), 1);
    assert_eq!(requests[0].method, "eth_getTransactionCount");
    assert_eq!(filling.chain_id, Handle::Known(q(1)));
    assert_eq!(filling.nonce, 0);
    let responses: Vec<Response> = requests.iter().map(answer_for).collect();
    let (_, transaction) = filling.finish(&mut eth, &responses).unwrap();
    assert!(matches!(transaction.inner, Inner::Legacy(_)));
}

#[test]
fn fill_refuses_before_it_asks() {
    let mut eth = eth();
    let mut request = bare();
    request.gas_price = Some(q(1));
    request.max_fee_per_gas = Some(q(2));
    assert_eq!(request.fill(&mut eth).unwrap_err(), Failure::InvalidParams);
    assert_eq!(eth.ids, 1);
}

#[test]
fn finish_falls_back_where_the_node_knows_no_fee_market() {
    let mut eth = eth();
    let (filling, batch) = bare().fill(&mut eth).unwrap();
    let requests = batch.execute();
    let responses: Vec<Response> = requests
        .iter()
        .map(|r| if r.method == "eth_feeHistory" { refusal(r) } else { answer_for(r) })
        .collect();
    let (_, transaction) = filling.finish(&mut eth, &responses).unwrap();
    match &transaction.inner {
        Inner::Legacy(t) => assert_eq!(t.gas_price, q(2)),
        other => panic!("not legacy: {:?}", other),
    }
}

#[test]
fn finish_fails_where_an_answer_is_missing() {
    let mut eth = eth();
    let (filling, batch) = bare().fill(&mut eth).unwrap();
    let requests = batch.execute();
    let responses: Vec<Response> = requests
        .iter()
        .map(|r| if r.method == "eth_getTransactionCount" { refusal(r) } else { answer_for(r) })
        .collect();
    assert_eq!(filling.finish(&mut eth, &responses).unwrap_err(), Failure::InternalError);
    let (filling, _) = bare().fill(&mut eth).unwrap();
    assert_eq!(filling.finish(&mut eth, &vec![]).unwrap_err(), Failure::InternalError);
}

#[test]
fn ids_start_over_after_the_last() {
    let mut eth = eth();
    eth.ids = u64::MAX;
    assert_eq!(eth.take_id(), u64::MAX);
    assert_eq!(eth.take_id(), 0);
    assert_eq!(eth.take_id(), 1);
}
