use rpc_interceptor::tenderly::{
    check_http_status, gas_limit, wallet_changes, AssetChange, SimTx, SimulationResult, SimulationSection,
    TenderlyError, TenderlySimulator, TokenInfo, TransactionInfo, TransactionSection,
};

fn s(x: &str) -> Option<String> {
    Some(x.to_string())
}

fn change(from: Option<&str>, to: Option<&str>, amount: &str) -> AssetChange {
    AssetChange {
        from: from.map(|x| x.to_string()),
        to: to.map(|x| x.to_string()),
        amount: s(amount),
        token_info: Some(TokenInfo {
            token_type: "Native".to_string(),
            name: "Ether".to_string(),
            symbol: "ETH".to_string(),
            decimals: 18,
        }),
    }
}

fn result(status: bool, sim_gas: Option<u128>, tx_gas: Option<u128>, changes: Option<Vec<AssetChange>>) -> SimulationResult {
    SimulationResult {
        simulation: SimulationSection {
            id: "sim-1".to_string(),
            status,
            gas_used: sim_gas,
            error_message: if status { None } else { s("execution reverted") },
            receipt: None,
        },
        transaction: TransactionSection {
            from: "0xa".to_string(),
            to: "0xb".to_string(),
            gas_price: serde_json::Value::Null,
            gas_used: tx_gas,
            value: "0".to_string(),
            transaction_info: TransactionInfo { asset_changes: changes },
        },
        contracts: Vec::new(),
    }
}

fn sim() -> TenderlySimulator {
    TenderlySimulator::new(s("acct"), s("proj"), s("key"), None, None).unwrap()
}

#[test]
fn missing_settings_are_reported_in_order() {
    match TenderlySimulator::new(None, None, None, None, None) {
        Err(TenderlyError::MissingEnv(n)) => assert_eq!(n, "TENDERLY_ACCOUNT"),
        _ => panic!(),
    }
    match TenderlySimulator::new(s("a"), None, s("k"), None, None) {
        Err(TenderlyError::MissingEnv(n)) => assert_eq!(n, "TENDERLY_PROJECT_ID"),
        _ => panic!(),
    }
    match TenderlySimulator::new(s("a"), s("p"), None, None, None) {
        Err(TenderlyError::MissingEnv(n)) => assert_eq!(n, "TENDERLY_ACCESS_TOKEN"),
        _ => panic!(),
    }
}

#[test]
fn dev_mode_needs_a_testnet() {
    match TenderlySimulator::new(s("a"), s("p"), s("k"), s("dev"), None) {
        Err(TenderlyError::MissingEnv(n)) => assert_eq!(n, "TENDERLY_TESTNET_UUID"),
        _ => panic!(),
    }
    match TenderlySimulator::new(s("a"), s("p"), s("k"), s("dev"), s("")) {
        Err(TenderlyError::MissingEnv(n)) => assert_eq!(n, "TENDERLY_TESTNET_UUID"),
        _ => panic!(),
    }
    let t = TenderlySimulator::new(s("a"), s("p"), s("k"), s("dev"), s("tn")).unwrap();
    assert_eq!(t.base_url, "https://api.tenderly.co/api/v1/account/a/project/p/testnet/tn");
}

#[test]
fn other_modes_use_the_project_url() {
    let t = TenderlySimulator::new(s("a"), s("p"), s("k"), s("prod"), s("tn")).unwrap();
    assert_eq!(t.base_url, "https://api.tenderly.co/api/v1/account/a/project/p");
    assert_eq!(
        t.headers,
        vec![
            ("Content-Type".to_string(), "application/json".to_string()),
            ("X-Access-Key".to_string(), "k".to_string())
        ]
    );
    assert!(t.last_simulation.is_none());
    assert_eq!(t.simulate_url(), "https://api.tenderly.co/api/v1/account/a/project/p/simulate");
    assert_eq!(t.simulation_url("x"), "https://api.tenderly.co/api/v1/account/a/project/p/simulations/x");
}

#[test]
fn gas_limit_doubles_and_saturates() {
    assert_eq!(gas_limit(0), 0);
    assert_eq!(gas_limit(21_000), 42_000);
    assert_eq!(gas_limit(u128::MAX / 2), u128::MAX - 1);
    assert_eq!(gas_limit(u128::MAX / 2 + 1), u128::MAX);
    assert_eq!(gas_limit(u128::MAX), u128::MAX);
}

#[test]
fn wallet_split_ignores_ascii_case() {
    let all = vec![
        change(Some("0xAAA"), Some("0xbbb"), "1"),
        change(Some("0xbBb"), Some("0xccc"), "2"),
        change(None, Some("0xBBB"), "3"),
        change(Some("0xddd"), None, "4"),
    ];
    let (ins, outs) = wallet_changes(&all, "0xBbB");
    let amounts = |v: &Vec<AssetChange>| v.iter().map(|c| c.amount.clone().unwrap()).collect::<Vec<_>>();
    assert_eq!(amounts(&ins), vec!["1", "3"]);
    assert_eq!(amounts(&outs), vec!["2"]);
    let (ins2, outs2) = wallet_changes(&all, "0xbbb");
    assert_eq!(amounts(&ins2), amounts(&ins));
    assert_eq!(amounts(&outs2), amounts(&outs));
    let (none_in, none_out) = wallet_changes(&all, "0xeee");
    assert!(none_in.is_empty() && none_out.is_empty());
}

#[test]
fn summary_prefers_simulation_gas() {
    let t = sim();
    let r = result(true, Some(100), Some(200), None);
    let sum = t.get_simulation_summary_from(&r, None);
    assert!(!sum.reverted);
    assert_eq!(sum.gas_used, 100);
    assert_eq!(sum.uuid, "sim-1");
    assert!(sum.assets_in.is_none() && sum.assets_out.is_none());
    let r2 = result(false, None, Some(200), None);
    let sum2 = t.get_simulation_summary_from(&r2, None);
    assert!(sum2.reverted);
    assert_eq!(sum2.gas_used, 200);
    assert_eq!(sum2.error_message.as_deref(), Some("execution reverted"));
    let r3 = result(true, None, None, None);
    assert_eq!(t.get_simulation_summary_from(&r3, None).gas_used, 0);
}

#[test]
fn summary_lists_wallet_changes() {
    let t = sim();
    let r = result(true, Some(1), None, Some(vec![change(Some("0x1"), Some("0x2"), "5")]));
    let sum = t.get_simulation_summary_from(&r, Some("0x2"));
    assert_eq!(sum.assets_in.unwrap().len(), 1);
    assert_eq!(sum.assets_out.unwrap().len(), 0);
    let r2 = result(true, Some(1), None, None);
    let sum2 = t.get_simulation_summary_from(&r2, Some("0x2"));
    assert_eq!(sum2.assets_in.unwrap().len(), 0);
    assert_eq!(sum2.assets_out.unwrap().len(), 0);
}

#[test]
fn recording_sets_gas_limit_and_remembers() {
    let mut t = sim();
    assert!(matches!(t.share_url(), Err(TenderlyError::InvalidResponse(m)) if m == "no last simulation"));
    let tx = SimTx { from: s("0xa"), to: s("0xb"), value: s("0x0"), ..Default::default() };
    let out = t.record_simulation(&tx, None, result(true, Some(21_000), None, None));
    assert_eq!(out.tx.gas_limit, Some(42_000));
    assert_eq!(out.tx.from, tx.from);
    assert_eq!(out.tx.to, tx.to);
    assert_eq!(out.summary.gas_used, 21_000);
    assert_eq!(
        t.share_url().unwrap(),
        "https://api.tenderly.co/api/v1/account/acct/project/proj/simulations/sim-1/share"
    );
}

#[test]
fn payload_defaults_value_to_zero() {
    let tx = SimTx { from: s("0xa"), data: s("0xdead"), gas: Some(5), ..Default::default() };
    let p = TenderlySimulator::simulation_payload(&tx);
    assert_eq!(p.network_id, "1");
    assert_eq!(p.value, "0");
    assert_eq!(p.input.as_deref(), Some("0xdead"));
    assert_eq!(p.gas, Some(5));
    assert!(p.save && p.save_if_fails);
    assert_eq!(p.simulation_type, "quick");
    let tx2 = SimTx { value: s("0x10"), ..Default::default() };
    assert_eq!(TenderlySimulator::simulation_payload(&tx2).value, "0x10");
}

#[test]
fn http_status_outside_2xx_is_a_request_error() {
    assert!(check_http_status(200, "200 OK").is_ok());
    assert!(check_http_status(299, "299").is_ok());
    match check_http_status(404, "404 Not Found") {
        Err(TenderlyError::Request(m)) => assert_eq!(m, "HTTP 404 Not Found"),
        _ => panic!(),
    }
    assert!(check_http_status(199, "199").is_err());
    assert!(check_http_status(300, "300").is_err());
}

#[test]
fn remember_simulation_replaces_last() {
    let mut t = sim();
    t.remember_simulation(result(true, None, None, None));
    assert_eq!(t.last_simulation.as_ref().unwrap().simulation.id, "sim-1");
}
