use router::connector::{ConnectorData, GetToken, MerchantConnectorAccountId};
use router::enums::{PaymentMethod, PaymentMethodType};
use router::errors::{ApiErrorResponse, InternalCause};
use router::session::{
    RoutingResults, SessionConnectorData, SessionConnectorDatas, SessionRoutingChoice, SessionRoutingConfig,
};

fn handle(name: &str, account: Option<&str>) -> ConnectorData {
    let id = account.map(|a| MerchantConnectorAccountId::new(a.to_string()));
    ConnectorData::get_connector_by_name(name, GetToken::Connector, id).unwrap()
}

fn candidate(sub_type: PaymentMethodType, method: PaymentMethod, name: &str, account: Option<&str>) -> SessionConnectorData {
    SessionConnectorData::new(sub_type, handle(name, account), None, method)
}

fn choice(sub_type: PaymentMethodType, name: &str, account: Option<&str>) -> SessionRoutingChoice {
    SessionRoutingChoice { connector: handle(name, account), payment_method_type: sub_type }
}

fn summary(set: &SessionConnectorDatas) -> Vec<(PaymentMethodType, String)> {
    let mut out = Vec::new();
    for i in 0..set.len() {
        let c = set.get(i);
        out.push((c.payment_method_sub_type, c.connector.connector_name.as_str().to_string()));
    }
    out
}

fn card_and_wallet() -> SessionConnectorDatas {
    SessionConnectorDatas::new(vec![
        candidate(PaymentMethodType::Credit, PaymentMethod::Card, "adyen", Some("mca_a")),
        candidate(PaymentMethodType::GooglePay, PaymentMethod::Wallet, "stripe", None),
    ])
}

#[test]
fn reconcile_keeps_matching_card_and_untouched_wallet() {
    let mut results = RoutingResults::new();
    results.insert(PaymentMethodType::Credit, vec![choice(PaymentMethodType::Credit, "adyen", Some("mca_a"))]);
    let out = card_and_wallet().filter_and_validate_with(&vec![PaymentMethodType::Credit], &results).unwrap();
    assert_eq!(
        summary(&out),
        vec![(PaymentMethodType::Credit, "adyen".to_string()), (PaymentMethodType::GooglePay, "stripe".to_string())]
    );
}

#[test]
fn reconcile_drops_card_routed_elsewhere() {
    let mut results = RoutingResults::new();
    results.insert(PaymentMethodType::Credit, vec![choice(PaymentMethodType::Credit, "checkout", None)]);
    let out = card_and_wallet().filter_and_validate_with(&vec![PaymentMethodType::Credit], &results).unwrap();
    assert_eq!(summary(&out), vec![(PaymentMethodType::GooglePay, "stripe".to_string())]);
}

#[test]
fn reconcile_fails_on_empty_routing_decision() {
    let mut results = RoutingResults::new();
    results.insert(PaymentMethodType::Credit, vec![]);
    let r = card_and_wallet().filter_and_validate_with(&vec![PaymentMethodType::Credit], &results);
    assert_eq!(r.unwrap_err(), ApiErrorResponse::InternalServerError(InternalCause::MissingRoutingDecision));
}

#[test]
fn reconcile_drops_candidate_without_routing_result() {
    let results = RoutingResults::new();
    let out = card_and_wallet().filter_and_validate_with(&vec![PaymentMethodType::Credit], &results).unwrap();
    assert_eq!(summary(&out), vec![(PaymentMethodType::GooglePay, "stripe".to_string())]);
}

#[test]
fn reconcile_requires_the_same_account() {
    let mut results = RoutingResults::new();
    results.insert(PaymentMethodType::Credit, vec![choice(PaymentMethodType::Credit, "adyen", Some("mca_b"))]);
    let out = card_and_wallet().filter_and_validate_with(&vec![PaymentMethodType::Credit], &results).unwrap();
    assert_eq!(summary(&out), vec![(PaymentMethodType::GooglePay, "stripe".to_string())]);

    let mut results = RoutingResults::new();
    results.insert(PaymentMethodType::Credit, vec![choice(PaymentMethodType::Credit, "adyen", None)]);
    let out = card_and_wallet().filter_and_validate_with(&vec![PaymentMethodType::Credit], &results).unwrap();
    assert_eq!(summary(&out), vec![(PaymentMethodType::GooglePay, "stripe".to_string())]);
}

#[test]
fn reconcile_uses_only_the_top_choice() {
    let mut results = RoutingResults::new();
    results.insert(
        PaymentMethodType::Credit,
        vec![choice(PaymentMethodType::Credit, "checkout", None), choice(PaymentMethodType::Credit, "adyen", Some("mca_a"))],
    );
    let out = card_and_wallet().filter_and_validate_with(&vec![PaymentMethodType::Credit], &results).unwrap();
    assert_eq!(summary(&out), vec![(PaymentMethodType::GooglePay, "stripe".to_string())]);
}

#[test]
fn later_routing_result_replaces_earlier() {
    let mut results = RoutingResults::new();
    results.insert(PaymentMethodType::Credit, vec![]);
    results.insert(PaymentMethodType::Credit, vec![choice(PaymentMethodType::Credit, "adyen", Some("mca_a"))]);
    assert_eq!(results.get(PaymentMethodType::Credit).map(|v| v.len()), Some(1));
    assert!(results.get(PaymentMethodType::Debit).is_none());
}

#[test]
fn default_reconcile_routes_wallets() {
    let set = SessionConnectorDatas::new(vec![
        candidate(PaymentMethodType::Credit, PaymentMethod::Card, "adyen", None),
        candidate(PaymentMethodType::GooglePay, PaymentMethod::Wallet, "stripe", None),
        candidate(PaymentMethodType::GooglePay, PaymentMethod::Wallet, "checkout", None),
    ]);
    let mut results = RoutingResults::new();
    results.insert(PaymentMethodType::GooglePay, vec![choice(PaymentMethodType::GooglePay, "checkout", None)]);
    let out = set.filter_and_validate_for_session_flow(&results).unwrap();
    assert_eq!(
        summary(&out),
        vec![(PaymentMethodType::Credit, "adyen".to_string()), (PaymentMethodType::GooglePay, "checkout".to_string())]
    );
}

fn mixed() -> SessionConnectorDatas {
    SessionConnectorDatas::new(vec![
        candidate(PaymentMethodType::Credit, PaymentMethod::Card, "adyen", None),
        candidate(PaymentMethodType::GooglePay, PaymentMethod::Wallet, "stripe", None),
        candidate(PaymentMethodType::Ideal, PaymentMethod::BankRedirect, "mollie", None),
        candidate(PaymentMethodType::AliPay, PaymentMethod::Wallet, "adyen", None),
        candidate(PaymentMethodType::ApplePay, PaymentMethod::Wallet, "checkout", None),
    ])
}

#[test]
fn routing_filter_keeps_enabled_in_order() {
    let out = mixed().apply_filter_for_session_routing();
    assert_eq!(
        summary(&out),
        vec![
            (PaymentMethodType::GooglePay, "stripe".to_string()),
            (PaymentMethodType::Ideal, "mollie".to_string()),
            (PaymentMethodType::ApplePay, "checkout".to_string()),
        ]
    );
}

#[test]
fn routing_filter_is_idempotent() {
    let once = mixed().apply_filter_for_session_routing();
    let twice = once.apply_filter_for_session_routing();
    assert_eq!(summary(&once), summary(&twice));

    let config = SessionRoutingConfig { payment_method_types: vec![PaymentMethodType::Credit], payment_methods: vec![] };
    let once = mixed().apply_filter_with(&config);
    let twice = once.apply_filter_with(&config);
    assert_eq!(summary(&once), vec![(PaymentMethodType::Credit, "adyen".to_string())]);
    assert_eq!(summary(&once), summary(&twice));
}

#[test]
fn routing_filter_on_empty_set() {
    let out = SessionConnectorDatas::new(vec![]).apply_filter_for_session_routing();
    assert!(out.is_empty());
}
