use router::connector::{ConnectorData, ConnectorEnum, ConnectorRoutingData, GetToken, MerchantConnectorAccountId};
use router::enums::Connector;
use router::errors::ValidationError;
use router::routable::{convert_connector_data_to_routable_connectors, RoutableChoiceKind, RoutableConnectorChoice};

fn handle(name: &str, account: Option<&str>) -> ConnectorData {
    let id = account.map(|a| MerchantConnectorAccountId::new(a.to_string()));
    ConnectorData::get_connector_by_name(name, GetToken::Connector, id).unwrap()
}

#[test]
fn payment_connectors_convert_with_their_account() {
    let c = RoutableConnectorChoice::foreign_try_from(handle("stripe", Some("mca_9"))).unwrap();
    assert_eq!(c.choice_kind, RoutableChoiceKind::FullStruct);
    assert_eq!(c.connector.connector(), Connector::Stripe);
    assert_eq!(c.merchant_connector_id.unwrap().get_string_repr(), "mca_9");
}

#[test]
fn role_only_connectors_do_not_convert() {
    for name in ["netcetera", "ctp_mastercard", "ctp_visa", "juspaythreedsserver"] {
        let h = handle(name, None);
        let expected = h.connector_name;
        let r = RoutableConnectorChoice::foreign_try_from(h);
        assert_eq!(r.unwrap_err(), ValidationError::UnsupportedConnectorForRole(expected));
    }
}

#[test]
fn list_conversion_stops_at_first_unroutable() {
    let list = vec![
        ConnectorRoutingData::from(handle("aci", None)),
        ConnectorRoutingData::from(handle("netcetera", None)),
        ConnectorRoutingData::from(handle("ctp_visa", None)),
    ];
    let r = convert_connector_data_to_routable_connectors(&list);
    assert_eq!(r.unwrap_err(), ValidationError::UnsupportedConnectorForRole(Connector::Netcetera));

    let list = vec![ConnectorRoutingData::from(handle("aci", None)), ConnectorRoutingData::from(handle("zen", Some("m1")))];
    let v = convert_connector_data_to_routable_connectors(&list).unwrap();
    assert_eq!(v.len(), 2);
    assert_eq!(v[1].connector.connector(), Connector::Zen);
    assert_eq!(v[1].merchant_connector_id.as_ref().unwrap().get_string_repr(), "m1");
    assert!(list[0].network.is_none());
}

#[test]
fn fraud_and_tax_connectors_do_not_convert() {
    for c in [Connector::Signifyd, Connector::Riskified, Connector::Taxjar, Connector::Gpayments] {
        let h = ConnectorData {
            connector: ConnectorEnum::Old(c),
            connector_name: c,
            get_token: GetToken::Connector,
            merchant_connector_id: None,
        };
        let r = RoutableConnectorChoice::foreign_try_from(h);
        assert_eq!(r.unwrap_err(), ValidationError::UnsupportedConnectorForRole(c));
    }
}
