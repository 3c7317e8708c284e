use router::connector::{ConnectorData, ConnectorEnum, GetToken, MerchantConnectorAccountId, TaxCalculateConnectorData};
use router::enums::{Connector, TaxConnectors};
use router::errors::{ApiErrorResponse, InternalCause};

#[test]
fn test_convert_connector_parsing_success() {
    let result = Connector::from_str("aci");
    assert!(result.is_ok());
    assert_eq!(result.unwrap(), Connector::Aci);

    let result = Connector::from_str("shift4");
    assert!(result.is_ok());
    assert_eq!(result.unwrap(), Connector::Shift4);

    let result = Connector::from_str("authorizedotnet");
    assert!(result.is_ok());
    assert_eq!(result.unwrap(), Connector::Authorizedotnet);
}

#[test]
fn test_convert_connector_parsing_fail_for_unknown_type() {
    let result = Connector::from_str("unknowntype");
    assert!(result.is_err());

    let result = Connector::from_str("randomstring");
    assert!(result.is_err());
}

#[test]
fn test_convert_connector_parsing_fail_for_camel_case() {
    let result = Connector::from_str("Paypal");
    assert!(result.is_err());

    let result = Connector::from_str("Authorizedotnet");
    assert!(result.is_err());

    let result = Connector::from_str("Opennode");
    assert!(result.is_err());
}

fn invalid_name() -> ApiErrorResponse {
    ApiErrorResponse::InternalServerError(InternalCause::InvalidConnectorName)
}

#[test]
fn every_name_round_trips_through_a_handle() {
    for name in ["aci", "stripe", "ctp_visa", "hyperswitch_vault", "phonypay", "recurly", "worldpayxml"] {
        let handle = ConnectorData::get_connector_by_name(name, GetToken::Connector, None).unwrap();
        assert_eq!(handle.connector_name.as_str(), name);
        assert_eq!(handle.connector.id(), handle.connector_name);
    }
}

#[test]
fn handle_keeps_token_mode_and_account() {
    let id = MerchantConnectorAccountId::new("mca_123".to_string());
    let handle =
        ConnectorData::get_connector_by_name("adyen", GetToken::ApplePayMetadata, Some(id.clone())).unwrap();
    assert_eq!(handle.get_token, GetToken::ApplePayMetadata);
    assert_eq!(handle.merchant_connector_id, Some(id));
    assert_eq!(handle.connector, ConnectorEnum::Old(Connector::Adyen));
}

#[test]
fn recurly_uses_the_newer_interface() {
    assert_eq!(ConnectorData::convert_connector("recurly"), Ok(ConnectorEnum::New(Connector::Recurly)));
}

#[test]
fn unknown_or_malformed_names_fail() {
    for name in ["", "unknowntype", "Stripe", "STRIPE", " stripe", "stripe ", "paypal_sdk"] {
        let r = ConnectorData::get_connector_by_name(name, GetToken::Connector, None);
        assert_eq!(r.unwrap_err(), invalid_name());
    }
}

#[test]
fn role_only_connectors_are_not_in_the_registry() {
    for name in ["signifyd", "riskified", "gpayments", "threedsecureio", "taxjar"] {
        assert!(Connector::from_str(name).is_ok());
        assert_eq!(ConnectorData::convert_connector(name), Err(invalid_name()));
        let r = ConnectorData::get_connector_by_name(name, GetToken::Connector, None);
        assert_eq!(r.unwrap_err(), invalid_name());
    }
}

#[test]
fn payout_path_accepts_only_payout_connectors() {
    let h = ConnectorData::get_payout_connector_by_name("wise", GetToken::Connector, None).unwrap();
    assert_eq!(h.connector_name, Connector::Wise);
    let r = ConnectorData::get_payout_connector_by_name("aci", GetToken::Connector, None);
    assert_eq!(r.unwrap_err(), invalid_name());
    let r = ConnectorData::get_payout_connector_by_name("nowhere", GetToken::Connector, None);
    assert_eq!(r.unwrap_err(), invalid_name());
}

#[test]
fn vault_path_accepts_only_vault_connectors() {
    let h = ConnectorData::get_external_vault_connector_by_name(&Connector::Vgs, GetToken::Connector, None).unwrap();
    assert_eq!(h.connector_name, Connector::Vgs);
    assert_eq!(h.connector, ConnectorEnum::Old(Connector::Vgs));
    let r = ConnectorData::get_external_vault_connector_by_name(&Connector::Stripe, GetToken::Connector, None);
    assert_eq!(r.unwrap_err(), invalid_name());
}

#[test]
fn tax_connector_by_name() {
    let d = TaxCalculateConnectorData::get_connector_by_name("taxjar").unwrap();
    assert_eq!(d.connector_name, TaxConnectors::Taxjar);
    assert_eq!(d.connector, ConnectorEnum::Old(Connector::Taxjar));
    assert_eq!(
        TaxCalculateConnectorData::get_connector_by_name("Taxjar"),
        Err(ApiErrorResponse::IncorrectConnectorNameGiven)
    );
    assert_eq!(
        TaxCalculateConnectorData::get_connector_by_name("stripe"),
        Err(ApiErrorResponse::IncorrectConnectorNameGiven)
    );
}
