use router::enums::{CardNetwork, PaymentMethod, PaymentMethodType};
use router::surcharge::{SessionSurchargeDetails, SurchargeDetails, SurchargeKey, SurchargeMetadata};

fn details(amount: i64, surcharge: i64) -> SurchargeDetails {
    SurchargeDetails { original_amount: amount, surcharge_amount: surcharge, tax_on_surcharge_amount: 0 }
}

#[test]
fn predetermined_surcharge_ignores_the_selection() {
    let d = details(1000, 25);
    let source = SessionSurchargeDetails::PreDetermined(d);
    assert_eq!(source.fetch_surcharge_details(PaymentMethod::Card, PaymentMethodType::Credit, Some(&CardNetwork::Visa)), Some(d));
    assert_eq!(source.fetch_surcharge_details(PaymentMethod::Wallet, PaymentMethodType::ApplePay, None), Some(d));
}

#[test]
fn calculated_surcharge_looks_up_the_selection() {
    let mut table = SurchargeMetadata::new();
    let visa_credit = SurchargeKey {
        payment_method: PaymentMethod::Card,
        payment_method_type: PaymentMethodType::Credit,
        card_network: Some(CardNetwork::Visa),
    };
    let gpay = SurchargeKey {
        payment_method: PaymentMethod::Wallet,
        payment_method_type: PaymentMethodType::GooglePay,
        card_network: None,
    };
    table.insert_surcharge_details(visa_credit, details(1000, 30));
    table.insert_surcharge_details(gpay, details(1000, 10));
    table.insert_surcharge_details(gpay, details(1000, 12));
    let source = SessionSurchargeDetails::Calculated(table);
    assert_eq!(
        source.fetch_surcharge_details(PaymentMethod::Card, PaymentMethodType::Credit, Some(&CardNetwork::Visa)),
        Some(details(1000, 30))
    );
    assert_eq!(source.fetch_surcharge_details(PaymentMethod::Card, PaymentMethodType::Credit, Some(&CardNetwork::Mastercard)), None);
    assert_eq!(source.fetch_surcharge_details(PaymentMethod::Card, PaymentMethodType::Credit, None), None);
    assert_eq!(source.fetch_surcharge_details(PaymentMethod::Wallet, PaymentMethodType::GooglePay, None), Some(details(1000, 12)));
}

#[test]
fn calculated_surcharge_on_empty_table() {
    let source = SessionSurchargeDetails::Calculated(SurchargeMetadata::new());
    assert_eq!(source.fetch_surcharge_details(PaymentMethod::Card, PaymentMethodType::Debit, None), None);
}
