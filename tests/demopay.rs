use router::demopay::{
    CaptureMethod, ConnectorAuthType, DemopayAuthType, DemopayCaptureRequest, DemopayPaymentStatus,
    DemopayPaymentsRequest, DemopayPaymentsResponse, DemopayRefundRequest, DemopayRouterData, PaymentMethodData,
    PaymentsAuthorizeData, PaymentsCaptureData, RefundResponse, RefundStatus, RefundsData, ResponseId,
    StringMinorUnit, WalletData,
};
use router::enums::{AttemptStatus, PaymentMethod, RefundStatus as CoreRefundStatus};
use router::errors::ConnectorError;

fn authorize(token: Option<&str>, capture_method: Option<CaptureMethod>) -> PaymentsAuthorizeData {
    PaymentsAuthorizeData {
        payment_method_data: PaymentMethodData::Wallet(WalletData { wallet_token: token.map(|t| t.to_string()) }),
        capture_method,
    }
}

fn request(data: &PaymentsAuthorizeData) -> Result<DemopayPaymentsRequest, ConnectorError> {
    let item = DemopayRouterData::from((StringMinorUnit::new("1050".to_string()), data));
    DemopayPaymentsRequest::try_from(&item)
}

#[test]
fn wallet_payment_builds_request() {
    let r = request(&authorize(Some(r#"{"wallet_id": "w_123"}"#), None)).unwrap();
    assert_eq!(r.wallet_id, "w_123");
    assert_eq!(r.amount, StringMinorUnit::new("1050".to_string()));
    assert!(r.auto_capture);
    let r = request(&authorize(Some(r#"{"wallet_id": "w_9", "x": 1}"#), Some(CaptureMethod::Manual))).unwrap();
    assert_eq!(r.wallet_id, "w_9");
    assert!(!r.auto_capture);
}

#[test]
fn wallet_payment_errors() {
    let other = PaymentsAuthorizeData { payment_method_data: PaymentMethodData::Other(PaymentMethod::Card), capture_method: None };
    assert_eq!(request(&other).unwrap_err(), ConnectorError::NotImplemented("Payment method".to_string()));
    assert_eq!(request(&authorize(None, None)).unwrap_err(), ConnectorError::InvalidWallet);
    assert_eq!(request(&authorize(Some("not json"), None)).unwrap_err(), ConnectorError::InvalidWalletToken);
    let missing = ConnectorError::MissingRequiredField { field_name: "wallet_id".to_string() };
    assert_eq!(request(&authorize(Some(r#"{"id": "w_1"}"#), None)).unwrap_err(), missing);
    assert_eq!(request(&authorize(Some(r#"{"wallet_id": 7}"#), None)).unwrap_err(), missing);
    assert_eq!(
        request(&authorize(Some(r#"{"wallet_id": "w"}"#), Some(CaptureMethod::Scheduled))).unwrap_err(),
        ConnectorError::CaptureMethodNotSupported
    );
}

#[test]
fn auth_type_needs_header_key() {
    let a = DemopayAuthType::try_from(&ConnectorAuthType::HeaderKey { api_key: "SECRET-REDACTED".to_string() }).unwrap();
    assert_eq!(a.api_key, "SECRET-REDACTED");
    let r = DemopayAuthType::try_from(&ConnectorAuthType::NoKey);
    assert_eq!(r.unwrap_err(), ConnectorError::FailedToObtainAuthType);
}

#[test]
fn payment_status_mapping() {
    assert_eq!(AttemptStatus::from(DemopayPaymentStatus::Succeeded), AttemptStatus::Charged);
    assert_eq!(AttemptStatus::from(DemopayPaymentStatus::Failed), AttemptStatus::Failure);
    assert_eq!(AttemptStatus::from(DemopayPaymentStatus::Processing), AttemptStatus::Authorizing);
    assert_eq!(AttemptStatus::from(DemopayPaymentStatus::Authorized), AttemptStatus::Authorized);
    assert_eq!(DemopayPaymentStatus::default(), DemopayPaymentStatus::Processing);
}

#[test]
fn payment_response_mapping() {
    let resp = DemopayPaymentsResponse { status: DemopayPaymentStatus::Authorized, id: "txn_1".to_string() };
    let (status, data) = resp.into_router_response();
    assert_eq!(status, AttemptStatus::Authorized);
    assert_eq!(data.resource_id, ResponseId::ConnectorTransactionId("txn_1".to_string()));
    assert!(data.network_txn_id.is_none());
}

#[test]
fn refund_mapping() {
    let r = RefundResponse { id: "rf_1".to_string(), status: RefundStatus::Succeeded }.into_refunds_response();
    assert_eq!(r.connector_refund_id, "rf_1");
    assert_eq!(r.refund_status, CoreRefundStatus::Success);
    assert_eq!(CoreRefundStatus::from(RefundStatus::Failed), CoreRefundStatus::Failure);
    assert_eq!(CoreRefundStatus::from(RefundStatus::Processing), CoreRefundStatus::Pending);
    assert_eq!(RefundStatus::default(), RefundStatus::Processing);
}

#[test]
fn capture_and_refund_requests() {
    let c = DemopayCaptureRequest::try_from(&PaymentsCaptureData { connector_transaction_id: "txn_2".to_string() }).unwrap();
    assert_eq!(c.transaction_id, "txn_2");
    let refund = RefundsData { connector_transaction_id: "txn_3".to_string() };
    let item = DemopayRouterData::from((StringMinorUnit::new("500".to_string()), &refund));
    let r = DemopayRefundRequest::try_from(&item).unwrap();
    assert_eq!(r.transaction_id, "txn_3");
    assert_eq!(r.amount.value, "500");
}
