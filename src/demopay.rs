use vstd::prelude::*;

use crate::enums::{AttemptStatus, PaymentMethod, RefundStatus as CoreRefundStatus};
use crate::errors::ConnectorError;

verus! {

/// Whether serde_json accepts `s` as a JSON document.
pub uninterp spec fn is_json_text(s: Seq<char>) -> bool;

/// Relies on serde_json::from_str::<Value>: whether it accepts a text depends on the
/// text alone.
#[verifier::external_body]
fn parse_json(s: &str) -> (r: Option<serde_json::Value>)
    ensures
        r is Some <==> is_json_text(s@),
{
    serde_json::from_str::<serde_json::Value>(s).ok()
}

/// Relies on serde_json::Value::get: the member `key` of an object, if present.
#[verifier::external_body]
fn json_get<'a>(v: &'a serde_json::Value, key: &str) -> (r: Option<&'a serde_json::Value>) {
    v.get(key)
}

/// Relies on serde_json::Value::as_str: the text of a JSON string, `None` for any other value.
#[verifier::external_body]
fn json_as_string(v: &serde_json::Value) -> (r: Option<String>) {
    v.as_str().map(|s| s.to_string())
}

/// An amount in minor units, written as a decimal string.
#[derive(Clone, Debug, PartialEq, Eq)]
pub struct StringMinorUnit {
    pub value: String,
}

impl StringMinorUnit {
    pub fn new(value: String) -> (r: Self)
        ensures
            r.value == value,
    {
        StringMinorUnit { value }
    }

    pub fn copy_value(&self) -> (r: Self)
        ensures
            r == *self,
    {
        StringMinorUnit { value: self.value.clone() }
    }
}

/// How a payment is captured.
#[derive(Clone, Copy, PartialEq, Eq, Structural, Debug)]
pub enum CaptureMethod {
    Automatic,
    Manual,
    ManualMultiple,
    Scheduled,
    SequentialAutomatic,
}

/// Whether a capture method captures at authorization; `None` for methods that
/// the connector does not support.
pub open spec fn auto_capture_of(m: Option<CaptureMethod>) -> Option<bool> {
    match m {
        None | Some(CaptureMethod::Automatic) | Some(CaptureMethod::SequentialAutomatic) => Some(
            true,
        ),
        Some(CaptureMethod::Manual) => Some(false),
        _ => None,
    }
}

pub fn is_auto_capture(m: Option<CaptureMethod>) -> (r: Result<bool, ConnectorError>)
    ensures
        match auto_capture_of(m) {
            Some(b) => r == Ok::<bool, ConnectorError>(b),
            None => r == Err::<bool, ConnectorError>(ConnectorError::CaptureMethodNotSupported),
        },
{
    match m {
        None | Some(CaptureMethod::Automatic) | Some(CaptureMethod::SequentialAutomatic) => Ok(true),
        Some(CaptureMethod::Manual) => Ok(false),
        _ => Err(ConnectorError::CaptureMethodNotSupported),
    }
}

/// A wallet payment's data: the token that the wallet handed out, if any.
#[derive(Clone, Debug)]
pub struct WalletData {
    pub wallet_token: Option<String>,
}

/// The payment method data of a payment.
#[derive(Clone, Debug)]
pub enum PaymentMethodData {
    Wallet(WalletData),
    /// Data of any other payment method.
    Other(PaymentMethod),
}

/// What an authorization request carries for the connector.
#[derive(Clone, Debug)]
pub struct PaymentsAuthorizeData {
    pub payment_method_data: PaymentMethodData,
    pub capture_method: Option<CaptureMethod>,
}

/// A request together with the amount in the connector's unit.
#[derive(Debug)]
pub struct DemopayRouterData<T> {
    pub amount: StringMinorUnit,
    pub router_data: T,
}

impl<T> DemopayRouterData<T> {
    pub fn from(pair: (StringMinorUnit, T)) -> (r: Self)
        ensures
            r.amount == pair.0,
            r.router_data == pair.1,
    {
        let (amount, router_data) = pair;
        DemopayRouterData { amount, router_data }
    }
}

/// The connector's authorization request.
#[derive(Debug, PartialEq, Eq)]
pub struct DemopayPaymentsRequest {
    pub amount: StringMinorUnit,
    pub wallet_id: String,
    pub auto_capture: bool,
}

pub open spec fn is_not_implemented_payment_method(e: ConnectorError) -> bool {
    e matches ConnectorError::NotImplemented(s) && s@ == "Payment method"@
}

pub open spec fn is_missing_wallet_id(e: ConnectorError) -> bool {
    e matches ConnectorError::MissingRequiredField { field_name } && field_name@ == "wallet_id"@
}

impl DemopayPaymentsRequest {
    /// Builds the request from the wallet id found in the wallet token, if one was.
    pub fn from_wallet_id(
        amount: &StringMinorUnit,
        wallet_id: Option<String>,
        capture_method: Option<CaptureMethod>,
    ) -> (r: Result<Self, ConnectorError>)
        ensures
            match wallet_id {
                None => r matches Err(e) && is_missing_wallet_id(e),
                Some(id) => match auto_capture_of(capture_method) {
                    Some(b) => r matches Ok(req) && req.amount == *amount && req.wallet_id == id
                        && req.auto_capture == b,
                    None => r matches Err(e) && e == ConnectorError::CaptureMethodNotSupported,
                },
            },
    {
        let wallet_id = match wallet_id {
            Some(id) => id,
            None => {
                return Err(ConnectorError::MissingRequiredField { field_name: "wallet_id".to_string() });
            },
        };
        let auto_capture = is_auto_capture(capture_method)?;
        Ok(DemopayPaymentsRequest { amount: amount.copy_value(), wallet_id, auto_capture })
    }

    /// Builds the request of a wallet payment; the wallet token must be a JSON object
    /// whose `wallet_id` member is a string.
    pub fn try_from(item: &DemopayRouterData<&PaymentsAuthorizeData>) -> (r: Result<
        Self,
        ConnectorError,
    >)
        ensures
            match item.router_data.payment_method_data {
                PaymentMethodData::Other(_) => r matches Err(e) && is_not_implemented_payment_method(e),
                PaymentMethodData::Wallet(w) => match w.wallet_token {
                    None => r matches Err(e) && e == ConnectorError::InvalidWallet,
                    Some(t) => if !is_json_text(t@) {
                        r matches Err(e) && e == ConnectorError::InvalidWalletToken
                    } else {
                        match r {
                            Ok(req) => req.amount == item.amount && auto_capture_of(
                                item.router_data.capture_method,
                            ) == Some(req.auto_capture),
                            Err(e) => is_missing_wallet_id(e) || (e
                                == ConnectorError::CaptureMethodNotSupported && auto_capture_of(
                                item.router_data.capture_method,
                            ) is None),
                        }
                    },
                },
            },
    {
        let wallet_data = match &item.router_data.payment_method_data {
            PaymentMethodData::Wallet(wallet_data) => wallet_data,
            PaymentMethodData::Other(_) => {
                return Err(ConnectorError::NotImplemented("Payment method".to_string()));
            },
        };
        let token = match &wallet_data.wallet_token {
            Some(t) => t,
            None => {
                return Err(ConnectorError::InvalidWallet);
            },
        };
        let wallet_id_value = match parse_json(token.as_str()) {
            Some(v) => v,
            None => {
                return Err(ConnectorError::InvalidWalletToken);
            },
        };
        let wallet_id = match json_get(&wallet_id_value, "wallet_id") {
            Some(id) => json_as_string(id),
            None => None,
        };
        Self::from_wallet_id(&item.amount, wallet_id, item.router_data.capture_method)
    }
}

/// How the connector is authenticated.
#[derive(Clone, Debug)]
pub enum ConnectorAuthType {
    HeaderKey { api_key: String },
    BodyKey { api_key: String, key1: String },
    SignatureKey { api_key: String, key1: String, api_secret: String },
    NoKey,
}

/// The connector's credentials.
#[derive(Debug)]
pub struct DemopayAuthType {
    pub api_key: String,
}

impl DemopayAuthType {
    /// Takes the API key of a header-key configuration; any other configuration fails.
    pub fn try_from(auth_type: &ConnectorAuthType) -> (r: Result<Self, ConnectorError>)
        ensures
            match auth_type {
                ConnectorAuthType::HeaderKey { api_key } => r matches Ok(a) && a.api_key == api_key,
                _ => r matches Err(e) && e == ConnectorError::FailedToObtainAuthType,
            },
    {
        match auth_type {
            ConnectorAuthType::HeaderKey { api_key } => Ok(DemopayAuthType { api_key: api_key.clone() }),
            _ => Err(ConnectorError::FailedToObtainAuthType),
        }
    }
}

/// Payment status as the connector reports it.
#[derive(Clone, Copy, PartialEq, Eq, Structural, Debug)]
pub enum DemopayPaymentStatus {
    Succeeded,
    Failed,
    Processing,
    Authorized,
}

pub open spec fn attempt_status_of(s: DemopayPaymentStatus) -> AttemptStatus {
    match s {
        DemopayPaymentStatus::Succeeded => AttemptStatus::Charged,
        DemopayPaymentStatus::Failed => AttemptStatus::Failure,
        DemopayPaymentStatus::Processing => AttemptStatus::Authorizing,
        DemopayPaymentStatus::Authorized => AttemptStatus::Authorized,
    }
}

impl Default for DemopayPaymentStatus {
    fn default() -> (r: Self)
        ensures
            r == DemopayPaymentStatus::Processing,
    {
        DemopayPaymentStatus::Processing
    }
}

impl From<DemopayPaymentStatus> for AttemptStatus {
    fn from(item: DemopayPaymentStatus) -> (r: Self) {
        match item {
            DemopayPaymentStatus::Succeeded => AttemptStatus::Charged,
            DemopayPaymentStatus::Failed => AttemptStatus::Failure,
            DemopayPaymentStatus::Processing => AttemptStatus::Authorizing,
            DemopayPaymentStatus::Authorized => AttemptStatus::Authorized,
        }
    }
}

impl vstd::std_specs::convert::FromSpecImpl<DemopayPaymentStatus> for AttemptStatus {
    open spec fn obeys_from_spec() -> bool {
        true
    }

    open spec fn from_spec(v: DemopayPaymentStatus) -> Self {
        attempt_status_of(v)
    }
}

/// Identifies a payment at the connector.
#[derive(Clone, Debug, PartialEq, Eq)]
pub enum ResponseId {
    ConnectorTransactionId(String),
    NoResponseId,
}

/// A connector's answer to a payment request, in the switch's terms.
#[derive(Clone, Debug, PartialEq, Eq)]
pub struct PaymentsResponseData {
    pub resource_id: ResponseId,
    pub network_txn_id: Option<String>,
    pub connector_response_reference_id: Option<String>,
    pub incremental_authorization_allowed: Option<bool>,
}

/// The connector's answer to a payment request.
#[derive(Clone, Debug, PartialEq, Eq)]
pub struct DemopayPaymentsResponse {
    pub status: DemopayPaymentStatus,
    pub id: String,
}

impl DemopayPaymentsResponse {
    /// The attempt status and the transaction response that this answer means.
    pub fn into_router_response(self) -> (r: (AttemptStatus, PaymentsResponseData))
        ensures
            r.0 == attempt_status_of(self.status),
            r.1.resource_id == ResponseId::ConnectorTransactionId(self.id),
            r.1.network_txn_id is None,
            r.1.connector_response_reference_id is None,
            r.1.incremental_authorization_allowed is None,
    {
        let status = AttemptStatus::from(self.status);
        (
            status,
            PaymentsResponseData {
                resource_id: ResponseId::ConnectorTransactionId(self.id),
                network_txn_id: None,
                connector_response_reference_id: None,
                incremental_authorization_allowed: None,
            },
        )
    }
}

/// What a capture request carries for the connector.
#[derive(Clone, Debug)]
pub struct PaymentsCaptureData {
    pub connector_transaction_id: String,
}

/// The connector's capture request.
#[derive(Debug, PartialEq, Eq)]
pub struct DemopayCaptureRequest {
    pub transaction_id: String,
}

impl DemopayCaptureRequest {
    pub fn try_from(item: &PaymentsCaptureData) -> (r: Result<Self, ConnectorError>)
        ensures
            r matches Ok(req) && req.transaction_id == item.connector_transaction_id,
    {
        Ok(DemopayCaptureRequest { transaction_id: item.connector_transaction_id.clone() })
    }
}

/// What a refund request carries for the connector.
#[derive(Clone, Debug)]
pub struct RefundsData {
    pub connector_transaction_id: String,
}

/// The connector's refund request.
#[derive(Debug, PartialEq, Eq)]
pub struct DemopayRefundRequest {
    pub amount: StringMinorUnit,
    pub transaction_id: String,
}

impl DemopayRefundRequest {
    pub fn try_from(item: &DemopayRouterData<&RefundsData>) -> (r: Result<Self, ConnectorError>)
        ensures
            r matches Ok(req) && req.amount == item.amount && req.transaction_id
                == item.router_data.connector_transaction_id,
    {
        Ok(
            DemopayRefundRequest {
                amount: item.amount.copy_value(),
                transaction_id: item.router_data.connector_transaction_id.clone(),
            },
        )
    }
}

/// Refund status as the connector reports it.
#[derive(Clone, Copy, PartialEq, Eq, Structural, Debug)]
pub enum RefundStatus {
    Succeeded,
    Failed,
    Processing,
}

pub open spec fn refund_status_of(s: RefundStatus) -> CoreRefundStatus {
    match s {
        RefundStatus::Succeeded => CoreRefundStatus::Success,
        RefundStatus::Failed => CoreRefundStatus::Failure,
        RefundStatus::Processing => CoreRefundStatus::Pending,
    }
}

impl Default for RefundStatus {
    fn default() -> (r: Self)
        ensures
            r == RefundStatus::Processing,
    {
        RefundStatus::Processing
    }
}

impl From<RefundStatus> for CoreRefundStatus {
    fn from(item: RefundStatus) -> (r: Self) {
        match item {
            RefundStatus::Succeeded => CoreRefundStatus::Success,
            RefundStatus::Failed => CoreRefundStatus::Failure,
            RefundStatus::Processing => CoreRefundStatus::Pending,
        }
    }
}

impl vstd::std_specs::convert::FromSpecImpl<RefundStatus> for CoreRefundStatus {
    open spec fn obeys_from_spec() -> bool {
        true
    }

    open spec fn from_spec(v: RefundStatus) -> Self {
        refund_status_of(v)
    }
}

/// A refund's outcome, in the switch's terms.
#[derive(Clone, Debug, PartialEq, Eq)]
pub struct RefundsResponseData {
    pub connector_refund_id: String,
    pub refund_status: CoreRefundStatus,
}

/// The connector's answer to a refund or refund-status request.
#[derive(Clone, Debug, PartialEq, Eq)]
pub struct RefundResponse {
    pub id: String,
    pub status: RefundStatus,
}

impl RefundResponse {
    /// The refund outcome that this answer means.
    pub fn into_refunds_response(self) -> (r: RefundsResponseData)
        ensures
            r.connector_refund_id == self.id,
            r.refund_status == refund_status_of(self.status),
    {
        RefundsResponseData {
            connector_refund_id: self.id,
            refund_status: CoreRefundStatus::from(self.status),
        }
    }
}

/// The connector's error body.
#[derive(Clone, Debug, PartialEq, Eq)]
pub struct DemopayErrorResponse {
    pub status_code: u16,
    pub code: String,
    pub message: String,
    pub reason: Option<String>,
}

} // verus!
