use vstd::prelude::*;

use crate::enums::Connector;

verus! {

/// The lower-level reason behind an internal server error.
#[derive(Clone, Copy, PartialEq, Eq, Structural, Debug)]
pub enum InternalCause {
    /// A connector name is unknown, malformed, or not valid on this call path.
    InvalidConnectorName,
    /// Routing claims a payment method type but its decision list is empty.
    MissingRoutingDecision,
}

/// Errors surfaced at the API boundary.
#[derive(Clone, Copy, PartialEq, Eq, Structural, Debug)]
pub enum ApiErrorResponse {
    InternalServerError(InternalCause),
    IncorrectConnectorNameGiven,
}

/// Errors of converting values for the routing engine.
#[derive(Clone, Copy, PartialEq, Eq, Structural, Debug)]
pub enum ValidationError {
    /// The connector cannot execute payments, so routing cannot choose it.
    UnsupportedConnectorForRole(Connector),
}

/// Errors raised while building or reading a connector's wire messages.
#[derive(Clone, PartialEq, Eq, Debug)]
pub enum ConnectorError {
    NotImplemented(String),
    MissingRequiredField { field_name: String },
    FailedToObtainAuthType,
    InvalidWallet,
    InvalidWalletToken,
    CaptureMethodNotSupported,
}

} // verus!
