use vstd::prelude::*;

use crate::connector::ConnectorRoutingData;
use crate::session::SessionConnectorDatas;

verus! {

/// A JSON value from the serde_json crate, carried through without being read.
#[verifier::external_type_specification]
#[verifier::external_body]
pub struct ExValue(serde_json::Value);

/// How one logical operation is executed against connectors.
#[derive(Clone, Debug)]
pub enum ConnectorCallType {
    /// One connector, called once.
    PreDetermined(ConnectorRoutingData),
    /// Connectors tried one at a time in this order, stopping at the first success.
    Retryable(Vec<ConnectorRoutingData>),
    /// Independent session-token requests, one per candidate.
    SessionMultiple(SessionConnectorDatas),
    /// Nothing to execute.
    Skip,
}

/// How the connector of a payment is chosen.
#[derive(Debug)]
pub enum ConnectorChoice {
    SessionMultiple(SessionConnectorDatas),
    /// A routing algorithm supplied with the request.
    StraightThrough(serde_json::Value),
    Decide,
}

} // verus!
