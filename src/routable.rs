use vstd::prelude::*;

use crate::connector::{ConnectorData, ConnectorRoutingData, MerchantConnectorAccountId};
use crate::enums::{connector_role, Connector, ConnectorRole};
use crate::errors::ValidationError;

verus! {

/// A connector that can execute payments, and so can be chosen by routing.
#[derive(Clone, Copy, PartialEq, Eq, Structural, Debug, Hash)]
pub struct RoutableConnectors {
    connector: Connector,
}

impl View for RoutableConnectors {
    type V = Connector;

    closed spec fn view(&self) -> Connector {
        self.connector
    }
}

impl RoutableConnectors {
    /// Narrows a connector to the routable ones; fraud-check, authentication and
    /// tax connectors are refused with their name.
    pub fn foreign_try_from(connector: Connector) -> (r: Result<Self, ValidationError>)
        ensures
            match r {
                Ok(rc) => connector_role(connector) == ConnectorRole::Processor && rc@ == connector,
                Err(e) => connector_role(connector) != ConnectorRole::Processor && e
                    == ValidationError::UnsupportedConnectorForRole(connector),
            },
    {
        match connector.role() {
            ConnectorRole::Processor => Ok(RoutableConnectors { connector }),
            _ => Err(ValidationError::UnsupportedConnectorForRole(connector)),
        }
    }

    /// The general connector that this routable connector is.
    pub fn connector(&self) -> (r: Connector)
        ensures
            r == self@,
    {
        self.connector
    }
}

/// How a routing choice was derived.
#[derive(Clone, Copy, PartialEq, Eq, Structural, Debug)]
pub enum RoutableChoiceKind {
    OnlyConnector,
    FullStruct,
}

/// A finalized connector selection in the routing engine's vocabulary.
#[derive(Debug)]
pub struct RoutableConnectorChoice {
    pub choice_kind: RoutableChoiceKind,
    pub connector: RoutableConnectors,
    pub merchant_connector_id: Option<MerchantConnectorAccountId>,
}

/// The routing choice that a handle converts to.
pub open spec fn is_choice_of(r: RoutableConnectorChoice, d: ConnectorData) -> bool {
    &&& r.choice_kind == RoutableChoiceKind::FullStruct
    &&& r.connector@ == d.connector_name
    &&& r.merchant_connector_id == d.merchant_connector_id
}

/// Whether a handle can be expressed as a routing choice.
pub open spec fn is_routable(d: ConnectorData) -> bool {
    connector_role(d.connector_name) == ConnectorRole::Processor
}

impl RoutableConnectorChoice {
    /// Expresses a handle as a routing choice, keeping its account scope.
    pub fn foreign_try_from(from: ConnectorData) -> (r: Result<Self, ValidationError>)
        ensures
            match r {
                Ok(c) => is_routable(from) && is_choice_of(c, from),
                Err(e) => !is_routable(from) && e == ValidationError::UnsupportedConnectorForRole(
                    from.connector_name,
                ),
            },
    {
        match RoutableConnectors::foreign_try_from(from.connector_name) {
            Ok(connector) => Ok(
                RoutableConnectorChoice {
                    choice_kind: RoutableChoiceKind::FullStruct,
                    connector,
                    merchant_connector_id: from.merchant_connector_id,
                },
            ),
            Err(e) => Err(e),
        }
    }
}

/// Converts each routing decision, in order, to a routing choice; fails on the first
/// one that is not routable.
pub fn convert_connector_data_to_routable_connectors(connectors: &[ConnectorRoutingData]) -> (r:
    Result<Vec<RoutableConnectorChoice>, ValidationError>)
    ensures
        match r {
            Ok(v) => {
                &&& v@.len() == connectors@.len()
                &&& forall|i: int|
                    0 <= i < v@.len() ==> is_routable(connectors@[i].connector_data)
                        && is_choice_of(#[trigger] v@[i], connectors@[i].connector_data)
            },
            Err(e) => exists|i: int|
                0 <= i < connectors@.len() && !is_routable(#[trigger] connectors@[i].connector_data)
                    && e == ValidationError::UnsupportedConnectorForRole(
                    connectors@[i].connector_data.connector_name,
                ) && forall|j: int| 0 <= j < i ==> is_routable(connectors@[j].connector_data),
        },
{
    let mut out: Vec<RoutableConnectorChoice> = Vec::new();
    let mut i: usize = 0;
    while i < connectors.len()
        invariant
            i <= connectors@.len(),
            out@.len() == i,
            forall|j: int| 0 <= j < i ==> is_routable(#[trigger] connectors@[j].connector_data),
            forall|j: int| 0 <= j < i ==> is_choice_of(#[trigger] out@[j], connectors@[j].connector_data),
        decreases connectors@.len() - i,
    {
        let choice = RoutableConnectorChoice::foreign_try_from(connectors[i].connector_data.clone());
        match choice {
            Ok(c) => out.push(c),
            Err(e) => {
                return Err(e);
            },
        }
        i = i + 1;
    }
    Ok(out)
}

} // verus!
