use vstd::prelude::*;

use crate::enums::{
    connector_from_name, connector_name, is_payout_connector, is_vault_connector,
    tax_connector_as_connector, tax_connector_name, CardNetwork, Connector, TaxConnectors,
};
use crate::errors::{ApiErrorResponse, InternalCause};

verus! {

/// How a session token is obtained: from wallet metadata, or by calling the connector.
#[derive(Clone, Copy, PartialEq, Eq, Structural, Debug)]
pub enum GetToken {
    GpayMetadata,
    SamsungPayMetadata,
    ApplePayMetadata,
    PaypalSdkMetadata,
    PazeMetadata,
    Connector,
}

/// Identifier of one merchant's account with a connector.
#[derive(Debug, PartialEq, Eq, Hash)]
pub struct MerchantConnectorAccountId {
    id: String,
}

impl View for MerchantConnectorAccountId {
    type V = Seq<char>;

    closed spec fn view(&self) -> Seq<char> {
        self.id@
    }
}

impl MerchantConnectorAccountId {
    pub fn new(id: String) -> (r: Self)
        ensures
            r@ == id@,
    {
        MerchantConnectorAccountId { id }
    }

    pub fn get_string_repr(&self) -> (r: &str)
        ensures
            r@ == self@,
    {
        self.id.as_str()
    }

    /// Whether two identifiers name the same account.
    pub fn same_as(&self, other: &Self) -> (r: bool)
        ensures
            r == (self@ == other@),
    {
        self.id == other.id
    }
}

impl Clone for MerchantConnectorAccountId {
    fn clone(&self) -> (r: Self)
        ensures
            r == *self,
    {
        MerchantConnectorAccountId { id: self.id.clone() }
    }
}

/// Two optional account scopes are the same: both absent, or both present and equal.
pub open spec fn same_account(
    a: Option<MerchantConnectorAccountId>,
    b: Option<MerchantConnectorAccountId>,
) -> bool {
    match (a, b) {
        (None, None) => true,
        (Some(x), Some(y)) => x@ == y@,
        _ => false,
    }
}

pub fn same_account_exec(
    a: &Option<MerchantConnectorAccountId>,
    b: &Option<MerchantConnectorAccountId>,
) -> (r: bool)
    ensures
        r == same_account(*a, *b),
{
    match (a, b) {
        (None, None) => true,
        (Some(x), Some(y)) => x.same_as(y),
        _ => false,
    }
}

pub fn clone_account(a: &Option<MerchantConnectorAccountId>) -> (r: Option<
    MerchantConnectorAccountId,
>)
    ensures
        r == *a,
{
    match a {
        Some(x) => Some(x.clone()),
        None => None,
    }
}

/// The capability handle of a connector: its integration style and the connector it drives.
#[derive(Clone, Copy, PartialEq, Eq, Structural, Debug)]
pub enum ConnectorEnum {
    /// An integration written against the first connector interface.
    Old(Connector),
    /// An integration written against the second connector interface.
    New(Connector),
}

impl ConnectorEnum {
    pub open spec fn spec_id(&self) -> Connector {
        match self {
            ConnectorEnum::Old(c) => *c,
            ConnectorEnum::New(c) => *c,
        }
    }

    /// The connector that this handle drives.
    pub fn id(&self) -> (r: Connector)
        ensures
            r == self.spec_id(),
    {
        match self {
            ConnectorEnum::Old(c) => *c,
            ConnectorEnum::New(c) => *c,
        }
    }
}

/// What the registry resolves a name to on the payout path.
pub open spec fn resolve_payout(name: Seq<char>) -> Option<ConnectorEnum> {
    match connector_from_name(name) {
        Some(c) => if is_payout_connector(c) {
            registry_entry(c)
        } else {
            None
        },
        None => None,
    }
}

/// Connectors with a payment integration in the registry. Fraud-check, 3DS-server
/// and tax connectors are served by their own registries.
pub open spec fn is_registered(c: Connector) -> bool {
    !(c is Signifyd || c is Riskified || c is Gpayments || c is Threedsecureio || c is Taxjar)
}

/// The registry's entry for a connector.
pub open spec fn registry_entry(c: Connector) -> Option<ConnectorEnum> {
    if !is_registered(c) {
        None
    } else if c is Recurly {
        Some(ConnectorEnum::New(c))
    } else {
        Some(ConnectorEnum::Old(c))
    }
}

/// What the registry resolves a name to.
pub open spec fn resolve(name: Seq<char>) -> Option<ConnectorEnum> {
    match connector_from_name(name) {
        Some(c) => registry_entry(c),
        None => None,
    }
}

pub open spec fn invalid_name() -> ApiErrorResponse {
    ApiErrorResponse::InternalServerError(InternalCause::InvalidConnectorName)
}

/// Looks a connector up in the registry.
pub fn registry_lookup(c: Connector) -> (r: Option<ConnectorEnum>)
    ensures
        r == registry_entry(c),
        r matches Some(e) ==> e.spec_id() == c,
{
    match c {
        Connector::Signifyd
        | Connector::Riskified
        | Connector::Gpayments
        | Connector::Threedsecureio
        | Connector::Taxjar => None,
        Connector::Recurly => Some(ConnectorEnum::New(c)),
        _ => Some(ConnectorEnum::Old(c)),
    }
}

/// A connector handle: the capability together with its routing metadata.
#[derive(Debug)]
pub struct ConnectorData {
    pub connector: ConnectorEnum,
    pub connector_name: Connector,
    pub get_token: GetToken,
    pub merchant_connector_id: Option<MerchantConnectorAccountId>,
}

impl Clone for ConnectorData {
    fn clone(&self) -> (r: Self)
        ensures
            r == *self,
    {
        ConnectorData {
            connector: self.connector,
            connector_name: self.connector_name,
            get_token: self.get_token,
            merchant_connector_id: clone_account(&self.merchant_connector_id),
        }
    }
}

impl ConnectorData {
    /// The logical name is the identity of the capability.
    pub open spec fn wf(&self) -> bool {
        self.connector.spec_id() == self.connector_name
    }

    /// Resolves a name to its capability handle.
    pub fn convert_connector(connector_name: &str) -> (r: Result<ConnectorEnum, ApiErrorResponse>)
        ensures
            r == match resolve(connector_name@) {
                Some(e) => Ok(e),
                None => Err(invalid_name()),
            },
    {
        match Connector::from_str(connector_name) {
            Ok(name) => match registry_lookup(name) {
                Some(e) => Ok(e),
                None => Err(ApiErrorResponse::InternalServerError(
                    InternalCause::InvalidConnectorName,
                )),
            },
            Err(_) => Err(ApiErrorResponse::InternalServerError(InternalCause::InvalidConnectorName)),
        }
    }

    /// Builds the handle of the connector named `name`.
    pub fn get_connector_by_name(
        name: &str,
        connector_type: GetToken,
        connector_id: Option<MerchantConnectorAccountId>,
    ) -> (r: Result<Self, ApiErrorResponse>)
        ensures
            r is Ok <==> resolve(name@) is Some,
            match r {
                Ok(d) => {
                    &&& d.wf()
                    &&& resolve(name@) == Some(d.connector)
                    &&& connector_from_name(name@) == Some(d.connector_name)
                    &&& connector_name(d.connector_name) == name@
                    &&& d.get_token == connector_type
                    &&& d.merchant_connector_id == connector_id
                },
                Err(e) => e == invalid_name(),
            },
    {
        let connector = Self::convert_connector(name)?;
        let connector_name = match Connector::from_str(name) {
            Ok(c) => c,
            Err(_) => {
                return Err(ApiErrorResponse::InternalServerError(
                    InternalCause::InvalidConnectorName,
                ));
            },
        };
        Ok(ConnectorData {
            connector,
            connector_name,
            get_token: connector_type,
            merchant_connector_id: connector_id,
        })
    }

    /// Builds the handle of a payout connector; a name outside the payout subset fails.
    pub fn get_payout_connector_by_name(
        name: &str,
        connector_type: GetToken,
        connector_id: Option<MerchantConnectorAccountId>,
    ) -> (r: Result<Self, ApiErrorResponse>)
        ensures
            r is Ok <==> resolve_payout(name@) is Some,
            match r {
                Ok(d) => {
                    &&& d.wf()
                    &&& is_payout_connector(d.connector_name)
                    &&& connector_from_name(name@) == Some(d.connector_name)
                    &&& connector_name(d.connector_name) == name@
                    &&& d.get_token == connector_type
                    &&& d.merchant_connector_id == connector_id
                },
                Err(e) => e == invalid_name(),
            },
    {
        let connector = Self::convert_connector(name)?;
        let connector_name = match Connector::from_str(name) {
            Ok(c) => c,
            Err(_) => {
                return Err(ApiErrorResponse::InternalServerError(
                    InternalCause::InvalidConnectorName,
                ));
            },
        };
        if !connector_name.is_payout_connector() {
            return Err(ApiErrorResponse::InternalServerError(InternalCause::InvalidConnectorName));
        }
        Ok(ConnectorData {
            connector,
            connector_name,
            get_token: connector_type,
            merchant_connector_id: connector_id,
        })
    }

    /// Builds the handle of an external vault connector; any other connector fails.
    pub fn get_external_vault_connector_by_name(
        connector: &Connector,
        connector_type: GetToken,
        connector_id: Option<MerchantConnectorAccountId>,
    ) -> (r: Result<Self, ApiErrorResponse>)
        ensures
            r is Ok <==> (registry_entry(*connector) is Some && is_vault_connector(*connector)),
            match r {
                Ok(d) => {
                    &&& d.wf()
                    &&& d.connector_name == *connector
                    &&& d.get_token == connector_type
                    &&& d.merchant_connector_id == connector_id
                },
                Err(e) => e == invalid_name(),
            },
    {
        let connector_enum = match registry_lookup(*connector) {
            Some(e) => e,
            None => {
                return Err(ApiErrorResponse::InternalServerError(
                    InternalCause::InvalidConnectorName,
                ));
            },
        };
        if !connector.is_vault_connector() {
            return Err(ApiErrorResponse::InternalServerError(InternalCause::InvalidConnectorName));
        }
        Ok(ConnectorData {
            connector: connector_enum,
            connector_name: *connector,
            get_token: connector_type,
            merchant_connector_id: connector_id,
        })
    }
}

/// A finalized routing decision: a handle and an optional card-network hint.
#[derive(Debug)]
pub struct ConnectorRoutingData {
    pub connector_data: ConnectorData,
    pub network: Option<CardNetwork>,
}

impl Clone for ConnectorRoutingData {
    fn clone(&self) -> (r: Self)
        ensures
            r == *self,
    {
        ConnectorRoutingData { connector_data: self.connector_data.clone(), network: self.network }
    }
}

impl From<ConnectorData> for ConnectorRoutingData {
    fn from(connector_data: ConnectorData) -> (r: Self) {
        ConnectorRoutingData { connector_data, network: None }
    }
}

impl vstd::std_specs::convert::FromSpecImpl<ConnectorData> for ConnectorRoutingData {
    open spec fn obeys_from_spec() -> bool {
        true
    }

    open spec fn from_spec(v: ConnectorData) -> Self {
        ConnectorRoutingData { connector_data: v, network: None }
    }
}

/// The handle of a tax-calculation connector.
#[derive(Clone, Copy, PartialEq, Eq, Structural, Debug)]
pub struct TaxCalculateConnectorData {
    pub connector: ConnectorEnum,
    pub connector_name: TaxConnectors,
}

impl TaxCalculateConnectorData {
    /// Builds the handle of the tax connector named `name`.
    pub fn get_connector_by_name(name: &str) -> (r: Result<Self, ApiErrorResponse>)
        ensures
            r is Ok <==> exists|t: TaxConnectors| tax_connector_name(t) == name@,
            match r {
                Ok(d) => {
                    &&& tax_connector_name(d.connector_name) == name@
                    &&& d.connector == ConnectorEnum::Old(tax_connector_as_connector(d.connector_name))
                },
                Err(e) => e == ApiErrorResponse::IncorrectConnectorNameGiven,
            },
    {
        let connector_name = match TaxConnectors::from_str(name) {
            Ok(c) => c,
            Err(_) => {
                return Err(ApiErrorResponse::IncorrectConnectorNameGiven);
            },
        };
        let connector = Self::convert_connector(connector_name)?;
        Ok(TaxCalculateConnectorData { connector, connector_name })
    }

    /// The capability handle of a tax connector.
    pub fn convert_connector(connector_name: TaxConnectors) -> (r: Result<
        ConnectorEnum,
        ApiErrorResponse,
    >)
        ensures
            r == Ok::<ConnectorEnum, ApiErrorResponse>(
                ConnectorEnum::Old(tax_connector_as_connector(connector_name)),
            ),
    {
        Ok(ConnectorEnum::Old(connector_name.as_connector()))
    }
}

/// A name that the registry resolves builds a handle whose logical name is that name.
pub proof fn lemma_resolved_name_round_trips(name: Seq<char>)
    requires
        resolve(name) is Some,
    ensures
        connector_from_name(name) matches Some(c) && connector_name(c) == name && registry_entry(
            c,
        ) == resolve(name) && resolve(name)->Some_0.spec_id() == c,
{
}

/// A string that is no connector's canonical name resolves to nothing.
pub proof fn lemma_unknown_name_unresolved(name: Seq<char>)
    requires
        forall|c: Connector| connector_name(c) != name,
    ensures
        connector_from_name(name) is None,
        resolve(name) is None,
{
    if connector_from_name(name) is Some {
        lemma_connector_from_name_sound(name);
    }
}

proof fn lemma_connector_from_name_sound(name: Seq<char>)
    requires
        connector_from_name(name) is Some,
    ensures
        connector_name(connector_from_name(name)->Some_0) == name,
{
}

} // verus!
