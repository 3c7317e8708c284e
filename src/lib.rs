//! Routing and dispatch core of a payment switch: the connector registry and
//! handles, call plans, session-candidate filtering and reconciliation with the
//! routing engine, surcharge resolution, and conversion to routing choices.

pub mod enums;
pub mod errors;
pub mod connector;
pub mod session;
pub mod routable;
pub mod surcharge;
pub mod call_type;
pub mod demopay;
