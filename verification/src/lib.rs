//! A SIP server core: transaction state machines, dialog bookkeeping,
//! transport defaults and transaction-user routing, with the decisions of
//! each layer stated and proved.
pub mod error;
pub mod presets;
pub mod sip;
pub mod store;
pub mod transaction;
pub mod transport;
pub mod tu;
