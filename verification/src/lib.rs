//! Provisioning logic of a Terraform provider plugin for Ubicloud virtual
//! machines: the codec for unknown values on the wire, the reconciliation
//! decision, and the state machines that drive a machine to its target state.

pub mod apply;
pub mod convergence;
pub mod cty;
pub mod diagnostic;
pub mod handshake;
pub mod msgpack;
pub mod round_trip;
pub mod schema;
pub mod server;
pub mod ubicloud;
pub mod util;
