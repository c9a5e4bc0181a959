//! Session orchestration for a link-layer proxy: address arithmetic, interface
//! labels, the shared status record and the start/stop state machine.

pub mod address;
pub mod command;
pub mod descriptor;
pub mod endpoint;
pub mod error;
pub mod interface;
pub mod mask;
pub mod network;
pub mod plan;
pub mod probe;
pub mod session;
pub mod status;
