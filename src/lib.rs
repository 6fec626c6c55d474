//! Control core of a battery-powered environmental sensing node: the
//! orchestrator's state machine, sensor record encoding, payload assembly
//! and session persistence.

pub mod device;
pub mod duty;
pub mod payload;
pub mod radio;
pub mod sensor;
pub mod session;
pub mod storage;
