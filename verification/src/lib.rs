//! QEMU Machine Protocol (QMP) message schema: envelopes, their JSON document
//! form, and typed command builders.

pub mod generic;
pub mod json;
pub mod qmp_monitor;
pub mod wire;

pub use qmp_monitor::query_version;
