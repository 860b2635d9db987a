//! Link-state supervision and network-service orchestration for a small
//! embedded device: a state machine that keeps a wireless access point
//! alive across faults, a gate that holds dependent services until the IP
//! interface is usable, a bounded pool of address leases, and a TCP
//! connection server with bounded buffers, fixed responses and a strict
//! teardown schedule.

pub mod boot;
pub mod conn;
pub mod gate;
pub mod hardware;
pub mod http;
pub mod lease;
pub mod link;
