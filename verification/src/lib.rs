//! Boundary layer of an EtherCAT link for ultrasound transducer arrays: option
//! records are turned into validated link configurations, handles are issued
//! and consumed exactly once, and status events are marshalled for a foreign
//! caller.
#![allow(non_snake_case)]

pub mod adapter;
pub mod cstr;
pub mod duration;
pub mod handle;
pub mod handler;
pub mod local;
pub mod remote;
pub mod sleeper;
pub mod status;
pub mod thread_priority;
pub mod tracing;
