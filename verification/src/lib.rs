//! Soft KVM: the decision logic of a LAN-only, low-latency keyboard/video/mouse
//! sharing system, with its contracts proved.

pub mod text;
pub mod bridge;
pub mod kvm_core;
pub mod kvm_common;
pub mod named_map;
pub mod protocol;
pub mod platform;
pub mod server;
pub mod client;
pub mod discovery;
pub mod id_map;
pub mod plugins;
pub mod monitoring;
pub mod input_pipeline;
pub mod client_program;
