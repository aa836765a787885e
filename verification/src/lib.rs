//! A minimal type-2 hypervisor core for x86-64 Linux hosts.
//!
//! The crate holds the verified heart of the hypervisor: the guest
//! physical-memory model, the Linux boot-protocol loader, the vCPU
//! bootstrap state, the split-ring virtqueue engine, the virtio block
//! and net device models, the serial console, and the run-loop
//! decision logic.  Host-side plumbing (KVM ioctls, files, the tap
//! device, threads, signals) lives outside the library and hands it
//! plain values.

pub mod acpi;
pub mod config;
pub mod error;
pub mod linux;
pub mod loader;
pub mod memory;
pub mod metrics;
pub mod runloop;
pub mod serial;
pub mod vcpu;
pub mod virtio;
pub mod virtio_net;
pub mod virtqueue;
