//! Core of a minimal virtual-machine monitor: a bounds-checked guest-memory
//! region, a kernel-image loader, a flat descriptor-table builder, an
//! address-range device bus, and the vCPU exit-dispatch step.
//!
//! The hypervisor itself (VM and vCPU file descriptors, memory-region
//! registration, the blocking run call) is an external collaborator; a host
//! program performs those calls and drives the pieces defined here.

pub mod device;
pub mod loader;
pub mod memory;
pub mod vm;
