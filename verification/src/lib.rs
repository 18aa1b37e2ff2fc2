//! Host-side control plane for vhost-based virtio devices.
//!
//! The kernel takes over virtqueue processing for a vhost device; userspace
//! only validates guest-supplied addresses and sizes, serializes the kernel's
//! fixed-layout configuration structures, and issues one ioctl per step.
//! This crate holds the validated, byte-exact part of that protocol: the
//! guest-memory model, the ring-address validator, the memory-table and vring
//! serializers, and the request builders. Performing the ioctls, which is
//! plain file I/O, is left to the embedding program.
//!
//! Two small side areas share the byte-level helpers: big-endian cell
//! encoding for flattened-device-tree properties, and the event model of a
//! video-decode accelerator session.

pub mod endian;
pub mod fdt;
pub mod guest_mem;
pub mod vhost;
pub mod video;
