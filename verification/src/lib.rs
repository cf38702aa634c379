//! The decisions of a transport-adaptation layer that lets a
//! transport-agnostic protocol engine run over Embassy's network stack,
//! Wi-Fi radios and a BLE host, with storage of a fixed size.
//!
//! Nothing here touches a driver, a socket, a timer or a lock of the
//! scheduler. An adapter of this crate is told what happened outside and
//! says what is to be done next; whoever drives it does the waiting and
//! the I/O. What the adapters decide is stated in their contracts and
//! proved:
//!
//! - [`nal`]: the stack configuration and the addresses derived from a
//!   hardware address, and the pool of UDP socket buffers;
//! - [`netif`]: the snapshot of the network interface, the bounded wait for
//!   its change, and the socket binder;
//! - [`wireless`]: the storage that the transports share, and the BLE
//!   transport;
//! - [`wifi`]: the Wi-Fi transport and the activations that take turns on
//!   the shared storage;
//! - [`controller`]: scan and connect on a radio's control interface;
//! - [`radio`], [`net`], [`error`]: the values that pass through;
//! - [`bounded`]: the calls into `heapless`, whose contracts are assumed.

pub mod bounded;
pub mod controller;
pub mod error;
pub mod nal;
pub mod net;
pub mod netif;
pub mod radio;
pub mod wifi;
pub mod wireless;
