//! TCP congestion-control computation core.
//!
//! The heart of this crate is the integer-only state machinery of the CUBIC
//! and BIC congestion-control algorithms, together with the HyStart hybrid
//! slow-start heuristic: given the events a transport stack delivers for one
//! connection (ACKs with timestamps and round-trip samples, loss events,
//! state transitions), it computes the congestion-window increase divisor
//! `cnt` and the slow-start threshold for that connection. The surrounding
//! kernel-flavoured helper modules (alignment arithmetic, network-device
//! flags and features, Ethernet headers, USB descriptors and identifiers)
//! are pure value-level computations proved against their own contracts.

pub mod align;
pub mod bic;
pub mod cca;
pub mod cubic;
pub mod ethernet;
pub mod gro;
pub mod hystart;
pub mod math;
pub mod net_device;
pub mod sock;
pub mod usb;
pub mod usb_descriptors;
