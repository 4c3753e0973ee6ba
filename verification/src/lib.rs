//! Virtual point-to-point network interfaces (tunnel devices) and their
//! packet queues.
//!
//! A device is described with a [`DeviceBuilder`], created with
//! [`Device::create`], and read and written through [`Queue`]s. The library
//! decides what is asked of the kernel and in which order; it performs no
//! system call itself. Each operation hands out the [`Call`]s it needs, one
//! at a time, and takes the [`Completion`] of each.

use vstd::prelude::*;

pub mod address;
pub mod builder;
pub mod creation;
pub mod device;
pub mod error;
pub mod queue;
pub mod request;
pub mod sys;
pub mod trace;

pub use address::{IpAddress, IpNetwork, Ipv4Network};
pub use builder::{Config, DeviceBuilder};
pub use creation::Creation;
pub use device::{Attachment, Control, Device};
pub use error::{Error, OsError};
pub use queue::{ModeChange, Poll, Queue, Transfer};
pub use request::{AddressRequest, Call, Completion, InterfaceRequest, SocketAddress, Step};

verus! {

/// A builder that nothing was asked of yet.
pub fn builder() -> (builder: DeviceBuilder)
    ensures
        builder@ == crate::builder::ConfigView::initial(),
{
    DeviceBuilder::new()
}

} // verus!
