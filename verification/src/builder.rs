//! The configuration of a tunnel device and the builder that records it.

use vstd::prelude::*;
use crate::address::{IpAddress, IpNetwork};
use crate::error::Error;
use crate::sys::IFNAMSIZ;

verus! {

/// What a tunnel device is to be created with.
#[derive(Clone, Debug, PartialEq, Eq)]
pub struct Config {
    /// Name asked for; `None` lets the kernel choose one.
    pub name: Option<Vec<u8>>,
    /// Number of queues asked for; `None` stands for one.
    pub num_queues: Option<usize>,
    /// Packets come without the packet-information header.
    pub no_pi: bool,
    /// Host address to set on the interface.
    pub address: Option<IpAddress>,
    /// Network whose mask is to be set on the interface.
    pub netmask: Option<IpNetwork>,
    /// Bring the interface up once it is configured.
    pub up: bool,
}

/// The mathematical content of a [`Config`].
pub struct ConfigView {
    pub name: Option<Seq<u8>>,
    pub num_queues: Option<usize>,
    pub no_pi: bool,
    pub address: Option<IpAddress>,
    pub netmask: Option<IpNetwork>,
    pub up: bool,
}

impl ConfigView {
    /// The configuration that nothing was asked of: the kernel names the
    /// interface, one queue, no packet information, no address, no netmask,
    /// and the interface is left down.
    pub open spec fn initial() -> ConfigView {
        ConfigView {
            name: None,
            num_queues: None,
            no_pi: true,
            address: None,
            netmask: None,
            up: false,
        }
    }

    /// The number of queues that the configuration stands for.
    pub open spec fn queue_count(self) -> nat {
        match self.num_queues {
            Some(n) => n as nat,
            None => 1,
        }
    }

    /// Whether the interface is to take several queues: exactly when more
    /// than one is asked for.
    pub open spec fn multi_queue(self) -> bool {
        self.queue_count() > 1
    }

    /// Whether the name fits the kernel's name field together with its
    /// terminator.
    pub open spec fn name_fits(self) -> bool {
        match self.name {
            Some(name) => name.len() + 1 <= IFNAMSIZ,
            None => true,
        }
    }

    /// Whether a device can be created from the configuration: the name fits
    /// and at least one queue is asked for.
    pub open spec fn valid(self) -> bool {
        self.name_fits() && self.queue_count() >= 1
    }
}

impl View for Config {
    type V = ConfigView;

    open spec fn view(&self) -> ConfigView {
        ConfigView {
            name: match self.name {
                Some(name) => Some(name@),
                None => None,
            },
            num_queues: self.num_queues,
            no_pi: self.no_pi,
            address: self.address,
            netmask: self.netmask,
            up: self.up,
        }
    }
}

impl Config {
    /// A configuration from its parts. The interface is left down. Nothing
    /// is checked here: creating the device checks the name and the number
    /// of queues.
    pub fn new(
        name: Option<Vec<u8>>,
        num_queues: Option<usize>,
        no_pi: bool,
        address: Option<IpAddress>,
        netmask: Option<IpNetwork>,
    ) -> (config: Config)
        ensures
            config@ == (ConfigView {
                name: match name {
                    Some(n) => Some(n@),
                    None => None,
                },
                num_queues,
                no_pi,
                address,
                netmask,
                up: false,
            }),
    {
        Config { name, num_queues, no_pi, address, netmask, up: false }
    }

    /// The number of queues that the configuration stands for.
    pub fn queue_count(&self) -> (count: usize)
        ensures
            count == self@.queue_count(),
    {
        match self.num_queues {
            Some(n) => n,
            None => 1,
        }
    }

    /// Whether the interface is to take several queues.
    pub fn multi_queue(&self) -> (multi: bool)
        ensures
            multi == self@.multi_queue(),
            multi == (self@.queue_count() > 1),
    {
        self.queue_count() > 1
    }

    /// Whether the name fits the kernel's name field together with its
    /// terminator.
    pub fn name_fits(&self) -> (fits: bool)
        ensures
            fits == self@.name_fits(),
    {
        match &self.name {
            Some(name) => name.len() < IFNAMSIZ,
            None => true,
        }
    }
}

impl Default for Config {
    fn default() -> (config: Config)
        ensures
            config@ == ConfigView::initial(),
    {
        Config { name: None, num_queues: None, no_pi: true, address: None, netmask: None, up: false }
    }
}

/// Records what a device is to be created with, one setting at a time.
#[derive(Debug, PartialEq, Eq)]
pub struct DeviceBuilder {
    config: Config,
}

impl View for DeviceBuilder {
    type V = ConfigView;

    /// The configuration recorded so far.
    closed spec fn view(&self) -> ConfigView {
        self.config@
    }
}

impl DeviceBuilder {
    /// A builder holds only what its methods can have recorded: a number of
    /// queues, if one was recorded, is at least one.
    #[verifier::type_invariant]
    spec fn wf(&self) -> bool {
        self.config@.queue_count() >= 1
    }

    /// A builder that nothing was asked of yet.
    pub fn new() -> (builder: DeviceBuilder)
        ensures
            builder@ == ConfigView::initial(),
    {
        DeviceBuilder {
            config: Config {
                name: None,
                num_queues: None,
                no_pi: true,
                address: None,
                netmask: None,
                up: false,
            },
        }
    }

    /// Asks for the interface name `name`, given without terminator. The
    /// bytes are passed to the kernel as they are, and the kernel reads a
    /// name up to its first zero byte.
    pub fn with_name(self, name: Vec<u8>) -> (builder: DeviceBuilder)
        ensures
            builder@ == (ConfigView { name: Some(name@), ..self@ }),
    {
        proof {
            use_type_invariant(&self);
        }
        let mut config = self.config;
        config.name = Some(name);
        DeviceBuilder { config }
    }

    /// Asks for packets with (`true`) or without the packet-information
    /// header.
    pub fn with_pi(self, pi: bool) -> (builder: DeviceBuilder)
        ensures
            builder@ == (ConfigView { no_pi: !pi, ..self@ }),
    {
        proof {
            use_type_invariant(&self);
        }
        let mut config = self.config;
        config.no_pi = !pi;
        DeviceBuilder { config }
    }

    /// Asks for the host address `address` on the interface.
    pub fn with_address(self, address: IpAddress) -> (builder: DeviceBuilder)
        ensures
            builder@ == (ConfigView { address: Some(address), ..self@ }),
    {
        proof {
            use_type_invariant(&self);
        }
        let mut config = self.config;
        config.address = Some(address);
        DeviceBuilder { config }
    }

    /// Asks for the mask of `netmask` on the interface.
    pub fn with_netmask(self, netmask: IpNetwork) -> (builder: DeviceBuilder)
        ensures
            builder@ == (ConfigView { netmask: Some(netmask), ..self@ }),
    {
        proof {
            use_type_invariant(&self);
        }
        let mut config = self.config;
        config.netmask = Some(netmask);
        DeviceBuilder { config }
    }

    /// Asks for `num_queues` queues. Fewer than one is refused, and the
    /// builder is then gone with the call.
    pub fn with_num_queues(self, num_queues: usize) -> (result: Result<DeviceBuilder, Error>)
        ensures
            num_queues < 1 ==> result == Err::<DeviceBuilder, Error>(Error::InvalidArgument),
            num_queues >= 1 ==> result is Ok && result->Ok_0@ == (ConfigView {
                num_queues: Some(num_queues),
                ..self@
            }) && result->Ok_0@.multi_queue() == (num_queues > 1),
    {
        if num_queues < 1 {
            return Err(Error::InvalidArgument);
        }
        proof {
            use_type_invariant(&self);
        }
        let mut config = self.config;
        config.num_queues = Some(num_queues);
        Ok(DeviceBuilder { config })
    }

    /// Asks for the interface to be brought up once it is configured.
    pub fn with_up(self, up: bool) -> (builder: DeviceBuilder)
        ensures
            builder@ == (ConfigView { up, ..self@ }),
    {
        proof {
            use_type_invariant(&self);
        }
        let mut config = self.config;
        config.up = up;
        DeviceBuilder { config }
    }

    /// The configuration recorded. It asks for at least one queue.
    pub fn build(self) -> (config: Config)
        ensures
            config@ == self@,
            config@.queue_count() >= 1,
            config@.multi_queue() == (config@.queue_count() > 1),
    {
        proof {
            use_type_invariant(&self);
        }
        self.config
    }
}

impl Default for DeviceBuilder {
    fn default() -> (builder: DeviceBuilder)
        ensures
            builder@ == ConfigView::initial(),
    {
        DeviceBuilder::new()
    }
}

} // verus!
