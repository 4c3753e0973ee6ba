use hypertube::builder::Config;
use hypertube::{
    AddressRequest, Call, Completion, Device, Error, InterfaceRequest, IpAddress, IpNetwork,
    Ipv4Network, OsError, SocketAddress, Step,
};

/// A stand-in for the kernel: it hands out handles, remembers which are
/// open, and records every call.
struct Kernel {
    next: i32,
    open: Vec<i32>,
    closed: Vec<i32>,
    calls: Vec<Call>,
    failures: Vec<(usize, i32)>,
    assigned: [u8; 16],
    flags: i16,
    status: i32,
    address: Option<SocketAddress>,
    netmask: Option<SocketAddress>,
}

const BLANK: InterfaceRequest = InterfaceRequest { name: [0; 16], flags: 0 };

impl Kernel {
    fn new() -> Kernel {
        Kernel {
            next: 3,
            open: Vec::new(),
            closed: Vec::new(),
            calls: Vec::new(),
            failures: Vec::new(),
            assigned: *b"tun7\0\0\0\0\0\0\0\0\0\0\0\0",
            flags: 0x1090,
            status: 0x8002,
            address: None,
            netmask: None,
        }
    }

    /// A kernel that fails the call at `position` (counted from zero over
    /// all calls) with `errno`.
    fn failing(position: usize, errno: i32) -> Kernel {
        let mut kernel = Kernel::new();
        kernel.failures.push((position, errno));
        kernel
    }

    fn open_handle(&mut self) -> Completion {
        let handle = self.next;
        self.next += 1;
        self.open.push(handle);
        Completion { returned: handle, errno: 0, request: BLANK }
    }

    fn perform(&mut self, call: Call) -> Completion {
        let position = self.calls.len();
        self.calls.push(call);
        let failure = self.failures.iter().find(|(at, _)| *at == position).map(|(_, errno)| *errno);
        if let Call::Close { handle } = call {
            assert!(self.open.contains(&handle), "handle {} released but not open", handle);
            self.open.retain(|open| *open != handle);
            self.closed.push(handle);
        }
        if let Some(errno) = failure {
            return Completion { returned: -1, errno, request: BLANK };
        }
        match call {
            Call::OpenTunnel | Call::OpenControl => self.open_handle(),
            Call::Attach { handle, request } => {
                assert!(self.open.contains(&handle));
                let name = if request.name == [0; 16] { self.assigned } else { request.name };
                Completion { returned: 0, errno: 0, request: InterfaceRequest { name, ..request } }
            }
            Call::GetFlags { control, request } => {
                assert!(self.open.contains(&control));
                let request = InterfaceRequest { flags: self.flags, ..request };
                Completion { returned: 0, errno: 0, request }
            }
            Call::SetFlags { control, request } => {
                assert!(self.open.contains(&control));
                self.flags = request.flags;
                Completion { returned: 0, errno: 0, request }
            }
            Call::SetAddress { control, address } => {
                assert!(self.open.contains(&control));
                self.address = Some(address.address);
                Completion { returned: 0, errno: 0, request: BLANK }
            }
            Call::SetNetmask { control, address } => {
                assert!(self.open.contains(&control));
                self.netmask = Some(address.address);
                Completion { returned: 0, errno: 0, request: BLANK }
            }
            Call::GetStatus { handle } => {
                assert!(self.open.contains(&handle));
                Completion { returned: self.status, errno: 0, request: BLANK }
            }
            Call::SetStatus { handle, flags } => {
                assert!(self.open.contains(&handle));
                self.status = flags;
                Completion { returned: 0, errno: 0, request: BLANK }
            }
            Call::Close { .. } => Completion { returned: 0, errno: 0, request: BLANK },
        }
    }

    fn create(&mut self, config: Config) -> Result<Device, Error> {
        let mut step = Device::create(config);
        loop {
            match step {
                Step::Call(state, call) => step = state.resume(self.perform(call)),
                Step::Done(result) => return result,
            }
        }
    }
}

fn name(text: &[u8]) -> [u8; 16] {
    let mut field = [0u8; 16];
    field[..text.len()].copy_from_slice(text);
    field
}

fn full_config() -> Config {
    hypertube::builder()
        .with_name(b"tun9".to_vec())
        .with_address(IpAddress::V4([10, 0, 0, 1]))
        .with_netmask(IpNetwork::V4(Ipv4Network::new([10, 0, 0, 0], 24).unwrap()))
        .with_up(true)
        .with_num_queues(2)
        .unwrap()
        .build()
}

#[test]
fn zero_queues_open_nothing() {
    let mut kernel = Kernel::new();
    let config = Config::new(None, Some(0), true, None, None);
    assert_eq!(Device::create(config), Step::Done(Err(Error::InvalidArgument)));
    let config = Config::new(None, Some(0), true, None, None);
    assert_eq!(kernel.create(config), Err(Error::InvalidArgument));
    assert!(kernel.calls.is_empty());
    assert!(kernel.open.is_empty());
}

#[test]
fn a_name_that_does_not_fit_opens_nothing() {
    let mut kernel = Kernel::new();
    let config = hypertube::builder().with_name(b"abcdefghijklmnop".to_vec()).build();
    assert_eq!(kernel.create(config), Err(Error::InvalidArgument));
    let config = hypertube::builder().with_name(vec![b'x'; 1000]).build();
    assert_eq!(kernel.create(config), Err(Error::InvalidArgument));
    assert!(kernel.calls.is_empty());
    assert!(kernel.open.is_empty());
}

#[test]
fn a_name_of_fifteen_bytes_fits() {
    let mut kernel = Kernel::new();
    let config = hypertube::builder().with_name(b"abcdefghijklmno".to_vec()).build();
    let device = kernel.create(config).unwrap();
    assert_eq!(device.name(), &b"abcdefghijklmno".to_vec());
    assert_eq!(
        kernel.calls[1],
        Call::Attach {
            handle: 3,
            request: InterfaceRequest { name: *b"abcdefghijklmno\0", flags: 0x1001 },
        }
    );
}

#[test]
fn the_device_has_the_queues_asked_for() {
    for count in [1usize, 2, 3, 8] {
        let mut kernel = Kernel::new();
        let config = hypertube::builder().with_num_queues(count).unwrap().build();
        let device = kernel.create(config).unwrap();
        assert_eq!(device.queue_count(), count);
        for index in 0..count {
            assert!(matches!(device.queue(index), Step::Call(_, _)));
            assert!(matches!(device.queue_nonblocking(index), Step::Call(_, _)));
        }
        assert_eq!(device.queue(count), Step::Done(Err(Error::NotFound)));
        assert_eq!(device.queue_nonblocking(count), Step::Done(Err(Error::NotFound)));
        assert_eq!(device.queue(count + 1), Step::Done(Err(Error::NotFound)));
        assert_eq!(device.queue(usize::MAX), Step::Done(Err(Error::NotFound)));
        assert_eq!(kernel.open.len(), count + 1);
    }
}

#[test]
fn the_queues_are_in_the_order_of_their_opening() {
    let mut kernel = Kernel::new();
    let config = hypertube::builder().with_num_queues(3).unwrap().build();
    let device = kernel.create(config).unwrap();
    assert_eq!(device.control(), 6);
    assert_eq!(device.teardown(), vec![3, 4, 5, 6]);
}

#[test]
fn a_creation_asks_for_everything_in_order() {
    let mut kernel = Kernel::new();
    let device = kernel.create(full_config()).unwrap();
    let tun9 = name(b"tun9");
    let expected = vec![
        Call::OpenTunnel,
        Call::Attach { handle: 3, request: InterfaceRequest { name: tun9, flags: 0x1101 } },
        Call::OpenTunnel,
        Call::Attach { handle: 4, request: InterfaceRequest { name: tun9, flags: 0x1101 } },
        Call::OpenControl,
        Call::SetAddress {
            control: 5,
            address: AddressRequest {
                name: tun9,
                address: SocketAddress {
                    family: 2,
                    port: 0,
                    address: [10, 0, 0, 1],
                    padding: [0; 8],
                },
            },
        },
        Call::SetNetmask {
            control: 5,
            address: AddressRequest {
                name: tun9,
                address: SocketAddress {
                    family: 2,
                    port: 0,
                    address: [255, 255, 255, 0],
                    padding: [0; 8],
                },
            },
        },
        Call::GetFlags { control: 5, request: InterfaceRequest { name: tun9, flags: 0 } },
        Call::SetFlags { control: 5, request: InterfaceRequest { name: tun9, flags: 0x10d1 } },
    ];
    assert_eq!(kernel.calls, expected);
    assert_eq!(device.name(), &b"tun9".to_vec());
    assert_eq!(device.queue_count(), 2);
    assert_eq!(device.control(), 5);
    assert!(device.no_pi());
    assert_eq!(kernel.flags, 0x10d1);
    assert!(kernel.closed.is_empty());
}

#[test]
fn settings_not_asked_for_are_not_applied() {
    let mut kernel = Kernel::new();
    let device = kernel.create(hypertube::builder().build()).unwrap();
    assert_eq!(
        kernel.calls,
        vec![
            Call::OpenTunnel,
            Call::Attach { handle: 3, request: InterfaceRequest { name: [0; 16], flags: 0x1001 } },
            Call::OpenControl,
        ]
    );
    assert_eq!(device.queue_count(), 1);
    assert_eq!(kernel.address, None);
    assert_eq!(kernel.netmask, None);
    assert_eq!(kernel.flags, 0x1090);
}

#[test]
fn only_the_settings_asked_for_are_applied() {
    let mut kernel = Kernel::new();
    let config = hypertube::builder().with_up(true).build();
    kernel.create(config).unwrap();
    assert_eq!(kernel.calls.len(), 5);
    assert!(matches!(kernel.calls[3], Call::GetFlags { .. }));
    assert!(matches!(kernel.calls[4], Call::SetFlags { .. }));

    let mut kernel = Kernel::new();
    let network = Ipv4Network::new([192, 168, 0, 0], 16).unwrap();
    let config = hypertube::builder().with_netmask(IpNetwork::V4(network)).build();
    kernel.create(config).unwrap();
    assert_eq!(kernel.calls.len(), 4);
    assert!(matches!(kernel.calls[3], Call::SetNetmask { .. }));
    assert_eq!(kernel.netmask.unwrap().address, [255, 255, 0, 0]);
    assert_eq!(kernel.address, None);
}

#[test]
fn the_attach_flags_follow_the_configuration() {
    let flags_of = |config: Config| {
        let mut kernel = Kernel::new();
        kernel.create(config).unwrap();
        match kernel.calls[1] {
            Call::Attach { request, .. } => request.flags,
            _ => panic!("the second call binds the first handle"),
        }
    };
    assert_eq!(flags_of(hypertube::builder().build()), 0x1001);
    assert_eq!(flags_of(hypertube::builder().with_pi(true).build()), 0x0001);
    assert_eq!(flags_of(hypertube::builder().with_num_queues(2).unwrap().build()), 0x1101);
    assert_eq!(
        flags_of(hypertube::builder().with_pi(true).with_num_queues(5).unwrap().build()),
        0x0101
    );
}

#[test]
fn the_kernel_names_an_interface_asked_for_without_a_name() {
    let mut kernel = Kernel::new();
    let config = hypertube::builder().with_num_queues(3).unwrap().build();
    let device = kernel.create(config).unwrap();
    assert_eq!(device.name(), &b"tun7".to_vec());
    let blank = InterfaceRequest { name: [0; 16], flags: 0x1101 };
    let named = InterfaceRequest { name: name(b"tun7"), flags: 0x1101 };
    assert_eq!(kernel.calls[1], Call::Attach { handle: 3, request: blank });
    assert_eq!(kernel.calls[3], Call::Attach { handle: 4, request: named });
    assert_eq!(kernel.calls[5], Call::Attach { handle: 5, request: named });
    assert_eq!(device.request(0), InterfaceRequest { name: name(b"tun7"), flags: 0 });
}

#[test]
fn the_resolved_name_may_differ_from_the_one_asked_for() {
    let config = hypertube::builder().with_name(b"tun%d".to_vec()).build();
    let state = match Device::create(config) {
        Step::Call(state, _) => state,
        Step::Done(_) => panic!("the configuration is valid"),
    };
    let state = match state.resume(Completion { returned: 3, errno: 0, request: BLANK }) {
        Step::Call(state, call) => {
            assert_eq!(
                call,
                Call::Attach {
                    handle: 3,
                    request: InterfaceRequest { name: name(b"tun%d"), flags: 0x1001 },
                }
            );
            state
        }
        Step::Done(_) => panic!("the handle is to be bound"),
    };
    let answer = InterfaceRequest { name: name(b"tun12"), flags: 0x1001 };
    let state = match state.resume(Completion { returned: 0, errno: 0, request: answer }) {
        Step::Call(state, call) => {
            assert_eq!(call, Call::OpenControl);
            state
        }
        Step::Done(_) => panic!("the control handle is to be opened"),
    };
    match state.resume(Completion { returned: 4, errno: 0, request: BLANK }) {
        Step::Done(Ok(device)) => assert_eq!(device.name(), &b"tun12".to_vec()),
        _ => panic!("nothing is left to do"),
    }
}

#[test]
fn a_failure_to_open_the_first_handle_is_passed_on() {
    let mut kernel = Kernel::failing(0, 13);
    assert_eq!(kernel.create(full_config()), Err(Error::Os(OsError { code: 13 })));
    assert_eq!(kernel.calls, vec![Call::OpenTunnel]);
    assert!(kernel.open.is_empty());
}

#[test]
fn a_failure_to_open_a_later_handle_releases_the_earlier_ones() {
    let mut kernel = Kernel::failing(4, 24);
    let config = hypertube::builder().with_num_queues(3).unwrap().build();
    assert_eq!(kernel.create(config), Err(Error::Os(OsError { code: 24 })));
    assert_eq!(kernel.calls.len(), 7);
    assert_eq!(kernel.calls[5], Call::Close { handle: 4 });
    assert_eq!(kernel.calls[6], Call::Close { handle: 3 });
    assert!(kernel.open.is_empty());
}

#[test]
fn a_handle_that_cannot_be_bound_is_released_with_the_others() {
    let mut kernel = Kernel::failing(3, 16);
    assert_eq!(kernel.create(full_config()), Err(Error::Os(OsError { code: 16 })));
    assert_eq!(kernel.calls.len(), 6);
    assert_eq!(kernel.calls[4], Call::Close { handle: 4 });
    assert_eq!(kernel.calls[5], Call::Close { handle: 3 });
    assert_eq!(kernel.closed, vec![4, 3]);
    assert!(kernel.open.is_empty());
}

#[test]
fn a_failure_to_open_the_control_handle_releases_the_queues() {
    let mut kernel = Kernel::failing(4, 97);
    assert_eq!(kernel.create(full_config()), Err(Error::Os(OsError { code: 97 })));
    assert_eq!(kernel.closed, vec![4, 3]);
    assert!(kernel.open.is_empty());
    assert_eq!(kernel.calls.len(), 7);
}

#[test]
fn a_setting_that_fails_releases_every_handle() {
    let mut kernel = Kernel::failing(6, 99);
    assert_eq!(kernel.create(full_config()), Err(Error::Os(OsError { code: 99 })));
    assert_eq!(kernel.closed, vec![5, 4, 3]);
    assert!(kernel.open.is_empty());
    assert_eq!(kernel.calls.len(), 10);
    assert!(kernel.address.is_some());
    assert!(kernel.netmask.is_none());
    assert_eq!(kernel.flags, 0x1090);
}

#[test]
fn a_failure_to_read_or_write_the_flags_fails_the_creation() {
    let mut kernel = Kernel::failing(7, 19);
    assert_eq!(kernel.create(full_config()), Err(Error::Os(OsError { code: 19 })));
    assert_eq!(kernel.closed, vec![5, 4, 3]);
    assert_eq!(kernel.calls.len(), 11);
    let mut kernel = Kernel::failing(8, 1);
    assert_eq!(kernel.create(full_config()), Err(Error::Os(OsError { code: 1 })));
    assert_eq!(kernel.closed, vec![5, 4, 3]);
    assert_eq!(kernel.calls.len(), 12);
    assert!(kernel.open.is_empty());
}

#[test]
fn whatever_fails_nothing_stays_open() {
    for position in 0..9usize {
        let mut kernel = Kernel::failing(position, 5);
        assert_eq!(kernel.create(full_config()), Err(Error::Os(OsError { code: 5 })));
        assert!(kernel.open.is_empty(), "a handle stays open after a failure at {}", position);
        let mut opened: Vec<i32> = (3..kernel.next).collect();
        opened.reverse();
        assert_eq!(kernel.closed, opened);
    }
}

#[test]
fn how_a_release_ends_changes_nothing() {
    let mut kernel = Kernel::failing(6, 99);
    kernel.failures.push((7, 9));
    kernel.failures.push((8, 4));
    kernel.failures.push((9, 5));
    assert_eq!(kernel.create(full_config()), Err(Error::Os(OsError { code: 99 })));
    assert_eq!(kernel.closed, vec![5, 4, 3]);
    assert_eq!(kernel.calls.len(), 10);
}

#[test]
fn an_ipv6_address_fails_the_creation_as_unsupported() {
    let mut kernel = Kernel::new();
    let mut address = [0u8; 16];
    address[15] = 1;
    let config = hypertube::builder()
        .with_address(IpAddress::V6(address))
        .with_up(true)
        .with_num_queues(2)
        .unwrap()
        .build();
    assert_eq!(kernel.create(config), Err(Error::Unsupported));
    assert!(kernel.calls.iter().all(|call| !matches!(call, Call::SetAddress { .. })));
    assert!(kernel.calls.iter().all(|call| !matches!(call, Call::GetFlags { .. })));
    assert_eq!(kernel.address, None);
    assert_eq!(kernel.closed, vec![5, 4, 3]);
    assert!(kernel.open.is_empty());
}

#[test]
fn an_ipv6_netmask_fails_the_creation_after_the_address_was_set() {
    let mut kernel = Kernel::new();
    let config = hypertube::builder()
        .with_address(IpAddress::V4([10, 0, 0, 1]))
        .with_netmask(IpNetwork::V6 { address: [0; 16], length: 64 })
        .build();
    assert_eq!(kernel.create(config), Err(Error::Unsupported));
    assert!(kernel.address.is_some());
    assert_eq!(kernel.netmask, None);
    assert_eq!(kernel.closed, vec![4, 3]);
    assert!(kernel.open.is_empty());
}
