//! The tunnel device: its handles and the operations on the interface.
//!
//! Every operation is given as the calls it needs, one at a time. An
//! operation begins with a method of [`Device`], which returns the first
//! [`Step`]; whoever performs the calls hands each completion to `resume` and
//! gets the next step, until the step is `Done`.

use vstd::prelude::*;
use crate::address::{IpAddress, IpNetwork, ip_to_sockaddr, socket_address, spec_ip_to_sockaddr,
    spec_socket_address};
use crate::builder::DeviceBuilder;
use crate::error::{Error, OsError};
use crate::queue::{ModeChange, Queue};
use crate::request::{AddressRequest, Call, Completion, InterfaceRequest, Step, name_field,
    spec_name_array};
use crate::sys::{IFF_RUNNING, IFF_UP, enabled_flags, lemma_enabled_flags_bits, spec_enabled_flags,
    spec_tunnel_flags, tunnel_flags};

verus! {

/// A tunnel device: the interface's name as the kernel resolved it, the
/// handles of its queues in the order in which they were attached, and the
/// control handle through which the interface is configured.
#[derive(Debug, PartialEq, Eq)]
pub struct Device {
    name: Vec<u8>,
    queues: Vec<i32>,
    control: i32,
    no_pi: bool,
}

/// The mathematical content of a [`Device`].
pub struct DeviceView {
    /// The interface's name, without terminator.
    pub name: Seq<u8>,
    /// The queue handles; a queue's index is its position here.
    pub queues: Seq<i32>,
    /// The control handle.
    pub control: i32,
    /// Packets come without the packet-information header.
    pub no_pi: bool,
}

/// A change of the interface through the control handle, in progress.
#[derive(Clone, Copy, Debug, PartialEq, Eq)]
pub enum Control {
    /// The interface's flags are being read, to be written back with the up
    /// and running bits set (`enabled`) or cleared.
    ReadFlags { enabled: bool },
    /// The last call of the change is under way.
    Last,
}

/// The attachment of one more queue, in progress.
#[derive(Clone, Copy, Debug, PartialEq, Eq)]
pub enum Attachment {
    /// The tunnel device node is being opened.
    Opening,
    /// `handle` is being bound to the interface.
    Attaching { handle: i32 },
    /// The handle could not be bound and is being released; `error` is why.
    Abandoning { error: OsError },
}

impl DeviceView {
    /// Every handle that the device owns: the queues in order, then the
    /// control handle.
    pub open spec fn handles(self) -> Seq<i32> {
        self.queues.push(self.control)
    }

    /// An interface request that names this device's interface.
    pub open spec fn request(self, flags: i16) -> InterfaceRequest {
        InterfaceRequest { name: spec_name_array(self.name), flags }
    }

    /// The first step of enabling or disabling the interface: its flags are
    /// to be read.
    pub open spec fn set_enabled(self, enabled: bool) -> Step<Control, ()> {
        Step::Call(
            Control::ReadFlags { enabled },
            Call::GetFlags { control: self.control, request: self.request(0) },
        )
    }

    /// The one step of setting the interface's address: an IPv4 address is
    /// to be set, encoded as a socket address; an IPv6 address is refused
    /// without any call.
    pub open spec fn set_address(self, address: IpAddress) -> Step<Control, ()> {
        match spec_ip_to_sockaddr(address) {
            Ok(encoded) => Step::Call(
                Control::Last,
                Call::SetAddress {
                    control: self.control,
                    address: AddressRequest { name: self.request(0).name, address: encoded },
                },
            ),
            Err(error) => Step::Done(Err(error)),
        }
    }

    /// The one step of setting the interface's netmask: the mask of an IPv4
    /// network is to be set, encoded as a socket address; an IPv6 network is
    /// refused without any call.
    pub open spec fn set_netmask(self, network: IpNetwork) -> Step<Control, ()> {
        match network {
            IpNetwork::V4(network) => Step::Call(
                Control::Last,
                Call::SetNetmask {
                    control: self.control,
                    address: AddressRequest {
                        name: self.request(0).name,
                        address: spec_socket_address(network.spec_mask()),
                    },
                },
            ),
            IpNetwork::V6 { .. } => Step::Done(Err(Error::Unsupported)),
        }
    }

    /// The step that follows the completion of the pending call of a change
    /// through the control handle.
    ///
    /// A failed call ends the change with its error. The flags read are
    /// written back with only the up and running bits changed; the
    /// completion of any other call ends the change.
    pub open spec fn resume_control(self, state: Control, completion: Completion) -> Step<
        Control,
        (),
    > {
        if completion.failed() {
            Step::Done(Err(Error::Os(completion.error())))
        } else {
            match state {
                Control::ReadFlags { enabled } => Step::Call(
                    Control::Last,
                    Call::SetFlags {
                        control: self.control,
                        request: self.request(
                            spec_enabled_flags(completion.request.flags, enabled),
                        ),
                    },
                ),
                Control::Last => Step::Done(Ok(())),
            }
        }
    }

    /// The device after the queue at `index` was taken out: the queues
    /// behind it move down by one. An index that names no queue changes
    /// nothing.
    pub open spec fn without_queue(self, index: usize) -> DeviceView {
        if index < self.queues.len() {
            DeviceView { queues: self.queues.remove(index as int), ..self }
        } else {
            self
        }
    }

    /// The one step of closing the queue at `index`: its handle is to be
    /// released. An index that names no queue is refused without any call.
    pub open spec fn close_queue(self, index: usize) -> Step<Control, ()> {
        if index < self.queues.len() {
            Step::Call(Control::Last, Call::Close { handle: self.queues[index as int] })
        } else {
            Step::Done(Err(Error::NotFound))
        }
    }

    /// The first step of getting a view of the queue at `index` in the mode
    /// `blocking`: the mode is to be set on its handle. An index that names
    /// no queue is refused without any call.
    pub open spec fn queue(self, index: usize, blocking: bool) -> Step<ModeChange, Queue> {
        if index < self.queues.len() {
            ModeChange::spec_begin(self.queues[index as int], blocking)
        } else {
            Step::Done(Err(Error::NotFound))
        }
    }

    /// The first step of attaching one more queue: the tunnel device node is
    /// to be opened.
    pub open spec fn create_queue(self) -> Step<Attachment, usize> {
        Step::Call(Attachment::Opening, Call::OpenTunnel)
    }

    /// The device after the completion of the pending call of an attachment:
    /// unchanged, but for the new handle at the end of the queues once it is
    /// bound.
    pub open spec fn after_attachment(
        self,
        state: Attachment,
        completion: Completion,
    ) -> DeviceView {
        match state {
            Attachment::Attaching { handle } if !completion.failed() => DeviceView {
                queues: self.queues.push(handle),
                ..self
            },
            _ => self,
        }
    }

    /// The step that follows the completion of the pending call of an
    /// attachment.
    ///
    /// The handle that was opened is bound to this device's interface, with
    /// the multi-queue flag set. Once bound it is the last queue, and its
    /// index is the result. A handle that cannot be bound is released, and
    /// the attachment then fails with the error of the binding.
    pub open spec fn resume_attachment(
        self,
        state: Attachment,
        completion: Completion,
    ) -> Step<Attachment, usize> {
        match state {
            Attachment::Opening => if completion.failed() {
                Step::Done(Err(Error::Os(completion.error())))
            } else {
                Step::Call(
                    Attachment::Attaching { handle: completion.returned },
                    Call::Attach {
                        handle: completion.returned,
                        request: self.request(spec_tunnel_flags(self.no_pi, true)),
                    },
                )
            },
            Attachment::Attaching { handle } => if completion.failed() {
                Step::Call(
                    Attachment::Abandoning { error: completion.error() },
                    Call::Close { handle },
                )
            } else {
                Step::Done(Ok(self.queues.len() as usize))
            },
            Attachment::Abandoning { error } => Step::Done(Err(Error::Os(error))),
        }
    }
}

impl View for Device {
    type V = DeviceView;

    closed spec fn view(&self) -> DeviceView {
        DeviceView {
            name: self.name@,
            queues: self.queues@,
            control: self.control,
            no_pi: self.no_pi,
        }
    }
}

impl Device {
    /// The device of an interface whose handles are all there.
    pub(crate) fn assemble(name: Vec<u8>, queues: Vec<i32>, control: i32, no_pi: bool) -> (device:
        Device)
        ensures
            device@ == (DeviceView { name: name@, queues: queues@, control, no_pi }),
    {
        Device { name, queues, control, no_pi }
    }

    /// A builder that nothing was asked of yet.
    pub fn builder() -> (builder: DeviceBuilder)
        ensures
            builder@ == crate::builder::ConfigView::initial(),
    {
        DeviceBuilder::new()
    }

    /// The interface's name as the kernel resolved it, without terminator.
    pub fn name(&self) -> (name: &Vec<u8>)
        ensures
            name@ == self@.name,
    {
        &self.name
    }

    /// The number of queues; the valid indices are those below it.
    pub fn queue_count(&self) -> (count: usize)
        ensures
            count == self@.queues.len(),
    {
        self.queues.len()
    }

    /// The control handle.
    pub fn control(&self) -> (control: i32)
        ensures
            control == self@.control,
    {
        self.control
    }

    /// Whether packets come without the packet-information header.
    pub fn no_pi(&self) -> (no_pi: bool)
        ensures
            no_pi == self@.no_pi,
    {
        self.no_pi
    }

    /// An interface request that names this device's interface and carries
    /// `flags`.
    pub fn request(&self, flags: i16) -> (request: InterfaceRequest)
        ensures
            request == self@.request(flags),
            request.name@ == crate::request::spec_name_field(self@.name),
    {
        InterfaceRequest { name: name_field(&self.name), flags }
    }

    /// Begins to bring the interface up.
    pub fn bring_up(&self) -> (step: Step<Control, ()>)
        ensures
            step == self@.set_enabled(true),
    {
        self.set_enabled(true)
    }

    /// Begins to bring the interface up (`enabled`) or down.
    pub fn set_enabled(&self, enabled: bool) -> (step: Step<Control, ()>)
        ensures
            step == self@.set_enabled(enabled),
    {
        Step::Call(
            Control::ReadFlags { enabled },
            Call::GetFlags { control: self.control, request: self.request(0) },
        )
    }

    /// Begins to set the interface's address. Only IPv4 is implemented: an
    /// IPv6 address is refused at once, and nothing is asked of the kernel.
    pub fn set_address(&self, address: IpAddress) -> (step: Step<Control, ()>)
        ensures
            step == self@.set_address(address),
            address is V6 ==> step == Step::<Control, ()>::Done(Err(Error::Unsupported)),
            address is V4 ==> step is Call,
    {
        match ip_to_sockaddr(address) {
            Ok(encoded) => Step::Call(
                Control::Last,
                Call::SetAddress {
                    control: self.control,
                    address: AddressRequest { name: self.request(0).name, address: encoded },
                },
            ),
            Err(error) => Step::Done(Err(error)),
        }
    }

    /// Begins to set the interface's netmask to the mask of `network`. Only
    /// IPv4 is implemented: an IPv6 network is refused at once, and nothing
    /// is asked of the kernel.
    pub fn set_netmask(&self, network: IpNetwork) -> (step: Step<Control, ()>)
        ensures
            step == self@.set_netmask(network),
            network is V6 ==> step == Step::<Control, ()>::Done(Err(Error::Unsupported)),
            network matches IpNetwork::V4(n) ==> step matches Step::Call(
                _,
                Call::SetNetmask { address, .. },
            ) && address.address.address@ == crate::address::spec_netmask(n.spec_length()),
    {
        match network {
            IpNetwork::V4(network) => Step::Call(
                Control::Last,
                Call::SetNetmask {
                    control: self.control,
                    address: AddressRequest {
                        name: self.request(0).name,
                        address: socket_address(network.mask()),
                    },
                },
            ),
            IpNetwork::V6 { .. } => Step::Done(Err(Error::Unsupported)),
        }
    }

    /// Takes the completion of the pending call of a change through the
    /// control handle and says what follows.
    pub fn resume_control(&self, state: Control, completion: Completion) -> (step: Step<
        Control,
        (),
    >)
        ensures
            step == self@.resume_control(state, completion),
    {
        match completion.result() {
            Err(error) => Step::Done(Err(Error::Os(error))),
            Ok(_) => match state {
                Control::ReadFlags { enabled } => Step::Call(
                    Control::Last,
                    Call::SetFlags {
                        control: self.control,
                        request: self.request(enabled_flags(completion.request.flags, enabled)),
                    },
                ),
                Control::Last => Step::Done(Ok(())),
            },
        }
    }

    /// Begins to attach one more queue to the interface.
    pub fn create_queue(&self) -> (step: Step<Attachment, usize>)
        ensures
            step == self@.create_queue(),
    {
        Step::Call(Attachment::Opening, Call::OpenTunnel)
    }

    /// Takes the completion of the pending call of an attachment and says
    /// what follows. When the attachment succeeds, the new handle is the
    /// device's last queue.
    pub fn resume_attachment(&mut self, state: Attachment, completion: Completion) -> (step: Step<
        Attachment,
        usize,
    >)
        ensures
            step == old(self)@.resume_attachment(state, completion),
            final(self)@ == old(self)@.after_attachment(state, completion),
    {
        match state {
            Attachment::Opening => match completion.result() {
                Err(error) => Step::Done(Err(Error::Os(error))),
                Ok(handle) => Step::Call(
                    Attachment::Attaching { handle },
                    Call::Attach {
                        handle,
                        request: self.request(tunnel_flags(self.no_pi, true)),
                    },
                ),
            },
            Attachment::Attaching { handle } => match completion.result() {
                Err(error) => Step::Call(Attachment::Abandoning { error }, Call::Close { handle }),
                Ok(_) => {
                    let index = self.queues.len();
                    self.queues.push(handle);
                    Step::Done(Ok(index))
                },
            },
            Attachment::Abandoning { error } => Step::Done(Err(Error::Os(error))),
        }
    }

    /// Begins to close the queue at `index`. The queue leaves the device at
    /// once, and the queues behind it move down by one index; its handle is
    /// then to be released. An index that names no queue is refused.
    pub fn close_queue(&mut self, index: usize) -> (step: Step<Control, ()>)
        ensures
            step == old(self)@.close_queue(index),
            final(self)@ == old(self)@.without_queue(index),
            index >= old(self)@.queues.len() <==> step == Step::<Control, ()>::Done(
                Err(Error::NotFound),
            ),
    {
        if index >= self.queues.len() {
            return Step::Done(Err(Error::NotFound));
        }
        let handle = self.queues.remove(index);
        Step::Call(Control::Last, Call::Close { handle })
    }

    /// Begins to get a blocking view of the queue at `index`. An index that
    /// names no queue is refused.
    pub fn queue(&self, index: usize) -> (step: Step<ModeChange, Queue>)
        ensures
            step == self@.queue(index, true),
            index >= self@.queues.len() <==> step == Step::<ModeChange, Queue>::Done(
                Err(Error::NotFound),
            ),
    {
        self.queue_in_mode(index, true)
    }

    /// Begins to get a non-blocking view of the queue at `index`. An index
    /// that names no queue is refused.
    pub fn queue_nonblocking(&self, index: usize) -> (step: Step<ModeChange, Queue>)
        ensures
            step == self@.queue(index, false),
            index >= self@.queues.len() <==> step == Step::<ModeChange, Queue>::Done(
                Err(Error::NotFound),
            ),
    {
        self.queue_in_mode(index, false)
    }

    fn queue_in_mode(&self, index: usize, blocking: bool) -> (step: Step<ModeChange, Queue>)
        ensures
            step == self@.queue(index, blocking),
    {
        if index < self.queues.len() {
            ModeChange::begin(self.queues[index], blocking)
        } else {
            Step::Done(Err(Error::NotFound))
        }
    }

    /// Gives up the device: the handles to release, each once, the queues in
    /// order and then the control handle.
    pub fn teardown(self) -> (handles: Vec<i32>)
        ensures
            handles@ == self@.handles(),
    {
        let mut handles = self.queues;
        handles.push(self.control);
        handles
    }
}

/// Bringing the interface up or down writes back the flags that were read,
/// with the up and running bits set or cleared and every other bit as it
/// was.
pub proof fn lemma_enabling_keeps_the_other_flags(
    device: DeviceView,
    enabled: bool,
    completion: Completion,
)
    requires
        !completion.failed(),
    ensures
        device.resume_control(Control::ReadFlags { enabled }, completion) matches Step::Call(
            Control::Last,
            Call::SetFlags { control, request },
        ) && {
            &&& control == device.control
            &&& request.name == device.request(0).name
            &&& request.flags & !(IFF_UP | IFF_RUNNING) == completion.request.flags & !(IFF_UP
                | IFF_RUNNING)
            &&& request.flags & (IFF_UP | IFF_RUNNING) == (if enabled {
                IFF_UP | IFF_RUNNING
            } else {
                0i16
            })
        },
{
    lemma_enabled_flags_bits(completion.request.flags, enabled);
}

/// Attaching a queue extends the valid indices by exactly one, and the new
/// index can be used at once.
///
/// When the binding of `handle` has succeeded, the attachment is over with
/// the index that was the number of queues before. The device then has one
/// queue more, the new handle, at that index; a view of it can be asked for,
/// in either mode. The queues that were there keep their indices, and every
/// index beyond the new one is still refused.
pub proof fn lemma_attached_queue_is_usable(
    device: DeviceView,
    handle: i32,
    completion: Completion,
    index: usize,
    blocking: bool,
)
    requires
        device.queues.len() < usize::MAX,
        !completion.failed(),
    ensures
        ({
            let state = Attachment::Attaching { handle };
            let after = device.after_attachment(state, completion);
            let new = device.queues.len() as usize;
            &&& device.resume_attachment(state, completion) == Step::<Attachment, usize>::Done(
                Ok(new),
            )
            &&& after.queues == device.queues.push(handle)
            &&& after.queues.len() == device.queues.len() + 1
            &&& after.queue(new, blocking) == ModeChange::spec_begin(handle, blocking)
            &&& index < new ==> after.queue(index, blocking) == device.queue(index, blocking)
            &&& index > new ==> after.queue(index, blocking) == Step::<ModeChange, Queue>::Done(
                Err(Error::NotFound),
            )
        }),
{
}

/// An attachment that fails leaves the device as it was.
///
/// A handle that was opened and could not be bound is released, and only
/// then is the failure reported, with the error of the binding. Whatever
/// fails, the device keeps exactly the queues that it had.
pub proof fn lemma_failed_attachment_changes_nothing(
    device: DeviceView,
    handle: i32,
    failure: Completion,
    release: Completion,
)
    requires
        failure.failed(),
    ensures
        device.resume_attachment(Attachment::Opening, failure) == Step::<
            Attachment,
            usize,
        >::Done(Err(Error::Os(failure.error()))),
        device.after_attachment(Attachment::Opening, failure) == device,
        device.resume_attachment(Attachment::Attaching { handle }, failure) == Step::<
            Attachment,
            usize,
        >::Call(
            Attachment::Abandoning { error: failure.error() },
            Call::Close { handle },
        ),
        device.after_attachment(Attachment::Attaching { handle }, failure) == device,
        device.resume_attachment(Attachment::Abandoning { error: failure.error() }, release)
            == Step::<Attachment, usize>::Done(Err(Error::Os(failure.error()))),
        device.after_attachment(Attachment::Abandoning { error: failure.error() }, release)
            == device,
{
}

/// Closing a queue takes its index away and moves the queues behind it down
/// by one.
///
/// The handle at `index` is the one to be released. Afterwards the device
/// has one queue less: the indices below `index` name the queues that they
/// named, each index from `index` on names the queue that the next index
/// named before, and what was the last index is refused. An index kept from
/// before the call is therefore either refused or names another queue.
pub proof fn lemma_closed_queue_shifts_the_rest(
    device: DeviceView,
    index: usize,
    other: usize,
    blocking: bool,
)
    requires
        index < device.queues.len() <= usize::MAX,
    ensures
        ({
            let after = device.without_queue(index);
            &&& device.close_queue(index) == Step::<Control, ()>::Call(
                Control::Last,
                Call::Close { handle: device.queues[index as int] },
            )
            &&& after.queues == device.queues.remove(index as int)
            &&& after.queues.len() + 1 == device.queues.len()
            &&& other < index ==> after.queue(other, blocking) == device.queue(other, blocking)
            &&& index <= other && other + 1 < device.queues.len() ==> after.queue(other, blocking)
                == device.queue((other + 1) as usize, blocking)
            &&& other + 1 >= device.queues.len() ==> after.queue(other, blocking) == Step::<
                ModeChange,
                Queue,
            >::Done(Err(Error::NotFound))
        }),
{
}

} // verus!
