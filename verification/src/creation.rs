//! Creating a device: the handles are opened and bound one by one, then the
//! interface is configured. Whatever fails, every handle opened until then is
//! released before the failure is reported.
//!
//! Releasing the handles does not undo what the kernel was told before: when
//! a later setting fails, the earlier ones have been applied to the
//! interface. The error that is reported is that of the call that failed.

use vstd::prelude::*;
use crate::builder::{Config, ConfigView};
use crate::device::{Control, Device, DeviceView};
use crate::error::Error;
use crate::request::{Call, Completion, InterfaceRequest, Step, field_name, name_field,
    spec_field_name, spec_name_array};
use crate::sys::{spec_tunnel_flags, tunnel_flags};

verus! {

/// A setting that is applied to the interface once the handles are there, in
/// the order in which the settings are applied.
#[derive(Clone, Copy, Debug, PartialEq, Eq)]
pub enum Setting {
    Address,
    Netmask,
    Up,
}

/// The creation of a device, in progress.
#[derive(Debug, PartialEq, Eq)]
pub struct Creation {
    state: State,
}

#[derive(Debug, PartialEq, Eq)]
enum State {
    Opening { config: Config, request: InterfaceRequest, queues: Vec<i32> },
    Attaching { config: Config, request: InterfaceRequest, queues: Vec<i32>, handle: i32 },
    Control { config: Config, name: Vec<u8>, queues: Vec<i32> },
    Configuring { config: Config, device: Device, setting: Setting, control: Control },
    Closing { error: Error, handles: Vec<i32> },
}

/// The mathematical content of a [`Creation`]: what is being waited for, and
/// what is remembered meanwhile.
pub enum CreationView {
    /// The tunnel device node is being opened for the next queue. `queues`
    /// are the handles bound so far, `request` is what the next one is bound
    /// with.
    Opening { config: ConfigView, request: InterfaceRequest, queues: Seq<i32> },
    /// `handle` is being bound to the interface with `request`.
    Attaching { config: ConfigView, request: InterfaceRequest, queues: Seq<i32>, handle: i32 },
    /// All queues are bound, the interface's name is `name`, and the control
    /// handle is being opened.
    Control { config: ConfigView, name: Seq<u8>, queues: Seq<i32> },
    /// The device has its handles, and `setting` is being applied to it.
    Configuring { config: ConfigView, device: DeviceView, setting: Setting, control: Control },
    /// The creation has failed with `error`. One handle is being released;
    /// `handles` are still to be released after it, the last one first.
    Closing { error: Error, handles: Seq<i32> },
}

/// The first step of releasing `handles`, the last one first, and failing
/// with `error` once none is left.
pub open spec fn spec_unwind(handles: Seq<i32>, error: Error) -> Step<CreationView, DeviceView> {
    if handles.len() == 0 {
        Step::Done(Err(error))
    } else {
        Step::Call(
            CreationView::Closing { error, handles: handles.drop_last() },
            Call::Close { handle: handles.last() },
        )
    }
}

/// What applying one setting begins with: `None` where the configuration
/// does not ask for the setting.
pub open spec fn spec_apply(config: ConfigView, device: DeviceView, setting: Setting) -> Option<
    Step<Control, ()>,
> {
    match setting {
        Setting::Address => match config.address {
            Some(address) => Some(device.set_address(address)),
            None => None,
        },
        Setting::Netmask => match config.netmask {
            Some(network) => Some(device.set_netmask(network)),
            None => None,
        },
        Setting::Up => if config.up {
            Some(device.set_enabled(true))
        } else {
            None
        },
    }
}

/// The setting that follows `setting`, if any.
pub open spec fn spec_following(setting: Setting) -> Option<Setting> {
    match setting {
        Setting::Address => Some(Setting::Netmask),
        Setting::Netmask => Some(Setting::Up),
        Setting::Up => None,
    }
}

/// How many settings come at or after `setting`.
pub open spec fn spec_settings_left(setting: Option<Setting>) -> nat {
    match setting {
        Some(Setting::Address) => 3,
        Some(Setting::Netmask) => 2,
        Some(Setting::Up) => 1,
        None => 0,
    }
}

/// The step that follows when the settings before `setting` are applied: the
/// first call of the first setting from there on that the configuration asks
/// for, or the finished device when none is left. A setting that is refused
/// fails the creation: the device's handles are released.
pub open spec fn spec_configure(
    config: ConfigView,
    device: DeviceView,
    setting: Option<Setting>,
) -> Step<CreationView, DeviceView>
    decreases spec_settings_left(setting),
{
    match setting {
        None => Step::Done(Ok(device)),
        Some(current) => match spec_apply(config, device, current) {
            Some(Step::Call(control, call)) => Step::Call(
                CreationView::Configuring { config, device, setting: current, control },
                call,
            ),
            Some(Step::Done(Err(error))) => spec_unwind(device.handles(), error),
            _ => spec_configure(config, device, spec_following(current)),
        },
    }
}

/// The first step of creating a device from `config`.
///
/// A name that does not fit the kernel's name field with its terminator, or
/// a number of queues below one, is refused before anything is asked of the
/// kernel. Otherwise the tunnel device node is to be opened for the first
/// queue, which will be bound with the name asked for (or none, for the
/// kernel to choose) and the flags of the configuration.
pub open spec fn spec_create(config: ConfigView) -> Step<CreationView, DeviceView> {
    if !config.valid() {
        Step::Done(Err(Error::InvalidArgument))
    } else {
        Step::Call(
            CreationView::Opening {
                config,
                request: InterfaceRequest {
                    name: spec_name_array(
                        match config.name {
                            Some(name) => name,
                            None => Seq::empty(),
                        },
                    ),
                    flags: spec_tunnel_flags(config.no_pi, config.multi_queue()),
                },
                queues: Seq::empty(),
            },
            Call::OpenTunnel,
        )
    }
}

impl CreationView {
    /// The step that follows the completion of the pending call.
    ///
    /// While the queues are being bound, a handle that was opened is bound
    /// next, and a handle that was bound is followed by the next one, bound
    /// with the request as the kernel left it, so that it joins the same
    /// interface. After the last one the interface's name is read from that
    /// request and the control handle is opened; then the settings are
    /// applied. The first call that fails ends all this: every handle that
    /// is open is released, the last one first, and the creation fails with
    /// that call's error. How a release ends changes nothing.
    pub open spec fn resume(self, completion: Completion) -> Step<CreationView, DeviceView> {
        match self {
            CreationView::Opening { config, request, queues } => if completion.failed() {
                spec_unwind(queues, Error::Os(completion.error()))
            } else {
                Step::Call(
                    CreationView::Attaching {
                        config,
                        request,
                        queues,
                        handle: completion.returned,
                    },
                    Call::Attach { handle: completion.returned, request },
                )
            },
            CreationView::Attaching { config, request, queues, handle } => if completion.failed() {
                spec_unwind(queues.push(handle), Error::Os(completion.error()))
            } else if queues.len() + 1 < config.queue_count() {
                Step::Call(
                    CreationView::Opening {
                        config,
                        request: completion.request,
                        queues: queues.push(handle),
                    },
                    Call::OpenTunnel,
                )
            } else {
                Step::Call(
                    CreationView::Control {
                        config,
                        name: spec_field_name(completion.request.name@),
                        queues: queues.push(handle),
                    },
                    Call::OpenControl,
                )
            },
            CreationView::Control { config, name, queues } => if completion.failed() {
                spec_unwind(queues, Error::Os(completion.error()))
            } else {
                spec_configure(
                    config,
                    DeviceView { name, queues, control: completion.returned, no_pi: config.no_pi },
                    Some(Setting::Address),
                )
            },
            CreationView::Configuring { config, device, setting, control } => match device.resume_control(
                control,
                completion,
            ) {
                Step::Call(control, call) => Step::Call(
                    CreationView::Configuring { config, device, setting, control },
                    call,
                ),
                Step::Done(Err(error)) => spec_unwind(device.handles(), error),
                Step::Done(Ok(_)) => spec_configure(config, device, spec_following(setting)),
            },
            CreationView::Closing { error, handles } => spec_unwind(handles, error),
        }
    }
}

impl View for Creation {
    type V = CreationView;

    closed spec fn view(&self) -> CreationView {
        match self.state {
            State::Opening { config, request, queues } => CreationView::Opening {
                config: config@,
                request,
                queues: queues@,
            },
            State::Attaching { config, request, queues, handle } => CreationView::Attaching {
                config: config@,
                request,
                queues: queues@,
                handle,
            },
            State::Control { config, name, queues } => CreationView::Control {
                config: config@,
                name: name@,
                queues: queues@,
            },
            State::Configuring { config, device, setting, control } => CreationView::Configuring {
                config: config@,
                device: device@,
                setting,
                control,
            },
            State::Closing { error, handles } => CreationView::Closing { error, handles: handles@ },
        }
    }
}

/// The mathematical content of a step of a creation.
pub open spec fn step_view(step: Step<Creation, Device>) -> Step<CreationView, DeviceView> {
    match step {
        Step::Call(creation, call) => Step::Call(creation@, call),
        Step::Done(Ok(device)) => Step::Done(Ok(device@)),
        Step::Done(Err(error)) => Step::Done(Err(error)),
    }
}

fn unwind(handles: Vec<i32>, error: Error) -> (step: Step<Creation, Device>)
    ensures
        step_view(step) == spec_unwind(handles@, error),
{
    let mut handles = handles;
    match handles.pop() {
        Some(handle) => Step::Call(
            Creation { state: State::Closing { error, handles } },
            Call::Close { handle },
        ),
        None => Step::Done(Err(error)),
    }
}

fn apply(config: &Config, device: &Device, setting: Setting) -> (step: Option<Step<Control, ()>>)
    ensures
        step == spec_apply(config@, device@, setting),
{
    match setting {
        Setting::Address => match config.address {
            Some(address) => Some(device.set_address(address)),
            None => None,
        },
        Setting::Netmask => match config.netmask {
            Some(network) => Some(device.set_netmask(network)),
            None => None,
        },
        Setting::Up => if config.up {
            Some(device.set_enabled(true))
        } else {
            None
        },
    }
}

fn following(setting: Setting) -> (next: Option<Setting>)
    ensures
        next == spec_following(setting),
{
    match setting {
        Setting::Address => Some(Setting::Netmask),
        Setting::Netmask => Some(Setting::Up),
        Setting::Up => None,
    }
}

fn configure(config: Config, device: Device, setting: Option<Setting>) -> (step: Step<
    Creation,
    Device,
>)
    ensures
        step_view(step) == spec_configure(config@, device@, setting),
    decreases spec_settings_left(setting),
{
    match setting {
        None => Step::Done(Ok(device)),
        Some(current) => match apply(&config, &device, current) {
            Some(Step::Call(control, call)) => Step::Call(
                Creation { state: State::Configuring { config, device, setting: current, control } },
                call,
            ),
            Some(Step::Done(Err(error))) => unwind(device.teardown(), error),
            _ => configure(config, device, following(current)),
        },
    }
}

impl Device {
    /// Begins to create a device from `config`.
    ///
    /// Nothing is asked of the kernel when the name does not fit or fewer
    /// than one queue is asked for: the creation is then over at once, with
    /// `InvalidArgument`.
    pub fn create(config: Config) -> (step: Step<Creation, Device>)
        ensures
            step_view(step) == spec_create(config@),
            !config@.valid() <==> step_view(step) == Step::<CreationView, DeviceView>::Done(
                Err(Error::InvalidArgument),
            ),
            config@.valid() ==> step is Call && step->Call_1 == Call::OpenTunnel,
    {
        if !config.name_fits() || config.queue_count() < 1 {
            return Step::Done(Err(Error::InvalidArgument));
        }
        let name = match &config.name {
            Some(name) => name_field(name),
            None => name_field(&Vec::new()),
        };
        let request = InterfaceRequest {
            name,
            flags: tunnel_flags(config.no_pi, config.multi_queue()),
        };
        Step::Call(
            Creation { state: State::Opening { config, request, queues: Vec::new() } },
            Call::OpenTunnel,
        )
    }
}

impl Creation {
    /// Takes the completion of the pending call and says what follows: the
    /// next call, the device, or the error after every handle was released.
    pub fn resume(self, completion: Completion) -> (step: Step<Creation, Device>)
        ensures
            step_view(step) == self@.resume(completion),
    {
        match self.state {
            State::Opening { config, request, queues } => match completion.result() {
                Err(error) => unwind(queues, Error::Os(error)),
                Ok(handle) => Step::Call(
                    Creation { state: State::Attaching { config, request, queues, handle } },
                    Call::Attach { handle, request },
                ),
            },
            State::Attaching { config, request, queues, handle } => {
                let mut queues = queues;
                let wanted = config.queue_count();
                queues.push(handle);
                match completion.result() {
                    Err(error) => unwind(queues, Error::Os(error)),
                    Ok(_) => if queues.len() < wanted {
                        Step::Call(
                            Creation {
                                state: State::Opening {
                                    config,
                                    request: completion.request,
                                    queues,
                                },
                            },
                            Call::OpenTunnel,
                        )
                    } else {
                        let name = field_name(&completion.request.name);
                        Step::Call(
                            Creation { state: State::Control { config, name, queues } },
                            Call::OpenControl,
                        )
                    },
                }
            },
            State::Control { config, name, queues } => match completion.result() {
                Err(error) => unwind(queues, Error::Os(error)),
                Ok(control) => {
                    let no_pi = config.no_pi;
                    configure(
                        config,
                        Device::assemble(name, queues, control, no_pi),
                        Some(Setting::Address),
                    )
                },
            },
            State::Configuring { config, device, setting, control } => match device.resume_control(
                control,
                completion,
            ) {
                Step::Call(control, call) => Step::Call(
                    Creation { state: State::Configuring { config, device, setting, control } },
                    call,
                ),
                Step::Done(Err(error)) => unwind(device.teardown(), error),
                Step::Done(Ok(_)) => configure(config, device, following(setting)),
            },
            State::Closing { error, handles } => unwind(handles, error),
        }
    }
}

} // verus!
