//! Runs of a creation: what a creation opens and releases on the way to its
//! end, whatever the kernel answers.

use vstd::prelude::*;
use crate::address::{IpAddress, IpNetwork, spec_socket_address};
use crate::builder::ConfigView;
use crate::creation::{CreationView, Setting, spec_apply, spec_configure, spec_create,
    spec_following, spec_settings_left, spec_unwind};
use crate::device::{Control, DeviceView};
use crate::error::Error;
use crate::queue::Queue;
use crate::request::{Call, Completion, Step, lemma_name_end};
use crate::sys::IFNAMSIZ;

verus! {

/// The step that a creation reaches from `step` when the completions arrive
/// in this order, each for the call then pending. Completions that arrive
/// after the end are left aside.
pub open spec fn spec_run(
    step: Step<CreationView, DeviceView>,
    completions: Seq<Completion>,
) -> Step<CreationView, DeviceView>
    decreases completions.len(),
{
    if completions.len() == 0 {
        step
    } else {
        match step {
            Step::Call(state, _) => spec_run(
                state.resume(completions.first()),
                completions.drop_first(),
            ),
            Step::Done(_) => step,
        }
    }
}

/// The handle that a completed call has brought: the one returned by an
/// opening call that succeeded.
pub open spec fn spec_gained(call: Call, completion: Completion) -> Seq<i32> {
    if (call is OpenTunnel || call is OpenControl) && !completion.failed() {
        seq![completion.returned]
    } else {
        Seq::empty()
    }
}

/// The handle that a call releases.
pub open spec fn spec_released(call: Call) -> Seq<i32> {
    match call {
        Call::Close { handle } => seq![handle],
        _ => Seq::empty(),
    }
}

/// The handles that the kernel handed out along a run, in order.
pub open spec fn spec_opened(
    step: Step<CreationView, DeviceView>,
    completions: Seq<Completion>,
) -> Seq<i32>
    decreases completions.len(),
{
    if completions.len() == 0 {
        Seq::empty()
    } else {
        match step {
            Step::Call(state, call) => spec_gained(call, completions.first()) + spec_opened(
                state.resume(completions.first()),
                completions.drop_first(),
            ),
            Step::Done(_) => Seq::empty(),
        }
    }
}

/// The handles whose release was called for and completed along a run, in
/// order.
pub open spec fn spec_closed(
    step: Step<CreationView, DeviceView>,
    completions: Seq<Completion>,
) -> Seq<i32>
    decreases completions.len(),
{
    if completions.len() == 0 {
        Seq::empty()
    } else {
        match step {
            Step::Call(state, call) => spec_released(call) + spec_closed(
                state.resume(completions.first()),
                completions.drop_first(),
            ),
            Step::Done(_) => Seq::empty(),
        }
    }
}

/// The calls that a creation asks for along a run, in order, the one that is
/// pending at the end of the run included.
pub open spec fn spec_calls(
    step: Step<CreationView, DeviceView>,
    completions: Seq<Completion>,
) -> Seq<Call>
    decreases completions.len(),
{
    match step {
        Step::Call(state, call) => if completions.len() == 0 {
            seq![call]
        } else {
            seq![call] + spec_calls(state.resume(completions.first()), completions.drop_first())
        },
        Step::Done(_) => Seq::empty(),
    }
}

/// Whether the creation of a device from `config` may ask for `call`.
///
/// Handles are opened, bound and released as need be. An address is set
/// only if an IPv4 address is asked for, and then that address; a netmask
/// only if an IPv4 network is asked for, and then its mask; the flags are
/// read and written only if the interface is to be brought up. The status
/// flags of a handle are never touched.
pub open spec fn spec_asked_for(config: ConfigView, call: Call) -> bool {
    match call {
        Call::OpenTunnel | Call::Attach { .. } | Call::OpenControl | Call::Close { .. } => true,
        Call::SetAddress { address, .. } => config.address matches Some(IpAddress::V4(octets))
            && address.address == spec_socket_address(octets),
        Call::SetNetmask { address, .. } => config.netmask matches Some(IpNetwork::V4(network))
            && address.address == spec_socket_address(network.spec_mask()),
        Call::GetFlags { .. } | Call::SetFlags { .. } => config.up,
        Call::GetStatus { .. } | Call::SetStatus { .. } => false,
    }
}

/// Whether every setting that `config` asks for before `setting` (before
/// the end, for `None`) is one that can be applied.
pub open spec fn spec_supported_before(config: ConfigView, setting: Option<Setting>) -> bool {
    &&& setting != Some(Setting::Address) ==> !(config.address matches Some(IpAddress::V6(_)))
    &&& setting != Some(Setting::Address) && setting != Some(Setting::Netmask)
        ==> !(config.netmask matches Some(IpNetwork::V6 { .. }))
}

/// Whether `control` and `call` are what applying `setting` to `device` has
/// come to: its first call, or for the last setting the writing back of the
/// flags.
pub open spec fn spec_applying(
    config: ConfigView,
    device: DeviceView,
    setting: Setting,
    control: Control,
    call: Call,
) -> bool {
    match setting {
        Setting::Address => config.address matches Some(address) && device.set_address(address)
            == Step::<Control, ()>::Call(control, call),
        Setting::Netmask => config.netmask matches Some(network) && device.set_netmask(network)
            == Step::<Control, ()>::Call(control, call),
        Setting::Up => config.up && (device.set_enabled(true) == Step::<Control, ()>::Call(
            control,
            call,
        ) || (control == Control::Last && call is SetFlags)),
    }
}

/// The handles that are open at a step and in the creation's care, in the
/// order in which they were opened: all that were opened and not released,
/// the one that a pending call releases included. A creation that has
/// failed holds none, one that has succeeded has passed them to the device.
pub open spec fn spec_held(step: Step<CreationView, DeviceView>) -> Seq<i32> {
    match step {
        Step::Call(CreationView::Opening { queues, .. }, _) => queues,
        Step::Call(CreationView::Attaching { queues, handle, .. }, _) => queues.push(handle),
        Step::Call(CreationView::Control { queues, .. }, _) => queues,
        Step::Call(CreationView::Configuring { device, .. }, _) => device.handles(),
        Step::Call(CreationView::Closing { handles, .. }, call) => handles + spec_released(call),
        Step::Done(Ok(device)) => device.handles(),
        Step::Done(Err(_)) => Seq::empty(),
    }
}

/// Whether the creation has failed at this step: it is releasing handles, or
/// is over with an error.
pub open spec fn spec_failing(step: Step<CreationView, DeviceView>) -> bool {
    match step {
        Step::Call(CreationView::Closing { .. }, _) => true,
        Step::Done(Err(_)) => true,
        _ => false,
    }
}

/// Whether a device is what `config` asks for, as far as the handles go: it
/// has as many queues as asked for, the packet-information setting asked
/// for, and a name that fits the kernel's name field.
pub open spec fn spec_device_fits(device: DeviceView, config: ConfigView) -> bool {
    &&& device.queues.len() == config.queue_count()
    &&& device.no_pi == config.no_pi
    &&& device.name.len() < IFNAMSIZ
}

/// What holds of every step of the creation of a device from `config`.
///
/// The configuration is valid and carried along unchanged. While queues are
/// being bound there are fewer than asked for, afterwards exactly as many.
/// The pending call is the one that the state waits for, a setting is being
/// applied only if it is asked for and the ones before it could be applied,
/// and a handle is released only after the creation has failed.
pub open spec fn spec_consistent(step: Step<CreationView, DeviceView>, config: ConfigView) -> bool {
    match step {
        Step::Call(CreationView::Opening { config: carried, request, queues }, call) => {
            &&& carried == config
            &&& config.valid()
            &&& queues.len() < config.queue_count()
            &&& call == Call::OpenTunnel
        },
        Step::Call(CreationView::Attaching { config: carried, request, queues, handle }, call) => {
            &&& carried == config
            &&& config.valid()
            &&& queues.len() < config.queue_count()
            &&& call == (Call::Attach { handle, request })
        },
        Step::Call(CreationView::Control { config: carried, name, queues }, call) => {
            &&& carried == config
            &&& config.valid()
            &&& queues.len() == config.queue_count()
            &&& name.len() < IFNAMSIZ
            &&& call == Call::OpenControl
        },
        Step::Call(CreationView::Configuring { config: carried, device, setting, control }, call) => {
            &&& carried == config
            &&& config.valid()
            &&& spec_device_fits(device, config)
            &&& spec_supported_before(config, Some(setting))
            &&& spec_applying(config, device, setting, control, call)
        },
        Step::Call(CreationView::Closing { .. }, call) => call is Close,
        Step::Done(Ok(device)) => {
            &&& config.valid()
            &&& spec_device_fits(device, config)
            &&& spec_supported_before(config, None)
        },
        Step::Done(Err(_)) => true,
    }
}

proof fn lemma_unwind(handles: Seq<i32>, error: Error, config: ConfigView)
    ensures
        spec_consistent(spec_unwind(handles, error), config),
        spec_failing(spec_unwind(handles, error)),
        spec_held(spec_unwind(handles, error)) == handles,
{
    if handles.len() > 0 {
        assert(handles.drop_last() + seq![handles.last()] =~= handles);
    }
}

proof fn lemma_configure(config: ConfigView, device: DeviceView, setting: Option<Setting>)
    requires
        config.valid(),
        spec_device_fits(device, config),
        spec_supported_before(config, setting),
    ensures
        spec_consistent(spec_configure(config, device, setting), config),
        spec_held(spec_configure(config, device, setting)) == device.handles(),
    decreases spec_settings_left(setting),
{
    match setting {
        None => {},
        Some(current) => match spec_apply(config, device, current) {
            Some(Step::Call(control, call)) => {},
            Some(Step::Done(Err(error))) => {
                lemma_unwind(device.handles(), error, config);
            },
            _ => {
                lemma_configure(config, device, spec_following(current));
            },
        },
    }
}

/// One completion at a step of a creation: what holds of every step holds
/// of the next one, a creation that has failed stays failed, and the handles
/// held before together with the one gained are those held after together
/// with the one released.
pub proof fn lemma_resume_keeps_account(
    state: CreationView,
    call: Call,
    completion: Completion,
    config: ConfigView,
)
    requires
        spec_consistent(Step::Call(state, call), config),
    ensures
        spec_consistent(state.resume(completion), config),
        spec_failing(Step::Call(state, call)) ==> spec_failing(state.resume(completion)),
        spec_held(Step::Call(state, call)) + spec_gained(call, completion) == spec_held(
            state.resume(completion),
        ) + spec_released(call),
{
    let before = spec_held(Step::Call(state, call));
    let next = state.resume(completion);
    match state {
        CreationView::Opening { config: carried, request, queues } => {
            lemma_unwind(queues, Error::Os(completion.error()), config);
            assert(before + spec_gained(call, completion) =~= spec_held(next) + spec_released(
                call,
            ));
        },
        CreationView::Attaching { config: carried, request, queues, handle } => {
            lemma_unwind(queues.push(handle), Error::Os(completion.error()), config);
            lemma_name_end(completion.request.name@, 0);
            assert(before + spec_gained(call, completion) =~= spec_held(next) + spec_released(
                call,
            ));
        },
        CreationView::Control { config: carried, name, queues } => {
            lemma_unwind(queues, Error::Os(completion.error()), config);
            let device = DeviceView {
                name,
                queues,
                control: completion.returned,
                no_pi: config.no_pi,
            };
            lemma_configure(config, device, Some(Setting::Address));
            assert(before + spec_gained(call, completion) =~= spec_held(next) + spec_released(
                call,
            ));
        },
        CreationView::Configuring { config: carried, device, setting, control } => {
            match device.resume_control(control, completion) {
                Step::Call(_, _) => {},
                Step::Done(Err(error)) => {
                    lemma_unwind(device.handles(), error, config);
                },
                Step::Done(Ok(_)) => {
                    lemma_configure(config, device, spec_following(setting));
                },
            }
            assert(before + spec_gained(call, completion) =~= spec_held(next) + spec_released(
                call,
            ));
        },
        CreationView::Closing { error, handles } => {
            lemma_unwind(handles, error, config);
            assert(before + spec_gained(call, completion) =~= spec_held(next) + spec_released(
                call,
            ));
        },
    }
}

/// Along every run of a creation: what holds of every step holds of the
/// last one, and the handles held at the start together with those opened
/// are the handles held at the end together with those released, the
/// released ones in reverse. Nothing is opened once the creation has
/// failed, and nothing is released before.
pub proof fn lemma_run_keeps_account(
    step: Step<CreationView, DeviceView>,
    config: ConfigView,
    completions: Seq<Completion>,
)
    requires
        spec_consistent(step, config),
    ensures
        spec_consistent(spec_run(step, completions), config),
        spec_held(step) + spec_opened(step, completions) == spec_held(
            spec_run(step, completions),
        ) + spec_closed(step, completions).reverse(),
        spec_failing(step) ==> spec_failing(spec_run(step, completions)) && spec_opened(
            step,
            completions,
        ).len() == 0,
        !spec_failing(spec_run(step, completions)) ==> spec_closed(step, completions).len() == 0,
    decreases completions.len(),
{
    let opened = spec_opened(step, completions);
    let closed = spec_closed(step, completions);
    let end = spec_run(step, completions);
    if completions.len() == 0 {
        assert(spec_held(step) + opened =~= spec_held(end) + closed.reverse());
    } else {
        match step {
            Step::Done(_) => {
                assert(spec_held(step) + opened =~= spec_held(end) + closed.reverse());
            },
            Step::Call(state, call) => {
                let completion = completions.first();
                let next = state.resume(completion);
                let rest = completions.drop_first();
                lemma_resume_keeps_account(state, call, completion, config);
                lemma_run_keeps_account(next, config, rest);
                let gained = spec_gained(call, completion);
                let released = spec_released(call);
                let opened_rest = spec_opened(next, rest);
                let closed_rest = spec_closed(next, rest);
                assert(opened == gained + opened_rest);
                assert(closed == released + closed_rest);
                if released.len() == 0 {
                    assert(spec_held(step) + gained =~= spec_held(next));
                    assert(closed =~= closed_rest);
                    assert(spec_held(step) + opened =~= (spec_held(step) + gained) + opened_rest);
                } else {
                    assert(spec_failing(step));
                    assert(gained.len() == 0);
                    assert(opened_rest.len() == 0);
                    assert(opened =~= Seq::<i32>::empty());
                    assert(closed.reverse() =~= closed_rest.reverse() + released);
                    assert(spec_held(next) =~= spec_held(next) + opened_rest);
                    assert(spec_held(step) + opened =~= (spec_held(next) + opened_rest)
                        + released);
                    assert((spec_held(end) + closed_rest.reverse()) + released =~= spec_held(end)
                        + closed.reverse());
                }
            },
        }
    }
}

/// A creation releases what it opened.
///
/// Whatever the kernel answers: a creation that ends in failure has, by
/// then, released every handle that it was given, each once, the last one
/// first. A creation that ends with a device has released nothing, and the
/// handles that it was given are the device's: the queues in the order in
/// which they were opened, then the control handle.
pub proof fn lemma_creation_releases_what_it_opened(
    config: ConfigView,
    completions: Seq<Completion>,
)
    ensures
        spec_run(spec_create(config), completions) is Done && spec_run(
            spec_create(config),
            completions,
        )->Done_0 is Err ==> spec_closed(spec_create(config), completions) == spec_opened(
            spec_create(config),
            completions,
        ).reverse(),
        spec_run(spec_create(config), completions) matches Step::Done(Ok(device)) ==> {
            &&& spec_closed(spec_create(config), completions).len() == 0
            &&& spec_opened(spec_create(config), completions) == device.handles()
        },
{
    let start = spec_create(config);
    assert(spec_consistent(start, config));
    lemma_run_keeps_account(start, config, completions);
    let opened = spec_opened(start, completions);
    let closed = spec_closed(start, completions);
    let end = spec_run(start, completions);
    assert(spec_held(start) =~= Seq::<i32>::empty());
    assert(spec_held(start) + opened =~= opened);
    match end {
        Step::Done(Err(_)) => {
            assert(spec_held(end) + closed.reverse() =~= closed.reverse());
            assert(closed.reverse().reverse() =~= closed);
        },
        Step::Done(Ok(device)) => {
            assert(closed.reverse() =~= Seq::<i32>::empty());
            assert(spec_held(end) + closed.reverse() =~= device.handles());
        },
        _ => {},
    }
}

/// A device has the queues that were asked for.
///
/// Whatever the kernel answers: a creation from a configuration that asks
/// for `n` queues, if it ends with a device, ends with one of exactly `n`
/// queues. The indices below `n` name a queue, and every other index is
/// refused as not found.
pub proof fn lemma_created_device_has_the_queues_asked_for(
    config: ConfigView,
    completions: Seq<Completion>,
    index: usize,
    blocking: bool,
)
    ensures
        spec_run(spec_create(config), completions) matches Step::Done(Ok(device)) ==> {
            &&& config.valid()
            &&& device.queues.len() == config.queue_count()
            &&& device.queues.len() >= 1
            &&& device.no_pi == config.no_pi
            &&& device.name.len() < IFNAMSIZ
            &&& index >= config.queue_count() <==> device.queue(index, blocking) == Step::<
                crate::queue::ModeChange,
                Queue,
            >::Done(Err(Error::NotFound))
        },
{
    let start = spec_create(config);
    assert(spec_consistent(start, config));
    lemma_run_keeps_account(start, config, completions);
}

/// A configuration that cannot be created from opens nothing.
///
/// When the name does not fit or fewer than one queue is asked for, the
/// creation is over before its first call, with `InvalidArgument`: along
/// every run nothing is opened and nothing is released.
pub proof fn lemma_invalid_configuration_opens_nothing(
    config: ConfigView,
    completions: Seq<Completion>,
)
    requires
        !config.valid(),
    ensures
        spec_run(spec_create(config), completions) == Step::<CreationView, DeviceView>::Done(
            Err(Error::InvalidArgument),
        ),
        spec_opened(spec_create(config), completions).len() == 0,
        spec_closed(spec_create(config), completions).len() == 0,
{
}

proof fn lemma_run_asks_what_is_asked_for(
    step: Step<CreationView, DeviceView>,
    config: ConfigView,
    completions: Seq<Completion>,
)
    requires
        spec_consistent(step, config),
    ensures
        forall|i: int|
            0 <= i < spec_calls(step, completions).len() ==> spec_asked_for(
                config,
                #[trigger] spec_calls(step, completions)[i],
            ),
    decreases completions.len(),
{
    match step {
        Step::Done(_) => {},
        Step::Call(state, call) => {
            assert(spec_asked_for(config, call));
            let calls = spec_calls(step, completions);
            if completions.len() > 0 {
                let completion = completions.first();
                let next = state.resume(completion);
                let rest = spec_calls(next, completions.drop_first());
                lemma_resume_keeps_account(state, call, completion, config);
                lemma_run_asks_what_is_asked_for(next, config, completions.drop_first());
                assert(calls == seq![call] + rest);
                assert forall|i: int| 0 <= i < calls.len() implies spec_asked_for(
                    config,
                    #[trigger] calls[i],
                ) by {
                    if i > 0 {
                        assert(calls[i] == rest[i - 1]);
                    }
                }
            } else {
                assert(calls == seq![call]);
            }
        },
    }
}

/// A creation asks the kernel for nothing that the configuration does not
/// ask for.
///
/// Whatever the kernel answers, every call of a creation is one that opens,
/// binds or releases a handle, or one that applies a setting that the
/// configuration asks for, with the value that it asks for. In particular no
/// address is set when an IPv6 address is asked for, and no netmask when an
/// IPv6 network is.
pub proof fn lemma_creation_asks_what_is_asked_for(
    config: ConfigView,
    completions: Seq<Completion>,
    position: int,
)
    requires
        0 <= position < spec_calls(spec_create(config), completions).len(),
    ensures
        spec_asked_for(config, spec_calls(spec_create(config), completions)[position]),
        config.address matches Some(IpAddress::V6(_)) ==> !(spec_calls(
            spec_create(config),
            completions,
        )[position] is SetAddress),
        config.netmask matches Some(IpNetwork::V6 { .. }) ==> !(spec_calls(
            spec_create(config),
            completions,
        )[position] is SetNetmask),
{
    let start = spec_create(config);
    assert(spec_consistent(start, config));
    lemma_run_asks_what_is_asked_for(start, config, completions);
}

/// A creation that is asked for an IPv6 address or an IPv6 network never
/// ends with a device.
pub proof fn lemma_ipv6_setting_fails_the_creation(
    config: ConfigView,
    completions: Seq<Completion>,
)
    requires
        config.address matches Some(IpAddress::V6(_)) || config.netmask matches Some(
            IpNetwork::V6 { .. },
        ),
    ensures
        !(spec_run(spec_create(config), completions) matches Step::Done(Ok(_))),
{
    let start = spec_create(config);
    assert(spec_consistent(start, config));
    lemma_run_keeps_account(start, config, completions);
}

} // verus!
