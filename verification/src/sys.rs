//! Constants of the Linux tunnel driver's interface and the flag words built
//! from them.

use vstd::prelude::*;

verus! {

/// Size of the kernel's interface-name field, terminator included.
pub const IFNAMSIZ: usize = 16;

/// Interface flag: the interface is administratively up.
pub const IFF_UP: i16 = 0x1;

/// Interface flag: resources are allocated, the interface is operational.
pub const IFF_RUNNING: i16 = 0x40;

/// Tunnel flag: the interface carries IP packets (layer 3).
pub const IFF_TUN: i16 = 0x0001;

/// Tunnel flag: packets come without the packet-information header.
pub const IFF_NO_PI: i16 = 0x1000;

/// Tunnel flag: several handles may attach to the interface.
pub const IFF_MULTI_QUEUE: i16 = 0x0100;

/// Address family tag of IPv4 socket addresses.
pub const AF_INET: u16 = 2;

/// File status flag: calls on the handle never wait.
pub const O_NONBLOCK: i32 = 0x800;

/// The flag word that attaches a handle to a tunnel interface: tunnel mode
/// always, no packet information and multi-queue as asked.
pub open spec fn spec_tunnel_flags(no_pi: bool, multi_queue: bool) -> i16 {
    IFF_TUN | (if no_pi {
        IFF_NO_PI
    } else {
        0i16
    }) | (if multi_queue {
        IFF_MULTI_QUEUE
    } else {
        0i16
    })
}

/// Builds the flag word that attaches a handle to a tunnel interface.
pub fn tunnel_flags(no_pi: bool, multi_queue: bool) -> (flags: i16)
    ensures
        flags == spec_tunnel_flags(no_pi, multi_queue),
{
    let mut flags: i16 = IFF_TUN;
    if no_pi {
        flags = flags | IFF_NO_PI;
    }
    if multi_queue {
        flags = flags | IFF_MULTI_QUEUE;
    }
    proof {
        assert(0x0001i16 | 0i16 | 0i16 == 0x0001i16) by (bit_vector);
        assert(0x0001i16 | 0x1000i16 | 0i16 == 0x0001i16 | 0x1000i16) by (bit_vector);
        assert(0x0001i16 | 0i16 | 0x0100i16 == 0x0001i16 | 0x0100i16) by (bit_vector);
    }
    flags
}

/// The interface flag word `flags` with the up and running bits set
/// (`enabled`) or cleared, every other bit kept.
pub open spec fn spec_enabled_flags(flags: i16, enabled: bool) -> i16 {
    if enabled {
        flags | (IFF_UP | IFF_RUNNING)
    } else {
        flags & !(IFF_UP | IFF_RUNNING)
    }
}

/// Sets or clears the up and running bits of an interface flag word.
pub fn enabled_flags(flags: i16, enabled: bool) -> (r: i16)
    ensures
        r == spec_enabled_flags(flags, enabled),
{
    if enabled {
        flags | (IFF_UP | IFF_RUNNING)
    } else {
        flags & !(IFF_UP | IFF_RUNNING)
    }
}

/// The file status word `flags` with the non-blocking bit cleared
/// (`blocking`) or set, every other bit kept.
pub open spec fn spec_status_flags(flags: i32, blocking: bool) -> i32 {
    if blocking {
        flags & !O_NONBLOCK
    } else {
        flags | O_NONBLOCK
    }
}

/// Clears or sets the non-blocking bit of a file status word.
pub fn status_flags(flags: i32, blocking: bool) -> (r: i32)
    ensures
        r == spec_status_flags(flags, blocking),
{
    if blocking {
        flags & !O_NONBLOCK
    } else {
        flags | O_NONBLOCK
    }
}

/// The attach flag word holds the tunnel bit always, the two optional bits
/// exactly as asked, and no other bit.
pub proof fn lemma_tunnel_flags_bits(no_pi: bool, multi_queue: bool)
    ensures
        spec_tunnel_flags(no_pi, multi_queue) & IFF_TUN == IFF_TUN,
        (spec_tunnel_flags(no_pi, multi_queue) & IFF_NO_PI == IFF_NO_PI) == no_pi,
        (spec_tunnel_flags(no_pi, multi_queue) & IFF_MULTI_QUEUE == IFF_MULTI_QUEUE)
            == multi_queue,
        spec_tunnel_flags(no_pi, multi_queue) & !(IFF_TUN | IFF_NO_PI | IFF_MULTI_QUEUE) == 0,
{
    let a: i16 = if no_pi { IFF_NO_PI } else { 0i16 };
    let b: i16 = if multi_queue { IFF_MULTI_QUEUE } else { 0i16 };
    assert((a == 0x1000i16 || a == 0i16) && (b == 0x0100i16 || b == 0i16) ==> {
        &&& (0x0001i16 | a | b) & 0x0001i16 == 0x0001i16
        &&& ((0x0001i16 | a | b) & 0x1000i16 == 0x1000i16) == (a == 0x1000i16)
        &&& ((0x0001i16 | a | b) & 0x0100i16 == 0x0100i16) == (b == 0x0100i16)
        &&& (0x0001i16 | a | b) & !(0x0001i16 | 0x1000i16 | 0x0100i16) == 0
    }) by (bit_vector);
}

/// Enabling or disabling an interface changes the up and running bits and
/// nothing else: every other bit of the flag word is kept as it was read.
pub proof fn lemma_enabled_flags_bits(flags: i16, enabled: bool)
    ensures
        spec_enabled_flags(flags, enabled) & !(IFF_UP | IFF_RUNNING) == flags & !(IFF_UP
            | IFF_RUNNING),
        spec_enabled_flags(flags, enabled) & (IFF_UP | IFF_RUNNING) == (if enabled {
            IFF_UP | IFF_RUNNING
        } else {
            0i16
        }),
{
    assert((flags | (0x1i16 | 0x40i16)) & !(0x1i16 | 0x40i16) == flags & !(0x1i16 | 0x40i16))
        by (bit_vector);
    assert((flags & !(0x1i16 | 0x40i16)) & !(0x1i16 | 0x40i16) == flags & !(0x1i16 | 0x40i16))
        by (bit_vector);
    assert((flags | (0x1i16 | 0x40i16)) & (0x1i16 | 0x40i16) == (0x1i16 | 0x40i16))
        by (bit_vector);
    assert((flags & !(0x1i16 | 0x40i16)) & (0x1i16 | 0x40i16) == 0i16) by (bit_vector);
}

/// Choosing a blocking mode changes the non-blocking bit and nothing else.
pub proof fn lemma_status_flags_bits(flags: i32, blocking: bool)
    ensures
        spec_status_flags(flags, blocking) & !O_NONBLOCK == flags & !O_NONBLOCK,
        spec_status_flags(flags, blocking) & O_NONBLOCK == (if blocking {
            0i32
        } else {
            O_NONBLOCK
        }),
{
    assert((flags & !0x800i32) & !0x800i32 == flags & !0x800i32) by (bit_vector);
    assert((flags | 0x800i32) & !0x800i32 == flags & !0x800i32) by (bit_vector);
    assert((flags & !0x800i32) & 0x800i32 == 0i32) by (bit_vector);
    assert((flags | 0x800i32) & 0x800i32 == 0x800i32) by (bit_vector);
}

} // verus!
