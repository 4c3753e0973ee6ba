use hypertube::error::EAGAIN;
use hypertube::sys::{
    enabled_flags, status_flags, tunnel_flags, AF_INET, IFF_MULTI_QUEUE, IFF_NO_PI, IFF_RUNNING,
    IFF_TUN, IFF_UP, IFNAMSIZ, O_NONBLOCK,
};
use hypertube::OsError;

#[test]
fn the_constants_are_those_of_the_c_library() {
    assert_eq!(IFNAMSIZ, libc::IFNAMSIZ);
    assert_eq!(IFF_UP as i32, libc::IFF_UP);
    assert_eq!(IFF_RUNNING as i32, libc::IFF_RUNNING);
    assert_eq!(IFF_TUN as i32, libc::IFF_TUN);
    assert_eq!(IFF_NO_PI as i32, libc::IFF_NO_PI);
    assert_eq!(IFF_MULTI_QUEUE as i32, libc::IFF_MULTI_QUEUE);
    assert_eq!(AF_INET as i32, libc::AF_INET);
    assert_eq!(O_NONBLOCK, libc::O_NONBLOCK);
    assert_eq!(EAGAIN, libc::EAGAIN);
    assert_eq!(EAGAIN, libc::EWOULDBLOCK);
}

#[test]
fn tunnel_flags_have_exactly_the_bits_asked_for() {
    assert_eq!(tunnel_flags(false, false), 0x0001);
    assert_eq!(tunnel_flags(true, false), 0x1001);
    assert_eq!(tunnel_flags(false, true), 0x0101);
    assert_eq!(tunnel_flags(true, true), 0x1101);
}

#[test]
fn enabling_sets_up_and_running() {
    assert_eq!(enabled_flags(0, true), 0x41);
    assert_eq!(enabled_flags(0x1002, true), 0x1043);
    assert_eq!(enabled_flags(0x41, true), 0x41);
    assert_eq!(enabled_flags(-1, true), -1);
}

#[test]
fn disabling_clears_up_and_running() {
    assert_eq!(enabled_flags(0x41, false), 0);
    assert_eq!(enabled_flags(0x1043, false), 0x1002);
    assert_eq!(enabled_flags(0x1002, false), 0x1002);
    assert_eq!(enabled_flags(-1, false), -66);
    assert_eq!(enabled_flags(0x40, false), 0);
    assert_eq!(enabled_flags(0x01, false), 0);
}

#[test]
fn enabling_keeps_every_other_bit() {
    let mut flags: i32 = i16::MIN as i32;
    while flags <= i16::MAX as i32 {
        let word = flags as i16;
        for enabled in [true, false] {
            let changed = enabled_flags(word, enabled);
            assert_eq!(changed & !0x41, word & !0x41);
            assert_eq!(changed & 0x41, if enabled { 0x41 } else { 0 });
        }
        flags += 1;
    }
}

#[test]
fn the_blocking_mode_is_the_non_blocking_bit() {
    assert_eq!(status_flags(0x8002, true), 0x8002);
    assert_eq!(status_flags(0x8802, true), 0x8002);
    assert_eq!(status_flags(0x8002, false), 0x8802);
    assert_eq!(status_flags(0x8802, false), 0x8802);
    assert_eq!(status_flags(0, false), 0x800);
    assert_eq!(status_flags(-1, true), -2049);
}

#[test]
fn only_eagain_is_would_block() {
    assert!(OsError { code: 11 }.is_would_block());
    assert!(!OsError { code: 0 }.is_would_block());
    assert!(!OsError { code: 4 }.is_would_block());
    assert!(!OsError { code: -11 }.is_would_block());
}
