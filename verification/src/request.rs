//! What the library asks of the operating system and what comes back.
//!
//! The library performs no system call itself. It hands out one [`Call`] at a
//! time and is told the [`Completion`] of that call; the caller's duty is to
//! perform the call as described and to report the outcome faithfully.

use vstd::prelude::*;
use crate::error::{Error, OsError};
use crate::sys::IFNAMSIZ;

verus! {

/// The kernel's interface request: a name field and a flag word.
///
/// The kernel both reads and writes it: attaching a handle leaves the
/// interface's actual name in `name`, reading the interface flags leaves them
/// in `flags`.
#[derive(Clone, Copy, Debug, PartialEq, Eq)]
pub struct InterfaceRequest {
    /// Interface name, padded with zero bytes.
    pub name: [u8; 16],
    /// Flag word.
    pub flags: i16,
}

/// An IPv4 socket address as the kernel lays it out: family tag, port,
/// address bytes in network order, zero padding.
#[derive(Clone, Copy, Debug, PartialEq, Eq)]
pub struct SocketAddress {
    pub family: u16,
    pub port: u16,
    pub address: [u8; 4],
    pub padding: [u8; 8],
}

/// An interface request that carries a socket address in place of flags.
#[derive(Clone, Copy, Debug, PartialEq, Eq)]
pub struct AddressRequest {
    /// Interface name, padded with zero bytes.
    pub name: [u8; 16],
    /// The address or netmask to set.
    pub address: SocketAddress,
}

/// One request to the operating system.
#[derive(Clone, Copy, Debug, PartialEq, Eq)]
pub enum Call {
    /// Open the tunnel device node for reading and writing; returns a handle.
    OpenTunnel,
    /// Bind `handle` to the interface that `request` names, creating the
    /// interface if need be. The kernel writes the interface's name back.
    Attach { handle: i32, request: InterfaceRequest },
    /// Open a datagram socket for control operations; returns a handle.
    OpenControl,
    /// Read the interface's flag word through `control` into the request.
    GetFlags { control: i32, request: InterfaceRequest },
    /// Write the request's flag word to the interface through `control`.
    SetFlags { control: i32, request: InterfaceRequest },
    /// Set the interface's address through `control`.
    SetAddress { control: i32, address: AddressRequest },
    /// Set the interface's netmask through `control`.
    SetNetmask { control: i32, address: AddressRequest },
    /// Read the status flags of `handle`; returns the flag word.
    GetStatus { handle: i32 },
    /// Write the status flags of `handle`.
    SetStatus { handle: i32, flags: i32 },
    /// Release `handle`.
    Close { handle: i32 },
}

/// An operation in progress or at its end: either the library waits for the
/// completion of a call, with `S` holding what it remembers meanwhile, or the
/// operation is over and has succeeded with a `T` or failed.
#[derive(Debug, PartialEq, Eq)]
pub enum Step<S, T> {
    /// The call is to be performed, and its completion handed to the state.
    Call(S, Call),
    /// The operation is over.
    Done(Result<T, Error>),
}

/// How one [`Call`] ended.
#[derive(Clone, Copy, Debug, PartialEq, Eq)]
pub struct Completion {
    /// The call's return value; negative on failure.
    pub returned: i32,
    /// The error number after the call; meaningful only on failure.
    pub errno: i32,
    /// The interface request as the kernel left it, for calls that carry one.
    pub request: InterfaceRequest,
}

impl Completion {
    /// The call failed.
    pub open spec fn failed(self) -> bool {
        self.returned < 0
    }

    /// The error of a failed call.
    pub open spec fn error(self) -> OsError {
        OsError { code: self.errno }
    }

    /// Splits the completion into the value of a call that succeeded and the
    /// error of one that failed.
    pub fn result(&self) -> (r: Result<i32, OsError>)
        ensures
            r == (if self.failed() {
                Err::<i32, OsError>(self.error())
            } else {
                Ok(self.returned)
            }),
    {
        if self.returned < 0 {
            Err(OsError { code: self.errno })
        } else {
            Ok(self.returned)
        }
    }
}

/// The name field that carries `name`: its bytes from the start, then zero
/// bytes. Bytes of `name` beyond the field are left out.
pub open spec fn spec_name_field(name: Seq<u8>) -> Seq<u8> {
    Seq::new(
        IFNAMSIZ as nat,
        |i: int|
            if i < name.len() {
                name[i]
            } else {
                0u8
            },
    )
}

/// The name field that carries `name`, as the array that a request holds.
pub open spec fn spec_name_array(name: Seq<u8>) -> [u8; 16] {
    choose|field: [u8; 16]| field@ == spec_name_field(name)
}

/// The array that holds the first `count` bytes of `field` and zero bytes
/// after them.
spec fn spec_written(field: Seq<u8>, count: nat) -> [u8; 16]
    decreases count,
{
    if count == 0 {
        vstd::array::spec_array_fill_for_copy_type::<u8, 16>(0u8)
    } else {
        vstd::array::spec_array_update(
            spec_written(field, (count - 1) as nat),
            count - 1,
            field[count - 1],
        )
    }
}

proof fn lemma_written(field: Seq<u8>, count: nat)
    requires
        count <= IFNAMSIZ,
    ensures
        forall|i: int|
            0 <= i < IFNAMSIZ ==> #[trigger] spec_written(field, count)@[i] == (if i < count {
                field[i]
            } else {
                0u8
            }),
    decreases count,
{
    if count > 0 {
        let before = spec_written(field, (count - 1) as nat);
        lemma_written(field, (count - 1) as nat);
        assert(spec_written(field, count)@ == before@.update(count - 1, field[count - 1]));
    } else {
        let blank = vstd::array::spec_array_fill_for_copy_type::<u8, 16>(0u8);
        assert(forall|i: int| 0 <= i < 16 ==> blank@[i] == 0u8);
    }
}

/// The array of a name field has the field's content: the bytes of `name`
/// from the start, then zero bytes.
pub proof fn lemma_name_array(name: Seq<u8>)
    ensures
        spec_name_array(name)@ == spec_name_field(name),
{
    let field = spec_name_field(name);
    let witness = spec_written(field, IFNAMSIZ as nat);
    lemma_written(field, IFNAMSIZ as nat);
    assert(witness@ =~= field);
}

/// Fills a name field with `name`.
pub fn name_field(name: &Vec<u8>) -> (field: [u8; 16])
    ensures
        field@ == spec_name_field(name@),
        field == spec_name_array(name@),
{
    let mut field: [u8; 16] = [0u8; 16];
    let mut i: usize = 0;
    while i < IFNAMSIZ && i < name.len()
        invariant
            i <= IFNAMSIZ,
            i <= name@.len(),
            forall|j: int|
                0 <= j < IFNAMSIZ ==> field@[j] == (if j < i {
                    name@[j]
                } else {
                    0u8
                }),
        decreases IFNAMSIZ - i,
    {
        field[i] = name[i];
        i = i + 1;
    }
    assert(field@ =~= spec_name_field(name@));
    assert(field =~= spec_name_array(name@));
    field
}

/// How many bytes of `field`, counted from position `from`, come before the
/// first zero byte or the field's last position, whichever is first.
pub open spec fn spec_name_end(field: Seq<u8>, from: nat) -> nat
    decreases IFNAMSIZ - from,
{
    if from + 1 >= IFNAMSIZ || from >= field.len() || field[from as int] == 0 {
        from
    } else {
        spec_name_end(field, from + 1)
    }
}

/// The name that a name field holds: its bytes up to the first zero byte. The
/// field's last position is the terminator's, so a name is shorter than the
/// field.
pub open spec fn spec_field_name(field: Seq<u8>) -> Seq<u8> {
    field.take(spec_name_end(field, 0) as int)
}

/// Where the name in a field ends: nothing before is zero, and the end is a
/// zero byte or the field's last position.
pub proof fn lemma_name_end(field: Seq<u8>, from: nat)
    requires
        field.len() == IFNAMSIZ,
        from < IFNAMSIZ,
    ensures
        from <= spec_name_end(field, from) < IFNAMSIZ,
        forall|j: int| from <= j < spec_name_end(field, from) ==> field[j] != 0,
        spec_name_end(field, from) + 1 == IFNAMSIZ || field[spec_name_end(field, from) as int]
            == 0,
    decreases IFNAMSIZ - from,
{
    if from + 1 >= IFNAMSIZ || field[from as int] == 0 {
    } else {
        lemma_name_end(field, from + 1);
    }
}

/// Reads the name out of a name field.
pub fn field_name(field: &[u8; 16]) -> (name: Vec<u8>)
    ensures
        name@ == spec_field_name(field@),
        name@.len() < IFNAMSIZ,
        forall|j: int| 0 <= j < name@.len() ==> name@[j] != 0,
{
    let mut name: Vec<u8> = Vec::new();
    let mut i: usize = 0;
    while i + 1 < IFNAMSIZ && field[i] != 0
        invariant
            i < IFNAMSIZ,
            name@ == field@.take(i as int),
            spec_name_end(field@, 0) == spec_name_end(field@, i as nat),
            forall|j: int| 0 <= j < i ==> field@[j] != 0,
        decreases IFNAMSIZ - i,
    {
        name.push(field[i]);
        assert(field@.take(i as int).push(field@[i as int]) =~= field@.take(i + 1));
        i = i + 1;
    }
    name
}

/// A name without zero bytes that is shorter than the name field is read
/// back from the field exactly as it was written.
pub proof fn lemma_name_round_trip(name: Seq<u8>)
    requires
        name.len() < IFNAMSIZ,
        forall|j: int| 0 <= j < name.len() ==> name[j] != 0,
    ensures
        spec_field_name(spec_name_field(name)) == name,
{
    let field = spec_name_field(name);
    lemma_name_end(field, 0);
    let end = spec_name_end(field, 0);
    if end < name.len() {
        assert(field[end as int] == name[end as int]);
    }
    if end > name.len() {
        assert(field[name.len() as int] == 0);
    }
    assert(field.take(end as int) =~= name);
}

} // verus!
