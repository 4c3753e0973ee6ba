//! Queues: the handles of a device through which packets are read and
//! written, one packet per call.

use vstd::prelude::*;
use crate::error::{Error, OsError, EAGAIN};
use crate::request::{Call, Completion, Step};
use crate::sys::{O_NONBLOCK, lemma_status_flags_bits, spec_status_flags, status_flags};

verus! {

/// A view of one handle of a device, with the blocking mode that was set on
/// the handle when the view was made.
///
/// A queue owns nothing: the device releases the handle. The mode belongs to
/// the handle, so of two views of one handle the one made last decides it.
#[derive(Clone, Copy, Debug, PartialEq, Eq)]
pub struct Queue {
    /// The handle that packets go through.
    pub handle: i32,
    /// Whether reads and writes wait.
    pub blocking: bool,
}

/// What a read or write on a queue came to.
#[derive(Clone, Copy, Debug, PartialEq, Eq)]
pub enum Poll<T> {
    /// The packet went through.
    Ready(T),
    /// The call would have had to wait; nothing was transferred.
    Pending,
}

/// How one read or write on a handle ended.
#[derive(Clone, Copy, Debug, PartialEq, Eq)]
pub struct Transfer {
    /// The call's return value: the number of bytes, or negative on failure.
    pub returned: isize,
    /// The error number after the call; meaningful only on failure.
    pub errno: i32,
}

impl Transfer {
    /// The transfer failed.
    pub open spec fn failed(self) -> bool {
        self.returned < 0
    }

    /// The error of a failed transfer.
    pub open spec fn error(self) -> OsError {
        OsError { code: self.errno }
    }
}

/// Setting the blocking mode of a handle, in progress: the status flags are
/// read, the non-blocking bit is changed, the flags are written back.
#[derive(Clone, Copy, Debug, PartialEq, Eq)]
pub enum ModeChange {
    /// The status flags are being read.
    Reading { queue: Queue },
    /// The changed status flags are being written.
    Writing { queue: Queue },
}

impl ModeChange {
    /// The first step of giving `handle` the mode `blocking`: its status
    /// flags are to be read.
    pub open spec fn spec_begin(handle: i32, blocking: bool) -> Step<ModeChange, Queue> {
        Step::Call(
            ModeChange::Reading { queue: Queue { handle, blocking } },
            Call::GetStatus { handle },
        )
    }

    /// The step that follows the completion of the pending call.
    ///
    /// A failed call ends the change with its error. The flags read are
    /// written back with only the non-blocking bit changed, and once they are
    /// written the queue is there.
    pub open spec fn spec_resume(self, completion: Completion) -> Step<ModeChange, Queue> {
        if completion.failed() {
            Step::Done(Err(Error::Os(completion.error())))
        } else {
            match self {
                ModeChange::Reading { queue } => Step::Call(
                    ModeChange::Writing { queue },
                    Call::SetStatus {
                        handle: queue.handle,
                        flags: spec_status_flags(completion.returned, queue.blocking),
                    },
                ),
                ModeChange::Writing { queue } => Step::Done(Ok(queue)),
            }
        }
    }

    /// Begins to give `handle` the mode `blocking`.
    pub fn begin(handle: i32, blocking: bool) -> (step: Step<ModeChange, Queue>)
        ensures
            step == Self::spec_begin(handle, blocking),
    {
        Step::Call(
            ModeChange::Reading { queue: Queue { handle, blocking } },
            Call::GetStatus { handle },
        )
    }

    /// Takes the completion of the pending call and says what follows.
    pub fn resume(self, completion: Completion) -> (step: Step<ModeChange, Queue>)
        ensures
            step == self.spec_resume(completion),
    {
        match completion.result() {
            Err(error) => Step::Done(Err(Error::Os(error))),
            Ok(returned) => match self {
                ModeChange::Reading { queue } => Step::Call(
                    ModeChange::Writing { queue },
                    Call::SetStatus {
                        handle: queue.handle,
                        flags: status_flags(returned, queue.blocking),
                    },
                ),
                ModeChange::Writing { queue } => Step::Done(Ok(queue)),
            },
        }
    }
}

impl Queue {
    /// What a read that ended as `transfer` came to.
    ///
    /// A read that succeeded delivered one packet of the returned number of
    /// bytes. On a non-blocking queue the would-block condition is no error:
    /// no packet was there yet. Every other failure, and every failure on a
    /// blocking queue, is passed on.
    pub open spec fn spec_read(self, transfer: Transfer) -> Result<Poll<usize>, Error> {
        if !transfer.failed() {
            Ok(Poll::Ready(transfer.returned as usize))
        } else if !self.blocking && transfer.error().spec_is_would_block() {
            Ok(Poll::Pending)
        } else {
            Err(Error::Os(transfer.error()))
        }
    }

    /// What a write that ended as `transfer` came to.
    ///
    /// A write that succeeded handed the packet to the kernel. On a
    /// non-blocking queue the would-block condition is no error: the packet
    /// was not taken yet. Every other failure, and every failure on a
    /// blocking queue, is passed on.
    pub open spec fn spec_write(self, transfer: Transfer) -> Result<Poll<()>, Error> {
        if !transfer.failed() {
            Ok(Poll::Ready(()))
        } else if !self.blocking && transfer.error().spec_is_would_block() {
            Ok(Poll::Pending)
        } else {
            Err(Error::Os(transfer.error()))
        }
    }

    /// Judges a read of one packet from the queue's handle by how it ended.
    pub fn read(&self, transfer: Transfer) -> (result: Result<Poll<usize>, Error>)
        ensures
            result == self.spec_read(transfer),
            self.blocking ==> result != Ok::<Poll<usize>, Error>(Poll::Pending),
            !self.blocking && transfer.failed() && transfer.errno == EAGAIN ==> result == Ok::<
                Poll<usize>,
                Error,
            >(Poll::Pending),
    {
        if transfer.returned >= 0 {
            Ok(Poll::Ready(transfer.returned as usize))
        } else if !self.blocking && transfer.errno == EAGAIN {
            Ok(Poll::Pending)
        } else {
            Err(Error::Os(OsError { code: transfer.errno }))
        }
    }

    /// Judges a write of one packet to the queue's handle by how it ended.
    pub fn write(&self, transfer: Transfer) -> (result: Result<Poll<()>, Error>)
        ensures
            result == self.spec_write(transfer),
            self.blocking ==> result != Ok::<Poll<()>, Error>(Poll::Pending),
            !self.blocking && transfer.failed() && transfer.errno == EAGAIN ==> result == Ok::<
                Poll<()>,
                Error,
            >(Poll::Pending),
    {
        if transfer.returned >= 0 {
            Ok(Poll::Ready(()))
        } else if !self.blocking && transfer.errno == EAGAIN {
            Ok(Poll::Pending)
        } else {
            Err(Error::Os(OsError { code: transfer.errno }))
        }
    }

    /// Begins to change the blocking mode of the queue's handle. The change
    /// ends with the queue in its new mode; every other view of the handle
    /// is affected too.
    pub fn set_blocking(&self, blocking: bool) -> (step: Step<ModeChange, Queue>)
        ensures
            step == ModeChange::spec_begin(self.handle, blocking),
    {
        ModeChange::begin(self.handle, blocking)
    }

    /// The handle, for waiting on its readiness by other means.
    pub fn as_raw_fd(&self) -> (handle: i32)
        ensures
            handle == self.handle,
    {
        self.handle
    }
}

/// Setting the mode of a handle writes back the status flags that were
/// read, with the non-blocking bit cleared or set and every other bit as it
/// was.
pub proof fn lemma_mode_keeps_the_other_flags(queue: Queue, completion: Completion)
    requires
        !completion.failed(),
    ensures
        (ModeChange::Reading { queue }).spec_resume(completion) matches Step::Call(
            ModeChange::Writing { queue: same },
            Call::SetStatus { handle, flags },
        ) && {
            &&& same == queue
            &&& handle == queue.handle
            &&& flags & !O_NONBLOCK == completion.returned & !O_NONBLOCK
            &&& flags & O_NONBLOCK == (if queue.blocking {
                0i32
            } else {
                O_NONBLOCK
            })
        },
{
    lemma_status_flags_bits(completion.returned, queue.blocking);
}

} // verus!
