//! The client side of a door: invoking it with a fixed reply slot, or with a
//! reply buffer that the kernel may move.
//!
//! Nothing here touches memory or the kernel. A call is a small state machine:
//! it says what has to be done next ([`ClientAction`]), the embedding does it
//! and reports back ([`ClientEvent`]), and the machine moves on.

use crate::error::{DoorError, Operation};
use crate::sys::DoorArg;
use vstd::layout::{align_of, size_of};
use vstd::prelude::*;

verus! {

/// What a call asks its embedding to do next.
#[derive(Clone, Copy, Debug, PartialEq, Eq, Structural)]
pub enum ClientAction {
    /// Invoke the door `fd` with the record `arg`, then report `Called`.
    Call { fd: i32, arg: DoorArg },
    /// Reallocate the caller's buffer at `ptr` (null, or `old_size` bytes
    /// aligned to `align`) to `new_size` bytes, then report `Grown`. An
    /// allocator that has no memory left does not report: the process ends.
    Grow { ptr: usize, old_size: usize, align: usize, new_size: usize },
    /// Copy `len` bytes from `src` to `dst`, then report `Copied`.
    Copy { src: usize, dst: usize, len: usize },
    /// Unmap the `len` bytes that the kernel mapped at `addr`, then report
    /// `Unmapped`.
    Unmap { addr: usize, len: usize },
    /// The call succeeded and the reply is at `ptr`.
    Done { ptr: usize },
    /// The call failed.
    Fail { err: DoorError },
}

/// What the embedding reports after carrying out a [`ClientAction`].
#[derive(Clone, Copy, Debug, PartialEq, Eq, Structural)]
pub enum ClientEvent {
    /// The kernel returned `status` (with `errno` where it is not zero) and
    /// left the record as `arg`.
    Called { status: i32, errno: i32, arg: DoorArg },
    /// The allocator returned `ptr`.
    Grown { ptr: usize },
    /// The bytes were copied.
    Copied,
    /// The region was unmapped.
    Unmapped,
}

/// The record that invokes a door with `data_size` request bytes at
/// `data_ptr` and a reply buffer of `rsize` bytes at `rbuf`. No descriptors
/// are passed.
pub open spec fn request(data_ptr: usize, data_size: usize, rbuf: usize, rsize: usize) -> DoorArg {
    DoorArg { data_ptr, data_size, desc_ptr: 0, desc_num: 0, rbuf, rsize }
}

/// Whether the kernel, given `sent`, put the reply somewhere else than in the
/// caller's buffer.
pub open spec fn moved(sent: DoorArg, returned: DoorArg) -> bool {
    returned.rbuf != sent.rbuf
}

/// A call whose reply goes into a slot of fixed size.
#[derive(Clone, Copy, Debug, PartialEq, Eq, Structural)]
pub enum SlotCall {
    /// The door has yet to be invoked.
    Calling { fd: i32, arg: DoorArg },
    /// The kernel reported success: the reply is in the slot at `res`.
    Done { res: usize },
    /// The kernel reported failure.
    Failed { err: DoorError },
}

impl SlotCall {
    /// The action that the call is waiting for.
    pub open spec fn action_spec(self) -> ClientAction {
        match self {
            SlotCall::Calling { fd, arg } => ClientAction::Call { fd, arg },
            SlotCall::Done { res } => ClientAction::Done { ptr: res },
            SlotCall::Failed { err } => ClientAction::Fail { err },
        }
    }

    /// The call after `event`. An event that does not answer the pending
    /// action changes nothing. Where the kernel moved the reply out of the
    /// slot this goes unnoticed: the slot has to be large enough for every
    /// reply of the door.
    pub open spec fn step_spec(self, event: ClientEvent) -> SlotCall {
        match (self, event) {
            (SlotCall::Calling { fd, arg }, ClientEvent::Called { status, errno, arg: _ }) => {
                if status != 0 {
                    SlotCall::Failed { err: DoorError { op: Operation::Call, errno } }
                } else {
                    SlotCall::Done { res: arg.rbuf }
                }
            },
            _ => self,
        }
    }

    pub fn action(&self) -> (a: ClientAction)
        ensures
            a == self.action_spec(),
    {
        match *self {
            SlotCall::Calling { fd, arg } => ClientAction::Call { fd, arg },
            SlotCall::Done { res } => ClientAction::Done { ptr: res },
            SlotCall::Failed { err } => ClientAction::Fail { err },
        }
    }

    pub fn step(self, event: ClientEvent) -> (next: SlotCall)
        ensures
            next == self.step_spec(event),
    {
        match self {
            SlotCall::Calling { fd, arg } => match event {
                ClientEvent::Called { status, errno, arg: _ } => {
                    if status != 0 {
                        SlotCall::Failed { err: DoorError { op: Operation::Call, errno } }
                    } else {
                        SlotCall::Done { res: arg.rbuf }
                    }
                },
                _ => self,
            },
            _ => self,
        }
    }
}

/// The call that [`door_call`] starts for a request of type `T` at `x` and a
/// reply slot of type `U` at `res`.
pub open spec fn slot_call<T, U>(fd: i32, x: usize, res: usize) -> SlotCall {
    SlotCall::Calling {
        fd,
        arg: request(x, size_of::<T>() as usize, res, size_of::<U>() as usize),
    }
}

/// Starts a call of the door `fd` with the request of type `T` at address `x`.
/// The reply is expected in the slot of type `U` at address `res`.
pub fn door_call<T, U>(fd: i32, x: usize, res: usize) -> (call: SlotCall)
    ensures
        call == slot_call::<T, U>(fd, x, res),
{
    SlotCall::Calling {
        fd,
        arg: DoorArg {
            data_ptr: x,
            data_size: core::mem::size_of::<T>(),
            desc_ptr: 0,
            desc_num: 0,
            rbuf: res,
            rsize: core::mem::size_of::<U>(),
        },
    }
}

/// The request span of `len` values of `T` laid out one after another, if its
/// length in bytes fits a machine word.
pub open spec fn slice_size<T>(len: usize) -> Option<usize> {
    if size_of::<T>() * len <= usize::MAX {
        Some((size_of::<T>() * len) as usize)
    } else {
        None
    }
}

/// The call that [`door_call_slice`] starts for `len` values of `T`, the first
/// of them at `x`, and a reply slot of type `U` at `res`.
pub open spec fn slice_call<T, U>(fd: i32, x: usize, len: usize, res: usize) -> Option<SlotCall> {
    match slice_size::<T>(len) {
        Some(data_size) => Some(
            SlotCall::Calling { fd, arg: request(x, data_size, res, size_of::<U>() as usize) },
        ),
        None => None,
    }
}

/// Starts a call of the door `fd` whose request is a sequence of `len` values
/// of `T`, the first of them at address `x`. The reply is expected in the slot
/// of type `U` at address `res`. There is no such call where the sequence
/// takes more bytes than a machine word can count.
pub fn door_call_slice<T, U>(fd: i32, x: usize, len: usize, res: usize) -> (call: Option<SlotCall>)
    ensures
        call == slice_call::<T, U>(fd, x, len, res),
{
    match core::mem::size_of::<T>().checked_mul(len) {
        Some(data_size) => Some(
            SlotCall::Calling {
                fd,
                arg: DoorArg {
                    data_ptr: x,
                    data_size,
                    desc_ptr: 0,
                    desc_num: 0,
                    rbuf: res,
                    rsize: core::mem::size_of::<U>(),
                },
            },
        ),
        None => None,
    }
}

/// A span of the client's address space.
#[derive(Clone, Copy, Debug, PartialEq, Eq, Structural)]
pub struct Region {
    pub addr: usize,
    pub len: usize,
}

/// A call whose reply buffer the kernel may replace by a region that it maps
/// itself. The reply then moves into the caller's buffer, grown to the
/// reply's length, and the kernel's region is unmapped.
#[derive(Clone, Copy, Debug, PartialEq, Eq, Structural)]
pub enum PtrCall {
    /// The door has yet to be invoked. `size` and `align` describe the type
    /// that the caller's buffer was allocated for.
    Calling { fd: i32, arg: DoorArg, size: usize, align: usize },
    /// The reply is in the kernel's `region`; the caller's buffer at `buf` has
    /// yet to be grown to hold it.
    Growing { buf: usize, size: usize, align: usize, region: Region },
    /// The caller's buffer is at `dst` and large enough; the reply has yet to
    /// be copied out of `region`.
    Copying { dst: usize, region: Region },
    /// The reply is in the caller's buffer at `dst`; `region` has yet to be
    /// unmapped.
    Unmapping { dst: usize, region: Region },
    /// The reply is in the caller's buffer at `res`, and nothing that the
    /// kernel mapped is left.
    Done { res: usize },
    /// The kernel reported failure.
    Failed { err: DoorError },
}

impl PtrCall {
    /// The action that the call is waiting for.
    pub open spec fn action_spec(self) -> ClientAction {
        match self {
            PtrCall::Calling { fd, arg, size, align } => ClientAction::Call { fd, arg },
            PtrCall::Growing { buf, size, align, region } => ClientAction::Grow {
                ptr: buf,
                old_size: size,
                align,
                new_size: region.len,
            },
            PtrCall::Copying { dst, region } => ClientAction::Copy {
                src: region.addr,
                dst,
                len: region.len,
            },
            PtrCall::Unmapping { dst, region } => ClientAction::Unmap {
                addr: region.addr,
                len: region.len,
            },
            PtrCall::Done { res } => ClientAction::Done { ptr: res },
            PtrCall::Failed { err } => ClientAction::Fail { err },
        }
    }

    /// The call after `event`. An event that does not answer the pending
    /// action changes nothing.
    pub open spec fn step_spec(self, event: ClientEvent) -> PtrCall {
        match (self, event) {
            (
                PtrCall::Calling { fd, arg, size, align },
                ClientEvent::Called { status, errno, arg: returned },
            ) => {
                if status != 0 {
                    PtrCall::Failed { err: DoorError { op: Operation::Call, errno } }
                } else if moved(arg, returned) {
                    PtrCall::Growing {
                        buf: arg.rbuf,
                        size,
                        align,
                        region: Region { addr: returned.rbuf, len: returned.rsize },
                    }
                } else {
                    PtrCall::Done { res: arg.rbuf }
                }
            },
            (PtrCall::Growing { buf, size, align, region }, ClientEvent::Grown { ptr }) => {
                PtrCall::Copying { dst: ptr, region }
            },
            (PtrCall::Copying { dst, region }, ClientEvent::Copied) => {
                PtrCall::Unmapping { dst, region }
            },
            (PtrCall::Unmapping { dst, region }, ClientEvent::Unmapped) => {
                PtrCall::Done { res: dst }
            },
            _ => self,
        }
    }

    /// The call after each of `events` in turn.
    pub open spec fn run(self, events: Seq<ClientEvent>) -> PtrCall
        decreases events.len(),
    {
        if events.len() == 0 {
            self
        } else {
            self.step_spec(events.first()).run(events.drop_first())
        }
    }

    /// The region of the kernel that the call has taken over and not yet
    /// seen unmapped.
    pub open spec fn holds(self) -> Option<Region> {
        match self {
            PtrCall::Growing { buf, size, align, region } => Some(region),
            PtrCall::Copying { dst, region } => Some(region),
            PtrCall::Unmapping { dst, region } => Some(region),
            _ => None,
        }
    }

    pub fn action(&self) -> (a: ClientAction)
        ensures
            a == self.action_spec(),
    {
        match *self {
            PtrCall::Calling { fd, arg, size: _, align: _ } => ClientAction::Call { fd, arg },
            PtrCall::Growing { buf, size, align, region } => ClientAction::Grow {
                ptr: buf,
                old_size: size,
                align,
                new_size: region.len,
            },
            PtrCall::Copying { dst, region } => ClientAction::Copy {
                src: region.addr,
                dst,
                len: region.len,
            },
            PtrCall::Unmapping { dst: _, region } => ClientAction::Unmap {
                addr: region.addr,
                len: region.len,
            },
            PtrCall::Done { res } => ClientAction::Done { ptr: res },
            PtrCall::Failed { err } => ClientAction::Fail { err },
        }
    }

    pub fn step(self, event: ClientEvent) -> (next: PtrCall)
        ensures
            next == self.step_spec(event),
    {
        match self {
            PtrCall::Calling { fd: _, arg, size, align } => match event {
                ClientEvent::Called { status, errno, arg: returned } => {
                    if status != 0 {
                        PtrCall::Failed { err: DoorError { op: Operation::Call, errno } }
                    } else if returned.rbuf != arg.rbuf {
                        PtrCall::Growing {
                            buf: arg.rbuf,
                            size,
                            align,
                            region: Region { addr: returned.rbuf, len: returned.rsize },
                        }
                    } else {
                        PtrCall::Done { res: arg.rbuf }
                    }
                },
                _ => self,
            },
            PtrCall::Growing { buf: _, size: _, align: _, region } => match event {
                ClientEvent::Grown { ptr } => PtrCall::Copying { dst: ptr, region },
                _ => self,
            },
            PtrCall::Copying { dst, region } => match event {
                ClientEvent::Copied => PtrCall::Unmapping { dst, region },
                _ => self,
            },
            PtrCall::Unmapping { dst, region: _ } => match event {
                ClientEvent::Unmapped => PtrCall::Done { res: dst },
                _ => self,
            },
            _ => self,
        }
    }
}

/// The call that [`door_callp`] starts for a request of type `T` at `x` and a
/// caller's buffer at `res` that was allocated for a `U`, or is null.
pub open spec fn ptr_call<T, U>(fd: i32, x: usize, res: usize) -> PtrCall {
    PtrCall::Calling {
        fd,
        arg: request(x, size_of::<T>() as usize, res, size_of::<usize>() as usize),
        size: size_of::<U>() as usize,
        align: align_of::<U>() as usize,
    }
}

/// Starts a call of the door `fd` with the request of type `T` at address `x`.
/// `res` is the address of the caller's buffer, allocated for a `U`, or null.
/// The kernel is offered that buffer with the capacity of one pointer; the
/// address at which the reply ends up is that of [`ClientAction::Done`].
pub fn door_callp<T, U>(fd: i32, x: usize, res: usize) -> (call: PtrCall)
    ensures
        call == ptr_call::<T, U>(fd, x, res),
{
    PtrCall::Calling {
        fd,
        arg: DoorArg {
            data_ptr: x,
            data_size: core::mem::size_of::<T>(),
            desc_ptr: 0,
            desc_num: 0,
            rbuf: res,
            rsize: core::mem::size_of::<usize>(),
        },
        size: core::mem::size_of::<U>(),
        align: core::mem::align_of::<U>(),
    }
}

/// A sequence of `len` values of `T` and a single value of a type `A` that
/// takes as many bytes start the same call: the kernel, and so the server,
/// gets one and the same record for both.
pub proof fn slice_transparency<T, A, U>(fd: i32, x: usize, len: usize, res: usize)
    requires
        size_of::<A>() == size_of::<T>() * len,
        size_of::<A>() <= usize::MAX,
    ensures
        slice_call::<T, U>(fd, x, len, res) == Some(slot_call::<A, U>(fd, x, res)),
{
}

/// A call into a fixed slot hands the kernel the request and the slot as they
/// are, passes no descriptors, and ends with the first answer of the kernel:
/// in the slot where the status is zero, with the kernel's error number where
/// it is not.
pub proof fn slot_call_outcome<T, U>(
    fd: i32,
    x: usize,
    res: usize,
    status: i32,
    errno: i32,
    returned: DoorArg,
)
    ensures
        slot_call::<T, U>(fd, x, res).action_spec() == (ClientAction::Call {
            fd,
            arg: DoorArg {
                data_ptr: x,
                data_size: size_of::<T>() as usize,
                desc_ptr: 0,
                desc_num: 0,
                rbuf: res,
                rsize: size_of::<U>() as usize,
            },
        }),
        slot_call::<T, U>(fd, x, res).step_spec(
            ClientEvent::Called { status, errno, arg: returned },
        ).action_spec() == if status == 0 {
            ClientAction::Done { ptr: res }
        } else {
            ClientAction::Fail { err: DoorError { op: Operation::Call, errno } }
        },
{
}

/// Where the kernel leaves the reply in the caller's buffer, a call with a
/// movable reply ends at once, with the address of that buffer; where the
/// kernel reports a failure, it ends with the kernel's error number. Nothing
/// is allocated, copied or unmapped in either case.
pub proof fn reply_in_place<T, U>(
    fd: i32,
    x: usize,
    res: usize,
    status: i32,
    errno: i32,
    returned: DoorArg,
)
    requires
        status != 0 || returned.rbuf == res,
    ensures
        ptr_call::<T, U>(fd, x, res).step_spec(
            ClientEvent::Called { status, errno, arg: returned },
        ).action_spec() == if status == 0 {
            ClientAction::Done { ptr: res }
        } else {
            ClientAction::Fail { err: DoorError { op: Operation::Call, errno } }
        },
{
}

/// Where the kernel moved the reply into a region of its own, the call asks
/// for exactly these steps, in this order: grow the caller's buffer to the
/// reply's length, copy the reply out of the kernel's region into the grown
/// buffer, unmap that region. It then ends with the address that the
/// allocator gave, whatever the caller's buffer was before, null too. What
/// is unmapped is the region that the kernel returned, in its full length.
pub proof fn reallocation_safety<T, U>(
    fd: i32,
    x: usize,
    res: usize,
    errno: i32,
    returned: DoorArg,
    grown: usize,
)
    requires
        returned.rbuf != res,
    ensures
        ({
            let called = ptr_call::<T, U>(fd, x, res).step_spec(
                ClientEvent::Called { status: 0, errno, arg: returned },
            );
            let allocated = called.step_spec(ClientEvent::Grown { ptr: grown });
            let copied = allocated.step_spec(ClientEvent::Copied);
            let released = copied.step_spec(ClientEvent::Unmapped);
            &&& called.action_spec() == (ClientAction::Grow {
                ptr: res,
                old_size: size_of::<U>() as usize,
                align: align_of::<U>() as usize,
                new_size: returned.rsize,
            })
            &&& allocated.action_spec() == (ClientAction::Copy {
                src: returned.rbuf,
                dst: grown,
                len: returned.rsize,
            })
            &&& copied.action_spec() == (ClientAction::Unmap {
                addr: returned.rbuf,
                len: returned.rsize,
            })
            &&& released.action_spec() == (ClientAction::Done { ptr: grown })
            &&& released == (PtrCall::Done { res: grown })
        }),
{
}

/// No region of the kernel is left behind. A call that has taken over a
/// region does not end, whatever is reported to it and in whatever order,
/// before it has asked to unmap exactly that region and been told that this
/// was done.
pub proof fn held_region_is_unmapped(call: PtrCall, events: Seq<ClientEvent>) -> (k: int)
    requires
        call.holds() is Some,
        call.run(events) is Done || call.run(events) is Failed,
    ensures
        0 <= k < events.len(),
        call.run(events.take(k)).action_spec() == (ClientAction::Unmap {
            addr: call.holds()->0.addr,
            len: call.holds()->0.len,
        }),
        events[k] == ClientEvent::Unmapped,
    decreases events.len(),
{
    if events.len() == 0 {
        0
    } else {
        let next = call.step_spec(events.first());
        let rest = events.drop_first();
        if call is Unmapping && events.first() == ClientEvent::Unmapped {
            assert(events.take(0) =~= Seq::<ClientEvent>::empty());
            0
        } else {
            assert(next.holds() == call.holds());
            let k = held_region_is_unmapped(next, rest);
            assert(events.take(k + 1).first() == events.first());
            assert(events.take(k + 1).drop_first() =~= rest.take(k));
            k + 1
        }
    }
}

/// A finished call stays finished: whatever is reported to it, it keeps its
/// result, so no region is unmapped twice and no reply is overwritten.
pub proof fn finished_call_is_final(call: PtrCall, event: ClientEvent)
    requires
        call is Done || call is Failed,
    ensures
        call.step_spec(event) == call,
{
}

} // verus!
