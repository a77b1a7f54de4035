//! A model of what surrounds a client call: the client's address space, the
//! kernel's door subsystem with a server behind it, and the allocator.
//!
//! The calls of [`crate::client`] only say what has to be done. This module
//! says what doing it means, in ghost code, so that it can be stated and
//! proved that a call, carried out step by step, delivers the server's reply
//! to the caller. The model is the one of the door interface: the kernel
//! hands the request bytes to the server and writes the reply into the
//! caller's buffer if it fits, and into a region that it maps for the purpose
//! if it does not.

use crate::client::{ptr_call, slot_call, ClientAction, ClientEvent, PtrCall, Region, SlotCall};
use crate::sys::DoorArg;
use vstd::layout::size_of;
use vstd::prelude::*;

verus! {

/// An address space: the byte at each address, and the regions that the
/// kernel mapped into it for replies and that nobody has unmapped yet.
pub struct Space {
    pub bytes: spec_fn(int) -> u8,
    pub mapped: Set<Region>,
}

impl Space {
    /// The `len` bytes at `addr`.
    pub open spec fn read(self, addr: int, len: int) -> Seq<u8> {
        Seq::new(len as nat, |i: int| (self.bytes)(addr + i))
    }

    /// The space with `data` stored at `addr`.
    pub open spec fn write(self, addr: int, data: Seq<u8>) -> Space {
        Space {
            bytes: |a: int|
                if addr <= a < addr + data.len() {
                    data[a - addr]
                } else {
                    (self.bytes)(a)
                },
            mapped: self.mapped,
        }
    }
}

/// What a call runs against: a door whose server turns request bytes into
/// reply bytes, the address at which the kernel maps a region when it needs
/// one, and the address that the allocator returns when asked to grow a
/// buffer.
pub struct World {
    pub server: spec_fn(Seq<u8>) -> Seq<u8>,
    pub fresh: usize,
    pub grown: usize,
}

/// One successful invocation of the door with the record `arg`: the server
/// gets the request bytes that the record points at. Its reply goes into the
/// caller's buffer where it fits. Where it does not, the kernel maps a region
/// at `world.fresh`, puts the reply there, and rewrites the record to point
/// at it, with the reply's length.
pub open spec fn upcall(space: Space, world: World, arg: DoorArg) -> (Space, DoorArg) {
    let reply = (world.server)(space.read(arg.data_ptr as int, arg.data_size as int));
    if reply.len() <= arg.rsize {
        (space.write(arg.rbuf as int, reply), arg)
    } else {
        let region = Region { addr: world.fresh, len: reply.len() as usize };
        (
            Space {
                bytes: space.write(world.fresh as int, reply).bytes,
                mapped: space.mapped.insert(region),
            },
            DoorArg { rbuf: world.fresh, rsize: reply.len() as usize, ..arg },
        )
    }
}

/// What carrying out `action` does to the space, and the event that reports
/// it. Growing a buffer leaves the bytes alone: what the grown buffer holds
/// is not looked at before it is overwritten. The last two actions end a
/// call: there is nothing to carry out.
pub open spec fn perform(space: Space, world: World, action: ClientAction) -> (
    Space,
    Option<ClientEvent>,
) {
    match action {
        ClientAction::Call { fd, arg } => {
            let (after, returned) = upcall(space, world, arg);
            (after, Some(ClientEvent::Called { status: 0, errno: 0, arg: returned }))
        },
        ClientAction::Grow { ptr, old_size, align, new_size } => (
            space,
            Some(ClientEvent::Grown { ptr: world.grown }),
        ),
        ClientAction::Copy { src, dst, len } => (
            space.write(dst as int, space.read(src as int, len as int)),
            Some(ClientEvent::Copied),
        ),
        ClientAction::Unmap { addr, len } => (
            Space { bytes: space.bytes, mapped: space.mapped.remove(Region { addr, len }) },
            Some(ClientEvent::Unmapped),
        ),
        ClientAction::Done { ptr } => (space, None),
        ClientAction::Fail { err } => (space, None),
    }
}

/// The space and the call after at most `steps` actions of `call` were carried
/// out, each reported back to it.
pub open spec fn drive(space: Space, world: World, call: PtrCall, steps: nat) -> (Space, PtrCall)
    decreases steps,
{
    if steps == 0 {
        (space, call)
    } else {
        match perform(space, world, call.action_spec()) {
            (after, Some(event)) => drive(after, world, call.step_spec(event), (steps - 1) as nat),
            (after, None) => (after, call),
        }
    }
}

/// Writing bytes and reading them back gives the same bytes.
proof fn lemma_read_written(space: Space, addr: int, data: Seq<u8>)
    ensures
        space.write(addr, data).read(addr, data.len() as int) == data,
{
    assert(space.write(addr, data).read(addr, data.len() as int) =~= data);
}

/// Round trip: a call into a fixed slot of type `U`, with a request of type
/// `T`, against a door whose server answers that request with the bytes of a
/// `U`, succeeds with the slot's address, and the slot then holds exactly the
/// server's answer to the bytes of the request.
pub proof fn round_trip<T, U>(space: Space, world: World, fd: i32, x: usize, res: usize)
    requires
        size_of::<T>() <= usize::MAX,
        size_of::<U>() <= usize::MAX,
        (world.server)(space.read(x as int, size_of::<T>() as int)).len() == size_of::<U>(),
    ensures
        ({
            let call = slot_call::<T, U>(fd, x, res);
            let (after, event) = perform(space, world, call.action_spec());
            &&& event is Some
            &&& call.step_spec(event->0) == (SlotCall::Done { res })
            &&& after.read(res as int, size_of::<U>() as int) == (world.server)(
                space.read(x as int, size_of::<T>() as int),
            )
            &&& after.mapped == space.mapped
        }),
{
    let reply = (world.server)(space.read(x as int, size_of::<T>() as int));
    lemma_read_written(space, res as int, reply);
}

/// What the server sees of a request is the bytes that the record points at,
/// so a sequence of `len` values of `T` and one value of a type `A` of as
/// many bytes at the same address are the same request to it: both calls do
/// the same to the space and get the same answer.
pub proof fn slice_is_indistinguishable<T, A, U>(
    space: Space,
    world: World,
    fd: i32,
    x: usize,
    len: usize,
    res: usize,
)
    requires
        size_of::<A>() == size_of::<T>() * len,
        size_of::<A>() <= usize::MAX,
    ensures
        crate::client::slice_call::<T, U>(fd, x, len, res) matches Some(call) && perform(
            space,
            world,
            call.action_spec(),
        ) == perform(space, world, slot_call::<A, U>(fd, x, res).action_spec()),
{
}

/// Reallocation safety. A call with a movable reply, carried out against a
/// door whose reply is longer than a pointer, ends after four steps with the
/// address that the allocator gave, which is not null where the allocator's
/// is not. The buffer there holds exactly the server's reply, and the region
/// that the kernel mapped for it is unmapped again: the space holds the
/// mapped regions that it held before the call.
pub proof fn reallocation_delivers<T, U>(space: Space, world: World, fd: i32, x: usize, res: usize)
    requires
        size_of::<T>() <= usize::MAX,
        size_of::<usize>() < (world.server)(space.read(x as int, size_of::<T>() as int)).len()
            <= usize::MAX,
        world.fresh != res,
        !space.mapped.contains(
            Region {
                addr: world.fresh,
                len: (world.server)(space.read(x as int, size_of::<T>() as int)).len() as usize,
            },
        ),
    ensures
        ({
            let reply = (world.server)(space.read(x as int, size_of::<T>() as int));
            let (after, call) = drive(space, world, ptr_call::<T, U>(fd, x, res), 4);
            &&& call == (PtrCall::Done { res: world.grown })
            &&& world.grown != 0 ==> call->res != 0
            &&& after.read(world.grown as int, reply.len() as int) == reply
            &&& after.mapped == space.mapped
        }),
{
    broadcast use vstd::layout::layout_of_primitives;

    let reply = (world.server)(space.read(x as int, size_of::<T>() as int));
    let region = Region { addr: world.fresh, len: reply.len() as usize };
    let c0 = ptr_call::<T, U>(fd, x, res);
    let (s1, e1) = perform(space, world, c0.action_spec());
    let c1 = c0.step_spec(e1->0);
    assert(c1 is Growing);
    let (s2, e2) = perform(s1, world, c1.action_spec());
    let c2 = c1.step_spec(e2->0);
    let (s3, e3) = perform(s2, world, c2.action_spec());
    let c3 = c2.step_spec(e3->0);
    let (s4, e4) = perform(s3, world, c3.action_spec());
    let c4 = c3.step_spec(e4->0);
    assert(c4 == (PtrCall::Done { res: world.grown }));
    reveal_with_fuel(drive, 5);
    assert(drive(space, world, c0, 4) == (s4, c4));
    lemma_read_written(space, world.fresh as int, reply);
    assert(s1.read(world.fresh as int, reply.len() as int) == reply);
    lemma_read_written(s2, world.grown as int, reply);
    assert(s4.mapped =~= space.mapped);
}

/// Where the reply fits into a pointer's size, a call with a movable reply
/// ends after one step with the caller's own buffer, which holds the reply,
/// and nothing was mapped.
pub proof fn small_reply_stays<T, U>(space: Space, world: World, fd: i32, x: usize, res: usize)
    requires
        size_of::<T>() <= usize::MAX,
        (world.server)(space.read(x as int, size_of::<T>() as int)).len() <= size_of::<usize>(),
    ensures
        ({
            let reply = (world.server)(space.read(x as int, size_of::<T>() as int));
            let (after, call) = drive(space, world, ptr_call::<T, U>(fd, x, res), 4);
            &&& call == (PtrCall::Done { res })
            &&& after.read(res as int, reply.len() as int) == reply
            &&& after.mapped == space.mapped
        }),
{
    broadcast use vstd::layout::layout_of_primitives;

    let reply = (world.server)(space.read(x as int, size_of::<T>() as int));
    reveal_with_fuel(drive, 3);
    lemma_read_written(space, res as int, reply);
}

} // verus!
