//! The server side of a door: registering a server procedure, and publishing
//! the door at a path of the file system.
//!
//! As on the client side, nothing here touches the operating system.
//! [`Server`] says what has to be done next ([`ServerAction`]), the embedding
//! does it for the path that it serves and reports back ([`ServerEvent`]).

use crate::error::{DoorError, Operation};
use vstd::layout::size_of;
use vstd::prelude::*;

verus! {

/// The permission bits of the file that a door is attached to.
pub const PLACEHOLDER_MODE: u32 = 0o644;

/// The arguments with which a server procedure is registered as a door.
#[derive(Debug, PartialEq, Eq)]
pub struct DoorCreate<F> {
    /// The procedure that the kernel calls for each invocation.
    pub server_procedure: F,
    /// The address that the kernel hands to the procedure with each call.
    pub cookie: usize,
    /// The attribute flags of the door.
    pub attributes: u32,
}

/// The registration of `f` as a door: no cookie, and no attributes.
pub fn door_create<F>(f: F) -> (create: DoorCreate<F>)
    ensures
        create == (DoorCreate { server_procedure: f, cookie: 0, attributes: 0 }),
{
    DoorCreate { server_procedure: f, cookie: 0, attributes: 0 }
}

/// What the kernel's answer to a registration means: a descriptor that is not
/// negative is the door; any other is the failure sentinel, and `errno` says
/// why.
pub open spec fn created_spec(fd: i32, errno: i32) -> Result<i32, DoorError> {
    if fd >= 0 {
        Ok(fd)
    } else {
        Err(DoorError { op: Operation::Create, errno })
    }
}

impl<F> DoorCreate<F> {
    /// The door that the kernel returned for this registration, or the
    /// failure that it reported.
    pub fn created(&self, fd: i32, errno: i32) -> (door: Result<i32, DoorError>)
        ensures
            door == created_spec(fd, errno),
    {
        if fd >= 0 {
            Ok(fd)
        } else {
            Err(DoorError { op: Operation::Create, errno })
        }
    }
}

/// The arguments with which a server procedure returns to the kernel.
#[derive(Clone, Copy, Debug, PartialEq, Eq, Structural)]
pub struct DoorReturn {
    /// Address of the reply bytes.
    pub data_ptr: usize,
    /// Length of the reply bytes.
    pub data_size: usize,
    /// Address of the descriptor array.
    pub desc_ptr: usize,
    /// Number of descriptors in the array.
    pub num_desc: u32,
}

/// The return of a result of type `R` that is stored at `result`.
pub open spec fn reply_of<R>(result: usize) -> DoorReturn {
    DoorReturn { data_ptr: result, data_size: size_of::<R>() as usize, desc_ptr: 0, num_desc: 0 }
}

/// How a server procedure returns its result, of type `R` and stored at
/// address `result`, to the kernel: the bytes of the result are the reply,
/// and no descriptors go with it.
pub fn door_reply<R>(result: usize) -> (reply: DoorReturn)
    ensures
        reply == reply_of::<R>(result),
{
    DoorReturn {
        data_ptr: result,
        data_size: core::mem::size_of::<R>(),
        desc_ptr: 0,
        num_desc: 0,
    }
}

/// What a server asks its embedding to do next, for the path that it serves.
#[derive(Clone, Copy, Debug, PartialEq, Eq, Structural)]
pub enum ServerAction {
    /// Unlink the path, then report `Unlinked` whatever came of it.
    Unlink,
    /// Open the path for reading and writing, creating a regular file with
    /// the permission bits `mode` where there is none, then report `Opened`.
    Open { mode: u32 },
    /// Close the descriptor `fd`, then report `Closed` whatever came of it.
    Close { fd: i32 },
    /// Attach the door `fd` to the path, then report `Attached`.
    Attach { fd: i32 },
    /// Suspend the calling thread until a signal arrives, then report `Woken`.
    Pause,
    /// Give up: the door could not be published.
    Fail { err: DoorError },
}

/// What the embedding reports after carrying out a [`ServerAction`].
#[derive(Clone, Copy, Debug, PartialEq, Eq, Structural)]
pub enum ServerEvent {
    /// The path was unlinked, or could not be.
    Unlinked,
    /// The path was opened as `fd`; a negative `fd` is a failure, and `errno`
    /// says why.
    Opened { fd: i32, errno: i32 },
    /// The descriptor was closed.
    Closed,
    /// The attachment returned `status`, with `errno` where it is not zero.
    Attached { status: i32, errno: i32 },
    /// A signal woke the thread.
    Woken,
}

/// A server that publishes one door at one path and then serves it.
#[derive(Clone, Copy, Debug, PartialEq, Eq, Structural)]
pub enum Server {
    /// A stale file may be in the way.
    Unlinking { fd: i32 },
    /// The path is free; the file to attach to has yet to be created.
    Creating { fd: i32 },
    /// The file exists and is open as `node`.
    Closing { fd: i32, node: i32 },
    /// The file exists; the door has yet to be attached to it.
    Attaching { fd: i32 },
    /// The door is published. The kernel runs the server procedure on
    /// threads of its own; this one only waits.
    Serving { fd: i32 },
    /// The door could not be published.
    Failed { err: DoorError },
}

impl ServerEvent {
    /// Whether the event reports that the file could not be created, or the
    /// door not attached.
    pub open spec fn is_failure(self) -> bool {
        match self {
            ServerEvent::Opened { fd, errno } => fd < 0,
            ServerEvent::Attached { status, errno } => status != 0,
            _ => false,
        }
    }
}

impl Server {
    /// The action that the server is waiting for.
    pub open spec fn action_spec(self) -> ServerAction {
        match self {
            Server::Unlinking { fd } => ServerAction::Unlink,
            Server::Creating { fd } => ServerAction::Open { mode: PLACEHOLDER_MODE },
            Server::Closing { fd, node } => ServerAction::Close { fd: node },
            Server::Attaching { fd } => ServerAction::Attach { fd },
            Server::Serving { fd } => ServerAction::Pause,
            Server::Failed { err } => ServerAction::Fail { err },
        }
    }

    /// The server after `event`. An event that does not answer the pending
    /// action changes nothing.
    pub open spec fn step_spec(self, event: ServerEvent) -> Server {
        match (self, event) {
            (Server::Unlinking { fd }, ServerEvent::Unlinked) => Server::Creating { fd },
            (Server::Creating { fd }, ServerEvent::Opened { fd: node, errno }) => {
                if node < 0 {
                    Server::Failed { err: DoorError { op: Operation::Open, errno } }
                } else {
                    Server::Closing { fd, node }
                }
            },
            (Server::Closing { fd, node }, ServerEvent::Closed) => Server::Attaching { fd },
            (Server::Attaching { fd }, ServerEvent::Attached { status, errno }) => {
                if status != 0 {
                    Server::Failed { err: DoorError { op: Operation::Attach, errno } }
                } else {
                    Server::Serving { fd }
                }
            },
            _ => self,
        }
    }

    /// The server after each of `events` in turn.
    pub open spec fn run(self, events: Seq<ServerEvent>) -> Server
        decreases events.len(),
    {
        if events.len() == 0 {
            self
        } else {
            self.step_spec(events.first()).run(events.drop_first())
        }
    }

    pub fn action(&self) -> (a: ServerAction)
        ensures
            a == self.action_spec(),
    {
        match *self {
            Server::Unlinking { fd: _ } => ServerAction::Unlink,
            Server::Creating { fd: _ } => ServerAction::Open { mode: PLACEHOLDER_MODE },
            Server::Closing { fd: _, node } => ServerAction::Close { fd: node },
            Server::Attaching { fd } => ServerAction::Attach { fd },
            Server::Serving { fd: _ } => ServerAction::Pause,
            Server::Failed { err } => ServerAction::Fail { err },
        }
    }

    pub fn step(self, event: ServerEvent) -> (next: Server)
        ensures
            next == self.step_spec(event),
    {
        match self {
            Server::Unlinking { fd } => match event {
                ServerEvent::Unlinked => Server::Creating { fd },
                _ => self,
            },
            Server::Creating { fd } => match event {
                ServerEvent::Opened { fd: node, errno } => {
                    if node < 0 {
                        Server::Failed { err: DoorError { op: Operation::Open, errno } }
                    } else {
                        Server::Closing { fd, node }
                    }
                },
                _ => self,
            },
            Server::Closing { fd, node: _ } => match event {
                ServerEvent::Closed => Server::Attaching { fd },
                _ => self,
            },
            Server::Attaching { fd } => match event {
                ServerEvent::Attached { status, errno } => {
                    if status != 0 {
                        Server::Failed { err: DoorError { op: Operation::Attach, errno } }
                    } else {
                        Server::Serving { fd }
                    }
                },
                _ => self,
            },
            _ => self,
        }
    }
}

/// Starts a server for the door `fd`, which should come from
/// [`door_create`]. Its first step clears the path of a stale file.
pub fn door_run(fd: i32) -> (server: Server)
    ensures
        server == (Server::Unlinking { fd }),
{
    Server::Unlinking { fd }
}

/// While nothing fails, a server asks for these steps, in this order: unlink
/// the path, create the file, close it, attach the door, wait.
pub proof fn setup_order(fd: i32, node: i32, e1: i32, e2: i32)
    requires
        node >= 0,
    ensures
        ({
            let unlinking = Server::Unlinking { fd };
            let creating = unlinking.step_spec(ServerEvent::Unlinked);
            let closing = creating.step_spec(ServerEvent::Opened { fd: node, errno: e1 });
            let attaching = closing.step_spec(ServerEvent::Closed);
            let serving = attaching.step_spec(ServerEvent::Attached { status: 0, errno: e2 });
            &&& unlinking.action_spec() == ServerAction::Unlink
            &&& creating.action_spec() == (ServerAction::Open { mode: 0o644 })
            &&& closing.action_spec() == (ServerAction::Close { fd: node })
            &&& attaching.action_spec() == (ServerAction::Attach { fd })
            &&& serving == (Server::Serving { fd })
            &&& serving.action_spec() == ServerAction::Pause
        }),
{
}

/// A file that cannot be created and a door that cannot be attached end the
/// server, with the operation that failed and its error number.
pub proof fn setup_failure(fd: i32, node: i32, status: i32, errno: i32)
    ensures
        node < 0 ==> (Server::Creating { fd }).step_spec(
            ServerEvent::Opened { fd: node, errno },
        ) == (Server::Failed { err: DoorError { op: Operation::Open, errno } }),
        status != 0 ==> (Server::Attaching { fd }).step_spec(
            ServerEvent::Attached { status, errno },
        ) == (Server::Failed { err: DoorError { op: Operation::Attach, errno } }),
{
}

/// A server that has not failed and is told of no failure does not fail.
proof fn lemma_run_without_failure(server: Server, events: Seq<ServerEvent>)
    requires
        !(server is Failed),
        forall|i: int| 0 <= i < events.len() ==> !(#[trigger] events[i]).is_failure(),
    ensures
        !(server.run(events) is Failed),
    decreases events.len(),
{
    if events.len() > 0 {
        let next = server.step_spec(events.first());
        assert(!events[0].is_failure());
        let rest = events.drop_first();
        assert forall|i: int| 0 <= i < rest.len() implies !(#[trigger] rest[i]).is_failure() by {
            assert(rest[i] == events[i + 1]);
        }
        lemma_run_without_failure(next, rest);
    }
}

/// Serving does not return: a server never comes to an end by itself. After
/// any events whatever it still asks for a next step, unless one of them
/// reported that the file could not be created or the door not attached.
pub proof fn serve_does_not_return(fd: i32, events: Seq<ServerEvent>)
    requires
        forall|i: int| 0 <= i < events.len() ==> !(#[trigger] events[i]).is_failure(),
    ensures
        !((Server::Unlinking { fd }).run(events).action_spec() is Fail),
{
    lemma_run_without_failure(Server::Unlinking { fd }, events);
}

/// Once the door is published, the server waits for ever: whatever is
/// reported to it, a signal that woke it too, it is still serving, and asks
/// to wait again.
pub proof fn serving_is_for_ever(fd: i32, events: Seq<ServerEvent>)
    ensures
        (Server::Serving { fd }).run(events) == (Server::Serving { fd }),
        (Server::Serving { fd }).run(events).action_spec() == ServerAction::Pause,
    decreases events.len(),
{
    if events.len() > 0 {
        serving_is_for_ever(fd, events.drop_first());
    }
}

} // verus!
