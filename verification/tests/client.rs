// Client calls, carried out against a simulated kernel and address space.

use rusty_doors::client::{ClientAction, ClientEvent, PtrCall, Region, SlotCall};
use rusty_doors::error::{DoorError, Operation};
use rusty_doors::sys::DoorArg;
use rusty_doors::{door_call, door_call_slice, door_callp};
use std::collections::HashMap;
use std::mem::{align_of, size_of};

#[derive(Default)]
struct Wrapped {
    val: u64,
    other: u16,
}

const X: usize = 0x1000;
const RES: usize = 0x2000;
const FRESH: usize = 0x7000_0000;
const HEAP: usize = 0x9000;

/// An address space, a door with a server behind it, and an allocator.
struct Sim {
    bytes: HashMap<usize, u8>,
    mapped: Vec<(usize, usize)>,
    server: fn(&[u8]) -> Vec<u8>,
    status: i32,
    errno: i32,
    log: Vec<ClientAction>,
}

impl Sim {
    fn new(server: fn(&[u8]) -> Vec<u8>) -> Sim {
        Sim { bytes: HashMap::new(), mapped: Vec::new(), server, status: 0, errno: 0, log: Vec::new() }
    }

    fn read(&self, addr: usize, len: usize) -> Vec<u8> {
        (0..len).map(|i| *self.bytes.get(&(addr + i)).unwrap_or(&0)).collect()
    }

    fn write(&mut self, addr: usize, data: &[u8]) {
        for (i, b) in data.iter().enumerate() {
            self.bytes.insert(addr + i, *b);
        }
    }

    fn read_wrapped(&self, addr: usize) -> Wrapped {
        let b = self.read(addr, 10);
        let mut val = [0u8; 8];
        val.copy_from_slice(&b[0..8]);
        let mut other = [0u8; 2];
        other.copy_from_slice(&b[8..10]);
        Wrapped { val: u64::from_ne_bytes(val), other: u16::from_ne_bytes(other) }
    }

    /// Carries out one action as the kernel and the allocator would.
    fn perform(&mut self, action: ClientAction) -> Option<ClientEvent> {
        self.log.push(action);
        match action {
            ClientAction::Call { fd: _, arg } => {
                if self.status != 0 {
                    return Some(ClientEvent::Called { status: self.status, errno: self.errno, arg });
                }
                let reply = (self.server)(&self.read(arg.data_ptr, arg.data_size));
                let mut returned = arg;
                if reply.len() <= arg.rsize {
                    self.write(arg.rbuf, &reply);
                } else {
                    self.write(FRESH, &reply);
                    self.mapped.push((FRESH, reply.len()));
                    returned.rbuf = FRESH;
                    returned.rsize = reply.len();
                }
                Some(ClientEvent::Called { status: 0, errno: 0, arg: returned })
            }
            ClientAction::Grow { ptr: _, old_size: _, align: _, new_size: _ } => {
                Some(ClientEvent::Grown { ptr: HEAP })
            }
            ClientAction::Copy { src, dst, len } => {
                let data = self.read(src, len);
                self.write(dst, &data);
                Some(ClientEvent::Copied)
            }
            ClientAction::Unmap { addr, len } => {
                self.mapped.retain(|r| *r != (addr, len));
                Some(ClientEvent::Unmapped)
            }
            ClientAction::Done { ptr: _ } => None,
            ClientAction::Fail { err: _ } => None,
        }
    }

    fn run_slot(&mut self, mut call: SlotCall) -> ClientAction {
        loop {
            let action = call.action();
            match self.perform(action) {
                Some(event) => call = call.step(event),
                None => return action,
            }
        }
    }

    fn run_ptr(&mut self, mut call: PtrCall) -> ClientAction {
        loop {
            let action = call.action();
            match self.perform(action) {
                Some(event) => call = call.step(event),
                None => return action,
            }
        }
    }
}

fn wrapped_bytes(w: &Wrapped) -> Vec<u8> {
    let mut out = vec![0u8; size_of::<Wrapped>()];
    out[0..8].copy_from_slice(&w.val.to_ne_bytes());
    out[8..10].copy_from_slice(&w.other.to_ne_bytes());
    out
}

fn word(b: &[u8]) -> u64 {
    let mut w = [0u8; 8];
    w.copy_from_slice(&b[0..8]);
    u64::from_ne_bytes(w)
}

fn adder(request: &[u8]) -> Vec<u8> {
    let x = word(request);
    wrapped_bytes(&Wrapped { val: x + 47, other: 99 })
}

fn slice_adder(request: &[u8]) -> Vec<u8> {
    let sum = word(&request[0..]) + word(&request[8..]) + word(&request[16..]) + word(&request[24..]);
    wrapped_bytes(&Wrapped { val: sum, other: 1701 })
}

fn echo_word(request: &[u8]) -> Vec<u8> {
    request[0..8].to_vec()
}

fn record(data_ptr: usize, data_size: usize, rbuf: usize, rsize: usize) -> DoorArg {
    DoorArg { data_ptr, data_size, desc_ptr: 0, desc_num: 0, rbuf, rsize }
}

#[test]
fn test_add_client() {
    let mut sim = Sim::new(adder);
    let x: u64 = 74;
    sim.write(X, &x.to_ne_bytes());
    sim.write(RES, &wrapped_bytes(&Wrapped::default()));

    let end = sim.run_slot(door_call::<u64, Wrapped>(3, X, RES));

    assert_eq!(end, ClientAction::Done { ptr: RES });
    let res = sim.read_wrapped(RES);
    assert_eq!(res.val, 121);
    assert_eq!(res.other, 99);
}

#[test]
fn adder_client_ptr_test_add_client_ptr() {
    let mut sim = Sim::new(adder);
    let x: u64 = 47;
    sim.write(X, &x.to_ne_bytes());
    let mut res: usize = 0;

    let end = sim.run_ptr(door_callp::<u64, Wrapped>(3, X, res));
    let out = match end {
        ClientAction::Done { ptr } => ptr,
        other => panic!("the call ended with {:?}", other),
    };
    res = out;

    assert_ne!(res, 0);
    assert_eq!(sim.read_wrapped(res).val, 94);
    assert_eq!(sim.read_wrapped(res).other, 99);
    assert_eq!(sim.read_wrapped(out).val, 94);
    assert_eq!(sim.read_wrapped(out).other, 99);
    assert_eq!(out, res);
    assert!(sim.mapped.is_empty());
}

#[test]
fn adder_client_ptr_test_test_add_client_ptr() {
    // The same call, looked at step by step.
    let mut sim = Sim::new(adder);
    let x: u64 = 47;
    sim.write(X, &x.to_ne_bytes());

    let end = sim.run_ptr(door_callp::<u64, Wrapped>(3, X, 0));

    let n = size_of::<Wrapped>();
    assert_eq!(
        sim.log,
        vec![
            ClientAction::Call { fd: 3, arg: record(X, 8, 0, size_of::<usize>()) },
            ClientAction::Grow { ptr: 0, old_size: n, align: align_of::<Wrapped>(), new_size: n },
            ClientAction::Copy { src: FRESH, dst: HEAP, len: n },
            ClientAction::Unmap { addr: FRESH, len: n },
            ClientAction::Done { ptr: HEAP },
        ]
    );
    assert_eq!(end, ClientAction::Done { ptr: HEAP });
    assert_eq!(sim.read_wrapped(HEAP).val, 94);
    assert_eq!(sim.read_wrapped(HEAP).other, 99);
}

#[test]
fn test_add_slice_client() {
    let mut sim = Sim::new(slice_adder);
    let x: [u64; 4] = [47, 74, 4, 7];
    for (i, v) in x.iter().enumerate() {
        sim.write(X + 8 * i, &v.to_ne_bytes());
    }

    let end = sim.run_slot(door_call::<[u64; 4], Wrapped>(3, X, RES));

    assert_eq!(end, ClientAction::Done { ptr: RES });
    let res = sim.read_wrapped(RES);
    assert_eq!(res.val, 132);
    assert_eq!(res.other, 1701);
}

#[test]
fn slice_call_adds_the_elements() {
    let mut sim = Sim::new(slice_adder);
    let x: [u64; 4] = [47, 74, 4, 7];
    for (i, v) in x.iter().enumerate() {
        sim.write(X + 8 * i, &v.to_ne_bytes());
    }

    let call = door_call_slice::<u64, Wrapped>(3, X, x.len(), RES).expect("32 bytes fit");
    let end = sim.run_slot(call);

    assert_eq!(end, ClientAction::Done { ptr: RES });
    let res = sim.read_wrapped(RES);
    assert_eq!(res.val, 132);
    assert_eq!(res.other, 1701);
}

#[test]
fn call_record_describes_request_and_slot() {
    let call = door_call::<u64, Wrapped>(5, X, RES);
    assert_eq!(call, SlotCall::Calling { fd: 5, arg: record(X, 8, RES, size_of::<Wrapped>()) });
    assert_eq!(call.action(), ClientAction::Call { fd: 5, arg: record(X, 8, RES, 16) });
}

#[test]
fn slice_is_a_record_of_the_same_bytes() {
    let slice = door_call_slice::<u64, Wrapped>(3, X, 4, RES);
    assert_eq!(slice, Some(door_call::<[u64; 4], Wrapped>(3, X, RES)));
    assert_eq!(slice, Some(SlotCall::Calling { fd: 3, arg: record(X, 32, RES, 16) }));

    let bytes = door_call_slice::<u8, u32>(3, X, 5, RES);
    assert_eq!(bytes, Some(door_call::<[u8; 5], u32>(3, X, RES)));
}

#[test]
fn empty_slice_is_an_empty_request() {
    let call = door_call_slice::<u64, Wrapped>(3, X, 0, RES);
    assert_eq!(call, Some(SlotCall::Calling { fd: 3, arg: record(X, 0, RES, 16) }));
}

#[test]
fn slice_too_long_for_a_word_is_refused() {
    assert_eq!(door_call_slice::<u64, Wrapped>(3, X, usize::MAX, RES), None);
    assert_eq!(door_call_slice::<u64, Wrapped>(3, X, usize::MAX / 8 + 1, RES), None);
    let longest = door_call_slice::<u64, Wrapped>(3, X, usize::MAX / 8, RES);
    assert_eq!(
        longest,
        Some(SlotCall::Calling { fd: 3, arg: record(X, (usize::MAX / 8) * 8, RES, 16) })
    );
    assert_eq!(
        door_call_slice::<u8, Wrapped>(3, X, usize::MAX, RES),
        Some(SlotCall::Calling { fd: 3, arg: record(X, usize::MAX, RES, 16) })
    );
}

#[test]
fn failed_call_carries_the_error_number() {
    let mut sim = Sim::new(adder);
    sim.status = -1;
    sim.errno = 9;

    let end = sim.run_slot(door_call::<u64, Wrapped>(3, X, RES));
    assert_eq!(end, ClientAction::Fail { err: DoorError { op: Operation::Call, errno: 9 } });

    let mut sim = Sim::new(adder);
    sim.status = 1;
    sim.errno = 4;
    let end = sim.run_ptr(door_callp::<u64, Wrapped>(3, X, RES));
    assert_eq!(end, ClientAction::Fail { err: DoorError { op: Operation::Call, errno: 4 } });
    assert_eq!(sim.log.len(), 2);
}

#[test]
fn slot_call_does_not_look_at_the_returned_record() {
    let call = door_call::<u64, u64>(3, X, RES);
    let moved = ClientEvent::Called { status: 0, errno: 0, arg: record(X, 8, FRESH, 4096) };
    assert_eq!(call.step(moved), SlotCall::Done { res: RES });
}

#[test]
fn reply_that_fits_stays_in_the_buffer() {
    let mut sim = Sim::new(echo_word);
    let x: u64 = 0x0102_0304_0506_0708;
    sim.write(X, &x.to_ne_bytes());

    let end = sim.run_ptr(door_callp::<u64, u64>(3, X, RES));

    assert_eq!(end, ClientAction::Done { ptr: RES });
    assert_eq!(sim.log.len(), 2);
    assert_eq!(word(&sim.read(RES, 8)), x);
    assert!(sim.mapped.is_empty());
}

#[test]
fn pointer_call_offers_one_pointer_of_capacity() {
    let call = door_callp::<u32, Wrapped>(4, X, RES);
    assert_eq!(
        call,
        PtrCall::Calling {
            fd: 4,
            arg: record(X, 4, RES, size_of::<usize>()),
            size: 16,
            align: align_of::<Wrapped>(),
        }
    );
}

#[test]
fn moved_reply_is_grown_copied_and_unmapped_in_order() {
    let call = door_callp::<u64, Wrapped>(3, X, RES);
    let called = call.step(ClientEvent::Called { status: 0, errno: 0, arg: record(X, 8, FRESH, 48) });
    assert_eq!(
        called,
        PtrCall::Growing {
            buf: RES,
            size: 16,
            align: align_of::<Wrapped>(),
            region: Region { addr: FRESH, len: 48 },
        }
    );
    assert_eq!(
        called.action(),
        ClientAction::Grow { ptr: RES, old_size: 16, align: align_of::<Wrapped>(), new_size: 48 }
    );
    let grown = called.step(ClientEvent::Grown { ptr: HEAP });
    assert_eq!(grown.action(), ClientAction::Copy { src: FRESH, dst: HEAP, len: 48 });
    let copied = grown.step(ClientEvent::Copied);
    assert_eq!(copied.action(), ClientAction::Unmap { addr: FRESH, len: 48 });
    let done = copied.step(ClientEvent::Unmapped);
    assert_eq!(done, PtrCall::Done { res: HEAP });
    assert_eq!(done.action(), ClientAction::Done { ptr: HEAP });
}

#[test]
fn events_out_of_turn_change_nothing() {
    let call = door_callp::<u64, Wrapped>(3, X, RES);
    assert_eq!(call.step(ClientEvent::Grown { ptr: HEAP }), call);
    assert_eq!(call.step(ClientEvent::Copied), call);
    assert_eq!(call.step(ClientEvent::Unmapped), call);

    let growing = call.step(ClientEvent::Called { status: 0, errno: 0, arg: record(X, 8, FRESH, 48) });
    assert_eq!(growing.step(ClientEvent::Unmapped), growing);
    assert_eq!(growing.step(ClientEvent::Copied), growing);

    let done = PtrCall::Done { res: HEAP };
    assert_eq!(done.step(ClientEvent::Called { status: -1, errno: 1, arg: record(0, 0, 0, 0) }), done);
    assert_eq!(done.step(ClientEvent::Unmapped), done);

    let slot = door_call::<u64, Wrapped>(3, X, RES);
    assert_eq!(slot.step(ClientEvent::Copied), slot);
    let finished = SlotCall::Done { res: RES };
    assert_eq!(finished.step(ClientEvent::Called { status: -1, errno: 1, arg: record(0, 0, 0, 0) }), finished);
}
