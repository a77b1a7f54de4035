//! The records that a process exchanges with the kernel's door subsystem.
//!
//! Addresses are held as integers: the records are described here, not
//! dereferenced. Each has the fields of its counterpart in the C interface,
//! in the same order.

use vstd::prelude::*;

verus! {

/// The in-out record of one door invocation.
///
/// On the way in, `rbuf` and `rsize` describe the caller's reply buffer. On
/// the way out `rbuf` is either still the caller's address, and the reply is
/// there, or the address of a region that the kernel mapped for the reply,
/// `rsize` bytes long, which the caller then owns and has to unmap.
#[derive(Clone, Copy, Debug, PartialEq, Eq, Structural)]
pub struct DoorArg {
    /// Address of the request bytes.
    pub data_ptr: usize,
    /// Length of the request bytes.
    pub data_size: usize,
    /// Address of the descriptor array.
    pub desc_ptr: usize,
    /// Number of descriptors in the array.
    pub desc_num: u32,
    /// Address of the reply buffer.
    pub rbuf: usize,
    /// Length of the reply buffer.
    pub rsize: usize,
}

/// A file descriptor that is passed through a door.
#[derive(Clone, Copy, Debug, PartialEq, Eq, Structural)]
pub struct DDesc {
    pub d_descriptor: i32,
    pub d_id: u64,
}

/// What a descriptor record holds: a file descriptor, or five reserved words
/// in the same place.
#[derive(Clone, Copy, Debug, PartialEq, Eq)]
pub enum DoorData {
    Desc(DDesc),
    Resv([i32; 5]),
}

/// A descriptor record of a door invocation.
#[derive(Clone, Copy, Debug, PartialEq, Eq)]
pub struct DoorDesc {
    pub d_attributes: u32,
    pub d_data: DoorData,
}

} // verus!
