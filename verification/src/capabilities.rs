//! Kernel capability objects: system call entries and naming capabilities.
use vstd::prelude::*;

verus! {

/// A system call: its number and the address of its handler.
#[derive(Clone, Copy, Debug, PartialEq, Eq)]
pub struct Syscall {
    number: usize,
    function: usize,
}

impl Syscall {
    pub closed spec fn spec_number(&self) -> usize {
        self.number
    }

    pub closed spec fn spec_function(&self) -> usize {
        self.function
    }

    pub fn new(number: usize, function: usize) -> (r: Self)
        ensures
            r.spec_number() == number,
            r.spec_function() == function,
    {
        Self { number, function }
    }

    /// The address of the handler.
    pub fn function_pointer(&self) -> (r: usize)
        ensures
            r == self.spec_function(),
    {
        self.function
    }

    pub fn number(&self) -> (r: usize)
        ensures
            r == self.spec_number(),
    {
        self.number
    }
}

/// The kind of object a naming capability refers to.
#[derive(Copy, Clone, Debug, PartialEq, Eq)]
pub enum ObjectType {
    File,
    Directory,
    Pipe,
}

/// The options a named object is opened with.
#[derive(Copy, Clone, Debug, PartialEq, Eq)]
pub struct OpenOptions {
    pub readonly: bool,
    pub writeonly: bool,
    pub readwrite: bool,
    pub share: bool,
}

/// What a capability allows.
#[derive(Copy, Clone, Debug, PartialEq, Eq)]
pub struct CapabilityFlags {
    pub read: bool,
    pub write: bool,
    pub share: bool,
}

/// The rights of a naming capability for an object opened with `rights`:
/// read for read-only and read-write, write for write-only and read-write,
/// share when shared.
pub fn naming_capability_flags(rights: OpenOptions) -> (r: CapabilityFlags)
    ensures
        r.read == (rights.readonly || rights.readwrite),
        r.write == (rights.writeonly || rights.readwrite),
        r.share == rights.share,
{
    let mut flags = CapabilityFlags { read: false, write: false, share: false };
    if rights.readonly || rights.readwrite {
        flags.read = true;
    }
    if rights.writeonly || rights.readwrite {
        flags.write = true;
    }
    if rights.share {
        flags.share = true;
    }
    flags
}

} // verus!
