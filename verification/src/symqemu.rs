//! The SymQEMU module's bookkeeping: which guest buffer holds the input that
//! is marked symbolic.

use vstd::prelude::*;

verus! {

/// An address in the guest's address space (64-bit guests).
pub type GuestAddr = u64;

/// A guest memory range to hand to the symbolic runtime as symbolic input.
#[derive(Clone, Copy, Debug, PartialEq, Eq, Structural)]
pub struct SymbolicRegion {
    /// Guest address of the first symbolic byte.
    pub guest_addr: GuestAddr,
    /// Number of symbolic bytes.
    pub byte_length: usize,
    /// Index of the first byte within the symbolic input.
    pub input_offset: usize,
}

/// Tracks the guest input buffer that is marked symbolic between snapshot
/// restores.
#[derive(Clone, Copy, Debug)]
pub struct SymQemuModule {
    input_buffer_addr: GuestAddr,
    input_buffer_size: usize,
}

impl SymQemuModule {
    /// Guest address of the input buffer.
    pub closed spec fn addr_view(&self) -> GuestAddr {
        self.input_buffer_addr
    }

    /// Size of the input buffer.
    pub closed spec fn size_view(&self) -> usize {
        self.input_buffer_size
    }

    /// Creates a module for the input buffer at `buffer_addr` of
    /// `buffer_size` bytes.
    pub fn new(buffer_addr: GuestAddr, buffer_size: usize) -> (module: Self)
        ensures
            module.addr_view() == buffer_addr,
            module.size_view() == buffer_size,
    {
        SymQemuModule { input_buffer_addr: buffer_addr, input_buffer_size: buffer_size }
    }

    /// The region to mark symbolic after the input has been written: the
    /// first `len` bytes of the buffer, numbered from input offset 0 so that
    /// the expression indices in the trace match the input's byte offsets.
    pub fn symbolic_region(&self, len: usize) -> (region: SymbolicRegion)
        ensures
            region.guest_addr == self.addr_view(),
            region.byte_length == len,
            region.input_offset == 0,
    {
        SymbolicRegion { guest_addr: self.input_buffer_addr, byte_length: len, input_offset: 0 }
    }

    /// The buffer address.
    pub fn buffer_addr(&self) -> (addr: GuestAddr)
        ensures
            addr == self.addr_view(),
    {
        self.input_buffer_addr
    }

    /// The buffer size.
    pub fn buffer_size(&self) -> (size: usize)
        ensures
            size == self.size_view(),
    {
        self.input_buffer_size
    }

    /// Sets the buffer address (for addresses discovered at run time).
    pub fn set_buffer_addr(&mut self, addr: GuestAddr)
        ensures
            final(self).addr_view() == addr,
            final(self).size_view() == old(self).size_view(),
        no_unwind
    {
        self.input_buffer_addr = addr;
    }

    /// Sets the buffer size.
    pub fn set_buffer_size(&mut self, size: usize)
        ensures
            final(self).addr_view() == old(self).addr_view(),
            final(self).size_view() == size,
    {
        self.input_buffer_size = size;
    }
}

} // verus!
