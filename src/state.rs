use crate::header::{header_bump, header_scalar, read_seed_scalar, with_header, write_header, HEADER_LEN};
use vstd::prelude::*;

verus! {

/// The header of a per-authority buffer: the bump of its derived address and
/// the seed it was created with.
#[derive(Debug, Clone, Copy, PartialEq, Eq, Structural)]
pub struct AuthorizedBufferHeader {
    pub bump: u8,
    pub buffer_seed: u64,
}

/// The header of a priced buffer: the bump of its derived address and its price.
#[derive(Debug, Clone, Copy, PartialEq, Eq, Structural)]
pub struct VendingMachineBufferHeader {
    pub bump: u8,
    pub price: u64,
}

impl AuthorizedBufferHeader {
    /// Reads the header from the first bytes of a buffer.
    pub fn read(data: &[u8]) -> (r: AuthorizedBufferHeader)
        requires
            data@.len() >= HEADER_LEN,
        ensures
            r.bump == header_bump(data@),
            r.buffer_seed == header_scalar(data@),
    {
        let (bump, buffer_seed) = read_seed_scalar(data);
        AuthorizedBufferHeader { bump, buffer_seed }
    }

    /// Writes the header into the first bytes of a buffer.
    pub fn write(&self, data: &mut Vec<u8>)
        requires
            old(data)@.len() >= HEADER_LEN,
        ensures
            final(data)@ == with_header(old(data)@, self.bump, self.buffer_seed),
    {
        write_header(data, self.bump, self.buffer_seed)
    }
}

impl VendingMachineBufferHeader {
    /// Reads the header from the first bytes of a buffer.
    pub fn read(data: &[u8]) -> (r: VendingMachineBufferHeader)
        requires
            data@.len() >= HEADER_LEN,
        ensures
            r.bump == header_bump(data@),
            r.price == header_scalar(data@),
    {
        let (bump, price) = read_seed_scalar(data);
        VendingMachineBufferHeader { bump, price }
    }

    /// Writes the header into the first bytes of a buffer.
    pub fn write(&self, data: &mut Vec<u8>)
        requires
            old(data)@.len() >= HEADER_LEN,
        ensures
            final(data)@ == with_header(old(data)@, self.bump, self.price),
    {
        write_header(data, self.bump, self.price)
    }
}

} // verus!
