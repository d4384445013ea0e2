use vstd::prelude::*;

verus! {

/// The instructions of the echo program, as decoded from instruction data.
#[derive(Debug, PartialEq, Eq)]
pub enum EchoInstruction {
    /// Overwrite the whole first account with `data`.
    Echo { data: Vec<u8> },
    /// Create the per-authority buffer of `buffer_seed`, `buffer_size` bytes long.
    InitializeAuthorizedEcho { buffer_seed: u64, buffer_size: usize },
    /// Write `data` into the payload region of a per-authority buffer.
    AuthorizedEcho { data: Vec<u8> },
    /// Create the priced buffer of a mint and `price`, `buffer_size` bytes long.
    InitializeVendingMachineEcho { price: u64, buffer_size: usize },
    /// Pay to write `data` into a priced buffer.
    VendingMachineEcho { data: Vec<u8> },
}

} // verus!
