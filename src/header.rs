use vstd::bytes::{spec_u64_from_le_bytes, spec_u64_to_le_bytes, u64_from_le_bytes, u64_to_le_bytes};
use vstd::prelude::*;

verus! {

/// Length of a buffer's header: one bump byte, then an 8-byte scalar.
pub const HEADER_LEN: usize = 9;

/// The bump recorded in a buffer's header.
pub open spec fn header_bump(data: Seq<u8>) -> u8 {
    data[0]
}

/// The raw little-endian bytes of the scalar recorded in a buffer's header.
pub open spec fn header_scalar_bytes(data: Seq<u8>) -> Seq<u8> {
    data.subrange(1, 9)
}

/// The scalar (buffer seed or price) recorded in a buffer's header.
pub open spec fn header_scalar(data: Seq<u8>) -> u64 {
    spec_u64_from_le_bytes(header_scalar_bytes(data))
}

/// The buffer `data` with its header replaced by `bump` and `scalar`.
pub open spec fn with_header(data: Seq<u8>, bump: u8, scalar: u64) -> Seq<u8> {
    seq![bump] + spec_u64_to_le_bytes(scalar) + data.subrange(9, data.len() as int)
}

/// Writes `bump` at offset 0 and the little-endian `scalar` at offsets 1..9,
/// leaving the rest of the buffer as it was.
pub fn write_header(data: &mut Vec<u8>, bump: u8, scalar: u64)
    requires
        old(data)@.len() >= HEADER_LEN,
    ensures
        final(data)@ == with_header(old(data)@, bump, scalar),
{
    let encoded = u64_to_le_bytes(scalar);
    data.set(0, bump);
    let mut i: usize = 0;
    while i < 8
        invariant
            i <= 8,
            encoded@ == spec_u64_to_le_bytes(scalar),
            encoded@.len() == 8,
            old(data)@.len() >= HEADER_LEN,
            data@.len() == old(data)@.len(),
            data@[0] == bump,
            forall|k: int| 0 <= k < i ==> #[trigger] data@[1 + k] == encoded@[k],
            forall|k: int| 1 + i <= k < data@.len() ==> #[trigger] data@[k] == old(data)@[k],
        decreases 8 - i,
    {
        data.set(1 + i, encoded[i]);
        i = i + 1;
    }
    proof {
        vstd::bytes::lemma_auto_spec_u64_to_from_le_bytes();
        let h = with_header(old(data)@, bump, scalar);
        assert(h.len() == data@.len());
        assert forall|k: int| 0 <= k < h.len() implies data@[k] == h[k] by {
            if 1 <= k < 9 {
                assert(data@[1 + (k - 1)] == encoded@[k - 1]);
            }
        }
        assert(data@ =~= h);
    }
}

/// Reads the bump and the scalar back from a buffer's header.
pub fn read_seed_scalar(data: &[u8]) -> (r: (u8, u64))
    requires
        data@.len() >= HEADER_LEN,
    ensures
        r == (header_bump(data@), header_scalar(data@)),
{
    let scalar_bytes = header_bytes(data);
    (data[0], u64_from_le_bytes(scalar_bytes.as_slice()))
}

/// A copy of the scalar bytes (offsets 1..9) of a buffer's header.
pub fn header_bytes(data: &[u8]) -> (r: Vec<u8>)
    requires
        data@.len() >= HEADER_LEN,
    ensures
        r@ == header_scalar_bytes(data@),
{
    let mut r: Vec<u8> = Vec::new();
    let mut i: usize = 1;
    while i < HEADER_LEN
        invariant
            1 <= i <= HEADER_LEN,
            data@.len() >= HEADER_LEN,
            r@ == data@.subrange(1, i as int),
        decreases HEADER_LEN - i,
    {
        r.push(data[i]);
        i = i + 1;
    }
    r
}

/// Reading a header back yields exactly the bump and scalar written into it,
/// and writing it changes neither the length nor the payload region.
pub proof fn lemma_header_round_trip(data: Seq<u8>, bump: u8, scalar: u64)
    requires
        data.len() >= HEADER_LEN,
    ensures
        with_header(data, bump, scalar).len() == data.len(),
        header_bump(with_header(data, bump, scalar)) == bump,
        header_scalar(with_header(data, bump, scalar)) == scalar,
        with_header(data, bump, scalar).subrange(9, data.len() as int) == data.subrange(
            9,
            data.len() as int,
        ),
{
    vstd::bytes::lemma_auto_spec_u64_to_from_le_bytes();
    let h = with_header(data, bump, scalar);
    assert(header_scalar_bytes(h) =~= spec_u64_to_le_bytes(scalar));
    assert(h.subrange(9, data.len() as int) =~= data.subrange(9, data.len() as int));
}

} // verus!
