use vstd::prelude::*;
use std::collections::hash_map::DefaultHasher;
use std::hash::Hasher;
use vstd::std_specs::hash::DefaultHasherAdditionalSpecFns;
use vstd::bytes::{spec_u32_to_le_bytes, spec_u64_to_le_bytes};

verus! {

/// Whether `bytes` are the native-endian bytes of `value`: its little-endian
/// bytes on a little-endian machine, or the same bytes reversed on a
/// big-endian one, for the pointer width of the machine.
pub open spec fn native_usize_bytes(value: usize, bytes: Seq<u8>) -> bool {
    ||| usize::BITS == 64 && (bytes == spec_u64_to_le_bytes(value as u64) || bytes
        == spec_u64_to_le_bytes(value as u64).reverse())
    ||| usize::BITS == 32 && (bytes == spec_u32_to_le_bytes(value as u32) || bytes
        == spec_u32_to_le_bytes(value as u32).reverse())
}

/// Whether the hasher state `after` is `before` with one more write, of the
/// native-endian bytes of `value`.
pub open spec fn appends_native_usize(before: Seq<Seq<u8>>, after: Seq<Seq<u8>>, value: usize) -> bool {
    exists|bytes: Seq<u8>| native_usize_bytes(value, bytes) && after == before.push(bytes)
}

/// `Hasher::write_usize` on the default hasher: feeds `value.to_ne_bytes()`
/// to the hasher as one write. Which of the two byte orders that is depends
/// on the machine, so the contract says that the bytes written are the
/// native-endian bytes of `value` in one of the two orders.
#[verifier::external_body]
fn hasher_write_usize(hasher: &mut DefaultHasher, value: usize)
    ensures
        appends_native_usize(old(hasher)@, final(hasher)@, value),
{
    hasher.write_usize(value)
}

/// The hash of the address of an object, as a stable key for it within one
/// process.
#[derive(Clone, Copy, Debug, PartialEq, Eq)]
pub struct Hashed(u64);

impl View for Hashed {
    type V = u64;

    closed spec fn view(&self) -> u64 {
        self.0
    }
}

impl Hashed {
    /// The hash of an object's address: the address is fed to a fresh default
    /// hasher as a `usize`, which is how the standard library hashes a thin
    /// pointer, and the hasher's result is kept.
    pub fn from(address: usize) -> (h: Hashed)
        ensures
            exists|bytes: Seq<u8>|
                native_usize_bytes(address, bytes) && h@ == DefaultHasher::spec_finish(seq![bytes]),
    {
        let mut hasher = DefaultHasher::new();
        hasher_write_usize(&mut hasher, address);
        let ghost state = hasher@;
        let result = hasher.finish();
        proof {
            let bytes = choose|bytes: Seq<u8>|
                native_usize_bytes(address, bytes) && state == Seq::<Seq<u8>>::empty().push(bytes);
            assert(state =~= seq![bytes]);
        }
        Hashed(result)
    }

    /// The hash value.
    pub fn get(self) -> (h: u64)
        ensures
            h == self@,
    {
        self.0
    }
}

} // verus!
