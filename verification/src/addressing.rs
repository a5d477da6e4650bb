//! Addresses of principals: the full form of any length and the short form
//! under which persistent state is kept.

use rand::Rng;
use vstd::prelude::*;

use crate::bytes::bytes_equal;
use crate::bytes::copy_bytes;

verus! {

/// Number of bytes in a short address.
pub const SHORT_ADDRESS_LEN: usize = 20;

/// Number of bytes in an address made at random.
pub const RANDOM_ADDRESS_LEN: usize = 32;

/// What a full address is: a version and any number of bytes.
pub struct AddressView {
    pub version: u32,
    pub data: Seq<u8>,
}

/// A full address of any length.
#[derive(Debug, PartialEq, Eq, Hash, Default)]
pub struct NeutronAddress {
    /// The type of address.
    pub version: u32,
    /// The bytes that are unique to the address.
    pub data: Vec<u8>,
}

/// A short address: a version and 20 bytes. Persistent state is partitioned
/// by short address.
#[derive(Clone, Copy, Debug, PartialEq, Eq, Hash, Default)]
pub struct NeutronShortAddress {
    pub version: u32,
    pub data: [u8; 20],
}

impl View for NeutronAddress {
    type V = AddressView;

    open spec fn view(&self) -> AddressView {
        AddressView { version: self.version, data: self.data@ }
    }
}

impl View for NeutronShortAddress {
    type V = AddressView;

    open spec fn view(&self) -> AddressView {
        AddressView { version: self.version, data: self.data@ }
    }
}

/// The SHA-256 digest of a byte string.
pub uninterp spec fn sha256_digest(data: Seq<u8>) -> Seq<u8>;

/// The short form of a full address: the same version, and the first 20
/// bytes of the SHA-256 digest of its data.
pub open spec fn short_form(full: AddressView) -> AddressView {
    AddressView {
        version: full.version,
        data: sha256_digest(full.data).subrange(0, SHORT_ADDRESS_LEN as int),
    }
}

/// Calls `ring::digest::digest` with the SHA-256 algorithm and copies the
/// digest out. The result is that of SHA-256 on `data`, a function of the
/// bytes alone, and it is 32 bytes long.
#[verifier::external_body]
fn sha256(data: &[u8]) -> (digest: Vec<u8>)
    ensures
        digest@ == sha256_digest(data@),
        digest@.len() == 32,
{
    ring::digest::digest(&ring::digest::SHA256, data).as_ref().to_vec()
}

/// Calls `rand::thread_rng` and draws an array of 32 bytes from it with
/// `Rng::gen`. Nothing is known of the bytes but their number. The
/// generator panics where it cannot be seeded by the system.
#[verifier::external_body]
fn random_bytes() -> (bytes: Vec<u8>)
    ensures
        bytes@.len() == RANDOM_ADDRESS_LEN,
{
    rand::thread_rng().gen::<[u8; 32]>().to_vec()
}

impl Clone for NeutronAddress {
    fn clone(&self) -> (copy: NeutronAddress)
        ensures
            copy@ == self@,
    {
        NeutronAddress { version: self.version, data: copy_bytes(self.data.as_slice()) }
    }
}

impl NeutronAddress {
    /// Converts a full address into a short address.
    pub fn to_short_address(&self) -> (short: NeutronShortAddress)
        ensures
            short@ == short_form(self@),
    {
        let digest = sha256(self.data.as_slice());
        let mut data: [u8; 20] = [0u8; 20];
        let mut i: usize = 0;
        while i < 20
            invariant
                i <= 20,
                digest@.len() == 32,
                forall|j: int| 0 <= j < i ==> data@[j] == digest@[j],
            decreases 20 - i,
        {
            data[i] = digest[i];
            i += 1;
        }
        assert(data@ =~= digest@.subrange(0, 20));
        NeutronShortAddress { version: self.version, data }
    }

    /// Replaces the data of the address by 32 bytes drawn at random; the
    /// version stays.
    pub fn set_to_random_address(&mut self)
        ensures
            final(self).version == old(self).version,
            final(self).data@.len() == RANDOM_ADDRESS_LEN,
    {
        self.data = random_bytes();
    }

    /// An address of version 0 with 32 bytes drawn at random.
    pub fn new_random_address() -> (a: NeutronAddress)
        ensures
            a.version == 0,
            a.data@.len() == RANDOM_ADDRESS_LEN,
    {
        let mut a = NeutronAddress { version: 0, data: Vec::new() };
        a.set_to_random_address();
        a
    }

    /// Whether two addresses have the same version and data.
    pub fn same(&self, other: &NeutronAddress) -> (b: bool)
        ensures
            b == (self@ == other@),
    {
        self.version == other.version && bytes_equal(self.data.as_slice(), other.data.as_slice())
    }
}

impl NeutronShortAddress {
    /// Whether two short addresses have the same version and data.
    pub fn same(&self, other: &NeutronShortAddress) -> (b: bool)
        ensures
            b == (self@ == other@),
    {
        self.version == other.version && bytes_equal(self.data.as_slice(), other.data.as_slice())
    }
}

} // verus!
