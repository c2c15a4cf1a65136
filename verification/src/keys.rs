//! Fixed-size key containers and the capability traits the agreement facade is
//! generic over.

use vstd::prelude::*;

verus! {

/// The single-byte tag of the one supported curve family.
pub const DJB_TYPE: u8 = 0x05;

/// Capability set of a public key: a curve-type tag and 32 bytes of key material.
pub trait ECPublicKey: Sized {
    /// The curve-type tag the key carries, at the specification level.
    spec fn spec_type(&self) -> u8;

    /// The key material the key carries, at the specification level.
    spec fn spec_key(&self) -> Seq<u8>;

    /// Wraps 32 bytes of key material.
    fn from(bytes: [u8; 32]) -> (r: Self)
        ensures
            r.spec_key() == bytes@,
    ;

    /// Returns the stored key material unchanged; no tag byte is emitted.
    fn serialize(&self) -> (r: [u8; 32])
        ensures
            r@ == self.spec_key(),
    ;

    /// Returns the curve-type tag.
    fn get_type(&self) -> (r: u8)
        ensures
            r == self.spec_type(),
    ;

    /// Returns the raw public key bytes.
    fn get_public_key(&self) -> (r: [u8; 32])
        ensures
            r@ == self.spec_key(),
    ;
}

/// Capability set of a private key: a curve-type tag and 32 bytes of key material.
pub trait ECPrivateKey {
    /// The curve-type tag the key carries, at the specification level.
    spec fn spec_type(&self) -> u8;

    /// The key material the key carries, at the specification level.
    spec fn spec_key(&self) -> Seq<u8>;

    /// Returns the stored key material unchanged; no tag byte is emitted.
    fn serialize(&self) -> (r: [u8; 32])
        ensures
            r@ == self.spec_key(),
    ;

    /// Returns the curve-type tag.
    fn get_type(&self) -> (r: u8)
        ensures
            r == self.spec_type(),
    ;

    /// Returns the raw private key bytes.
    fn get_private_key(&self) -> (r: [u8; 32])
        ensures
            r@ == self.spec_key(),
    ;
}

/// An opaque 32-byte public key of the one supported curve. Immutable once
/// constructed; equality is exact byte comparison.
pub struct PublicKey(pub [u8; 32]);

/// An opaque 32-byte private key of the one supported curve. Immutable once
/// constructed; equality is exact byte comparison.
pub struct PrivateKey(pub [u8; 32]);

/// One public key and one private key generated together.
pub struct KeyPair {
    pub public_key: PublicKey,
    pub private_key: PrivateKey,
}

impl View for PublicKey {
    type V = Seq<u8>;

    open spec fn view(&self) -> Seq<u8> {
        self.0@
    }
}

impl View for PrivateKey {
    type V = Seq<u8>;

    open spec fn view(&self) -> Seq<u8> {
        self.0@
    }
}

impl KeyPair {
    pub fn new(public: PublicKey, private: PrivateKey) -> (r: Self)
        ensures
            r.public_key == public,
            r.private_key == private,
    {
        Self { public_key: public, private_key: private }
    }
}

impl PublicKey {
    pub fn new(bytes: [u8; 32]) -> (r: Self)
        ensures
            r@ == bytes@,
    {
        PublicKey(bytes)
    }
}

impl PartialEq for PublicKey {
    fn eq(&self, other: &Self) -> (r: bool) {
        eq_32(&self.0, &other.0)
    }
}

impl vstd::std_specs::cmp::PartialEqSpecImpl for PublicKey {
    open spec fn obeys_eq_spec() -> bool {
        true
    }

    open spec fn eq_spec(&self, other: &PublicKey) -> bool {
        self@ == other@
    }
}

impl Eq for PublicKey {}

impl ECPublicKey for PublicKey {
    open spec fn spec_type(&self) -> u8 {
        DJB_TYPE
    }

    open spec fn spec_key(&self) -> Seq<u8> {
        self@
    }

    fn from(bytes: [u8; 32]) -> (r: Self) {
        PublicKey(bytes)
    }

    fn serialize(&self) -> (r: [u8; 32]) {
        self.0
    }

    fn get_type(&self) -> (r: u8) {
        DJB_TYPE
    }

    fn get_public_key(&self) -> (r: [u8; 32]) {
        self.0
    }
}

impl PrivateKey {
    pub fn new(bytes: &mut [u8; 32]) -> (r: Self)
        ensures
            r@ == old(bytes)@,
            final(bytes)@ == old(bytes)@,
    {
        Self(*bytes)
    }
}

impl PartialEq for PrivateKey {
    fn eq(&self, other: &Self) -> (r: bool) {
        eq_32(&self.0, &other.0)
    }
}

impl vstd::std_specs::cmp::PartialEqSpecImpl for PrivateKey {
    open spec fn obeys_eq_spec() -> bool {
        true
    }

    open spec fn eq_spec(&self, other: &PrivateKey) -> bool {
        self@ == other@
    }
}

impl Eq for PrivateKey {}

impl ECPrivateKey for PrivateKey {
    open spec fn spec_type(&self) -> u8 {
        DJB_TYPE
    }

    open spec fn spec_key(&self) -> Seq<u8> {
        self@
    }

    fn serialize(&self) -> (r: [u8; 32]) {
        self.0
    }

    fn get_type(&self) -> (r: u8) {
        DJB_TYPE
    }

    fn get_private_key(&self) -> (r: [u8; 32]) {
        self.0
    }
}

/// Exact byte comparison of two 32-byte buffers.
fn eq_32(a: &[u8; 32], b: &[u8; 32]) -> (r: bool)
    ensures
        r == (a@ == b@),
{
    let mut i: usize = 0;
    while i < 32
        invariant
            i <= 32,
            forall|j: int| 0 <= j < i ==> a@[j] == b@[j],
        decreases 32 - i,
    {
        if a[i] != b[i] {
            return false;
        }
        i += 1;
    }
    proof {
        assert(a@ =~= b@);
    }
    true
}

} // verus!
