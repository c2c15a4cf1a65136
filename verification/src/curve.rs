//! Wire codec and agreement facade: parsing untrusted byte buffers into typed
//! keys, serializing keys back to bytes, and computing a Diffie-Hellman shared
//! secret between keys of matching curve type.

use vstd::prelude::*;
use crate::errors::InvalidKeyError;
use crate::errors::bad_key_length_msg;
use crate::errors::bad_key_length_string;
use crate::errors::bad_key_type_msg;
use crate::errors::bad_key_type_string;
use crate::errors::no_key_type_msg;
use crate::errors::no_key_type_string;
use crate::errors::private_decode_err_msg;
use crate::errors::private_decode_err_string;
use crate::errors::type_mismatch_msg;
use crate::errors::type_mismatch_string;
use crate::keys::DJB_TYPE;
use crate::keys::ECPrivateKey;
use crate::keys::ECPublicKey;
use crate::keys::KeyPair;
use crate::keys::PrivateKey;
use crate::keys::PublicKey;

verus! {

/// The shared secret that the curve primitive computes from a public point and
/// a private scalar, each 32 bytes.
pub uninterp spec fn agreement_of(public: Seq<u8>, private: Seq<u8>) -> Seq<u8>;

/// The curve's base point: the byte 9 followed by 31 zero bytes.
pub open spec fn base_point_seq() -> Seq<u8> {
    Seq::new(32, |i: int| if i == 0 { 9u8 } else { 0u8 })
}

/// Whether a tagged public-key read succeeds: at least one byte readable at
/// `offset`, the supported tag there, and 32 key bytes after the tag.
pub open spec fn decode_point_ok(bytes: Seq<u8>, offset: int) -> bool {
    &&& bytes.len() > 0
    &&& offset < bytes.len()
    &&& bytes[offset] == DJB_TYPE
    &&& bytes.len() - offset >= 33
}

/// The message a failing tagged public-key read reports.
pub open spec fn decode_point_err_msg(bytes: Seq<u8>, offset: int) -> Seq<char>
    recommends
        !decode_point_ok(bytes, offset),
{
    if bytes.len() == 0 || offset >= bytes.len() {
        no_key_type_msg()
    } else if bytes[offset] != DJB_TYPE {
        bad_key_type_msg(bytes[offset])
    } else {
        bad_key_length_msg(bytes.len())
    }
}

/// Entry points of the codec and the agreement facade.
pub struct Curve;

impl Curve {
    /// Generates a fresh key pair: a random 32-byte scalar and the public point
    /// the curve primitive derives from it and the base point.
    pub fn generate_key_pair() -> (r: KeyPair)
        ensures
            r.public_key@ == agreement_of(base_point_seq(), r.private_key@),
    {
        let secret = random_key_bytes();
        let mut base: [u8; 32] = [0; 32];
        base[0] = 9;
        proof {
            assert(base@ =~= base_point_seq());
        }
        let public = x25519_agreement(base, secret);
        KeyPair { public_key: PublicKey(public), private_key: PrivateKey(secret) }
    }

    /// Reads a tagged public key from `bytes` at `offset`: one tag byte that
    /// must equal the supported curve type, then 32 bytes of key material.
    /// Rejects, in this order, a buffer with no readable tag byte, an
    /// unrecognized tag, and a recognized tag with fewer than 32 bytes after it.
    pub fn decode_point(bytes: &[u8], offset: usize) -> (r: Result<
        PublicKey,
        InvalidKeyError,
    >)
        ensures
            r is Ok <==> decode_point_ok(bytes@, offset as int),
            r matches Ok(k) ==> k@ == bytes@.subrange(offset + 1, offset + 33),
            r matches Err(e) ==> e.0@ == decode_point_err_msg(bytes@, offset as int),
    {
        let n = bytes.len();
        if n == 0 || offset >= n {
            return Err(InvalidKeyError(no_key_type_string()));
        }
        // Truncate the tag to its low 8 bits; the byte is already 8 bits wide,
        // so this only guards against upstream widening.
        let tag = bytes[offset];
        let type_ = tag & 0xff;
        proof {
            assert(type_ == tag) by (bit_vector)
                requires
                    type_ == tag & 0xff,
            ;
        }
        if type_ != DJB_TYPE {
            Err(InvalidKeyError(bad_key_type_string(type_)))
        } else if n - offset < 33 {
            Err(InvalidKeyError(bad_key_length_string(n)))
        } else {
            let mut key_bytes: [u8; 32] = [0; 32];
            let mut i: usize = 0;
            while i < 32
                invariant
                    i <= 32,
                    offset + 33 <= n,
                    n == bytes@.len(),
                    forall|j: int| 0 <= j < i ==> key_bytes@[j] == bytes@[offset + 1 + j],
                decreases 32 - i,
            {
                key_bytes[i] = bytes[offset + 1 + i];
                i += 1;
            }
            proof {
                assert(key_bytes@ =~= bytes@.subrange(offset + 1, offset + 33));
            }
            Ok(PublicKey(key_bytes))
        }
    }

    /// Reads an untagged private key: the buffer must be exactly 32 bytes of
    /// raw scalar material; any other length is rejected.
    pub fn decode_private_point(bytes: &[u8]) -> (r: Result<PrivateKey, InvalidKeyError>)
        ensures
            r is Ok <==> bytes@.len() == 32,
            r matches Ok(k) ==> k@ == bytes@,
            r matches Err(e) ==> e.0@ == private_decode_err_msg(),
    {
        if bytes.len() != 32 {
            return Err(InvalidKeyError(private_decode_err_string()));
        }
        let mut key_bytes: [u8; 32] = [0; 32];
        let mut i: usize = 0;
        while i < 32
            invariant
                i <= 32,
                bytes@.len() == 32,
                forall|j: int| 0 <= j < i ==> key_bytes@[j] == bytes@[j],
            decreases 32 - i,
        {
            key_bytes[i] = bytes[i];
            i += 1;
        }
        proof {
            assert(key_bytes@ =~= bytes@);
        }
        Ok(PrivateKey(key_bytes))
    }

    /// Computes the shared secret of a public and a private key. Succeeds
    /// exactly when both operands carry the same curve type and that type is
    /// the supported one; the secret is then the curve primitive's result on
    /// the two operands' key material.
    pub fn calculate_agreement<PublicKey: ECPublicKey, PrivateKey: ECPrivateKey>(
        public_key: &PublicKey,
        private_key: &PrivateKey,
    ) -> (r: Result<[u8; 32], InvalidKeyError>)
        ensures
            r is Ok <==> (public_key.spec_type() == private_key.spec_type()
                && public_key.spec_type() == DJB_TYPE),
            r matches Ok(secret) ==> secret@ == agreement_of(
                public_key.spec_key(),
                private_key.spec_key(),
            ),
            r matches Err(e) ==> e.0@ == type_mismatch_msg(),
    {
        let a = public_key.get_type();
        let b = private_key.get_type();

        if a != b || a != DJB_TYPE {
            return Err(InvalidKeyError(type_mismatch_string()));
        }

        Ok(x25519_agreement(public_key.get_public_key(), private_key.get_private_key()))
    }
}

/// Relies on x25519_dalek::x25519: the RFC 7748 x25519 function; the shared
/// secret is a function of the public point and the private scalar alone.
#[verifier::external_body]
fn x25519_agreement(public: [u8; 32], private: [u8; 32]) -> (r: [u8; 32])
    ensures
        r@ == agreement_of(public@, private@),
{
    x25519_dalek::x25519(private, public)
}

/// Relies on rand::random: 32 bytes drawn from the thread-local generator;
/// nothing is promised of the values.
#[verifier::external_body]
fn random_key_bytes() -> [u8; 32] {
    rand::random::<[u8; 32]>()
}

/// Agreement is deterministic: two computations over the same public and
/// private key material yield the same shared secret.
pub proof fn lemma_agreement_deterministic(
    public: Seq<u8>,
    private: Seq<u8>,
    first: Seq<u8>,
    second: Seq<u8>,
)
    requires
        first == agreement_of(public, private),
        second == agreement_of(public, private),
    ensures
        first == second,
{
}

/// Every concrete public key and every concrete private key carry the one
/// supported curve type, so agreement between any two of them — generated
/// together or independently — always passes the type check.
pub proof fn lemma_concrete_keys_always_compatible(
    public_key: crate::keys::PublicKey,
    private_key: crate::keys::PrivateKey,
)
    ensures
        public_key.spec_type() == private_key.spec_type(),
        public_key.spec_type() == DJB_TYPE,
{
}

/// Round trip: decoding 32 bytes of private key material and serializing the
/// result returns exactly the original bytes. The hypotheses are what
/// `decode_private_point` ensures of its successful result and what
/// `serialize` ensures of its output.
pub proof fn lemma_private_point_round_trip(
    material: Seq<u8>,
    key: crate::keys::PrivateKey,
    out: Seq<u8>,
)
    requires
        material.len() == 32,
        key@ == material,
        out == key.spec_key(),
    ensures
        out == material,
{
}

} // verus!
