//! Typed, validated encoding and decoding of elliptic-curve key material, and a
//! checked entry point for Diffie-Hellman agreement.
//!
//! Untrusted bytes are parsed into fixed-size key containers by the wire codec;
//! the agreement facade verifies that the two operands carry the same supported
//! curve type before delegating the scalar multiplication to the curve primitive.

mod curve;
mod errors;
mod keys;

pub use curve::Curve;
pub use curve::agreement_of;
pub use curve::base_point_seq;
pub use curve::decode_point_err_msg;
pub use curve::decode_point_ok;
pub use curve::lemma_agreement_deterministic;
pub use curve::lemma_concrete_keys_always_compatible;
pub use curve::lemma_private_point_round_trip;
pub use errors::InvalidKeyError;
pub use errors::bad_key_length_msg;
pub use errors::bad_key_type_msg;
pub use errors::dec_rep;
pub use errors::digit_char;
pub use errors::no_key_type_msg;
pub use errors::private_decode_err_msg;
pub use errors::type_mismatch_msg;
pub use keys::DJB_TYPE;
pub use keys::ECPrivateKey;
pub use keys::ECPublicKey;
pub use keys::KeyPair;
pub use keys::PrivateKey;
pub use keys::PublicKey;
