//! Keys and signatures of the secp256k1 curve. The library carries them as
//! they are and looks inside none of them.

use vstd::prelude::*;

verus! {

/// Declares [`secp256k1::PublicKey`], with nothing said of what it holds.
#[verifier::external_type_specification]
#[verifier::external_body]
pub struct ExPublicKey(secp256k1::PublicKey);

/// Declares [`secp256k1::XOnlyPublicKey`], with nothing said of what it holds.
#[verifier::external_type_specification]
#[verifier::external_body]
pub struct ExXOnlyPublicKey(secp256k1::XOnlyPublicKey);

/// Declares [`secp256k1::schnorr::Signature`], with nothing said of what it
/// holds.
#[verifier::external_type_specification]
#[verifier::external_body]
pub struct ExSchnorrSignature(secp256k1::schnorr::Signature);

} // verus!
