use vstd::prelude::*;

use crate::errors::ConversionError;
use crate::types::{AlgorithmId, AlgorithmIdV, PublicKeyInfo, PublicKeyInfoV};

verus! {

/// An opaque, algorithm-tagged signature value. A signature converts to and
/// from its raw octets and exposes the algorithm identifier it was produced
/// under; everything above the capability abstraction is generic over it.
pub trait Signature: Sized {
    /// The raw octets this signature stands for.
    spec fn bytes(&self) -> Seq<u8>;

    /// The algorithm this signature was produced under.
    spec fn alg(&self) -> AlgorithmIdV;

    /// The algorithm identifier this signature was produced under.
    fn algorithm_identifier(&self) -> (r: AlgorithmId)
        ensures
            r@ == self.alg(),
    ;

    /// The raw octets, for embedding in a certificate's bit string.
    fn to_bytes(&self) -> (r: Vec<u8>)
        ensures
            r@ == self.bytes(),
    ;

    /// Rebuilds a signature from raw octets. This direction is total: any
    /// octets form a signature value, whether or not it verifies.
    fn from_bytes(bytes: &[u8]) -> (r: Self)
        ensures
            r.bytes() == bytes@,
    ;
}

/// A public key able to verify signatures of type `S`.
pub trait PublicKey<S: Signature>: Sized {
    /// The key's content: algorithm and raw key octets.
    spec fn info(&self) -> PublicKeyInfoV;

    /// The key as a subject-public-key-info value.
    fn public_key_info(&self) -> (r: PublicKeyInfo)
        ensures
            r@ == self.info(),
    ;

    /// Rebuilds a key from a subject-public-key-info value. Fails when the
    /// info names an algorithm or key shape this key type cannot hold, but
    /// must succeed on the info of any value of this key type.
    fn try_from_public_key_info(info: &PublicKeyInfo) -> (r: Result<Self, ConversionError>)
        ensures
            r matches Ok(k) ==> k.info() == info@,
            forall|k: Self| info@ == k.info() ==> (r matches Ok(k2) && k2.info() == info@),
    ;

    /// Whether `signature` is a valid signature by this key over `data`.
    /// Purely cryptographic; no contract is stated.
    fn verify_signature(&self, signature: &S, data: &[u8]) -> bool;
}

/// A private key able to produce signatures of type `S`, paired at the type
/// level with the public key type that verifies them.
pub trait PrivateKey<S: Signature>: Sized {
    /// The public key type that verifies this key's signatures.
    type PublicKey: PublicKey<S>;

    /// The algorithm this key signs under.
    spec fn alg(&self) -> AlgorithmIdV;

    /// The algorithm identifier this key signs under.
    fn algorithm_identifier(&self) -> (r: AlgorithmId)
        ensures
            r@ == self.alg(),
    ;

    /// The public key paired with this private key.
    fn pubkey(&self) -> &Self::PublicKey;

    /// Signs a byte sequence. Signing does not fail for well-formed input;
    /// the value produced is purely cryptographic and carries no contract.
    fn sign(&self, data: &[u8]) -> S;
}

} // verus!
