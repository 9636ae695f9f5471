use vstd::prelude::*;

use crate::types::{AlgorithmId, AlgorithmIdV, PublicKeyInfo, PublicKeyInfoV, Serial};

verus! {

/// Private key material with information about the private key's algorithm.
/// The encrypted key payload rides in the same shape as a public key bit
/// string, so that the generic public-key-info container can carry it.
#[derive(Debug, Clone, PartialEq, Eq)]
pub struct PrivateKeyInfo {
    pub algorithm: AlgorithmId,
    pub encrypted_private_key_bitstring: Vec<u8>,
}

#[verifier::ext_equal]
pub ghost struct PrivateKeyInfoV {
    pub algorithm: AlgorithmIdV,
    pub encrypted_private_key_bitstring: Seq<u8>,
}

impl View for PrivateKeyInfo {
    type V = PrivateKeyInfoV;

    open spec fn view(&self) -> PrivateKeyInfoV {
        PrivateKeyInfoV {
            algorithm: self.algorithm@,
            encrypted_private_key_bitstring: self.encrypted_private_key_bitstring@,
        }
    }
}

impl PrivateKeyInfo {
    /// Reads the algorithm and payload out of the public-key-info carrier,
    /// field for field.
    pub fn from_public_key_info(value: PublicKeyInfo) -> (r: PrivateKeyInfo)
        ensures
            r@.algorithm == value@.algorithm,
            r@.encrypted_private_key_bitstring == value@.public_key,
    {
        PrivateKeyInfo {
            algorithm: value.algorithm,
            encrypted_private_key_bitstring: value.public_key,
        }
    }

    /// Hands the algorithm and payload to the public-key-info carrier, field
    /// for field, so that the carrier's encodings round-trip this value.
    pub fn to_public_key_info(self) -> (r: PublicKeyInfo)
        ensures
            r@.algorithm == self@.algorithm,
            r@.public_key == self@.encrypted_private_key_bitstring,
    {
        PublicKeyInfo {
            algorithm: self.algorithm,
            public_key: self.encrypted_private_key_bitstring,
        }
    }
}

/// Encrypted private key material stored on a home server: a serial number,
/// the encrypted key payload with its own algorithm, and the algorithm the
/// payload was encrypted under.
#[derive(Debug, Clone, PartialEq, Eq)]
pub struct EncryptedPkm {
    pub serial_number: Serial,
    pub key_data: PrivateKeyInfo,
    pub encryption_algorithm: AlgorithmId,
}

} // verus!
