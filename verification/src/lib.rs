//! A restricted profile of X.509v3 certificates binding a cryptographic
//! identity to a federated actor or to a home-server certificate authority.
//!
//! The crate models the certificate body, the signed certificate and the
//! signing request as plain typed values, converts typed extension values to
//! and from their ASN.1 shapes, and enforces the profile's structural rules
//! per validation target. The generic ASN.1/DER/PEM machinery is supplied by
//! external codec crates and reached through a narrow trusted boundary.

pub mod capabilities;
pub mod errors;
pub mod idcert;
pub mod keys;
pub mod pkm;
pub mod types;
pub mod wire;

pub use capabilities::{
    AnyValue, Attribute, BasicConstraints, Capabilities, ExtensionValue, KeyUsage,
};
pub use errors::{ConstraintError, ConversionError, InvalidInput};
pub use idcert::{IdCert, IdCertTbs, IdCsr, IdCsrInner, Target};
pub use keys::{PrivateKey, PublicKey, Signature};
pub use pkm::{EncryptedPkm, PrivateKeyInfo};
pub use types::{AlgorithmId, Name, PublicKeyInfo, Serial, ValidityPeriod};
