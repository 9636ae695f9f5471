use vstd::prelude::*;

verus! {

/// Ways in which an attribute or extension value fails to decode into a
/// typed extension value.
#[derive(Debug, Clone, PartialEq, Eq)]
pub enum InvalidInput {
    /// The attribute does not hold exactly one value.
    NotASingleValue,
    /// The value carries a tag other than the ASN.1 BOOLEAN tag.
    NotABoolean { tag: u8 },
    /// The value octet is not one of `0x00`, `0x01`, `0xFF`.
    MalformedBoolean,
    /// The OID matches no extension value known to this profile.
    UnrecognizedOid { oid: Vec<u8> },
    /// The extension is marked critical, and its OID is not known to this
    /// profile. Ignoring a critical extension would be a profile violation,
    /// so this is reported apart from `UnrecognizedOid`.
    UnknownCriticalExtension { oid: Vec<u8> },
}

/// Mathematical image of `InvalidInput`, with the offending OID as a sequence.
pub ghost enum InvalidInputV {
    NotASingleValue,
    NotABoolean { tag: u8 },
    MalformedBoolean,
    UnrecognizedOid { oid: Seq<u8> },
    UnknownCriticalExtension { oid: Seq<u8> },
}

impl View for InvalidInput {
    type V = InvalidInputV;

    open spec fn view(&self) -> InvalidInputV {
        match self {
            InvalidInput::NotASingleValue => InvalidInputV::NotASingleValue,
            InvalidInput::NotABoolean { tag } => InvalidInputV::NotABoolean { tag: *tag },
            InvalidInput::MalformedBoolean => InvalidInputV::MalformedBoolean,
            InvalidInput::UnrecognizedOid { oid } => InvalidInputV::UnrecognizedOid { oid: oid@ },
            InvalidInput::UnknownCriticalExtension { oid } => InvalidInputV::UnknownCriticalExtension { oid: oid@ },
        }
    }
}

/// A profile rule that a certificate, request or component breaks.
/// Validation always reports the specific violated rule.
#[derive(Debug, Clone, Copy, PartialEq, Eq, Structural)]
pub enum ConstraintError {
    /// The serial number is not a positive integer of at most 20 octets.
    InvalidSerialNumber,
    /// The validity period ends before it begins.
    InvalidValidity,
    /// The issuer name is empty.
    EmptyIssuer,
    /// The subject name is empty.
    EmptySubject,
    /// The key-cert-sign purpose is asserted without certificate authority.
    CertSignWithoutCa,
    /// A home-server certificate must assert certificate authority.
    MissingCaFlag,
    /// An actor certificate must not assert certificate authority.
    UnexpectedCaFlag,
}

/// A failure while converting between this profile's typed model and the
/// generic certificate container or its encodings.
#[derive(Debug, Clone, PartialEq, Eq)]
pub enum ConversionError {
    /// A typed extension value could not be decoded.
    InvalidInput(InvalidInput),
    /// The converted value breaks a profile rule.
    Constraint(ConstraintError),
    /// More than one basic-constraints extension is present.
    DuplicateBasicConstraints,
    /// No basic-constraints extension is present.
    MissingBasicConstraints,
    /// The outer signature algorithm differs from the one in the signed body.
    AlgorithmMismatch,
    /// The external codec could not encode the value.
    Encode,
    /// The external codec could not parse the input.
    Decode,
}

/// Mathematical image of `ConversionError`.
pub ghost enum ConversionErrorV {
    InvalidInput(InvalidInputV),
    Constraint(ConstraintError),
    DuplicateBasicConstraints,
    MissingBasicConstraints,
    AlgorithmMismatch,
    Encode,
    Decode,
}

impl View for ConversionError {
    type V = ConversionErrorV;

    open spec fn view(&self) -> ConversionErrorV {
        match self {
            ConversionError::InvalidInput(e) => ConversionErrorV::InvalidInput(e@),
            ConversionError::Constraint(e) => ConversionErrorV::Constraint(*e),
            ConversionError::DuplicateBasicConstraints => ConversionErrorV::DuplicateBasicConstraints,
            ConversionError::MissingBasicConstraints => ConversionErrorV::MissingBasicConstraints,
            ConversionError::AlgorithmMismatch => ConversionErrorV::AlgorithmMismatch,
            ConversionError::Encode => ConversionErrorV::Encode,
            ConversionError::Decode => ConversionErrorV::Decode,
        }
    }
}

/// Maps a decode result onto its mathematical image, so that contracts can
/// state it in one equation.
pub open spec fn input_result_view<T>(r: Result<T, InvalidInput>) -> Result<T, InvalidInputV> {
    match r {
        Ok(t) => Ok(t),
        Err(e) => Err(e@),
    }
}


} // verus!
