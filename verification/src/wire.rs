//! The trusted boundary to the external ASN.1/X.509 codec crates.
//!
//! Everything the profile's logic reads is carried as plain values, and each
//! function here makes one conversion or codec call into the external
//! crates. Every encoding and parse here is a function of its arguments
//! alone, so each fallible call's success condition is given a name (a spec
//! function without a body) and the wrapper's contract states success as an
//! equivalence over that name; nothing else is claimed of the results. The
//! certificate container's generic profile parameter cannot be declared to
//! the verifier, so containers of that shape are held opaquely in structs
//! with a single private field.

use vstd::prelude::*;

use der::{Decode, Encode, EncodePem};
use core::str::FromStr;

use crate::capabilities::{ExtensionValue, ExtensionValueV, spec_extensions_view};
use crate::errors::ConversionError;
use crate::idcert::{TbsData, TbsDataV};
use crate::types::{AlgorithmId, AlgorithmIdV, PublicKeyInfo, PublicKeyInfoV, ValidityPeriod};

verus! {

#[verifier::external_type_specification]
#[verifier::external_body]
pub struct ExRdnSequence(x509_cert::name::RdnSequence);

#[verifier::external_type_specification]
#[verifier::external_body]
pub struct ExValidity(x509_cert::time::Validity);

#[verifier::external_type_specification]
#[verifier::external_body]
pub struct ExExtension(x509_cert::ext::Extension);

#[verifier::external_type_specification]
#[verifier::external_body]
#[verifier::reject_recursive_types(Params)]
pub struct ExAlgorithmIdentifier<Params>(spki::AlgorithmIdentifier<Params>);

#[verifier::external_type_specification]
#[verifier::external_body]
#[verifier::reject_recursive_types(Params)]
#[verifier::reject_recursive_types(Key)]
pub struct ExSubjectPublicKeyInfo<Params, Key>(spki::SubjectPublicKeyInfo<Params, Key>);

#[verifier::external_type_specification]
#[verifier::external_body]
pub struct ExAny(der::Any);

#[verifier::external_type_specification]
#[verifier::external_body]
pub struct ExBitString(der::asn1::BitString);

#[verifier::external_type_specification]
#[verifier::external_body]
pub struct ExLineEnding(der::pem::LineEnding);

/// An X.509 serial number of the external container type, held opaquely.
#[verifier::external_body]
pub struct X509Serial {
    inner: x509_cert::serial_number::SerialNumber,
}

/// An X.509 to-be-signed certificate of the external container type, held
/// opaquely.
#[verifier::external_body]
pub struct X509Tbs {
    inner: x509_cert::TbsCertificate,
}

/// An X.509 certificate of the external container type, held opaquely.
#[verifier::external_body]
pub struct X509Certificate {
    inner: x509_cert::Certificate,
}

/// Whether `x509_cert::serial_number::SerialNumber::new` accepts these
/// unsigned big-endian octets.
pub uninterp spec fn spec_serial_encodable(bytes: Seq<u8>) -> bool;

/// Whether `x509_cert::name::RdnSequence::from_str` parses this RFC 4514
/// name string.
pub uninterp spec fn spec_name_parses(s: Seq<char>) -> bool;

/// Whether `der::asn1::GeneralizedTime::from_unix_duration` accepts this
/// instant, in seconds since the Unix epoch.
pub uninterp spec fn spec_time_encodable(seconds: u64) -> bool;

/// Whether `der::asn1::ObjectIdentifier::from_bytes` accepts these OID
/// octets.
pub uninterp spec fn spec_oid_encodable(oid: Seq<u8>) -> bool;

/// Whether `der::Any::from_der` parses these octets as one DER value.
pub uninterp spec fn spec_any_parses(bytes: Seq<u8>) -> bool;

/// Whether `der::asn1::BitString::from_bytes` accepts these octets.
pub uninterp spec fn spec_bitstring_encodable(bytes: Seq<u8>) -> bool;

/// Whether `der::asn1::OctetString::new` accepts these octets.
pub uninterp spec fn spec_octets_encodable(bytes: Seq<u8>) -> bool;

/// What parsing these octets as an X.509 certificate container and reading
/// the signed body's core fields out as plain values yields, if it parses:
/// serial octets, signature algorithm, issuer, validity bounds, subject.
pub uninterp spec fn spec_parsed_tbs_core(bytes: Seq<u8>) -> Option<
    (Seq<u8>, AlgorithmIdV, Seq<char>, u64, u64, Seq<char>),
>;

/// What parsing these octets and reading the signed body's subject public
/// key info and extension list out as plain values yields, if it parses.
pub uninterp spec fn spec_parsed_tbs_key(bytes: Seq<u8>) -> Option<
    (PublicKeyInfoV, Seq<ExtensionValueV>),
>;

/// The signed body as plain values, when both parts of the same parse read
/// out, assembled.
pub open spec fn spec_parsed_tbs(bytes: Seq<u8>) -> Option<TbsDataV> {
    match (spec_parsed_tbs_core(bytes), spec_parsed_tbs_key(bytes)) {
        (Some(c), Some(k)) => Some(
            TbsDataV {
                serial_number: c.0,
                signature_algorithm: c.1,
                issuer: c.2,
                validity: ValidityPeriod { not_before: c.3, not_after: c.4 },
                subject: c.5,
                subject_public_key_info: k.0,
                extensions: k.1,
            },
        ),
        _ => None,
    }
}

/// What parsing these octets as an X.509 certificate container and reading
/// its outer signature algorithm and raw signature octets yields, if it
/// parses.
pub uninterp spec fn spec_parsed_outer(bytes: Seq<u8>) -> Option<(AlgorithmIdV, Seq<u8>)>;

/// What stripping this text's PEM armor yields, if it is well-formed PEM:
/// the type label and the DER octets.
pub uninterp spec fn spec_pem_decoded(s: Seq<char>) -> Option<(Seq<char>, Seq<u8>)>;

/// Relies on `x509_cert::serial_number::SerialNumber::new`: builds a serial
/// number from unsigned big-endian octets, failing on values whose encoding
/// needs more than 20 octets.
#[verifier::external_body]
pub(crate) fn mk_serial(bytes: &[u8]) -> (r: Result<X509Serial, ConversionError>)
    ensures
        r is Ok <==> spec_serial_encodable(bytes@),
        r matches Err(e) ==> e@ == crate::errors::ConversionErrorV::Encode,
{
    let inner = x509_cert::serial_number::SerialNumber::new(bytes).map_err(
        |_| ConversionError::Encode,
    )?;
    Ok(X509Serial { inner })
}

/// Relies on `x509_cert::name::RdnSequence::from_str`: parses an RFC 4514
/// name string into a distinguished name.
#[verifier::external_body]
pub(crate) fn mk_name(s: &str) -> (r: Result<x509_cert::name::RdnSequence, ConversionError>)
    ensures
        r is Ok <==> spec_name_parses(s@),
        r matches Err(e) ==> e@ == crate::errors::ConversionErrorV::Encode,
{
    x509_cert::name::RdnSequence::from_str(s).map_err(|_| ConversionError::Encode)
}

/// Relies on `der::asn1::GeneralizedTime::from_unix_duration`: builds a
/// validity period from seconds since the Unix epoch, failing on instants
/// past year 9999.
#[verifier::external_body]
pub(crate) fn mk_validity(not_before: u64, not_after: u64) -> (r: Result<
    x509_cert::time::Validity,
    ConversionError,
>)
    ensures
        r is Ok <==> (spec_time_encodable(not_before) && spec_time_encodable(not_after)),
        r matches Err(e) ==> e@ == crate::errors::ConversionErrorV::Encode,
{
    let nb = der::asn1::GeneralizedTime::from_unix_duration(
        core::time::Duration::from_secs(not_before),
    ).map_err(|_| ConversionError::Encode)?;
    let na = der::asn1::GeneralizedTime::from_unix_duration(
        core::time::Duration::from_secs(not_after),
    ).map_err(|_| ConversionError::Encode)?;
    Ok(x509_cert::time::Validity {
        not_before: x509_cert::time::Time::GeneralTime(nb),
        not_after: x509_cert::time::Time::GeneralTime(na),
    })
}

/// Relies on `der::asn1::ObjectIdentifier::from_bytes` and `der::Any::from_der`:
/// builds an algorithm identifier from OID octets and optional DER parameters.
#[verifier::external_body]
pub(crate) fn mk_algorithm(a: &AlgorithmId) -> (r: Result<
    spki::AlgorithmIdentifier<der::Any>,
    ConversionError,
>)
    ensures
        r is Ok <==> (spec_oid_encodable(a@.oid) && (a@.parameters matches Some(p) ==> spec_any_parses(p))),
        r matches Err(e) ==> e@ == crate::errors::ConversionErrorV::Encode,
{
    let oid = der::asn1::ObjectIdentifier::from_bytes(a.oid.as_slice()).map_err(
        |_| ConversionError::Encode,
    )?;
    let parameters = match &a.parameters {
        None => None,
        Some(p) => Some(der::Any::from_der(p.as_slice()).map_err(|_| ConversionError::Encode)?),
    };
    Ok(spki::AlgorithmIdentifier { oid, parameters })
}

/// Relies on `der::asn1::BitString::from_bytes`: builds a
/// subject-public-key-info value from an algorithm and the raw key octets.
#[verifier::external_body]
pub(crate) fn mk_spki(
    algorithm: spki::AlgorithmIdentifier<der::Any>,
    key: &[u8],
) -> (r: Result<spki::SubjectPublicKeyInfo<der::Any, der::asn1::BitString>, ConversionError>)
    ensures
        r is Ok <==> spec_bitstring_encodable(key@),
        r matches Err(e) ==> e@ == crate::errors::ConversionErrorV::Encode,
{
    let subject_public_key = der::asn1::BitString::from_bytes(key).map_err(
        |_| ConversionError::Encode,
    )?;
    Ok(spki::SubjectPublicKeyInfo { algorithm, subject_public_key })
}

/// Relies on `der::asn1::ObjectIdentifier::from_bytes` and
/// `der::asn1::OctetString::new`: builds an X.509 extension from the typed
/// extension value's OID octets, criticality and value octets.
#[verifier::external_body]
pub(crate) fn mk_extension(e: &ExtensionValue) -> (r: Result<
    x509_cert::ext::Extension,
    ConversionError,
>)
    ensures
        r is Ok <==> (spec_oid_encodable(e@.oid) && spec_octets_encodable(e@.value)),
        r matches Err(e) ==> e@ == crate::errors::ConversionErrorV::Encode,
{
    Ok(x509_cert::ext::Extension {
        extn_id: der::asn1::ObjectIdentifier::from_bytes(e.oid.as_slice()).map_err(
            |_| ConversionError::Encode,
        )?,
        critical: e.critical,
        extn_value: der::asn1::OctetString::new(e.value.as_slice()).map_err(
            |_| ConversionError::Encode,
        )?,
    })
}

/// Assembles the external to-be-signed certificate container, version 3,
/// from its pre-built components. Pure assembly; no call is made.
#[verifier::external_body]
pub(crate) fn mk_tbs(
    serial: X509Serial,
    algorithm: spki::AlgorithmIdentifier<der::Any>,
    issuer: x509_cert::name::RdnSequence,
    validity: x509_cert::time::Validity,
    subject: x509_cert::name::RdnSequence,
    key_info: spki::SubjectPublicKeyInfo<der::Any, der::asn1::BitString>,
    extensions: Vec<x509_cert::ext::Extension>,
) -> (r: X509Tbs) {
    X509Tbs {
        inner: x509_cert::TbsCertificate {
            version: x509_cert::certificate::Version::V3,
            serial_number: serial.inner,
            signature: algorithm,
            issuer,
            validity,
            subject,
            subject_public_key_info: key_info,
            issuer_unique_id: None,
            subject_unique_id: None,
            extensions: Some(extensions),
        },
    }
}

/// Relies on `der::asn1::BitString::from_bytes`: assembles the external
/// certificate container from the signed body, the outer algorithm and the
/// raw signature octets.
#[verifier::external_body]
pub(crate) fn mk_certificate(
    tbs: X509Tbs,
    algorithm: spki::AlgorithmIdentifier<der::Any>,
    signature: &[u8],
) -> (r: Result<X509Certificate, ConversionError>)
    ensures
        r is Ok <==> spec_bitstring_encodable(signature@),
        r matches Err(e) ==> e@ == crate::errors::ConversionErrorV::Encode,
{
    let signature = der::asn1::BitString::from_bytes(signature).map_err(
        |_| ConversionError::Encode,
    )?;
    Ok(X509Certificate {
        inner: x509_cert::Certificate { tbs_certificate: tbs.inner, signature_algorithm: algorithm, signature },
    })
}

/// Relies on `der::Encode::to_der` of the to-be-signed container: its exact
/// DER encoding, the input to signing.
#[verifier::external_body]
pub(crate) fn tbs_to_der(t: &X509Tbs) -> (r: Result<Vec<u8>, ConversionError>)
    ensures
        r matches Err(e) ==> e@ == crate::errors::ConversionErrorV::Encode,
{
    t.inner.to_der().map_err(|_| ConversionError::Encode)
}

/// Relies on `der::Encode::to_der` of the certificate container.
#[verifier::external_body]
pub(crate) fn cert_to_der(c: &X509Certificate) -> (r: Result<Vec<u8>, ConversionError>)
    ensures
        r matches Err(e) ==> e@ == crate::errors::ConversionErrorV::Encode,
{
    c.inner.to_der().map_err(|_| ConversionError::Encode)
}

/// Relies on `der::EncodePem::to_pem` of the certificate container.
#[verifier::external_body]
pub(crate) fn cert_to_pem(c: &X509Certificate, line_ending: der::pem::LineEnding) -> (r: Result<
    String,
    ConversionError,
>)
    ensures
        r matches Err(e) ==> e@ == crate::errors::ConversionErrorV::Encode,
{
    c.inner.to_pem(line_ending).map_err(|_| ConversionError::Encode)
}

/// Relies on `der::Decode::from_der` of the certificate container and the
/// accessors of its signed body (`SerialNumber::as_bytes`, the `Display`
/// form of `RdnSequence`, `Time::to_unix_duration`,
/// `ObjectIdentifier::as_bytes`, `der::Encode::to_der` of the parameters):
/// parses the octets and reads the body's core fields out as plain values.
#[verifier::external_body]
pub(crate) fn parse_tbs_core(value: &[u8]) -> (r: Result<
    (Vec<u8>, AlgorithmId, String, u64, u64, String),
    ConversionError,
>)
    ensures
        r matches Ok(c) ==> (spec_parsed_tbs_core(value@) matches Some(q) && q.0 == c.0@ && q.1
            == c.1@ && q.2 == c.2@ && q.3 == c.3 && q.4 == c.4 && q.5 == c.5@),
        r is Ok <==> spec_parsed_tbs_core(value@) is Some,
        r matches Err(e) ==> e@ == crate::errors::ConversionErrorV::Decode,
{
    let t = x509_cert::Certificate::from_der(value).map_err(|_| ConversionError::Decode)?.tbs_certificate;
    let parameters = t.signature.parameters.as_ref().map(|p| p.to_der()).transpose().map_err(|_| ConversionError::Decode)?;
    Ok((
        t.serial_number.as_bytes().to_vec(),
        AlgorithmId { oid: t.signature.oid.as_bytes().to_vec(), parameters },
        t.issuer.to_string(),
        t.validity.not_before.to_unix_duration().as_secs(),
        t.validity.not_after.to_unix_duration().as_secs(),
        t.subject.to_string(),
    ))
}

/// Relies on `der::Decode::from_der` of the certificate container,
/// `BitString::raw_bytes`, `OctetString::into_bytes` and the algorithm
/// accessors: parses the octets and reads the body's subject public key
/// info and extension list out as plain values, one for one.
#[verifier::external_body]
pub(crate) fn parse_tbs_key(value: &[u8]) -> (r: Result<
    (PublicKeyInfo, Vec<ExtensionValue>),
    ConversionError,
>)
    ensures
        r matches Ok(c) ==> (spec_parsed_tbs_key(value@) matches Some(q) && q.0 == c.0@ && q.1
            == spec_extensions_view(c.1@)),
        r is Ok <==> spec_parsed_tbs_key(value@) is Some,
        r matches Err(e) ==> e@ == crate::errors::ConversionErrorV::Decode,
{
    let t = x509_cert::Certificate::from_der(value).map_err(|_| ConversionError::Decode)?.tbs_certificate;
    let k = t.subject_public_key_info;
    let parameters = k.algorithm.parameters.as_ref().map(|p| p.to_der()).transpose().map_err(|_| ConversionError::Decode)?;
    let key = PublicKeyInfo { algorithm: AlgorithmId { oid: k.algorithm.oid.as_bytes().to_vec(), parameters }, public_key: k.subject_public_key.raw_bytes().to_vec() };
    let extensions = t.extensions.unwrap_or_default().into_iter().map(|x| ExtensionValue { oid: x.extn_id.as_bytes().to_vec(), critical: x.critical, value: x.extn_value.into_bytes() }).collect();
    Ok((key, extensions))
}

/// Relies on `der::Decode::from_der` of the certificate container,
/// `ObjectIdentifier::as_bytes`, `der::Encode::to_der` of the parameters and
/// `BitString::raw_bytes`: parses the octets and reads the outer signature
/// algorithm and the raw signature octets out as plain values.
#[verifier::external_body]
pub(crate) fn parse_outer(value: &[u8]) -> (r: Result<(AlgorithmId, Vec<u8>), ConversionError>)
    ensures
        r matches Ok(p) ==> (spec_parsed_outer(value@) matches Some(q) && q.0 == p.0@ && q.1
            == p.1@),
        r is Ok <==> spec_parsed_outer(value@) is Some,
        r matches Err(e) ==> e@ == crate::errors::ConversionErrorV::Decode,
{
    let c = x509_cert::Certificate::from_der(value).map_err(|_| ConversionError::Decode)?;
    let parameters = c.signature_algorithm.parameters.as_ref().map(|p| p.to_der()).transpose().map_err(|_| ConversionError::Decode)?;
    Ok((AlgorithmId { oid: c.signature_algorithm.oid.as_bytes().to_vec(), parameters }, c.signature.raw_bytes().to_vec()))
}

/// Relies on `der::pem::decode_vec`: strips the PEM armor, returning the
/// type label and the DER octets.
#[verifier::external_body]
pub(crate) fn pem_to_der(pem: &str) -> (r: Result<(String, Vec<u8>), ConversionError>)
    ensures
        r matches Ok(p) ==> (spec_pem_decoded(pem@) matches Some(q) && q.0 == p.0@ && q.1
            == p.1@),
        r is Ok <==> spec_pem_decoded(pem@) is Some,
        r matches Err(e) ==> e@ == crate::errors::ConversionErrorV::Decode,
{
    let (label, data) = der::pem::decode_vec(pem.as_bytes()).map_err(|_| ConversionError::Decode)?;
    Ok((label.to_owned(), data))
}

} // verus!
