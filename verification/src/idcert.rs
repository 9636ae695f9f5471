use vstd::prelude::*;
use vstd::slice::slice_to_vec;

use crate::capabilities::{
    Capabilities, CapabilitiesV, ExtensionValue, ExtensionValueV, KeyUsage,
    lemma_capabilities_round_trip, spec_decode_capabilities, spec_encode_capabilities,
};
use crate::errors::{ConstraintError, ConversionError, ConversionErrorV};
use crate::keys::{PrivateKey, PublicKey, Signature};
use crate::types::{
    AlgorithmId, AlgorithmIdV, Name, PublicKeyInfo, PublicKeyInfoV, Serial, ValidityPeriod,
    spec_name_ok, spec_serial_ok, spec_validity_ok,
};
use crate::wire;
use crate::wire::{
    spec_any_parses, spec_bitstring_encodable, spec_name_parses, spec_octets_encodable,
    spec_oid_encodable, spec_parsed_outer, spec_parsed_tbs, spec_pem_decoded,
    spec_serial_encodable, spec_time_encodable,
};

verus! {

/// The context a certificate is validated for: a certificate authority
/// (a home server) or an end entity (an actor).
#[derive(Debug, Clone, Copy, PartialEq, Eq, Structural)]
pub enum Target {
    /// The certificate certifies a home server: it must assert certificate
    /// authority.
    HomeServer,
    /// The certificate certifies an actor: it must not assert certificate
    /// authority.
    Actor,
}

/// Whether the key usage purposes assert signing of certificates.
pub open spec fn spec_asserts_cert_sign(kus: Seq<KeyUsage>) -> bool {
    exists|i: int| 0 <= i < kus.len() && kus[i] == KeyUsage::KeyCertSign(true)
}

/// The capability rules, per target: asserting key-cert-sign requires the CA
/// flag; a home server must assert the CA flag, an actor must not; with no
/// target, only the target-independent rule is checked.
pub open spec fn spec_validate_capabilities(c: CapabilitiesV, target: Option<Target>) -> Result<
    (),
    ConstraintError,
> {
    if spec_asserts_cert_sign(c.key_usage) && !c.basic_constraints.ca {
        Err(ConstraintError::CertSignWithoutCa)
    } else {
        match target {
            None => Ok(()),
            Some(Target::HomeServer) => if c.basic_constraints.ca {
                Ok(())
            } else {
                Err(ConstraintError::MissingCaFlag)
            },
            Some(Target::Actor) => if c.basic_constraints.ca {
                Err(ConstraintError::UnexpectedCaFlag)
            } else {
                Ok(())
            },
        }
    }
}

impl Capabilities {
    /// Whether the key usage purposes assert signing of certificates.
    pub fn asserts_cert_sign(&self) -> (r: bool)
        ensures
            r == spec_asserts_cert_sign(self@.key_usage),
    {
        let mut i: usize = 0;
        while i < self.key_usage.len()
            invariant
                i <= self.key_usage.len(),
                !spec_asserts_cert_sign(self.key_usage@.take(i as int)),
            decreases self.key_usage.len() - i,
        {
            let ku = self.key_usage[i];
            if matches!(ku, KeyUsage::KeyCertSign(true)) {
                proof {
                    assert(self.key_usage@[i as int] == KeyUsage::KeyCertSign(true));
                }
                return true;
            }
            proof {
                assert(self.key_usage@.take(i as int + 1) =~= self.key_usage@.take(i as int).push(
                    ku,
                ));
                assert forall|j: int| 0 <= j < i as int + 1 implies #[trigger] self.key_usage@.take(
                    i as int + 1,
                )[j] != KeyUsage::KeyCertSign(true) by {
                    if j < i as int {
                        assert(!spec_asserts_cert_sign(self.key_usage@.take(i as int)));
                        assert(self.key_usage@.take(i as int)[j] != KeyUsage::KeyCertSign(true));
                    }
                }
            }
            i += 1;
        }
        proof {
            assert(self.key_usage@.take(self.key_usage@.len() as int) =~= self.key_usage@);
        }
        false
    }

    /// Validates the capabilities against the target, reporting the specific
    /// violated rule.
    pub fn validate(&self, target: Option<Target>) -> (r: Result<(), ConstraintError>)
        ensures
            r == spec_validate_capabilities(self@, target),
    {
        if self.asserts_cert_sign() && !self.basic_constraints.ca {
            return Err(ConstraintError::CertSignWithoutCa);
        }
        match target {
            None => Ok(()),
            Some(Target::HomeServer) => if self.basic_constraints.ca {
                Ok(())
            } else {
                Err(ConstraintError::MissingCaFlag)
            },
            Some(Target::Actor) => if self.basic_constraints.ca {
                Err(ConstraintError::UnexpectedCaFlag)
            } else {
                Ok(())
            },
        }
    }
}

/// The structural content of a to-be-signed certificate, as the validation
/// engine reads it. The subject public key and the algorithm identifier take
/// no part in structural validation and are not included.
#[verifier::ext_equal]
pub ghost struct TbsStructV {
    pub serial_number: Seq<u8>,
    pub issuer: Seq<char>,
    pub validity: ValidityPeriod,
    pub subject: Seq<char>,
    pub capabilities: CapabilitiesV,
}

/// The profile's structural rules, checked in a fixed order: serial number,
/// validity period, issuer name, subject name, then the capability rules for
/// the target. Validation is a pure function of the value and the target and
/// reports the first violated rule.
pub open spec fn spec_validate_tbs(v: TbsStructV, target: Option<Target>) -> Result<
    (),
    ConstraintError,
> {
    if !spec_serial_ok(v.serial_number) {
        Err(ConstraintError::InvalidSerialNumber)
    } else if !spec_validity_ok(v.validity) {
        Err(ConstraintError::InvalidValidity)
    } else if !spec_name_ok(v.issuer) {
        Err(ConstraintError::EmptyIssuer)
    } else if !spec_name_ok(v.subject) {
        Err(ConstraintError::EmptySubject)
    } else {
        spec_validate_capabilities(v.capabilities, target)
    }
}

/// The to-be-signed body of an ID-Cert: serial number, signature algorithm,
/// issuer, validity period, subject, subject public key and capabilities.
/// Immutable once constructed; signed exactly once to produce a certificate.
#[derive(Debug, Clone, PartialEq, Eq)]
pub struct IdCertTbs<P> {
    pub serial_number: Serial,
    pub signature_algorithm: AlgorithmId,
    pub issuer: Name,
    pub validity: ValidityPeriod,
    pub subject: Name,
    pub subject_public_key: P,
    pub capabilities: Capabilities,
}

impl<P> IdCertTbs<P> {
    /// The structural content the validation engine reads.
    pub open spec fn struct_view(&self) -> TbsStructV {
        TbsStructV {
            serial_number: self.serial_number@,
            issuer: self.issuer@,
            validity: self.validity,
            subject: self.subject@,
            capabilities: self.capabilities@,
        }
    }

    /// Validates the body against the profile's structural rules for the
    /// target. Never mutates its input and performs no input/output.
    pub fn validate(&self, target: Option<Target>) -> (r: Result<(), ConstraintError>)
        ensures
            r == spec_validate_tbs(self.struct_view(), target),
    {
        if !self.serial_number.is_ok() {
            return Err(ConstraintError::InvalidSerialNumber);
        }
        if !self.validity.is_ok() {
            return Err(ConstraintError::InvalidValidity);
        }
        if !self.issuer.is_ok() {
            return Err(ConstraintError::EmptyIssuer);
        }
        if !self.subject.is_ok() {
            return Err(ConstraintError::EmptySubject);
        }
        self.capabilities.validate(target)
    }

    /// Whether the instant falls within the validity period.
    pub fn valid_at(&self, time: u64) -> (r: bool)
        ensures
            r == (self.validity.not_before <= time && time <= self.validity.not_after),
    {
        self.validity.contains(time)
    }
}

/// A signed ID-Cert: the to-be-signed body together with the signature the
/// issuing authority produced over the body's DER encoding. Certificates are
/// immutable value types once constructed.
#[derive(Debug, Clone, PartialEq, Eq)]
pub struct IdCert<S, P> {
    /// The to-be-signed body.
    pub id_cert_tbs: IdCertTbs<P>,
    /// The signature over the body's DER encoding.
    pub signature: S,
}

impl<S, P> IdCert<S, P> {
    /// Validates the certificate against the profile's structural rules for
    /// the target: serial number, validity period, names, and the capability
    /// rules. With no target, only the target-independent rules are checked.
    pub fn validate(&self, target: Option<Target>) -> (r: Result<(), ConstraintError>)
        ensures
            r == spec_validate_tbs(self.id_cert_tbs.struct_view(), target),
    {
        self.id_cert_tbs.validate(target)
    }

    /// True exactly when the instant falls within the validity period and
    /// the certificate validates against the target. A convenience
    /// predicate: when the reason for failure matters, call `validate`.
    pub fn valid_at(&self, time: u64, target: Option<Target>) -> (r: bool)
        ensures
            r == ({
                &&& self.id_cert_tbs.validity.not_before <= time
                &&& time <= self.id_cert_tbs.validity.not_after
                &&& spec_validate_tbs(self.id_cert_tbs.struct_view(), target) matches Ok(())
            }),
    {
        self.id_cert_tbs.valid_at(time) && self.validate(target).is_ok()
    }
}

/// The inner content of a signing request: the fields the requester asks to
/// have certified.
#[derive(Debug, Clone, PartialEq, Eq)]
pub struct IdCsrInner<P> {
    pub subject: Name,
    pub subject_public_key: P,
    pub capabilities: Capabilities,
}

/// A certificate signing request: the requested subject, public key and
/// capabilities, together with the requester's signature over them.
#[derive(Debug, Clone, PartialEq, Eq)]
pub struct IdCsr<S, P> {
    pub inner_csr: IdCsrInner<P>,
    pub signature: S,
}

/// The request rules, per target: the subject name must satisfy the name
/// rule and the capabilities must match the target.
pub open spec fn spec_validate_csr(subject: Seq<char>, c: CapabilitiesV, target: Option<Target>) -> Result<
    (),
    ConstraintError,
> {
    if !spec_name_ok(subject) {
        Err(ConstraintError::EmptySubject)
    } else {
        spec_validate_capabilities(c, target)
    }
}

impl<S, P> IdCsr<S, P> {
    /// Validates the request against the profile's rules for the target.
    pub fn validate(&self, target: Option<Target>) -> (r: Result<(), ConstraintError>)
        ensures
            r == spec_validate_csr(self.inner_csr.subject@, self.inner_csr.capabilities@, target),
    {
        if !self.inner_csr.subject.is_ok() {
            return Err(ConstraintError::EmptySubject);
        }
        self.inner_csr.capabilities.validate(target)
    }
}

/// The plain content handed to the external to-be-signed container when a
/// body crosses the serialization boundary.
#[derive(Debug, Clone, PartialEq, Eq)]
pub struct TbsData {
    pub serial_number: Vec<u8>,
    pub signature_algorithm: AlgorithmId,
    pub issuer: String,
    pub validity: ValidityPeriod,
    pub subject: String,
    pub subject_public_key_info: PublicKeyInfo,
    pub extensions: Vec<ExtensionValue>,
}

#[verifier::ext_equal]
pub ghost struct TbsDataV {
    pub serial_number: Seq<u8>,
    pub signature_algorithm: AlgorithmIdV,
    pub issuer: Seq<char>,
    pub validity: ValidityPeriod,
    pub subject: Seq<char>,
    pub subject_public_key_info: PublicKeyInfoV,
    pub extensions: Seq<ExtensionValueV>,
}

impl View for TbsData {
    type V = TbsDataV;

    open spec fn view(&self) -> TbsDataV {
        TbsDataV {
            serial_number: self.serial_number@,
            signature_algorithm: self.signature_algorithm@,
            issuer: self.issuer@,
            validity: self.validity,
            subject: self.subject@,
            subject_public_key_info: self.subject_public_key_info@,
            extensions: self.extensions@.map(|i: int, e: ExtensionValue| e@),
        }
    }
}

/// The plain content handed to the external certificate container: the
/// signed body's content, the outer signature algorithm and the raw
/// signature octets.
#[derive(Debug, Clone, PartialEq, Eq)]
pub struct CertData {
    pub tbs: TbsData,
    pub signature_algorithm: AlgorithmId,
    pub signature: Vec<u8>,
}

#[verifier::ext_equal]
pub ghost struct CertDataV {
    pub tbs: TbsDataV,
    pub signature_algorithm: AlgorithmIdV,
    pub signature: Seq<u8>,
}

impl View for CertData {
    type V = CertDataV;

    open spec fn view(&self) -> CertDataV {
        CertDataV { tbs: self.tbs@, signature_algorithm: self.signature_algorithm@, signature: self.signature@ }
    }
}

/// The container data a to-be-signed body lowers to: every field as a plain
/// value, the capabilities encoded as their extension list.
pub open spec fn spec_tbs_data<P>(t: IdCertTbs<P>, key_info: PublicKeyInfoV) -> TbsDataV {
    TbsDataV {
        serial_number: t.serial_number@,
        signature_algorithm: t.signature_algorithm@,
        issuer: t.issuer@,
        validity: t.validity,
        subject: t.subject@,
        subject_public_key_info: key_info,
        extensions: spec_encode_capabilities(t.capabilities@),
    }
}

/// Whether the external codec accepts an algorithm identifier's parts: the
/// OID octets must be encodable and the parameters, when present, must be
/// one parseable DER value.
pub open spec fn spec_algorithm_encodable(a: AlgorithmIdV) -> bool {
    &&& spec_oid_encodable(a.oid)
    &&& (a.parameters matches Some(p) ==> spec_any_parses(p))
}

/// Whether the external codec accepts an extension value's parts.
pub open spec fn spec_extension_encodable(e: ExtensionValueV) -> bool {
    spec_oid_encodable(e.oid) && spec_octets_encodable(e.value)
}

/// Whether the external codec accepts every part of a to-be-signed body's
/// container data: exactly the success condition of lowering it into the
/// external container.
pub open spec fn spec_tbs_encodable(d: TbsDataV) -> bool {
    &&& spec_serial_encodable(d.serial_number)
    &&& spec_algorithm_encodable(d.signature_algorithm)
    &&& spec_name_parses(d.issuer)
    &&& spec_time_encodable(d.validity.not_before)
    &&& spec_time_encodable(d.validity.not_after)
    &&& spec_name_parses(d.subject)
    &&& spec_algorithm_encodable(d.subject_public_key_info.algorithm)
    &&& spec_bitstring_encodable(d.subject_public_key_info.public_key)
    &&& (forall|i: int| 0 <= i < d.extensions.len() ==> spec_extension_encodable(d.extensions[i]))
}

/// Whether the external codec accepts every part of a certificate's
/// container data.
pub open spec fn spec_cert_encodable(d: CertDataV) -> bool {
    &&& spec_tbs_encodable(d.tbs)
    &&& spec_algorithm_encodable(d.signature_algorithm)
    &&& spec_bitstring_encodable(d.signature)
}

/// Whether DER octets lift into a typed certificate over the given key
/// type: they parse as a certificate container, the outer and inner
/// signature algorithms agree, the extension list decodes to capabilities,
/// and the key info is the info of some key of that type.
pub open spec fn spec_der_liftable<S: Signature, P: PublicKey<S>>(bytes: Seq<u8>) -> bool {
    &&& spec_parsed_tbs(bytes) matches Some(td)
    &&& spec_parsed_outer(bytes) matches Some(op)
    &&& td.signature_algorithm == op.0
    &&& spec_decode_capabilities(td.extensions) is Ok
    &&& exists|k: P| k.info() == td.subject_public_key_info
}

/// The structural content a parsed body carries, for validating it before
/// lifting: meaningful when its extension list decodes to capabilities.
pub open spec fn spec_parsed_struct(td: TbsDataV) -> TbsStructV {
    TbsStructV {
        serial_number: td.serial_number,
        issuer: td.issuer,
        validity: td.validity,
        subject: td.subject,
        capabilities: match spec_decode_capabilities(td.extensions) {
            Ok(c) => c,
            Err(_) => arbitrary(),
        },
    }
}

fn copy_bytes(v: &Vec<u8>) -> (r: Vec<u8>)
    ensures
        r@ == v@,
{
    slice_to_vec(v.as_slice())
}

fn copy_algorithm(a: &AlgorithmId) -> (r: AlgorithmId)
    ensures
        r@ == a@,
{
    let r = AlgorithmId {
        oid: copy_bytes(&a.oid),
        parameters: match &a.parameters {
            None => None,
            Some(p) => Some(copy_bytes(p)),
        },
    };
    proof {
        assert(r@ =~= a@);
    }
    r
}

fn bytes_eq(a: &Vec<u8>, b: &Vec<u8>) -> (r: bool)
    ensures
        r == (a@ == b@),
{
    if a.len() != b.len() {
        return false;
    }
    let mut i: usize = 0;
    while i < a.len()
        invariant
            i <= a.len(),
            a@.len() == b@.len(),
            forall|j: int| 0 <= j < i ==> a@[j] == b@[j],
        decreases a.len() - i,
    {
        if a[i] != b[i] {
            return false;
        }
        i += 1;
    }
    proof {
        assert(a@ =~= b@);
    }
    true
}

fn algorithm_eq(a: &AlgorithmId, b: &AlgorithmId) -> (r: bool)
    ensures
        r == (a@ == b@),
{
    let oids = bytes_eq(&a.oid, &b.oid);
    let params = match (&a.parameters, &b.parameters) {
        (None, None) => true,
        (Some(x), Some(y)) => bytes_eq(x, y),
        _ => false,
    };
    let r = oids && params;
    proof {
        if r {
            assert(a@ =~= b@);
        }
    }
    r
}

impl<P> IdCertTbs<P> {
    /// Lowers the body to the plain container data, encoding the
    /// capabilities as their extension list.
    pub fn to_tbs_data<S: Signature>(&self) -> (r: TbsData) where P: PublicKey<S>
        ensures
            r@ == spec_tbs_data(*self, self.subject_public_key.info()),
    {
        let r = TbsData {
            serial_number: copy_bytes(&self.serial_number.bytes),
            signature_algorithm: copy_algorithm(&self.signature_algorithm),
            issuer: self.issuer.value.clone(),
            validity: self.validity,
            subject: self.subject.value.clone(),
            subject_public_key_info: self.subject_public_key.public_key_info(),
            extensions: self.capabilities.to_extensions(),
        };
        proof {
            assert(r@ =~= spec_tbs_data(*self, self.subject_public_key.info()));
        }
        r
    }

    /// The exact DER encoding of the body alone: the input to signing.
    /// The encoding itself is the external codec's work: failure is owed
    /// whenever a lowered part is not encodable, and any failure is the
    /// encode kind.
    pub fn to_der<S: Signature>(&self) -> (r: Result<Vec<u8>, ConversionError>) where P: PublicKey<S>
        ensures
            r matches Err(e) ==> e@ == ConversionErrorV::Encode,
            !spec_tbs_encodable(spec_tbs_data(*self, self.subject_public_key.info())) ==> r is Err,
    {
        let data = self.to_tbs_data::<S>();
        let tbs = tbs_data_to_x509(&data)?;
        wire::tbs_to_der(&tbs)
    }
}

fn tbs_data_to_x509(data: &TbsData) -> (r: Result<wire::X509Tbs, ConversionError>)
    ensures
        r is Ok <==> spec_tbs_encodable(data@),
        r matches Err(e) ==> e@ == ConversionErrorV::Encode,
{
    let serial = wire::mk_serial(data.serial_number.as_slice())?;
    let algorithm = wire::mk_algorithm(&data.signature_algorithm)?;
    let issuer = wire::mk_name(data.issuer.as_str())?;
    let validity = wire::mk_validity(data.validity.not_before, data.validity.not_after)?;
    let subject = wire::mk_name(data.subject.as_str())?;
    let key_algorithm = wire::mk_algorithm(&data.subject_public_key_info.algorithm)?;
    let key_info = wire::mk_spki(key_algorithm, data.subject_public_key_info.public_key.as_slice())?;
    let mut extensions: Vec<x509_cert::ext::Extension> = Vec::new();
    let mut i: usize = 0;
    while i < data.extensions.len()
        invariant
            i <= data.extensions.len(),
            forall|j: int| 0 <= j < i ==> spec_extension_encodable(data@.extensions[j]),
        decreases data.extensions.len() - i,
    {
        proof {
            assert(data@.extensions[i as int] == data.extensions@[i as int]@);
        }
        let ext = wire::mk_extension(&data.extensions[i])?;
        extensions.push(ext);
        i += 1;
    }
    Ok(wire::mk_tbs(serial, algorithm, issuer, validity, subject, key_info, extensions))
}

fn cert_data_to_x509(data: &CertData) -> (r: Result<wire::X509Certificate, ConversionError>)
    ensures
        r is Ok <==> spec_cert_encodable(data@),
        r matches Err(e) ==> e@ == ConversionErrorV::Encode,
{
    let tbs = tbs_data_to_x509(&data.tbs)?;
    let algorithm = wire::mk_algorithm(&data.signature_algorithm)?;
    wire::mk_certificate(tbs, algorithm, data.signature.as_slice())
}

/// The container data a certificate lowers to.
pub open spec fn spec_cert_data<S: Signature, P: PublicKey<S>>(c: IdCert<S, P>) -> CertDataV {
    CertDataV {
        tbs: spec_tbs_data(c.id_cert_tbs, c.id_cert_tbs.subject_public_key.info()),
        signature_algorithm: c.id_cert_tbs.signature_algorithm@,
        signature: c.signature.bytes(),
    }
}

impl<S: Signature, P: PublicKey<S>> IdCert<S, P> {
    /// Lowers the certificate to the plain container data. This direction is
    /// total and performs no semantic validation.
    pub fn to_cert_data(&self) -> (r: CertData)
        ensures
            r@ == spec_cert_data(*self),
    {
        let r = CertData {
            tbs: self.id_cert_tbs.to_tbs_data::<S>(),
            signature_algorithm: copy_algorithm(&self.id_cert_tbs.signature_algorithm),
            signature: self.signature.to_bytes(),
        };
        proof {
            assert(r@ =~= spec_cert_data(*self));
        }
        r
    }

    /// Lifts plain container data into a typed certificate. Fails when the
    /// outer signature algorithm differs from the one in the signed body,
    /// when the extension list does not decode to capabilities, or when the
    /// public key info does not fit the key type; nothing is silently
    /// dropped or mutated.
    pub fn try_from_cert_data(data: &CertData) -> (r: Result<IdCert<S, P>, ConversionError>)
        ensures
            r matches Ok(c) ==> {
                &&& data@.tbs.signature_algorithm == data@.signature_algorithm
                &&& c.id_cert_tbs.serial_number@ == data@.tbs.serial_number
                &&& c.id_cert_tbs.signature_algorithm@ == data@.tbs.signature_algorithm
                &&& c.id_cert_tbs.issuer@ == data@.tbs.issuer
                &&& c.id_cert_tbs.validity == data@.tbs.validity
                &&& c.id_cert_tbs.subject@ == data@.tbs.subject
                &&& c.id_cert_tbs.subject_public_key.info() == data@.tbs.subject_public_key_info
                &&& Ok::<CapabilitiesV, ConversionErrorV>(c.id_cert_tbs.capabilities@)
                    == spec_decode_capabilities(data@.tbs.extensions)
                &&& c.signature.bytes() == data@.signature
            },
            r matches Err(e) ==> {
                ||| (data@.tbs.signature_algorithm != data@.signature_algorithm && e@
                    == ConversionErrorV::AlgorithmMismatch)
                ||| (spec_decode_capabilities(data@.tbs.extensions) matches Err(ce) && e@ == ce)
                ||| !(exists|k: P| k.info() == data@.tbs.subject_public_key_info)
            },
            ({
                &&& data@.tbs.signature_algorithm == data@.signature_algorithm
                &&& spec_decode_capabilities(data@.tbs.extensions) matches Ok(caps)
                &&& exists|k: P| k.info() == data@.tbs.subject_public_key_info
            }) ==> r matches Ok(c),
    {
        if !algorithm_eq(&data.tbs.signature_algorithm, &data.signature_algorithm) {
            return Err(ConversionError::AlgorithmMismatch);
        }
        let capabilities = Capabilities::try_from_extensions(&data.tbs.extensions)?;
        let subject_public_key = match P::try_from_public_key_info(&data.tbs.subject_public_key_info) {
            Ok(k) => k,
            Err(e) => {
                return Err(e);
            },
        };
        let signature = S::from_bytes(data.signature.as_slice());
        Ok(
            IdCert {
                id_cert_tbs: IdCertTbs {
                    serial_number: Serial { bytes: copy_bytes(&data.tbs.serial_number) },
                    signature_algorithm: copy_algorithm(&data.tbs.signature_algorithm),
                    issuer: Name { value: data.tbs.issuer.clone() },
                    validity: data.tbs.validity,
                    subject: Name { value: data.tbs.subject.clone() },
                    subject_public_key,
                    capabilities,
                },
                signature,
            },
        )
    }
}

/// The structural content a certificate issued from these parts will have.
pub open spec fn spec_issuance_view(
    serial_number: Seq<u8>,
    issuer: Seq<char>,
    validity: ValidityPeriod,
    subject: Seq<char>,
    capabilities: CapabilitiesV,
) -> TbsStructV {
    TbsStructV { serial_number, issuer, validity, subject, capabilities }
}

/// The container data of the body that issuance builds: the caller's parts,
/// the signing key's algorithm, and the request's subject, key info and
/// capabilities, the latter encoded as their extension list.
pub open spec fn spec_issuance_data(
    serial_number: Seq<u8>,
    algorithm: AlgorithmIdV,
    issuer: Seq<char>,
    validity: ValidityPeriod,
    subject: Seq<char>,
    key_info: PublicKeyInfoV,
    capabilities: CapabilitiesV,
) -> TbsDataV {
    TbsDataV {
        serial_number,
        signature_algorithm: algorithm,
        issuer,
        validity,
        subject,
        subject_public_key_info: key_info,
        extensions: spec_encode_capabilities(capabilities),
    }
}

impl<S: Signature, P: PublicKey<S>> IdCert<S, P> {
    fn issue<K: PrivateKey<S, PublicKey = P>>(
        id_csr: IdCsr<S, P>,
        signing_key: &K,
        serial_number: Serial,
        issuer: Name,
        validity: ValidityPeriod,
        target: Target,
    ) -> (r: Result<IdCert<S, P>, ConversionError>)
        ensures
            r matches Ok(c) ==> {
                &&& c.id_cert_tbs.struct_view() == spec_issuance_view(
                    serial_number@,
                    issuer@,
                    validity,
                    id_csr.inner_csr.subject@,
                    id_csr.inner_csr.capabilities@,
                )
                &&& c.id_cert_tbs.signature_algorithm@ == signing_key.alg()
                &&& c.id_cert_tbs.subject_public_key == id_csr.inner_csr.subject_public_key
                &&& c.id_cert_tbs.subject_public_key.info() == id_csr.inner_csr.subject_public_key.info()
                &&& spec_validate_tbs(c.id_cert_tbs.struct_view(), Some(target)) matches Ok(())
            },
            spec_validate_tbs(
                spec_issuance_view(
                    serial_number@,
                    issuer@,
                    validity,
                    id_csr.inner_csr.subject@,
                    id_csr.inner_csr.capabilities@,
                ),
                Some(target),
            ) matches Err(ce) ==> r == Err::<IdCert<S, P>, ConversionError>(
                ConversionError::Constraint(ce),
            ),
            r matches Err(e) ==> (match spec_validate_tbs(
                spec_issuance_view(
                    serial_number@,
                    issuer@,
                    validity,
                    id_csr.inner_csr.subject@,
                    id_csr.inner_csr.capabilities@,
                ),
                Some(target),
            ) {
                Err(ce) => e == ConversionError::Constraint(ce),
                Ok(()) => e@ == ConversionErrorV::Encode,
            }),
    {
        let signature_algorithm = signing_key.algorithm_identifier();
        let id_cert_tbs = IdCertTbs::<P> {
            serial_number,
            signature_algorithm,
            issuer,
            validity,
            subject: id_csr.inner_csr.subject,
            subject_public_key: id_csr.inner_csr.subject_public_key,
            capabilities: id_csr.inner_csr.capabilities,
        };
        match id_cert_tbs.validate(Some(target)) {
            Err(e) => {
                return Err(ConversionError::Constraint(e));
            },
            Ok(()) => {},
        }
        let tbs_der = id_cert_tbs.to_der::<S>()?;
        let signature = signing_key.sign(tbs_der.as_slice());
        let cert = IdCert { id_cert_tbs, signature };
        match cert.validate(Some(target)) {
            Err(e) => Err(ConversionError::Constraint(e)),
            Ok(()) => Ok(cert),
        }
    }

    /// Issues a home-server certificate from a signing request: builds the
    /// body from the request's subject, public key and capabilities and the
    /// caller's serial number, issuer and validity, validates it against the
    /// home-server target, signs the body's DER encoding, and re-validates
    /// the assembled certificate before returning it. A certificate that
    /// fails validation is never returned, and a profile violation is always
    /// reported as the violated rule; in particular, a request whose
    /// capabilities do not assert certificate authority is rejected.
    pub fn from_ca_csr<K: PrivateKey<S, PublicKey = P>>(
        id_csr: IdCsr<S, P>,
        signing_key: &K,
        serial_number: Serial,
        issuer: Name,
        validity: ValidityPeriod,
    ) -> (r: Result<IdCert<S, P>, ConversionError>)
        ensures
            r matches Ok(c) ==> {
                &&& c.id_cert_tbs.struct_view() == spec_issuance_view(
                    serial_number@,
                    issuer@,
                    validity,
                    id_csr.inner_csr.subject@,
                    id_csr.inner_csr.capabilities@,
                )
                &&& c.id_cert_tbs.signature_algorithm@ == signing_key.alg()
                &&& c.id_cert_tbs.subject_public_key == id_csr.inner_csr.subject_public_key
                &&& c.id_cert_tbs.subject_public_key.info() == id_csr.inner_csr.subject_public_key.info()
                &&& spec_validate_tbs(c.id_cert_tbs.struct_view(), Some(Target::HomeServer)) matches Ok(())
            },
            spec_validate_tbs(
                spec_issuance_view(
                    serial_number@,
                    issuer@,
                    validity,
                    id_csr.inner_csr.subject@,
                    id_csr.inner_csr.capabilities@,
                ),
                Some(Target::HomeServer),
            ) matches Err(ce) ==> r == Err::<IdCert<S, P>, ConversionError>(
                ConversionError::Constraint(ce),
            ),
            r matches Err(e) ==> (match spec_validate_tbs(
                spec_issuance_view(
                    serial_number@,
                    issuer@,
                    validity,
                    id_csr.inner_csr.subject@,
                    id_csr.inner_csr.capabilities@,
                ),
                Some(Target::HomeServer),
            ) {
                Err(ce) => e == ConversionError::Constraint(ce),
                Ok(()) => e@ == ConversionErrorV::Encode,
            }),
    {
        Self::issue(id_csr, signing_key, serial_number, issuer, validity, Target::HomeServer)
    }

    /// Issues an actor certificate from a signing request, validated against
    /// the actor target: a request whose capabilities assert certificate
    /// authority is rejected, and a profile violation is always reported as
    /// the violated rule.
    pub fn from_actor_csr<K: PrivateKey<S, PublicKey = P>>(
        id_csr: IdCsr<S, P>,
        signing_key: &K,
        serial_number: Serial,
        issuer: Name,
        validity: ValidityPeriod,
    ) -> (r: Result<IdCert<S, P>, ConversionError>)
        ensures
            r matches Ok(c) ==> {
                &&& c.id_cert_tbs.struct_view() == spec_issuance_view(
                    serial_number@,
                    issuer@,
                    validity,
                    id_csr.inner_csr.subject@,
                    id_csr.inner_csr.capabilities@,
                )
                &&& c.id_cert_tbs.signature_algorithm@ == signing_key.alg()
                &&& c.id_cert_tbs.subject_public_key == id_csr.inner_csr.subject_public_key
                &&& c.id_cert_tbs.subject_public_key.info() == id_csr.inner_csr.subject_public_key.info()
                &&& spec_validate_tbs(c.id_cert_tbs.struct_view(), Some(Target::Actor)) matches Ok(())
            },
            spec_validate_tbs(
                spec_issuance_view(
                    serial_number@,
                    issuer@,
                    validity,
                    id_csr.inner_csr.subject@,
                    id_csr.inner_csr.capabilities@,
                ),
                Some(Target::Actor),
            ) matches Err(ce) ==> r == Err::<IdCert<S, P>, ConversionError>(
                ConversionError::Constraint(ce),
            ),
            r matches Err(e) ==> (match spec_validate_tbs(
                spec_issuance_view(
                    serial_number@,
                    issuer@,
                    validity,
                    id_csr.inner_csr.subject@,
                    id_csr.inner_csr.capabilities@,
                ),
                Some(Target::Actor),
            ) {
                Err(ce) => e == ConversionError::Constraint(ce),
                Ok(()) => e@ == ConversionErrorV::Encode,
            }),
    {
        Self::issue(id_csr, signing_key, serial_number, issuer, validity, Target::Actor)
    }

    /// Parses a DER-encoded certificate and, when a target is given,
    /// validates it against that target; a certificate that fails that
    /// validation is never returned. With `None`, the parsed value is
    /// returned unchecked and the caller bears the responsibility of
    /// validating it before trusting it.
    pub fn from_der(value: &[u8], target: Option<Target>) -> (r: Result<IdCert<S, P>, ConversionError>)
        ensures
            (spec_parsed_tbs(value@) is None || spec_parsed_outer(value@) is None) ==> r
                == Err::<IdCert<S, P>, ConversionError>(ConversionError::Decode),
            r matches Ok(c) ==> (target matches Some(t) ==> spec_validate_tbs(
                c.id_cert_tbs.struct_view(),
                Some(t),
            ) matches Ok(())),
            target is None && spec_der_liftable::<S, P>(value@) ==> r is Ok,
            ({
                &&& spec_parsed_tbs(value@) matches Some(td)
                &&& spec_der_liftable::<S, P>(value@)
                &&& target matches Some(t)
                &&& spec_validate_tbs(spec_parsed_struct(td), Some(t)) matches Ok(())
            }) ==> r is Ok,
    {
        let cert = Self::from_der_unchecked(value)?;
        match target {
            None => Ok(cert),
            Some(t) => match cert.validate(Some(t)) {
                Err(e) => Err(ConversionError::Constraint(e)),
                Ok(()) => {
                    proof {
                        match spec_parsed_tbs(value@) {
                            Some(td) => {
                                assert(cert.id_cert_tbs.struct_view() =~= spec_parsed_struct(td));
                            },
                            None => {},
                        }
                    }
                    Ok(cert)
                },
            },
        }
    }

    /// Parses a DER-encoded certificate without validating it; the caller is
    /// responsible for validating the result before trusting it. Success is
    /// owed exactly when the octets parse, the container's signature
    /// algorithms agree, its extension list decodes to capabilities, and the
    /// key info fits the key type; parse failure is the decode kind.
    pub fn from_der_unchecked(value: &[u8]) -> (r: Result<IdCert<S, P>, ConversionError>)
        ensures
            (spec_parsed_tbs(value@) is None || spec_parsed_outer(value@) is None) ==> r
                == Err::<IdCert<S, P>, ConversionError>(ConversionError::Decode),
            r matches Ok(c) ==> (spec_parsed_tbs(value@) matches Some(td) && spec_parsed_outer(
                value@,
            ) matches Some(op) && {
                &&& td.signature_algorithm == op.0
                &&& c.id_cert_tbs.serial_number@ == td.serial_number
                &&& c.id_cert_tbs.signature_algorithm@ == td.signature_algorithm
                &&& c.id_cert_tbs.issuer@ == td.issuer
                &&& c.id_cert_tbs.validity == td.validity
                &&& c.id_cert_tbs.subject@ == td.subject
                &&& c.id_cert_tbs.subject_public_key.info() == td.subject_public_key_info
                &&& Ok::<CapabilitiesV, ConversionErrorV>(c.id_cert_tbs.capabilities@)
                    == spec_decode_capabilities(td.extensions)
                &&& c.signature.bytes() == op.1
            }),
            spec_der_liftable::<S, P>(value@) ==> r is Ok,
    {
        let core = wire::parse_tbs_core(value)?;
        let key = wire::parse_tbs_key(value)?;
        let outer = wire::parse_outer(value)?;
        let tbs = TbsData {
            serial_number: core.0,
            signature_algorithm: core.1,
            issuer: core.2,
            validity: ValidityPeriod { not_before: core.3, not_after: core.4 },
            subject: core.5,
            subject_public_key_info: key.0,
            extensions: key.1,
        };
        proof {
            match spec_parsed_tbs(value@) {
                Some(td) => {
                    assert(tbs@ =~= td);
                },
                None => {},
            }
        }
        let data = CertData { tbs, signature_algorithm: outer.0, signature: outer.1 };
        Self::try_from_cert_data(&data)
    }

    /// Parses a PEM-encoded certificate and, when a target is given,
    /// validates it against that target, as `from_der` does; with `None`,
    /// the parsed value is returned unchecked.
    pub fn from_pem(pem: &str, target: Option<Target>) -> (r: Result<IdCert<S, P>, ConversionError>)
        ensures
            spec_pem_decoded(pem@) is None ==> r == Err::<IdCert<S, P>, ConversionError>(
                ConversionError::Decode,
            ),
            r matches Ok(c) ==> (target matches Some(t) ==> spec_validate_tbs(
                c.id_cert_tbs.struct_view(),
                Some(t),
            ) matches Ok(())),
            ({
                &&& target is None
                &&& spec_pem_decoded(pem@) matches Some(q)
                &&& q.0 == "CERTIFICATE"@
                &&& spec_der_liftable::<S, P>(q.1)
            }) ==> r is Ok,
            ({
                &&& spec_pem_decoded(pem@) matches Some(q)
                &&& q.0 == "CERTIFICATE"@
                &&& spec_parsed_tbs(q.1) matches Some(td)
                &&& spec_der_liftable::<S, P>(q.1)
                &&& target matches Some(t)
                &&& spec_validate_tbs(spec_parsed_struct(td), Some(t)) matches Ok(())
            }) ==> r is Ok,
    {
        let cert = Self::from_pem_unchecked(pem)?;
        proof {
            match spec_pem_decoded(pem@) {
                Some(q) => {
                    match spec_parsed_tbs(q.1) {
                        Some(td) => {
                            if cert.id_cert_tbs.subject_public_key.info()
                                == td.subject_public_key_info {
                                assert(cert.id_cert_tbs.struct_view() =~= spec_parsed_struct(td));
                            }
                        },
                        None => {},
                    }
                },
                None => {},
            }
        }
        match target {
            None => Ok(cert),
            Some(t) => match cert.validate(Some(t)) {
                Err(e) => Err(ConversionError::Constraint(e)),
                Ok(()) => Ok(cert),
            },
        }
    }

    /// Parses a PEM-encoded certificate without validating it; the caller is
    /// responsible for validating the result before trusting it. The PEM
    /// armor must carry the certificate label; success is then owed exactly
    /// as for DER parsing of the framed octets.
    pub fn from_pem_unchecked(pem: &str) -> (r: Result<IdCert<S, P>, ConversionError>)
        ensures
            spec_pem_decoded(pem@) is None ==> r == Err::<IdCert<S, P>, ConversionError>(
                ConversionError::Decode,
            ),
            (spec_pem_decoded(pem@) matches Some(q) && q.0 != "CERTIFICATE"@) ==> r
                == Err::<IdCert<S, P>, ConversionError>(ConversionError::Decode),
            r matches Ok(c) ==> (spec_pem_decoded(pem@) matches Some(q) && {
                &&& q.0 == "CERTIFICATE"@
                &&& spec_parsed_tbs(q.1) matches Some(td)
                &&& c.id_cert_tbs.serial_number@ == td.serial_number
                &&& c.id_cert_tbs.signature_algorithm@ == td.signature_algorithm
                &&& c.id_cert_tbs.issuer@ == td.issuer
                &&& c.id_cert_tbs.validity == td.validity
                &&& c.id_cert_tbs.subject@ == td.subject
                &&& c.id_cert_tbs.subject_public_key.info() == td.subject_public_key_info
                &&& Ok::<CapabilitiesV, ConversionErrorV>(c.id_cert_tbs.capabilities@)
                    == spec_decode_capabilities(td.extensions)
            }),
            ({
                &&& spec_pem_decoded(pem@) matches Some(q)
                &&& q.0 == "CERTIFICATE"@
                &&& spec_der_liftable::<S, P>(q.1)
            }) ==> r is Ok,
    {
        let decoded = wire::pem_to_der(pem)?;
        let expected: String = "CERTIFICATE".to_owned();
        if !(decoded.0 == expected) {
            return Err(ConversionError::Decode);
        }
        Self::from_der_unchecked(decoded.1.as_slice())
    }

    /// Encodes the certificate as DER. This direction performs no semantic
    /// validation: a not-yet-validated value serializes just as a validated
    /// one does, failure is owed whenever a lowered part is not encodable,
    /// and any failure is the encode kind.
    pub fn to_der(self) -> (r: Result<Vec<u8>, ConversionError>)
        ensures
            r matches Err(e) ==> e@ == ConversionErrorV::Encode,
            !spec_cert_encodable(spec_cert_data(self)) ==> r is Err,
    {
        let data = self.to_cert_data();
        let cert = cert_data_to_x509(&data)?;
        wire::cert_to_der(&cert)
    }

    /// Encodes the certificate as PEM with the given line ending. This
    /// direction performs no semantic validation; failure is owed whenever a
    /// lowered part is not encodable, and any failure is the encode kind.
    pub fn to_pem(self, line_ending: der::pem::LineEnding) -> (r: Result<String, ConversionError>)
        ensures
            r matches Err(e) ==> e@ == ConversionErrorV::Encode,
            !spec_cert_encodable(spec_cert_data(self)) ==> r is Err,
    {
        let data = self.to_cert_data();
        let cert = cert_data_to_x509(&data)?;
        wire::cert_to_pem(&cert, line_ending)
    }

    /// The exact DER encoding of the to-be-signed body alone: the bytes the
    /// signature was (or must be) produced over. Encoding the whole
    /// certificate includes the signature itself and is never the signing
    /// input. Failure is owed whenever a lowered part of the body is not
    /// encodable, and any failure is the encode kind.
    pub fn signature_data(&self) -> (r: Result<Vec<u8>, ConversionError>)
        ensures
            r matches Err(e) ==> e@ == ConversionErrorV::Encode,
            !spec_tbs_encodable(
                spec_tbs_data(self.id_cert_tbs, self.id_cert_tbs.subject_public_key.info()),
            ) ==> r is Err,
    {
        self.id_cert_tbs.to_der::<S>()
    }
}

/// Lossless conversion: the container data a certificate lowers to always
/// lifts back. The algorithms agree, the encoded extension list decodes to
/// the certificate's own capabilities, and the key info is the info of its
/// own key, so `try_from_cert_data` on `to_cert_data`'s result succeeds and,
/// by its contract, reproduces every field.
pub proof fn lemma_cert_data_round_trip<S: Signature, P: PublicKey<S>>(c: IdCert<S, P>)
    ensures
        spec_cert_data(c).tbs.signature_algorithm == spec_cert_data(c).signature_algorithm,
        spec_decode_capabilities(spec_cert_data(c).tbs.extensions) == Ok::<
            CapabilitiesV,
            ConversionErrorV,
        >(c.id_cert_tbs.capabilities@),
        exists|k: P| k.info() == spec_cert_data(c).tbs.subject_public_key_info,
{
    lemma_capabilities_round_trip(c.id_cert_tbs.capabilities@);
    assert(c.id_cert_tbs.subject_public_key.info() == spec_cert_data(c).tbs.subject_public_key_info);
}

} // verus!
