use der::{Decode, Encode};

use vstd::seq::Seq;

use idcert::types::{AlgorithmIdV, PublicKeyInfoV};
use idcert::{
    AlgorithmId, BasicConstraints, Capabilities, ConstraintError, ConversionError, IdCert, IdCsr,
    IdCsrInner, KeyUsage, Name, PrivateKey, PublicKey, PublicKeyInfo, Serial, Signature, Target,
    ValidityPeriod,
};

/// A deliberately weak signature scheme for exercising the generic
/// machinery: the signature is the data with every byte XOR-ed against the
/// key's one-byte secret.
#[derive(Debug, Clone, PartialEq, Eq)]
struct ToySignature(Vec<u8>);

fn toy_algorithm() -> AlgorithmId {
    AlgorithmId { oid: vec![0x2b, 0x65, 0x70], parameters: None }
}

impl Signature for ToySignature {
    fn bytes(&self) -> Seq<u8> {
        unreachable!()
    }

    fn alg(&self) -> AlgorithmIdV {
        unreachable!()
    }

    fn algorithm_identifier(&self) -> AlgorithmId {
        toy_algorithm()
    }

    fn to_bytes(&self) -> Vec<u8> {
        self.0.clone()
    }

    fn from_bytes(bytes: &[u8]) -> Self {
        ToySignature(bytes.to_vec())
    }
}

#[derive(Debug, Clone, PartialEq, Eq)]
struct ToyPublicKey {
    secret: u8,
}

impl PublicKey<ToySignature> for ToyPublicKey {
    fn info(&self) -> PublicKeyInfoV {
        unreachable!()
    }

    fn public_key_info(&self) -> PublicKeyInfo {
        PublicKeyInfo { algorithm: toy_algorithm(), public_key: vec![self.secret] }
    }

    fn try_from_public_key_info(info: &PublicKeyInfo) -> Result<Self, ConversionError> {
        if info.public_key.len() == 1 {
            Ok(ToyPublicKey { secret: info.public_key[0] })
        } else {
            Err(ConversionError::Decode)
        }
    }

    fn verify_signature(&self, signature: &ToySignature, data: &[u8]) -> bool {
        let expected: Vec<u8> = data.iter().map(|b| b ^ self.secret).collect();
        signature.0 == expected
    }
}

#[derive(Debug, Clone, PartialEq, Eq)]
struct ToyPrivateKey {
    secret: u8,
    public: ToyPublicKey,
}

impl ToyPrivateKey {
    fn new(secret: u8) -> Self {
        ToyPrivateKey { secret, public: ToyPublicKey { secret } }
    }
}

impl PrivateKey<ToySignature> for ToyPrivateKey {
    type PublicKey = ToyPublicKey;

    fn alg(&self) -> AlgorithmIdV {
        unreachable!()
    }

    fn algorithm_identifier(&self) -> AlgorithmId {
        toy_algorithm()
    }

    fn pubkey(&self) -> &ToyPublicKey {
        &self.public
    }

    fn sign(&self, data: &[u8]) -> ToySignature {
        ToySignature(data.iter().map(|b| b ^ self.secret).collect())
    }
}

fn ca_capabilities() -> Capabilities {
    Capabilities {
        key_usage: vec![KeyUsage::KeyCertSign(true), KeyUsage::CrlSign(true)],
        basic_constraints: BasicConstraints { ca: true },
    }
}

fn actor_capabilities() -> Capabilities {
    Capabilities {
        key_usage: vec![KeyUsage::DigitalSignature(true)],
        basic_constraints: BasicConstraints { ca: false },
    }
}

fn csr(capabilities: Capabilities, secret: u8) -> IdCsr<ToySignature, ToyPublicKey> {
    IdCsr {
        inner_csr: IdCsrInner {
            subject: Name { value: String::from("CN=subject,DC=example,DC=com") },
            subject_public_key: ToyPublicKey { secret },
            capabilities,
        },
        signature: ToySignature(vec![1, 2, 3]),
    }
}

fn issuer_name() -> Name {
    Name { value: String::from("CN=home server,DC=example,DC=com") }
}

fn window() -> ValidityPeriod {
    ValidityPeriod { not_before: 1_000, not_after: 2_000 }
}

fn issue_ca() -> IdCert<ToySignature, ToyPublicKey> {
    IdCert::from_ca_csr(
        csr(ca_capabilities(), 0x42),
        &ToyPrivateKey::new(0x17),
        Serial { bytes: vec![0x01, 0xfe] },
        issuer_name(),
        window(),
    )
    .unwrap()
}

fn issue_actor() -> IdCert<ToySignature, ToyPublicKey> {
    IdCert::from_actor_csr(
        csr(actor_capabilities(), 0x42),
        &ToyPrivateKey::new(0x17),
        Serial { bytes: vec![0x02] },
        issuer_name(),
        window(),
    )
    .unwrap()
}

#[test]
fn ca_issuance_succeeds_and_validates() {
    let cert = issue_ca();
    assert!(cert.validate(Some(Target::HomeServer)).is_ok());
    assert_eq!(cert.id_cert_tbs.serial_number.bytes, vec![0x01, 0xfe]);
    assert_eq!(cert.id_cert_tbs.issuer.value, issuer_name().value);
    assert_eq!(cert.id_cert_tbs.validity, window());
    assert_eq!(cert.id_cert_tbs.capabilities, ca_capabilities());
    assert_eq!(cert.id_cert_tbs.signature_algorithm, toy_algorithm());
}

#[test]
fn ca_issuance_without_ca_flag_fails() {
    let result = IdCert::from_ca_csr(
        csr(actor_capabilities(), 0x42),
        &ToyPrivateKey::new(0x17),
        Serial { bytes: vec![0x01] },
        issuer_name(),
        window(),
    );
    assert_eq!(result, Err(ConversionError::Constraint(ConstraintError::MissingCaFlag)));
}

#[test]
fn actor_issuance_succeeds_and_validates() {
    let cert = issue_actor();
    assert!(cert.validate(Some(Target::Actor)).is_ok());
    assert!(cert.validate(Some(Target::HomeServer)).is_err());
}

#[test]
fn actor_issuance_with_ca_flag_fails() {
    let result = IdCert::from_actor_csr(
        csr(ca_capabilities(), 0x42),
        &ToyPrivateKey::new(0x17),
        Serial { bytes: vec![0x01] },
        issuer_name(),
        window(),
    );
    assert_eq!(result, Err(ConversionError::Constraint(ConstraintError::UnexpectedCaFlag)));
}

#[test]
fn valid_at_checks_window_and_target() {
    let cert = issue_ca();
    assert!(!cert.valid_at(999, Some(Target::HomeServer)));
    assert!(cert.valid_at(1_000, Some(Target::HomeServer)));
    assert!(cert.valid_at(1_500, Some(Target::HomeServer)));
    assert!(cert.valid_at(2_000, Some(Target::HomeServer)));
    assert!(!cert.valid_at(2_001, Some(Target::HomeServer)));
    assert!(!cert.valid_at(1_500, Some(Target::Actor)));
    assert!(cert.valid_at(1_500, None));
}

#[test]
fn der_round_trip_reproduces_the_certificate() {
    for (cert, target) in [(issue_ca(), Target::HomeServer), (issue_actor(), Target::Actor)] {
        let der = cert.clone().to_der().unwrap();
        let back: IdCert<ToySignature, ToyPublicKey> =
            IdCert::from_der(&der, Some(target)).unwrap();
        assert_eq!(back, cert);
    }
}

#[test]
fn pem_round_trip_reproduces_the_certificate() {
    for (cert, target) in [(issue_ca(), Target::HomeServer), (issue_actor(), Target::Actor)] {
        let pem = cert.clone().to_pem(der::pem::LineEnding::LF).unwrap();
        let back: IdCert<ToySignature, ToyPublicKey> =
            IdCert::from_pem(&pem, Some(target)).unwrap();
        assert_eq!(back, cert);
    }
}

#[test]
fn encoded_certificate_carries_the_given_fields() {
    let cert = issue_ca();
    let der = cert.clone().to_der().unwrap();
    let outer = x509_cert::Certificate::from_der(&der).unwrap();
    assert_eq!(outer.tbs_certificate.serial_number.as_bytes(), &[0x01, 0xfe]);
    assert_eq!(outer.tbs_certificate.issuer.to_string(), issuer_name().value);
    assert_eq!(
        outer.tbs_certificate.validity.not_before.to_unix_duration().as_secs(),
        1_000,
    );
    assert_eq!(
        outer.tbs_certificate.validity.not_after.to_unix_duration().as_secs(),
        2_000,
    );
    let extensions = outer.tbs_certificate.extensions.as_ref().unwrap();
    assert_eq!(extensions.len(), 3);
    assert!(extensions.iter().all(|e| e.critical));
    assert_eq!(extensions[0].extn_id.to_string(), "2.5.29.15.6");
    assert_eq!(extensions[2].extn_id.to_string(), "2.5.29.19");
    assert_eq!(extensions[2].extn_value.as_bytes(), &[0xff]);
}

#[test]
fn from_der_enforces_the_requested_target() {
    let actor = issue_actor();
    let der = actor.to_der().unwrap();
    let result: Result<IdCert<ToySignature, ToyPublicKey>, ConversionError> =
        IdCert::from_der(&der, Some(Target::HomeServer));
    assert_eq!(result, Err(ConversionError::Constraint(ConstraintError::MissingCaFlag)));
}

#[test]
fn from_der_unchecked_skips_validation() {
    let actor = issue_actor();
    let der = actor.clone().to_der().unwrap();
    let back: IdCert<ToySignature, ToyPublicKey> = IdCert::from_der_unchecked(&der).unwrap();
    assert_eq!(back, actor);
}

#[test]
fn garbage_der_is_rejected() {
    let result: Result<IdCert<ToySignature, ToyPublicKey>, ConversionError> =
        IdCert::from_der(&[0x30, 0x03, 0x01, 0x01, 0xff], None);
    assert_eq!(result, Err(ConversionError::Decode));
}

#[test]
fn signature_data_is_the_der_of_the_body_alone() {
    let cert = issue_ca();
    let signature_data = cert.signature_data().unwrap();
    let whole = cert.clone().to_der().unwrap();
    assert_ne!(signature_data, whole);
    let outer = x509_cert::Certificate::from_der(&whole).unwrap();
    assert_eq!(outer.tbs_certificate.to_der().unwrap(), signature_data);
}

#[test]
fn signature_verifies_over_signature_data_and_nothing_else() {
    let cert = issue_ca();
    let issuer_key = ToyPublicKey { secret: 0x17 };
    let data = cert.signature_data().unwrap();
    assert!(issuer_key.verify_signature(&cert.signature, &data));

    for i in 0..data.len() {
        let mut altered = data.clone();
        altered[i] ^= 0x01;
        assert!(!issuer_key.verify_signature(&cert.signature, &altered));
    }
}

#[test]
fn validation_reports_the_violated_rule() {
    let mut cert = issue_ca();
    cert.id_cert_tbs.serial_number = Serial { bytes: vec![] };
    assert_eq!(cert.validate(None), Err(ConstraintError::InvalidSerialNumber));

    let mut cert = issue_ca();
    cert.id_cert_tbs.serial_number = Serial { bytes: vec![0x00] };
    assert_eq!(cert.validate(None), Err(ConstraintError::InvalidSerialNumber));

    let mut cert = issue_ca();
    cert.id_cert_tbs.serial_number = Serial { bytes: vec![0x01; 21] };
    assert_eq!(cert.validate(None), Err(ConstraintError::InvalidSerialNumber));

    let mut cert = issue_ca();
    cert.id_cert_tbs.validity = ValidityPeriod { not_before: 5, not_after: 4 };
    assert_eq!(cert.validate(None), Err(ConstraintError::InvalidValidity));

    let mut cert = issue_ca();
    cert.id_cert_tbs.issuer = Name { value: String::new() };
    assert_eq!(cert.validate(None), Err(ConstraintError::EmptyIssuer));

    let mut cert = issue_ca();
    cert.id_cert_tbs.subject = Name { value: String::new() };
    assert_eq!(cert.validate(None), Err(ConstraintError::EmptySubject));

    let mut cert = issue_ca();
    cert.id_cert_tbs.capabilities.basic_constraints = BasicConstraints { ca: false };
    assert_eq!(cert.validate(None), Err(ConstraintError::CertSignWithoutCa));
}

#[test]
fn twenty_octet_serial_needs_a_clear_sign_bit() {
    let mut cert = issue_ca();
    cert.id_cert_tbs.serial_number = Serial { bytes: vec![0x7f; 20] };
    assert!(cert.validate(None).is_ok());

    cert.id_cert_tbs.serial_number = Serial { bytes: vec![0x80; 20] };
    assert_eq!(cert.validate(None), Err(ConstraintError::InvalidSerialNumber));
}

#[test]
fn csr_validation_matches_the_target() {
    let request = csr(ca_capabilities(), 0x42);
    assert!(request.validate(Some(Target::HomeServer)).is_ok());
    assert_eq!(
        request.validate(Some(Target::Actor)),
        Err(ConstraintError::UnexpectedCaFlag),
    );
    let unnamed = IdCsr {
        inner_csr: IdCsrInner {
            subject: Name { value: String::new() },
            subject_public_key: ToyPublicKey { secret: 1 },
            capabilities: actor_capabilities(),
        },
        signature: ToySignature(vec![]),
    };
    assert_eq!(unnamed.validate(None), Err(ConstraintError::EmptySubject));
}

#[test]
fn oversized_serial_fails_to_encode() {
    let mut cert = issue_ca();
    cert.id_cert_tbs.serial_number = Serial { bytes: vec![0x01; 40] };
    assert_eq!(cert.to_der(), Err(ConversionError::Encode));
}

#[test]
fn issuance_reports_the_violated_serial_rule() {
    let oversized = IdCert::from_ca_csr(
        csr(ca_capabilities(), 0x42),
        &ToyPrivateKey::new(0x17),
        Serial { bytes: vec![0x01; 21] },
        issuer_name(),
        window(),
    );
    assert_eq!(
        oversized,
        Err(ConversionError::Constraint(ConstraintError::InvalidSerialNumber)),
    );

    let zero = IdCert::from_ca_csr(
        csr(ca_capabilities(), 0x42),
        &ToyPrivateKey::new(0x17),
        Serial { bytes: vec![0x00] },
        issuer_name(),
        window(),
    );
    assert_eq!(zero, Err(ConversionError::Constraint(ConstraintError::InvalidSerialNumber)));
}

#[test]
fn issuance_reports_the_violated_validity_rule() {
    let result = IdCert::from_ca_csr(
        csr(ca_capabilities(), 0x42),
        &ToyPrivateKey::new(0x17),
        Serial { bytes: vec![0x01] },
        issuer_name(),
        ValidityPeriod { not_before: 2_000, not_after: 1_000 },
    );
    assert_eq!(result, Err(ConversionError::Constraint(ConstraintError::InvalidValidity)));
}

#[test]
fn from_der_with_no_target_returns_the_parsed_value_unchecked() {
    let mut cert = issue_actor();
    cert.id_cert_tbs.validity = ValidityPeriod { not_before: 2_000, not_after: 1_000 };
    let der = cert.clone().to_der().unwrap();

    let unchecked: IdCert<ToySignature, ToyPublicKey> = IdCert::from_der(&der, None).unwrap();
    assert_eq!(unchecked, cert);
    assert_eq!(unchecked.validate(None), Err(ConstraintError::InvalidValidity));

    let checked: Result<IdCert<ToySignature, ToyPublicKey>, ConversionError> =
        IdCert::from_der(&der, Some(Target::Actor));
    assert_eq!(checked, Err(ConversionError::Constraint(ConstraintError::InvalidValidity)));
}

#[test]
fn pem_with_a_wrong_label_is_rejected() {
    let cert = issue_actor();
    let pem = cert.to_pem(der::pem::LineEnding::LF).unwrap();
    let relabeled = pem.replace("CERTIFICATE", "PRIVATE KEY");
    let result: Result<IdCert<ToySignature, ToyPublicKey>, ConversionError> =
        IdCert::from_pem(&relabeled, None);
    assert_eq!(result, Err(ConversionError::Decode));
}
