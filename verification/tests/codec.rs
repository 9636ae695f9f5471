use idcert::{AnyValue, Attribute, BasicConstraints, Capabilities, ExtensionValue, InvalidInput, KeyUsage};
use idcert::ConversionError;

fn all_variants(flag: bool) -> Vec<KeyUsage> {
    vec![
        KeyUsage::DigitalSignature(flag),
        KeyUsage::CrlSign(flag),
        KeyUsage::ContentCommitment(flag),
        KeyUsage::KeyEncipherment(flag),
        KeyUsage::DataEncipherment(flag),
        KeyUsage::KeyAgreement(flag),
        KeyUsage::KeyCertSign(flag),
        KeyUsage::EncipherOnly(flag),
        KeyUsage::DecipherOnly(flag),
    ]
}

#[test]
fn round_trip_attribute_all_variants() {
    for flag in [false, true] {
        for ku in all_variants(flag) {
            let attribute = ku.to_attribute();
            assert_eq!(KeyUsage::try_from_attribute(&attribute), Ok(ku));
        }
    }
}

#[test]
fn round_trip_extension_all_variants() {
    for flag in [false, true] {
        for ku in all_variants(flag) {
            let extension = ku.to_extension();
            assert!(extension.critical);
            assert_eq!(KeyUsage::try_from_extension(&extension), Ok(ku));
        }
    }
}

#[test]
fn extension_encoding_is_exact() {
    let ku = KeyUsage::KeyCertSign(true);
    let extension = ku.to_extension();
    assert_eq!(extension.oid, vec![0x55, 0x1d, 0x0f, 0x06]);
    assert!(extension.critical);
    assert_eq!(extension.value, vec![0xff]);

    let off = KeyUsage::DigitalSignature(false).to_extension();
    assert_eq!(off.oid, vec![0x55, 0x1d, 0x0f, 0x00]);
    assert_eq!(off.value, vec![0x00]);
}

#[test]
fn key_usage_to_extension() {
    let key_usage = KeyUsage::KeyCertSign(true);
    let extension = key_usage.to_extension();
    assert!(extension.critical);
    assert_eq!(KeyUsage::try_from_extension(&extension), Ok(key_usage));
}

#[test]
fn attribute_encoding_is_exact() {
    let attribute = KeyUsage::KeyAgreement(true).to_attribute();
    assert_eq!(attribute.oid, vec![0x55, 0x1d, 0x0f, 0x05]);
    assert_eq!(attribute.values.len(), 1);
    assert_eq!(attribute.values[0].tag, 1);
    assert_eq!(attribute.values[0].value, vec![0xff]);
}

#[test]
fn lenient_true_octet_is_accepted_on_decode() {
    let extension = ExtensionValue { oid: vec![0x55, 0x1d, 0x0f, 0x01], critical: true, value: vec![0x01] };
    assert_eq!(KeyUsage::try_from_extension(&extension), Ok(KeyUsage::CrlSign(true)));
}

#[test]
fn malformed_boolean_octets_rejected() {
    for octet in [0x02u8, 0x7f, 0xfe, 0x80] {
        let attribute = Attribute {
            oid: vec![0x55, 0x1d, 0x0f, 0x00],
            values: vec![AnyValue { tag: 1, value: vec![octet] }],
        };
        assert_eq!(KeyUsage::try_from_attribute(&attribute), Err(InvalidInput::MalformedBoolean));

        let extension = ExtensionValue {
            oid: vec![0x55, 0x1d, 0x0f, 0x00],
            critical: true,
            value: vec![octet],
        };
        assert_eq!(KeyUsage::try_from_extension(&extension), Err(InvalidInput::MalformedBoolean));
    }
}

#[test]
fn multi_octet_boolean_rejected() {
    let extension = ExtensionValue {
        oid: vec![0x55, 0x1d, 0x0f, 0x00],
        critical: false,
        value: vec![0xff, 0xff],
    };
    assert_eq!(KeyUsage::try_from_extension(&extension), Err(InvalidInput::MalformedBoolean));
}

#[test]
fn attribute_must_hold_exactly_one_value() {
    let none = Attribute { oid: vec![0x55, 0x1d, 0x0f, 0x00], values: vec![] };
    assert_eq!(KeyUsage::try_from_attribute(&none), Err(InvalidInput::NotASingleValue));

    let two = Attribute {
        oid: vec![0x55, 0x1d, 0x0f, 0x00],
        values: vec![
            AnyValue { tag: 1, value: vec![0xff] },
            AnyValue { tag: 1, value: vec![0x00] },
        ],
    };
    assert_eq!(KeyUsage::try_from_attribute(&two), Err(InvalidInput::NotASingleValue));
}

#[test]
fn attribute_value_must_be_boolean_tagged() {
    let attribute = Attribute {
        oid: vec![0x55, 0x1d, 0x0f, 0x00],
        values: vec![AnyValue { tag: 2, value: vec![0xff] }],
    };
    assert_eq!(KeyUsage::try_from_attribute(&attribute), Err(InvalidInput::NotABoolean { tag: 2 }));
}

#[test]
fn unknown_critical_extension_is_fatal() {
    let oid = vec![0x55, 0x1d, 0x0f, 0x09];
    let critical = ExtensionValue { oid: oid.clone(), critical: true, value: vec![0xff] };
    assert_eq!(
        KeyUsage::try_from_extension(&critical),
        Err(InvalidInput::UnknownCriticalExtension { oid: oid.clone() }),
    );

    let tolerated = ExtensionValue { oid: oid.clone(), critical: false, value: vec![0xff] };
    assert_eq!(
        KeyUsage::try_from_extension(&tolerated),
        Err(InvalidInput::UnrecognizedOid { oid }),
    );
}

#[test]
fn unrecognized_attribute_oid_rejected() {
    let oid = vec![0x2a, 0x03];
    let attribute = Attribute {
        oid: oid.clone(),
        values: vec![AnyValue { tag: 1, value: vec![0x00] }],
    };
    assert_eq!(KeyUsage::try_from_attribute(&attribute), Err(InvalidInput::UnrecognizedOid { oid }));
}

#[test]
fn capabilities_round_trip() {
    let capabilities = Capabilities {
        key_usage: vec![
            KeyUsage::KeyCertSign(true),
            KeyUsage::CrlSign(true),
            KeyUsage::DigitalSignature(false),
        ],
        basic_constraints: BasicConstraints { ca: true },
    };
    let extensions = capabilities.to_extensions();
    assert_eq!(extensions.len(), 4);
    assert_eq!(extensions[3].oid, vec![0x55, 0x1d, 0x13]);
    assert_eq!(Capabilities::try_from_extensions(&extensions), Ok(capabilities));
}

#[test]
fn capabilities_need_exactly_one_basic_constraints() {
    let bc = BasicConstraints { ca: false }.to_extension();
    assert_eq!(
        Capabilities::try_from_extensions(&vec![bc.clone(), bc.clone()]),
        Err(ConversionError::DuplicateBasicConstraints),
    );
    assert_eq!(
        Capabilities::try_from_extensions(&vec![KeyUsage::CrlSign(true).to_extension()]),
        Err(ConversionError::MissingBasicConstraints),
    );
}

#[test]
fn capabilities_skip_unknown_non_critical_extensions() {
    let stranger = ExtensionValue { oid: vec![0x2a, 0x03], critical: false, value: vec![0x05, 0x00] };
    let extensions = vec![
        KeyUsage::DigitalSignature(true).to_extension(),
        stranger,
        BasicConstraints { ca: false }.to_extension(),
    ];
    let capabilities = Capabilities::try_from_extensions(&extensions).unwrap();
    assert_eq!(capabilities.key_usage, vec![KeyUsage::DigitalSignature(true)]);
    assert!(!capabilities.basic_constraints.ca);
}

#[test]
fn capabilities_reject_unknown_critical_extensions() {
    let stranger = ExtensionValue { oid: vec![0x2a, 0x03], critical: true, value: vec![0x05, 0x00] };
    let extensions = vec![BasicConstraints { ca: false }.to_extension(), stranger];
    assert_eq!(
        Capabilities::try_from_extensions(&extensions),
        Err(ConversionError::InvalidInput(InvalidInput::UnknownCriticalExtension {
            oid: vec![0x2a, 0x03],
        })),
    );
}

#[test]
fn key_usage_flag_is_the_carried_boolean() {
    assert!(KeyUsage::EncipherOnly(true).flag());
    assert!(!KeyUsage::DecipherOnly(false).flag());
    let any = KeyUsage::ContentCommitment(true).to_any();
    assert_eq!(any.tag, 1);
    assert_eq!(any.value, vec![0xff]);
}
