use idcert::{AlgorithmId, EncryptedPkm, PrivateKeyInfo, PublicKeyInfo, Serial};

fn sample_algorithm() -> AlgorithmId {
    AlgorithmId {
        oid: vec![0x2a, 0x86, 0x48, 0x86, 0xf7, 0x0d, 0x01, 0x05, 0x0d],
        parameters: Some(vec![0x05, 0x00]),
    }
}

#[test]
fn private_key_info_round_trips_through_the_carrier() {
    let info = PrivateKeyInfo {
        algorithm: sample_algorithm(),
        encrypted_private_key_bitstring: vec![9, 8, 7, 6],
    };
    let carrier = info.clone().to_public_key_info();
    assert_eq!(carrier.algorithm, info.algorithm);
    assert_eq!(carrier.public_key, info.encrypted_private_key_bitstring);
    assert_eq!(PrivateKeyInfo::from_public_key_info(carrier), info);
}

#[test]
fn carrier_round_trips_through_private_key_info() {
    let carrier = PublicKeyInfo {
        algorithm: AlgorithmId { oid: vec![0x2b, 0x65, 0x70], parameters: None },
        public_key: vec![1, 2, 3],
    };
    let info = PrivateKeyInfo::from_public_key_info(carrier.clone());
    assert_eq!(info.clone().to_public_key_info(), carrier);
}

#[test]
fn encrypted_pkm_holds_its_parts() {
    let pkm = EncryptedPkm {
        serial_number: Serial { bytes: vec![41, 12, 3] },
        key_data: PrivateKeyInfo {
            algorithm: sample_algorithm(),
            encrypted_private_key_bitstring: vec![0xde, 0xad],
        },
        encryption_algorithm: sample_algorithm(),
    };
    let copy = pkm.clone();
    assert_eq!(copy, pkm);
    assert_eq!(copy.serial_number.bytes, vec![41, 12, 3]);
}
