use vstd::prelude::*;

verus! {

/// An algorithm identifier: the OID's DER octets, and the optional DER-encoded
/// parameters value.
#[derive(Debug, Clone, PartialEq, Eq)]
pub struct AlgorithmId {
    pub oid: Vec<u8>,
    pub parameters: Option<Vec<u8>>,
}

#[verifier::ext_equal]
pub ghost struct AlgorithmIdV {
    pub oid: Seq<u8>,
    pub parameters: Option<Seq<u8>>,
}

impl View for AlgorithmId {
    type V = AlgorithmIdV;

    open spec fn view(&self) -> AlgorithmIdV {
        AlgorithmIdV {
            oid: self.oid@,
            parameters: match &self.parameters {
                Some(p) => Some(p@),
                None => None,
            },
        }
    }
}

/// The content of a subject-public-key-info structure: the key's algorithm
/// and the raw octets of the public key bit string.
#[derive(Debug, Clone, PartialEq, Eq)]
pub struct PublicKeyInfo {
    pub algorithm: AlgorithmId,
    pub public_key: Vec<u8>,
}

#[verifier::ext_equal]
pub ghost struct PublicKeyInfoV {
    pub algorithm: AlgorithmIdV,
    pub public_key: Seq<u8>,
}

impl View for PublicKeyInfo {
    type V = PublicKeyInfoV;

    open spec fn view(&self) -> PublicKeyInfoV {
        PublicKeyInfoV { algorithm: self.algorithm@, public_key: self.public_key@ }
    }
}

/// A certificate serial number: the big-endian octets of an unsigned
/// integer. The profile demands a positive integer of at most 20 octets;
/// `spec_serial_ok` states that rule and the validation engine enforces it.
#[derive(Debug, Clone, PartialEq, Eq)]
pub struct Serial {
    pub bytes: Vec<u8>,
}

impl View for Serial {
    type V = Seq<u8>;

    open spec fn view(&self) -> Seq<u8> {
        self.bytes@
    }
}

/// The profile's serial number rule: a positive integer of at most 20
/// octets. The octets are an unsigned big-endian magnitude without leading
/// zeros; a 20-octet value must leave the sign bit clear so that its DER
/// encoding stays within 20 octets.
pub open spec fn spec_serial_ok(s: Seq<u8>) -> bool {
    &&& 1 <= s.len() <= 20
    &&& s[0] != 0
    &&& (s.len() < 20 || s[0] < 0x80)
}

impl Serial {
    /// Whether this serial number satisfies the profile's rule.
    pub fn is_ok(&self) -> (r: bool)
        ensures
            r == spec_serial_ok(self@),
    {
        if self.bytes.len() < 1 || self.bytes.len() > 20 {
            return false;
        }
        let first = self.bytes[0];
        first != 0 && (self.bytes.len() < 20 || first < 0x80)
    }
}

/// A distinguished name, as its RFC 4514 string form. Parsing the string
/// into name components is the external codec's work; the profile's own rule
/// is stated over the string.
#[derive(Debug, Clone, PartialEq, Eq)]
pub struct Name {
    pub value: String,
}

impl View for Name {
    type V = Seq<char>;

    open spec fn view(&self) -> Seq<char> {
        self.value@
    }
}

/// The profile's name-shape rule: a name must not be empty.
pub open spec fn spec_name_ok(n: Seq<char>) -> bool {
    n.len() > 0
}

impl Name {
    /// Whether this name satisfies the profile's name-shape rule.
    pub fn is_ok(&self) -> (r: bool)
        ensures
            r == spec_name_ok(self@),
    {
        !self.value.as_str().is_empty()
    }
}

/// A validity period, in seconds since the Unix epoch.
#[derive(Debug, Clone, Copy, PartialEq, Eq, Structural)]
pub struct ValidityPeriod {
    pub not_before: u64,
    pub not_after: u64,
}

/// The profile's validity rule: the period must not end before it begins.
pub open spec fn spec_validity_ok(v: ValidityPeriod) -> bool {
    v.not_before <= v.not_after
}

impl ValidityPeriod {
    /// Whether this period satisfies the profile's rule.
    pub fn is_ok(&self) -> (r: bool)
        ensures
            r == spec_validity_ok(*self),
    {
        self.not_before <= self.not_after
    }

    /// Whether the instant falls within the period, bounds included.
    pub fn contains(&self, time: u64) -> (r: bool)
        ensures
            r == (self.not_before <= time && time <= self.not_after),
    {
        self.not_before <= time && time <= self.not_after
    }
}

} // verus!
