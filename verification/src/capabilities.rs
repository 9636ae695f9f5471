use vstd::prelude::*;

use crate::errors::{ConversionError, ConversionErrorV, InvalidInput, InvalidInputV, input_result_view};

verus! {

/// The ASN.1 BOOLEAN tag octet.
pub const TAG_BOOLEAN: u8 = 1;

/// A minimal model of an ASN.1 `ANY` value: a tag octet and the value octets.
#[derive(Debug, Clone, PartialEq, Eq)]
pub struct AnyValue {
    pub tag: u8,
    pub value: Vec<u8>,
}

pub ghost struct AnyValueV {
    pub tag: u8,
    pub value: Seq<u8>,
}

impl View for AnyValue {
    type V = AnyValueV;

    open spec fn view(&self) -> AnyValueV {
        AnyValueV { tag: self.tag, value: self.value@ }
    }
}

/// A typed model of an X.501 attribute: an OID (as its DER octets) together
/// with the set of values it carries.
#[derive(Debug, Clone, PartialEq, Eq)]
pub struct Attribute {
    pub oid: Vec<u8>,
    pub values: Vec<AnyValue>,
}

pub ghost struct AttributeV {
    pub oid: Seq<u8>,
    pub values: Seq<AnyValueV>,
}

impl View for Attribute {
    type V = AttributeV;

    open spec fn view(&self) -> AttributeV {
        AttributeV { oid: self.oid@, values: self.values@.map(|i: int, v: AnyValue| v@) }
    }
}

/// A typed model of an X.509 extension: an OID (as its DER octets), the
/// criticality flag, and the raw value octets.
#[derive(Debug, Clone, PartialEq, Eq)]
pub struct ExtensionValue {
    pub oid: Vec<u8>,
    pub critical: bool,
    pub value: Vec<u8>,
}

pub ghost struct ExtensionValueV {
    pub oid: Seq<u8>,
    pub critical: bool,
    pub value: Seq<u8>,
}

impl View for ExtensionValue {
    type V = ExtensionValueV;

    open spec fn view(&self) -> ExtensionValueV {
        ExtensionValueV { oid: self.oid@, critical: self.critical, value: self.value@ }
    }
}

/// The DER boolean octets this profile emits: `0xFF` for true, `0x00` for false.
pub open spec fn spec_bool_octets(flag: bool) -> Seq<u8> {
    if flag {
        seq![0xffu8]
    } else {
        seq![0x00u8]
    }
}

/// The boolean octet encodings this profile accepts: exactly `0x00`, `0x01`
/// and `0xFF`, one octet long. Everything else is rejected, even where a
/// lenient ASN.1 reading would take any nonzero octet as true.
pub open spec fn spec_decode_bool_octets(v: Seq<u8>) -> Option<bool> {
    if v.len() != 1 {
        None
    } else if v[0] == 0x00 {
        Some(false)
    } else if v[0] == 0x01 || v[0] == 0xff {
        Some(true)
    } else {
        None
    }
}

fn bool_octets(flag: bool) -> (r: Vec<u8>)
    ensures
        r@ == spec_bool_octets(flag),
{
    let mut v: Vec<u8> = Vec::new();
    if flag {
        v.push(0xff);
    } else {
        v.push(0x00);
    }
    proof {
        assert(v@ =~= spec_bool_octets(flag));
    }
    v
}

fn decode_bool_octets(v: &Vec<u8>) -> (r: Option<bool>)
    ensures
        r == spec_decode_bool_octets(v@),
{
    if v.len() != 1 {
        None
    } else {
        let b = v[0];
        if b == 0x00 {
            Some(false)
        } else if b == 0x01 || b == 0xff {
            Some(true)
        } else {
            None
        }
    }
}

/// The key usage extension defines the purpose of the key contained in the
/// certificate. Each variant carries a single boolean flag and owns exactly
/// one OID.
#[derive(Debug, Clone, Copy, PartialEq, Eq, PartialOrd, Ord, Hash, Structural)]
pub enum KeyUsage {
    /// The subject public key verifies digital signatures other than those
    /// on certificates and revocation lists.
    DigitalSignature(bool),
    /// The subject public key verifies signatures on revocation lists.
    CrlSign(bool),
    /// The subject public key provides a non-repudiation service.
    ContentCommitment(bool),
    /// The subject public key enciphers private or secret keys.
    KeyEncipherment(bool),
    /// The subject public key enciphers raw user data directly.
    DataEncipherment(bool),
    /// The subject public key is used for key agreement.
    KeyAgreement(bool),
    /// The subject public key verifies signatures on public key certificates.
    /// Asserting it requires certificate authority.
    KeyCertSign(bool),
    /// During key agreement, the key may only encipher data.
    EncipherOnly(bool),
    /// During key agreement, the key may only decipher data.
    DecipherOnly(bool),
}

/// The boolean flag a key usage value carries.
pub open spec fn spec_flag(ku: KeyUsage) -> bool {
    match ku {
        KeyUsage::DigitalSignature(f) => f,
        KeyUsage::CrlSign(f) => f,
        KeyUsage::ContentCommitment(f) => f,
        KeyUsage::KeyEncipherment(f) => f,
        KeyUsage::DataEncipherment(f) => f,
        KeyUsage::KeyAgreement(f) => f,
        KeyUsage::KeyCertSign(f) => f,
        KeyUsage::EncipherOnly(f) => f,
        KeyUsage::DecipherOnly(f) => f,
    }
}

/// The final arc distinguishing each key usage purpose under the profile's
/// key usage OID prefix.
pub open spec fn spec_oid_index(ku: KeyUsage) -> u8 {
    match ku {
        KeyUsage::DigitalSignature(_) => 0,
        KeyUsage::CrlSign(_) => 1,
        KeyUsage::ContentCommitment(_) => 2,
        KeyUsage::KeyEncipherment(_) => 3,
        KeyUsage::DataEncipherment(_) => 4,
        KeyUsage::KeyAgreement(_) => 5,
        KeyUsage::KeyCertSign(_) => 6,
        KeyUsage::EncipherOnly(_) => 7,
        KeyUsage::DecipherOnly(_) => 8,
    }
}

/// The DER octets of the OID owned by a key usage variant: an arc under the
/// key usage extension OID.
pub open spec fn spec_key_usage_oid(ku: KeyUsage) -> Seq<u8> {
    seq![0x55u8, 0x1du8, 0x0fu8, spec_oid_index(ku)]
}

/// The variant owning the given final arc, with the given flag.
pub open spec fn spec_variant_from_index(i: u8, flag: bool) -> Option<KeyUsage> {
    if i == 0 {
        Some(KeyUsage::DigitalSignature(flag))
    } else if i == 1 {
        Some(KeyUsage::CrlSign(flag))
    } else if i == 2 {
        Some(KeyUsage::ContentCommitment(flag))
    } else if i == 3 {
        Some(KeyUsage::KeyEncipherment(flag))
    } else if i == 4 {
        Some(KeyUsage::DataEncipherment(flag))
    } else if i == 5 {
        Some(KeyUsage::KeyAgreement(flag))
    } else if i == 6 {
        Some(KeyUsage::KeyCertSign(flag))
    } else if i == 7 {
        Some(KeyUsage::EncipherOnly(flag))
    } else if i == 8 {
        Some(KeyUsage::DecipherOnly(flag))
    } else {
        None
    }
}

/// Whether the OID octets name one of the nine key usage purposes.
pub open spec fn spec_known_key_usage_oid(oid: Seq<u8>) -> bool {
    oid.len() == 4 && oid[0] == 0x55 && oid[1] == 0x1d && oid[2] == 0x0f && oid[3] <= 8
}

/// The key usage value, if any, that the OID octets and flag decode to.
pub open spec fn spec_key_usage_from_oid(oid: Seq<u8>, flag: bool) -> Option<KeyUsage> {
    if oid.len() == 4 && oid[0] == 0x55 && oid[1] == 0x1d && oid[2] == 0x0f {
        spec_variant_from_index(oid[3], flag)
    } else {
        None
    }
}

/// The attribute representation of a key usage value: its OID, carrying one
/// boolean value.
pub open spec fn spec_encode_attribute(ku: KeyUsage) -> AttributeV {
    AttributeV {
        oid: spec_key_usage_oid(ku),
        values: seq![AnyValueV { tag: TAG_BOOLEAN, value: spec_bool_octets(spec_flag(ku)) }],
    }
}

/// The extension representation of a key usage value: its OID, always
/// critical, with the boolean octet as the value.
pub open spec fn spec_encode_extension(ku: KeyUsage) -> ExtensionValueV {
    ExtensionValueV {
        oid: spec_key_usage_oid(ku),
        critical: true,
        value: spec_bool_octets(spec_flag(ku)),
    }
}

/// Decoding an attribute: it must hold exactly one value, the value must be
/// tagged BOOLEAN, the octet must be a valid boolean encoding, and the OID
/// must name one of the nine purposes. Attributes carry no criticality, so
/// no critical-extension rule applies here.
pub open spec fn spec_decode_attribute(a: AttributeV) -> Result<KeyUsage, InvalidInputV> {
    if a.values.len() != 1 {
        Err(InvalidInputV::NotASingleValue)
    } else if a.values[0].tag != TAG_BOOLEAN {
        Err(InvalidInputV::NotABoolean { tag: a.values[0].tag })
    } else {
        match spec_decode_bool_octets(a.values[0].value) {
            None => Err(InvalidInputV::MalformedBoolean),
            Some(flag) => match spec_key_usage_from_oid(a.oid, flag) {
                None => Err(InvalidInputV::UnrecognizedOid { oid: a.oid }),
                Some(ku) => Ok(ku),
            },
        }
    }
}

/// Decoding an extension: a critical extension whose OID is not one of the
/// nine purposes is always rejected; otherwise the boolean octet and then
/// the OID are checked as for an attribute.
pub open spec fn spec_decode_extension(e: ExtensionValueV) -> Result<KeyUsage, InvalidInputV> {
    if e.critical && !spec_known_key_usage_oid(e.oid) {
        Err(InvalidInputV::UnknownCriticalExtension { oid: e.oid })
    } else {
        match spec_decode_bool_octets(e.value) {
            None => Err(InvalidInputV::MalformedBoolean),
            Some(flag) => match spec_key_usage_from_oid(e.oid, flag) {
                None => Err(InvalidInputV::UnrecognizedOid { oid: e.oid }),
                Some(ku) => Ok(ku),
            },
        }
    }
}

impl KeyUsage {
    /// The boolean flag this purpose carries.
    pub fn flag(&self) -> (r: bool)
        ensures
            r == spec_flag(*self),
    {
        match self {
            KeyUsage::DigitalSignature(f) => *f,
            KeyUsage::CrlSign(f) => *f,
            KeyUsage::ContentCommitment(f) => *f,
            KeyUsage::KeyEncipherment(f) => *f,
            KeyUsage::DataEncipherment(f) => *f,
            KeyUsage::KeyAgreement(f) => *f,
            KeyUsage::KeyCertSign(f) => *f,
            KeyUsage::EncipherOnly(f) => *f,
            KeyUsage::DecipherOnly(f) => *f,
        }
    }

    fn oid_index(&self) -> (r: u8)
        ensures
            r == spec_oid_index(*self),
    {
        match self {
            KeyUsage::DigitalSignature(_) => 0,
            KeyUsage::CrlSign(_) => 1,
            KeyUsage::ContentCommitment(_) => 2,
            KeyUsage::KeyEncipherment(_) => 3,
            KeyUsage::DataEncipherment(_) => 4,
            KeyUsage::KeyAgreement(_) => 5,
            KeyUsage::KeyCertSign(_) => 6,
            KeyUsage::EncipherOnly(_) => 7,
            KeyUsage::DecipherOnly(_) => 8,
        }
    }

    /// The DER octets of the OID this purpose owns.
    pub fn oid(&self) -> (r: Vec<u8>)
        ensures
            r@ == spec_key_usage_oid(*self),
    {
        let mut v: Vec<u8> = Vec::new();
        v.push(0x55);
        v.push(0x1d);
        v.push(0x0f);
        v.push(self.oid_index());
        proof {
            assert(v@ =~= spec_key_usage_oid(*self));
        }
        v
    }

    /// This purpose as a single ASN.1 boolean value.
    pub fn to_any(&self) -> (r: AnyValue)
        ensures
            r@ == (AnyValueV { tag: TAG_BOOLEAN, value: spec_bool_octets(spec_flag(*self)) }),
    {
        AnyValue { tag: TAG_BOOLEAN, value: bool_octets(self.flag()) }
    }

    /// This purpose as an attribute: its OID with one boolean value.
    /// This direction is total.
    pub fn to_attribute(&self) -> (r: Attribute)
        ensures
            r@ == spec_encode_attribute(*self),
    {
        let mut values: Vec<AnyValue> = Vec::new();
        values.push(self.to_any());
        let a = Attribute { oid: self.oid(), values };
        proof {
            assert(a@.values =~= spec_encode_attribute(*self).values);
        }
        a
    }

    /// This purpose as an X.509 extension. Every key usage extension this
    /// system constructs is critical.
    pub fn to_extension(&self) -> (r: ExtensionValue)
        ensures
            r@ == spec_encode_extension(*self),
    {
        ExtensionValue { oid: self.oid(), critical: true, value: bool_octets(self.flag()) }
    }

    fn from_oid_and_flag(oid: &Vec<u8>, flag: bool) -> (r: Option<KeyUsage>)
        ensures
            r == spec_key_usage_from_oid(oid@, flag),
    {
        if oid.len() == 4 && oid[0] == 0x55 && oid[1] == 0x1d && oid[2] == 0x0f {
            let i = oid[3];
            if i == 0 {
                Some(KeyUsage::DigitalSignature(flag))
            } else if i == 1 {
                Some(KeyUsage::CrlSign(flag))
            } else if i == 2 {
                Some(KeyUsage::ContentCommitment(flag))
            } else if i == 3 {
                Some(KeyUsage::KeyEncipherment(flag))
            } else if i == 4 {
                Some(KeyUsage::DataEncipherment(flag))
            } else if i == 5 {
                Some(KeyUsage::KeyAgreement(flag))
            } else if i == 6 {
                Some(KeyUsage::KeyCertSign(flag))
            } else if i == 7 {
                Some(KeyUsage::EncipherOnly(flag))
            } else if i == 8 {
                Some(KeyUsage::DecipherOnly(flag))
            } else {
                None
            }
        } else {
            None
        }
    }

    fn known_oid(oid: &Vec<u8>) -> (r: bool)
        ensures
            r == spec_known_key_usage_oid(oid@),
    {
        oid.len() == 4 && oid[0] == 0x55 && oid[1] == 0x1d && oid[2] == 0x0f && oid[3] <= 8
    }

    /// Decodes an attribute into a key usage value. Fails if the attribute
    /// does not hold exactly one value, if the value is not a boolean, if
    /// the octet is not a valid boolean encoding, or if the OID names no
    /// known purpose.
    pub fn try_from_attribute(a: &Attribute) -> (r: Result<KeyUsage, InvalidInput>)
        ensures
            input_result_view(r) == spec_decode_attribute(a@),
    {
        if a.values.len() != 1 {
            return Err(InvalidInput::NotASingleValue);
        }
        let inner = &a.values[0];
        if inner.tag != TAG_BOOLEAN {
            return Err(InvalidInput::NotABoolean { tag: inner.tag });
        }
        let flag = match decode_bool_octets(&inner.value) {
            None => {
                return Err(InvalidInput::MalformedBoolean);
            },
            Some(f) => f,
        };
        match Self::from_oid_and_flag(&a.oid, flag) {
            None => Err(InvalidInput::UnrecognizedOid { oid: a.oid.clone() }),
            Some(ku) => Ok(ku),
        }
    }

    /// Decodes an X.509 extension into a key usage value. A critical
    /// extension with an OID this profile does not know is always rejected;
    /// an unknown non-critical OID is merely unrecognized and left to the
    /// caller.
    pub fn try_from_extension(e: &ExtensionValue) -> (r: Result<KeyUsage, InvalidInput>)
        ensures
            input_result_view(r) == spec_decode_extension(e@),
    {
        if e.critical && !Self::known_oid(&e.oid) {
            return Err(InvalidInput::UnknownCriticalExtension { oid: e.oid.clone() });
        }
        let flag = match decode_bool_octets(&e.value) {
            None => {
                return Err(InvalidInput::MalformedBoolean);
            },
            Some(f) => f,
        };
        match Self::from_oid_and_flag(&e.oid, flag) {
            None => Err(InvalidInput::UnrecognizedOid { oid: e.oid.clone() }),
            Some(ku) => Ok(ku),
        }
    }
}

/// Round trip: decoding an encoded key usage value gives it back, over both
/// the attribute and the extension representations, for every variant and
/// both flags.
pub proof fn lemma_key_usage_round_trip(ku: KeyUsage)
    ensures
        spec_decode_attribute(spec_encode_attribute(ku)) == Ok::<KeyUsage, InvalidInputV>(ku),
        spec_decode_extension(spec_encode_extension(ku)) == Ok::<KeyUsage, InvalidInputV>(ku),
{
    match ku {
        KeyUsage::DigitalSignature(_) => {},
        KeyUsage::CrlSign(_) => {},
        KeyUsage::ContentCommitment(_) => {},
        KeyUsage::KeyEncipherment(_) => {},
        KeyUsage::DataEncipherment(_) => {},
        KeyUsage::KeyAgreement(_) => {},
        KeyUsage::KeyCertSign(_) => {},
        KeyUsage::EncipherOnly(_) => {},
        KeyUsage::DecipherOnly(_) => {},
    }
}

/// A boolean octet other than `0x00`, `0x01` and `0xFF` always decodes to
/// the malformed-boolean error, on both the attribute path (given a single
/// boolean-tagged value) and the extension path (given the extension is not
/// already rejected as unknown critical).
pub proof fn lemma_malformed_boolean(a: AttributeV, e: ExtensionValueV, octet: u8)
    requires
        octet != 0x00,
        octet != 0x01,
        octet != 0xff,
        a.values.len() == 1,
        a.values[0].tag == TAG_BOOLEAN,
        a.values[0].value == seq![octet],
        e.value == seq![octet],
        !e.critical || spec_known_key_usage_oid(e.oid),
    ensures
        spec_decode_attribute(a) == Err::<KeyUsage, InvalidInputV>(InvalidInputV::MalformedBoolean),
        spec_decode_extension(e) == Err::<KeyUsage, InvalidInputV>(InvalidInputV::MalformedBoolean),
{
    assert(a.values[0].value.len() == 1);
    assert(e.value.len() == 1);
}

/// A critical extension with an unrecognized OID always fails as an unknown
/// critical extension; the same OID without the critical mark never yields
/// that error.
pub proof fn lemma_unknown_critical_extension(e: ExtensionValueV)
    ensures
        e.critical && !spec_known_key_usage_oid(e.oid) ==> spec_decode_extension(e)
            == Err::<KeyUsage, InvalidInputV>(InvalidInputV::UnknownCriticalExtension { oid: e.oid }),
        !e.critical ==> !(spec_decode_extension(e) matches Err(k) && k is UnknownCriticalExtension),
{
}

/// The basic-constraints extension value: whether the certified key is a
/// certificate authority. Shaped like a key usage value: one OID, one
/// boolean flag, always critical when produced by this system.
#[derive(Debug, Clone, Copy, PartialEq, Eq, Structural)]
pub struct BasicConstraints {
    pub ca: bool,
}

/// The DER octets of the basic-constraints extension OID.
pub open spec fn spec_basic_constraints_oid() -> Seq<u8> {
    seq![0x55u8, 0x1du8, 0x13u8]
}

/// The extension representation of a basic-constraints value.
pub open spec fn spec_encode_basic_constraints(bc: BasicConstraints) -> ExtensionValueV {
    ExtensionValueV {
        oid: spec_basic_constraints_oid(),
        critical: true,
        value: spec_bool_octets(bc.ca),
    }
}

impl BasicConstraints {
    /// This value as an X.509 extension, always critical.
    pub fn to_extension(&self) -> (r: ExtensionValue)
        ensures
            r@ == spec_encode_basic_constraints(*self),
    {
        let mut oid: Vec<u8> = Vec::new();
        oid.push(0x55);
        oid.push(0x1d);
        oid.push(0x13);
        let e = ExtensionValue { oid, critical: true, value: bool_octets(self.ca) };
        proof {
            assert(e@.oid =~= spec_basic_constraints_oid());
        }
        e
    }
}

/// The set of extension values consumed by the validation engine: the key
/// usage purposes together with the basic constraints.
#[derive(Debug, Clone, PartialEq, Eq)]
pub struct Capabilities {
    pub key_usage: Vec<KeyUsage>,
    pub basic_constraints: BasicConstraints,
}

#[verifier::ext_equal]
pub ghost struct CapabilitiesV {
    pub key_usage: Seq<KeyUsage>,
    pub basic_constraints: BasicConstraints,
}

impl View for Capabilities {
    type V = CapabilitiesV;

    open spec fn view(&self) -> CapabilitiesV {
        CapabilitiesV { key_usage: self.key_usage@, basic_constraints: self.basic_constraints }
    }
}

/// The extension list a capabilities value encodes to: one extension per
/// key usage purpose, in order, then the basic constraints.
pub open spec fn spec_encode_capabilities(c: CapabilitiesV) -> Seq<ExtensionValueV> {
    c.key_usage.map(|i: int, ku: KeyUsage| spec_encode_extension(ku)).push(
        spec_encode_basic_constraints(c.basic_constraints),
    )
}

/// The state of a walk over an extension list: the purposes seen so far and
/// the basic-constraints flag, once seen.
#[verifier::ext_equal]
pub ghost struct CapabilitiesAcc {
    pub key_usage: Seq<KeyUsage>,
    pub ca: Option<bool>,
}

/// One pass over an extension list, in order. A known key usage OID must
/// decode; a basic-constraints OID must carry a valid boolean and appear at
/// most once; an unknown critical OID is fatal; an unknown non-critical
/// extension is skipped.
pub open spec fn spec_scan_extensions(exts: Seq<ExtensionValueV>, acc: CapabilitiesAcc) -> Result<
    CapabilitiesAcc,
    ConversionErrorV,
>
    decreases exts.len(),
{
    if exts.len() == 0 {
        Ok(acc)
    } else {
        let e = exts[0];
        let rest = exts.drop_first();
        if spec_known_key_usage_oid(e.oid) {
            match spec_decode_extension(e) {
                Err(v) => Err(ConversionErrorV::InvalidInput(v)),
                Ok(ku) => spec_scan_extensions(
                    rest,
                    CapabilitiesAcc { key_usage: acc.key_usage.push(ku), ca: acc.ca },
                ),
            }
        } else if e.oid == spec_basic_constraints_oid() {
            match spec_decode_bool_octets(e.value) {
                None => Err(ConversionErrorV::InvalidInput(InvalidInputV::MalformedBoolean)),
                Some(b) => if acc.ca is Some {
                    Err(ConversionErrorV::DuplicateBasicConstraints)
                } else {
                    spec_scan_extensions(rest, CapabilitiesAcc { key_usage: acc.key_usage, ca: Some(b) })
                },
            }
        } else if e.critical {
            Err(ConversionErrorV::InvalidInput(InvalidInputV::UnknownCriticalExtension { oid: e.oid }))
        } else {
            spec_scan_extensions(rest, acc)
        }
    }
}

/// Decoding an extension list into a capabilities value: the walk must
/// succeed and must have seen exactly one basic-constraints extension.
pub open spec fn spec_decode_capabilities(exts: Seq<ExtensionValueV>) -> Result<
    CapabilitiesV,
    ConversionErrorV,
> {
    match spec_scan_extensions(exts, CapabilitiesAcc { key_usage: seq![], ca: None }) {
        Err(e) => Err(e),
        Ok(acc) => match acc.ca {
            None => Err(ConversionErrorV::MissingBasicConstraints),
            Some(ca) => Ok(
                CapabilitiesV { key_usage: acc.key_usage, basic_constraints: BasicConstraints { ca } },
            ),
        },
    }
}

/// Maps a capabilities decode result onto its mathematical image.
pub open spec fn capabilities_result_view(r: Result<Capabilities, ConversionError>) -> Result<
    CapabilitiesV,
    ConversionErrorV,
> {
    match r {
        Ok(c) => Ok(c@),
        Err(e) => Err(e@),
    }
}

/// The view of an extension list.
pub open spec fn spec_extensions_view(exts: Seq<ExtensionValue>) -> Seq<ExtensionValueV> {
    exts.map(|i: int, e: ExtensionValue| e@)
}

impl Capabilities {
    /// Encodes the capabilities as X.509 extensions: one critical extension
    /// per key usage purpose, in order, then the basic constraints. This
    /// direction is total.
    pub fn to_extensions(&self) -> (r: Vec<ExtensionValue>)
        ensures
            spec_extensions_view(r@) == spec_encode_capabilities(self@),
    {
        let mut out: Vec<ExtensionValue> = Vec::new();
        let mut i: usize = 0;
        while i < self.key_usage.len()
            invariant
                i <= self.key_usage.len(),
                out@.len() == i,
                forall|j: int| 0 <= j < i ==> out@[j]@ == spec_encode_extension(self.key_usage@[j]),
            decreases self.key_usage.len() - i,
        {
            out.push(self.key_usage[i].to_extension());
            i += 1;
        }
        out.push(self.basic_constraints.to_extension());
        proof {
            assert(spec_extensions_view(out@) =~= spec_encode_capabilities(self@));
        }
        out
    }

    /// Decodes an extension list into a capabilities value, walking the list
    /// in order as `spec_scan_extensions` describes.
    pub fn try_from_extensions(exts: &Vec<ExtensionValue>) -> (r: Result<Capabilities, ConversionError>)
        ensures
            capabilities_result_view(r) == spec_decode_capabilities(spec_extensions_view(exts@)),
    {
        let ghost full = spec_extensions_view(exts@);
        let mut key_usage: Vec<KeyUsage> = Vec::new();
        let mut ca: Option<bool> = None;
        let mut idx: usize = 0;
        proof {
            assert(full.skip(0) =~= full);
            assert(key_usage@ =~= Seq::<KeyUsage>::empty());
            assert(CapabilitiesAcc { key_usage: key_usage@, ca } =~= CapabilitiesAcc {
                key_usage: seq![],
                ca: None,
            });
        }
        while idx < exts.len()
            invariant
                idx <= exts.len(),
                full == spec_extensions_view(exts@),
                spec_scan_extensions(full, CapabilitiesAcc { key_usage: seq![], ca: None })
                    == spec_scan_extensions(
                    full.skip(idx as int),
                    CapabilitiesAcc { key_usage: key_usage@, ca },
                ),
            decreases exts.len() - idx,
        {
            let e = &exts[idx];
            proof {
                assert(full.skip(idx as int)[0] == e@);
                assert(full.skip(idx as int).drop_first() =~= full.skip(idx as int + 1));
            }
            if KeyUsage::known_oid(&e.oid) {
                match KeyUsage::try_from_extension(e) {
                    Err(v) => {
                        return Err(ConversionError::InvalidInput(v));
                    },
                    Ok(ku) => {
                        key_usage.push(ku);
                    },
                }
            } else if e.oid.len() == 3 && e.oid[0] == 0x55 && e.oid[1] == 0x1d && e.oid[2] == 0x13 {
                proof {
                    assert(e@.oid =~= spec_basic_constraints_oid());
                }
                match decode_bool_octets(&e.value) {
                    None => {
                        return Err(ConversionError::InvalidInput(InvalidInput::MalformedBoolean));
                    },
                    Some(b) => {
                        if ca.is_some() {
                            return Err(ConversionError::DuplicateBasicConstraints);
                        }
                        ca = Some(b);
                    },
                }
            } else if e.critical {
                proof {
                    assert(e@.oid != spec_basic_constraints_oid());
                }
                return Err(
                    ConversionError::InvalidInput(
                        InvalidInput::UnknownCriticalExtension { oid: e.oid.clone() },
                    ),
                );
            }
            idx += 1;
        }
        proof {
            assert(full.skip(exts@.len() as int) =~= Seq::<ExtensionValueV>::empty());
        }
        match ca {
            None => Err(ConversionError::MissingBasicConstraints),
            Some(flag) => Ok(
                Capabilities { key_usage, basic_constraints: BasicConstraints { ca: flag } },
            ),
        }
    }
}

proof fn lemma_scan_encoded(kus: Seq<KeyUsage>, bc: BasicConstraints, acc: CapabilitiesAcc)
    requires
        acc.ca is None,
    ensures
        spec_scan_extensions(
            kus.map(|i: int, ku: KeyUsage| spec_encode_extension(ku)).push(
                spec_encode_basic_constraints(bc),
            ),
            acc,
        ) == Ok::<CapabilitiesAcc, ConversionErrorV>(
            CapabilitiesAcc { key_usage: acc.key_usage + kus, ca: Some(bc.ca) },
        ),
    decreases kus.len(),
{
    let s = kus.map(|i: int, ku: KeyUsage| spec_encode_extension(ku)).push(
        spec_encode_basic_constraints(bc),
    );
    if kus.len() == 0 {
        assert(s[0] == spec_encode_basic_constraints(bc));
        assert(!spec_known_key_usage_oid(s[0].oid));
        assert(s.drop_first() =~= Seq::<ExtensionValueV>::empty());
        assert(spec_decode_bool_octets(s[0].value) == Some(bc.ca));
        let acc2 = CapabilitiesAcc { key_usage: acc.key_usage, ca: Some(bc.ca) };
        assert(spec_scan_extensions(s, acc) == spec_scan_extensions(s.drop_first(), acc2));
        assert(spec_scan_extensions(s.drop_first(), acc2) == Ok::<CapabilitiesAcc, ConversionErrorV>(acc2));
        assert(acc2 =~= CapabilitiesAcc { key_usage: acc.key_usage + kus, ca: Some(bc.ca) });
    } else {
        let e0 = spec_encode_extension(kus[0]);
        assert(s[0] == e0);
        assert(spec_known_key_usage_oid(e0.oid));
        lemma_key_usage_round_trip(kus[0]);
        let acc2 = CapabilitiesAcc { key_usage: acc.key_usage.push(kus[0]), ca: acc.ca };
        assert(s.drop_first() =~= kus.drop_first().map(|i: int, ku: KeyUsage| spec_encode_extension(ku))
            .push(spec_encode_basic_constraints(bc)));
        lemma_scan_encoded(kus.drop_first(), bc, acc2);
        assert(spec_scan_extensions(s, acc) == spec_scan_extensions(s.drop_first(), acc2));
        assert(acc.key_usage.push(kus[0]) + kus.drop_first() =~= acc.key_usage + kus);
        assert(CapabilitiesAcc {
            key_usage: acc2.key_usage + kus.drop_first(),
            ca: Some(bc.ca),
        } =~= CapabilitiesAcc { key_usage: acc.key_usage + kus, ca: Some(bc.ca) });
    }
}

/// Round trip: decoding the extension list a capabilities value encodes to
/// gives back that value, for every capabilities value.
pub proof fn lemma_capabilities_round_trip(c: CapabilitiesV)
    ensures
        spec_decode_capabilities(spec_encode_capabilities(c)) == Ok::<CapabilitiesV, ConversionErrorV>(c),
{
    lemma_scan_encoded(c.key_usage, c.basic_constraints, CapabilitiesAcc { key_usage: seq![], ca: None });
    assert(Seq::<KeyUsage>::empty() + c.key_usage =~= c.key_usage);
    assert(spec_decode_capabilities(spec_encode_capabilities(c)) matches Ok(d) && d =~= c);
}

} // verus!
