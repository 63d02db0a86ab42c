//! Zeroization of sensitive wire structures.
//!
//! Each decoded response structure that can carry key material, secrets or
//! derived secrets has a fixed traversal rule that overwrites every
//! secret-bearing byte with zero before the structure's memory is
//! reclaimed:
//!
//! - flat length-prefixed buffers have the length field and the full
//!   backing buffer zeroed, regardless of the logical length, since
//!   trailing bytes may hold stale secrets;
//! - composite structures have each secret-bearing sub-field zeroed in
//!   turn;
//! - tagged unions decode their discriminant from its pristine value
//!   first, zero only the fields of the active variant, and zero the
//!   discriminant last; an undecodable discriminant means the payload's
//!   layout is unknown, so the payload is left untouched and only the
//!   discriminant is zeroed;
//! - tickets have their tag, issuing hierarchy and digest zeroed
//!   uniformly across all ticket classes.

use vstd::prelude::*;

use zeroize::Zeroize;

verus! {

pub const TPM2_ALG_RSA: u16 = 0x0001;

pub const TPM2_ALG_TDES: u16 = 0x0003;

pub const TPM2_ALG_HMAC: u16 = 0x0005;

pub const TPM2_ALG_AES: u16 = 0x0006;

pub const TPM2_ALG_MGF1: u16 = 0x0007;

pub const TPM2_ALG_KEYEDHASH: u16 = 0x0008;

pub const TPM2_ALG_XOR: u16 = 0x000A;

pub const TPM2_ALG_NULL: u16 = 0x0010;

pub const TPM2_ALG_SM4: u16 = 0x0013;

pub const TPM2_ALG_RSASSA: u16 = 0x0014;

pub const TPM2_ALG_RSAES: u16 = 0x0015;

pub const TPM2_ALG_RSAPSS: u16 = 0x0016;

pub const TPM2_ALG_OAEP: u16 = 0x0017;

pub const TPM2_ALG_ECDSA: u16 = 0x0018;

pub const TPM2_ALG_ECDH: u16 = 0x0019;

pub const TPM2_ALG_ECDAA: u16 = 0x001A;

pub const TPM2_ALG_SM2: u16 = 0x001B;

pub const TPM2_ALG_ECSCHNORR: u16 = 0x001C;

pub const TPM2_ALG_ECMQV: u16 = 0x001D;

pub const TPM2_ALG_KDF1_SP800_56A: u16 = 0x0020;

pub const TPM2_ALG_KDF2: u16 = 0x0021;

pub const TPM2_ALG_KDF1_SP800_108: u16 = 0x0022;

pub const TPM2_ALG_ECC: u16 = 0x0023;

pub const TPM2_ALG_SYMCIPHER: u16 = 0x0025;

pub const TPM2_ALG_CAMELLIA: u16 = 0x0026;

// ------------------------------------------------------------------
// Trusted zeroization primitives
// ------------------------------------------------------------------

/// Relies on `zeroize::Zeroize` for `u8`: overwrites the value with zero
/// through a volatile write the compiler may not elide.
#[verifier::external_body]
fn zeroize_u8(v: &mut u8)
    ensures
        *final(v) == 0,
{
    v.zeroize()
}

/// Relies on `zeroize::Zeroize` for `u16`: overwrites the value with zero
/// through a volatile write the compiler may not elide.
#[verifier::external_body]
fn zeroize_u16(v: &mut u16)
    ensures
        *final(v) == 0,
{
    v.zeroize()
}

/// Relies on `zeroize::Zeroize` for `u32`: overwrites the value with zero
/// through a volatile write the compiler may not elide.
#[verifier::external_body]
fn zeroize_u32(v: &mut u32)
    ensures
        *final(v) == 0,
{
    v.zeroize()
}

/// Relies on `zeroize::Zeroize` for `core::slice::IterMut` over bytes:
/// writes zero over every element in place, keeping the length, through
/// volatile writes the compiler may not elide.
#[verifier::external_body]
fn zeroize_bytes(v: &mut Vec<u8>)
    ensures
        final(v)@.len() == old(v)@.len(),
        forall|i: int| 0 <= i < final(v)@.len() ==> final(v)@[i] == 0u8,
{
    v.iter_mut().zeroize()
}

// ------------------------------------------------------------------
// Flat buffers
// ------------------------------------------------------------------

/// A length-prefixed byte buffer that may carry secret material: the
/// logical length in `size` and the full backing store in `buffer`.
#[derive(Clone, PartialEq, Eq, Debug)]
pub struct SensitiveBuffer {
    /// The logical length of the data held.
    pub size: u16,
    /// The full backing store; bytes beyond the logical length may hold
    /// stale secrets from earlier reuse of the memory.
    pub buffer: Vec<u8>,
}

/// The flat-buffer zeroization rule: the length field is zero and every
/// byte of the backing store is zero, with the store's extent preserved.
pub open spec fn buffer_wiped(pre: SensitiveBuffer, post: SensitiveBuffer) -> bool {
    &&& post.size == 0
    &&& post.buffer@.len() == pre.buffer@.len()
    &&& forall|i: int| 0 <= i < post.buffer@.len() ==> post.buffer@[i] == 0u8
}

impl SensitiveBuffer {
    /// Zeroes the length field and the full backing buffer, regardless of
    /// the logical length.
    pub fn zeroize_data(&mut self)
        ensures
            buffer_wiped(*old(self), *final(self)),
    {
        zeroize_u16(&mut self.size);
        zeroize_bytes(&mut self.buffer);
    }
}

/// A point on an elliptic curve, both coordinates secret-bearing.
#[derive(Clone, PartialEq, Eq, Debug)]
pub struct EccPoint {
    pub x: SensitiveBuffer,
    pub y: SensitiveBuffer,
}

/// Both coordinate buffers wiped.
pub open spec fn ecc_point_wiped(pre: EccPoint, post: EccPoint) -> bool {
    buffer_wiped(pre.x, post.x) && buffer_wiped(pre.y, post.y)
}

impl EccPoint {
    /// Zeroes both coordinate buffers.
    pub fn zeroize_data(&mut self)
        ensures
            ecc_point_wiped(*old(self), *final(self)),
    {
        self.x.zeroize_data();
        self.y.zeroize_data();
    }
}

// ------------------------------------------------------------------
// Platform-configuration-register selections
// ------------------------------------------------------------------

/// One selection of platform configuration registers under a digest
/// algorithm.
#[derive(Clone, PartialEq, Eq, Debug)]
pub struct PcrSelection {
    /// The digest algorithm the selection refers to.
    pub hash: u16,
    /// The logical length of the selection bitmap.
    pub size_of_select: u8,
    /// The full selection bitmap backing store.
    pub pcr_select: Vec<u8>,
}

/// Every field of the selection zeroed, the bitmap's extent preserved.
pub open spec fn pcr_selection_wiped(pre: PcrSelection, post: PcrSelection) -> bool {
    &&& post.hash == 0
    &&& post.size_of_select == 0
    &&& post.pcr_select@.len() == pre.pcr_select@.len()
    &&& forall|i: int| 0 <= i < post.pcr_select@.len() ==> post.pcr_select@[i] == 0u8
}

impl PcrSelection {
    /// Zeroes the algorithm, the logical length and the full bitmap.
    pub fn zeroize_data(&mut self)
        ensures
            pcr_selection_wiped(*old(self), *final(self)),
    {
        zeroize_u16(&mut self.hash);
        zeroize_u8(&mut self.size_of_select);
        zeroize_bytes(&mut self.pcr_select);
    }
}

/// A counted list of register selections, with its full backing store.
#[derive(Clone, PartialEq, Eq, Debug)]
pub struct PcrSelectionList {
    /// The logical number of selections held.
    pub count: u32,
    /// The full backing store of selections; entries beyond the logical
    /// count may hold stale data.
    pub pcr_selections: Vec<PcrSelection>,
}

/// The count zeroed and every stored selection wiped, regardless of the
/// logical count.
pub open spec fn pcr_selection_list_wiped(pre: PcrSelectionList, post: PcrSelectionList) -> bool {
    &&& post.count == 0
    &&& post.pcr_selections@.len() == pre.pcr_selections@.len()
    &&& forall|k: int|
        0 <= k < post.pcr_selections@.len() ==> pcr_selection_wiped(
            pre.pcr_selections@[k],
            #[trigger] post.pcr_selections@[k],
        )
}

impl PcrSelectionList {
    /// Zeroes the count and every selection in the backing store.
    pub fn zeroize_data(&mut self)
        ensures
            pcr_selection_list_wiped(*old(self), *final(self)),
    {
        zeroize_u32(&mut self.count);
        let mut i: usize = 0;
        while i < self.pcr_selections.len()
            invariant
                0 <= i <= self.pcr_selections@.len(),
                self.count == 0,
                self.pcr_selections@.len() == old(self).pcr_selections@.len(),
                forall|k: int|
                    0 <= k < i ==> pcr_selection_wiped(
                        old(self).pcr_selections@[k],
                        #[trigger] self.pcr_selections@[k],
                    ),
                forall|k: int|
                    i <= k < self.pcr_selections@.len() ==> #[trigger] self.pcr_selections@[k]
                        == old(self).pcr_selections@[k],
            decreases self.pcr_selections@.len() - i,
        {
            let e = &mut self.pcr_selections[i];
            e.zeroize_data();
            i += 1;
        }
    }
}

// ------------------------------------------------------------------
// Discriminant decoding
// ------------------------------------------------------------------

/// Symmetric object algorithms this layer can decode.
#[derive(Clone, Copy, PartialEq, Eq, Structural, Debug)]
pub enum SymmetricObjectKind {
    Aes,
    Sm4,
    Camellia,
    Tdes,
    Null,
}

/// Decodes a symmetric-object discriminant; an unrecognized or reserved
/// value yields `None`.
pub open spec fn decode_symmetric_object_spec(alg: u16) -> Option<SymmetricObjectKind> {
    if alg == TPM2_ALG_AES {
        Some(SymmetricObjectKind::Aes)
    } else if alg == TPM2_ALG_SM4 {
        Some(SymmetricObjectKind::Sm4)
    } else if alg == TPM2_ALG_CAMELLIA {
        Some(SymmetricObjectKind::Camellia)
    } else if alg == TPM2_ALG_TDES {
        Some(SymmetricObjectKind::Tdes)
    } else if alg == TPM2_ALG_NULL {
        Some(SymmetricObjectKind::Null)
    } else {
        None
    }
}

/// Decodes a symmetric-object discriminant.
pub fn decode_symmetric_object(alg: u16) -> (r: Option<SymmetricObjectKind>)
    ensures
        r == decode_symmetric_object_spec(alg),
{
    if alg == TPM2_ALG_AES {
        Some(SymmetricObjectKind::Aes)
    } else if alg == TPM2_ALG_SM4 {
        Some(SymmetricObjectKind::Sm4)
    } else if alg == TPM2_ALG_CAMELLIA {
        Some(SymmetricObjectKind::Camellia)
    } else if alg == TPM2_ALG_TDES {
        Some(SymmetricObjectKind::Tdes)
    } else if alg == TPM2_ALG_NULL {
        Some(SymmetricObjectKind::Null)
    } else {
        None
    }
}

/// Public-area algorithms this layer can decode.
#[derive(Clone, Copy, PartialEq, Eq, Structural, Debug)]
pub enum PublicAlgorithmKind {
    Rsa,
    KeyedHash,
    Ecc,
    SymCipher,
}

/// Decodes a public-area discriminant; an unrecognized or reserved value
/// yields `None`.
pub open spec fn decode_public_algorithm_spec(alg: u16) -> Option<PublicAlgorithmKind> {
    if alg == TPM2_ALG_RSA {
        Some(PublicAlgorithmKind::Rsa)
    } else if alg == TPM2_ALG_KEYEDHASH {
        Some(PublicAlgorithmKind::KeyedHash)
    } else if alg == TPM2_ALG_ECC {
        Some(PublicAlgorithmKind::Ecc)
    } else if alg == TPM2_ALG_SYMCIPHER {
        Some(PublicAlgorithmKind::SymCipher)
    } else {
        None
    }
}

/// Decodes a public-area discriminant.
pub fn decode_public_algorithm(alg: u16) -> (r: Option<PublicAlgorithmKind>)
    ensures
        r == decode_public_algorithm_spec(alg),
{
    if alg == TPM2_ALG_RSA {
        Some(PublicAlgorithmKind::Rsa)
    } else if alg == TPM2_ALG_KEYEDHASH {
        Some(PublicAlgorithmKind::KeyedHash)
    } else if alg == TPM2_ALG_ECC {
        Some(PublicAlgorithmKind::Ecc)
    } else if alg == TPM2_ALG_SYMCIPHER {
        Some(PublicAlgorithmKind::SymCipher)
    } else {
        None
    }
}

/// Keyed-hash scheme algorithms this layer can decode.
#[derive(Clone, Copy, PartialEq, Eq, Structural, Debug)]
pub enum KeyedHashSchemeKind {
    Hmac,
    Xor,
    Null,
}

/// Decodes a keyed-hash scheme discriminant; an unrecognized or reserved
/// value yields `None`.
pub open spec fn decode_keyed_hash_scheme_spec(alg: u16) -> Option<KeyedHashSchemeKind> {
    if alg == TPM2_ALG_HMAC {
        Some(KeyedHashSchemeKind::Hmac)
    } else if alg == TPM2_ALG_XOR {
        Some(KeyedHashSchemeKind::Xor)
    } else if alg == TPM2_ALG_NULL {
        Some(KeyedHashSchemeKind::Null)
    } else {
        None
    }
}

/// Decodes a keyed-hash scheme discriminant.
pub fn decode_keyed_hash_scheme(alg: u16) -> (r: Option<KeyedHashSchemeKind>)
    ensures
        r == decode_keyed_hash_scheme_spec(alg),
{
    if alg == TPM2_ALG_HMAC {
        Some(KeyedHashSchemeKind::Hmac)
    } else if alg == TPM2_ALG_XOR {
        Some(KeyedHashSchemeKind::Xor)
    } else if alg == TPM2_ALG_NULL {
        Some(KeyedHashSchemeKind::Null)
    } else {
        None
    }
}

/// Asymmetric signing and encryption schemes over RSA this layer can
/// decode.
#[derive(Clone, Copy, PartialEq, Eq, Structural, Debug)]
pub enum RsaSchemeKind {
    RsaSsa,
    RsaEs,
    RsaPss,
    Oaep,
    Null,
}

/// Decodes an RSA scheme discriminant; an unrecognized or reserved value
/// yields `None`.
pub open spec fn decode_rsa_scheme_spec(alg: u16) -> Option<RsaSchemeKind> {
    if alg == TPM2_ALG_RSASSA {
        Some(RsaSchemeKind::RsaSsa)
    } else if alg == TPM2_ALG_RSAES {
        Some(RsaSchemeKind::RsaEs)
    } else if alg == TPM2_ALG_RSAPSS {
        Some(RsaSchemeKind::RsaPss)
    } else if alg == TPM2_ALG_OAEP {
        Some(RsaSchemeKind::Oaep)
    } else if alg == TPM2_ALG_NULL {
        Some(RsaSchemeKind::Null)
    } else {
        None
    }
}

/// Decodes an RSA scheme discriminant.
pub fn decode_rsa_scheme(alg: u16) -> (r: Option<RsaSchemeKind>)
    ensures
        r == decode_rsa_scheme_spec(alg),
{
    if alg == TPM2_ALG_RSASSA {
        Some(RsaSchemeKind::RsaSsa)
    } else if alg == TPM2_ALG_RSAES {
        Some(RsaSchemeKind::RsaEs)
    } else if alg == TPM2_ALG_RSAPSS {
        Some(RsaSchemeKind::RsaPss)
    } else if alg == TPM2_ALG_OAEP {
        Some(RsaSchemeKind::Oaep)
    } else if alg == TPM2_ALG_NULL {
        Some(RsaSchemeKind::Null)
    } else {
        None
    }
}

/// Elliptic-curve schemes this layer can decode.
#[derive(Clone, Copy, PartialEq, Eq, Structural, Debug)]
pub enum EccSchemeKind {
    EcDsa,
    EcDh,
    EcDaa,
    Sm2,
    EcSchnorr,
    EcMqv,
    Null,
}

/// Decodes an elliptic-curve scheme discriminant; an unrecognized or
/// reserved value yields `None`.
pub open spec fn decode_ecc_scheme_spec(alg: u16) -> Option<EccSchemeKind> {
    if alg == TPM2_ALG_ECDSA {
        Some(EccSchemeKind::EcDsa)
    } else if alg == TPM2_ALG_ECDH {
        Some(EccSchemeKind::EcDh)
    } else if alg == TPM2_ALG_ECDAA {
        Some(EccSchemeKind::EcDaa)
    } else if alg == TPM2_ALG_SM2 {
        Some(EccSchemeKind::Sm2)
    } else if alg == TPM2_ALG_ECSCHNORR {
        Some(EccSchemeKind::EcSchnorr)
    } else if alg == TPM2_ALG_ECMQV {
        Some(EccSchemeKind::EcMqv)
    } else if alg == TPM2_ALG_NULL {
        Some(EccSchemeKind::Null)
    } else {
        None
    }
}

/// Decodes an elliptic-curve scheme discriminant.
pub fn decode_ecc_scheme(alg: u16) -> (r: Option<EccSchemeKind>)
    ensures
        r == decode_ecc_scheme_spec(alg),
{
    if alg == TPM2_ALG_ECDSA {
        Some(EccSchemeKind::EcDsa)
    } else if alg == TPM2_ALG_ECDH {
        Some(EccSchemeKind::EcDh)
    } else if alg == TPM2_ALG_ECDAA {
        Some(EccSchemeKind::EcDaa)
    } else if alg == TPM2_ALG_SM2 {
        Some(EccSchemeKind::Sm2)
    } else if alg == TPM2_ALG_ECSCHNORR {
        Some(EccSchemeKind::EcSchnorr)
    } else if alg == TPM2_ALG_ECMQV {
        Some(EccSchemeKind::EcMqv)
    } else if alg == TPM2_ALG_NULL {
        Some(EccSchemeKind::Null)
    } else {
        None
    }
}

/// Key-derivation functions this layer can decode.
#[derive(Clone, Copy, PartialEq, Eq, Structural, Debug)]
pub enum KdfKind {
    Kdf1Sp800_56a,
    Kdf2,
    Kdf1Sp800_108,
    Mgf1,
    Null,
}

/// Decodes a key-derivation-function discriminant; an unrecognized or
/// reserved value yields `None`.
pub open spec fn decode_kdf_spec(alg: u16) -> Option<KdfKind> {
    if alg == TPM2_ALG_KDF1_SP800_56A {
        Some(KdfKind::Kdf1Sp800_56a)
    } else if alg == TPM2_ALG_KDF2 {
        Some(KdfKind::Kdf2)
    } else if alg == TPM2_ALG_KDF1_SP800_108 {
        Some(KdfKind::Kdf1Sp800_108)
    } else if alg == TPM2_ALG_MGF1 {
        Some(KdfKind::Mgf1)
    } else if alg == TPM2_ALG_NULL {
        Some(KdfKind::Null)
    } else {
        None
    }
}

/// Decodes a key-derivation-function discriminant.
pub fn decode_kdf(alg: u16) -> (r: Option<KdfKind>)
    ensures
        r == decode_kdf_spec(alg),
{
    if alg == TPM2_ALG_KDF1_SP800_56A {
        Some(KdfKind::Kdf1Sp800_56a)
    } else if alg == TPM2_ALG_KDF2 {
        Some(KdfKind::Kdf2)
    } else if alg == TPM2_ALG_KDF1_SP800_108 {
        Some(KdfKind::Kdf1Sp800_108)
    } else if alg == TPM2_ALG_MGF1 {
        Some(KdfKind::Mgf1)
    } else if alg == TPM2_ALG_NULL {
        Some(KdfKind::Null)
    } else {
        None
    }
}

// ------------------------------------------------------------------
// Tagged unions over one storage region
// ------------------------------------------------------------------

/// A symmetric algorithm definition for an object: the `algorithm`
/// discriminant decides how the shared key-bits and mode storage is
/// interpreted.
#[derive(Clone, Copy, PartialEq, Eq, Structural, Debug)]
pub struct SymDefObject {
    /// The raw discriminant, read before anything is zeroed and zeroed
    /// last.
    pub algorithm: u16,
    /// The shared key-size storage; secret-bearing for the block-cipher
    /// interpretations.
    pub key_bits: u16,
    /// The shared mode storage.
    pub mode: u16,
}

impl SymDefObject {
    /// The value after zeroization: the block-cipher interpretations have
    /// their key-bits and mode zeroed; the null and legacy interpretations
    /// carry no secret and keep their storage, as does an undecodable
    /// discriminant, whose storage layout is unknown. The discriminant
    /// itself always ends zero.
    pub open spec fn zeroized(pre: SymDefObject) -> SymDefObject {
        match decode_symmetric_object_spec(pre.algorithm) {
            Some(SymmetricObjectKind::Aes) => SymDefObject { algorithm: 0, key_bits: 0, mode: 0 },
            Some(SymmetricObjectKind::Sm4) => SymDefObject { algorithm: 0, key_bits: 0, mode: 0 },
            Some(SymmetricObjectKind::Camellia) => SymDefObject {
                algorithm: 0,
                key_bits: 0,
                mode: 0,
            },
            _ => SymDefObject { algorithm: 0, ..pre },
        }
    }

    /// Decodes the discriminant from its pristine value, zeroes the fields
    /// of the active interpretation, then zeroes the discriminant last.
    pub fn zeroize_data(&mut self)
        ensures
            *final(self) == SymDefObject::zeroized(*old(self)),
    {
        match decode_symmetric_object(self.algorithm) {
            Some(SymmetricObjectKind::Aes) | Some(SymmetricObjectKind::Sm4) | Some(
                SymmetricObjectKind::Camellia,
            ) => {
                zeroize_u16(&mut self.key_bits);
                zeroize_u16(&mut self.mode);
            },
            Some(SymmetricObjectKind::Tdes) => {},
            Some(SymmetricObjectKind::Null) => {},
            None => {},
        }
        zeroize_u16(&mut self.algorithm);
    }
}

/// A keyed-hash scheme: the `scheme` discriminant decides how the shared
/// detail storage is interpreted. The HMAC interpretation occupies only
/// the leading field of the storage; the exclusive-or interpretation also
/// uses the trailing key-derivation field.
#[derive(Clone, Copy, PartialEq, Eq, Structural, Debug)]
pub struct KeyedHashScheme {
    /// The raw discriminant, zeroed last.
    pub scheme: u16,
    /// The leading detail storage: the digest algorithm of the active
    /// interpretation.
    pub hash_alg: u16,
    /// The trailing detail storage, used only by the exclusive-or
    /// interpretation.
    pub kdf: u16,
}

impl KeyedHashScheme {
    /// The value after zeroization: each known interpretation has exactly
    /// its own fields zeroed, so the HMAC case leaves the trailing storage
    /// as it is; the null case and an undecodable discriminant leave the
    /// whole storage. The discriminant always ends zero.
    pub open spec fn zeroized(pre: KeyedHashScheme) -> KeyedHashScheme {
        match decode_keyed_hash_scheme_spec(pre.scheme) {
            Some(KeyedHashSchemeKind::Hmac) => KeyedHashScheme { scheme: 0, hash_alg: 0, ..pre },
            Some(KeyedHashSchemeKind::Xor) => KeyedHashScheme { scheme: 0, hash_alg: 0, kdf: 0 },
            _ => KeyedHashScheme { scheme: 0, ..pre },
        }
    }

    /// Decodes the discriminant from its pristine value, zeroes the fields
    /// of the active interpretation, then zeroes the discriminant last.
    pub fn zeroize_data(&mut self)
        ensures
            *final(self) == KeyedHashScheme::zeroized(*old(self)),
    {
        match decode_keyed_hash_scheme(self.scheme) {
            Some(KeyedHashSchemeKind::Hmac) => {
                zeroize_u16(&mut self.hash_alg);
            },
            Some(KeyedHashSchemeKind::Xor) => {
                zeroize_u16(&mut self.hash_alg);
                zeroize_u16(&mut self.kdf);
            },
            Some(KeyedHashSchemeKind::Null) => {},
            None => {},
        }
        zeroize_u16(&mut self.scheme);
    }
}

/// An RSA scheme: the `scheme` discriminant decides whether the detail
/// storage holds a digest algorithm.
#[derive(Clone, Copy, PartialEq, Eq, Structural, Debug)]
pub struct RsaScheme {
    /// The raw discriminant, zeroed last.
    pub scheme: u16,
    /// The shared detail storage: the digest algorithm of the hash-based
    /// interpretations.
    pub hash_alg: u16,
}

impl RsaScheme {
    /// The value after zeroization: the hash-based interpretations have
    /// the detail storage zeroed; the encryption-only and null
    /// interpretations carry no detail, and an undecodable discriminant
    /// leaves the storage untouched. The discriminant always ends zero.
    pub open spec fn zeroized(pre: RsaScheme) -> RsaScheme {
        match decode_rsa_scheme_spec(pre.scheme) {
            Some(RsaSchemeKind::RsaSsa) => RsaScheme { scheme: 0, hash_alg: 0 },
            Some(RsaSchemeKind::RsaPss) => RsaScheme { scheme: 0, hash_alg: 0 },
            Some(RsaSchemeKind::Oaep) => RsaScheme { scheme: 0, hash_alg: 0 },
            _ => RsaScheme { scheme: 0, ..pre },
        }
    }

    /// Decodes the discriminant from its pristine value, zeroes the fields
    /// of the active interpretation, then zeroes the discriminant last.
    pub fn zeroize_data(&mut self)
        ensures
            *final(self) == RsaScheme::zeroized(*old(self)),
    {
        match decode_rsa_scheme(self.scheme) {
            Some(RsaSchemeKind::RsaSsa) | Some(RsaSchemeKind::RsaPss) | Some(
                RsaSchemeKind::Oaep,
            ) => {
                zeroize_u16(&mut self.hash_alg);
            },
            Some(RsaSchemeKind::RsaEs) => {},
            Some(RsaSchemeKind::Null) => {},
            None => {},
        }
        zeroize_u16(&mut self.scheme);
    }
}

/// An elliptic-curve scheme: the `scheme` discriminant decides how much of
/// the shared detail storage is in use. The anonymous-attestation
/// interpretation also uses the trailing counter field.
#[derive(Clone, Copy, PartialEq, Eq, Structural, Debug)]
pub struct EccScheme {
    /// The raw discriminant, zeroed last.
    pub scheme: u16,
    /// The leading detail storage: the digest algorithm of the active
    /// interpretation.
    pub hash_alg: u16,
    /// The trailing detail storage, used only by the anonymous-attestation
    /// interpretation.
    pub count: u16,
}

impl EccScheme {
    /// The value after zeroization: each known interpretation has exactly
    /// its own fields zeroed; the null case and an undecodable
    /// discriminant leave the storage. The discriminant always ends zero.
    pub open spec fn zeroized(pre: EccScheme) -> EccScheme {
        match decode_ecc_scheme_spec(pre.scheme) {
            Some(EccSchemeKind::EcDaa) => EccScheme { scheme: 0, hash_alg: 0, count: 0 },
            Some(EccSchemeKind::Null) => EccScheme { scheme: 0, ..pre },
            Some(_) => EccScheme { scheme: 0, hash_alg: 0, ..pre },
            None => EccScheme { scheme: 0, ..pre },
        }
    }

    /// Decodes the discriminant from its pristine value, zeroes the fields
    /// of the active interpretation, then zeroes the discriminant last.
    pub fn zeroize_data(&mut self)
        ensures
            *final(self) == EccScheme::zeroized(*old(self)),
    {
        match decode_ecc_scheme(self.scheme) {
            Some(EccSchemeKind::EcDaa) => {
                zeroize_u16(&mut self.hash_alg);
                zeroize_u16(&mut self.count);
            },
            Some(EccSchemeKind::EcDsa) | Some(EccSchemeKind::EcDh) | Some(EccSchemeKind::Sm2)
                | Some(EccSchemeKind::EcSchnorr) | Some(EccSchemeKind::EcMqv) => {
                zeroize_u16(&mut self.hash_alg);
            },
            Some(EccSchemeKind::Null) => {},
            None => {},
        }
        zeroize_u16(&mut self.scheme);
    }
}

/// A key-derivation scheme: the `scheme` discriminant decides whether the
/// detail storage holds a digest algorithm.
#[derive(Clone, Copy, PartialEq, Eq, Structural, Debug)]
pub struct KdfScheme {
    /// The raw discriminant, zeroed last.
    pub scheme: u16,
    /// The shared detail storage: the digest algorithm of the active
    /// interpretation.
    pub hash_alg: u16,
}

impl KdfScheme {
    /// The value after zeroization: every known derivation function has
    /// the detail storage zeroed; the null case and an undecodable
    /// discriminant leave it. The discriminant always ends zero.
    pub open spec fn zeroized(pre: KdfScheme) -> KdfScheme {
        match decode_kdf_spec(pre.scheme) {
            Some(KdfKind::Null) => KdfScheme { scheme: 0, ..pre },
            Some(_) => KdfScheme { scheme: 0, hash_alg: 0 },
            None => KdfScheme { scheme: 0, ..pre },
        }
    }

    /// Decodes the discriminant from its pristine value, zeroes the fields
    /// of the active interpretation, then zeroes the discriminant last.
    pub fn zeroize_data(&mut self)
        ensures
            *final(self) == KdfScheme::zeroized(*old(self)),
    {
        match decode_kdf(self.scheme) {
            Some(KdfKind::Kdf1Sp800_56a) | Some(KdfKind::Kdf2) | Some(KdfKind::Kdf1Sp800_108)
                | Some(KdfKind::Mgf1) => {
                zeroize_u16(&mut self.hash_alg);
            },
            Some(KdfKind::Null) => {},
            None => {},
        }
        zeroize_u16(&mut self.scheme);
    }
}

// ------------------------------------------------------------------
// Composite parameter structures
// ------------------------------------------------------------------

/// Parameters of an RSA key: every sub-field is zeroed in turn.
#[derive(Clone, Copy, PartialEq, Eq, Structural, Debug)]
pub struct RsaParms {
    pub symmetric: SymDefObject,
    pub scheme: RsaScheme,
    pub key_bits: u16,
    pub exponent: u32,
}

impl RsaParms {
    /// The value after zeroization of every sub-field.
    pub open spec fn zeroized(pre: RsaParms) -> RsaParms {
        RsaParms {
            symmetric: SymDefObject::zeroized(pre.symmetric),
            scheme: RsaScheme::zeroized(pre.scheme),
            key_bits: 0,
            exponent: 0,
        }
    }

    /// Zeroes every sub-field in turn.
    pub fn zeroize_data(&mut self)
        ensures
            *final(self) == RsaParms::zeroized(*old(self)),
    {
        self.symmetric.zeroize_data();
        self.scheme.zeroize_data();
        zeroize_u16(&mut self.key_bits);
        zeroize_u32(&mut self.exponent);
    }
}

/// Parameters of an elliptic-curve key: every sub-field is zeroed in turn.
#[derive(Clone, Copy, PartialEq, Eq, Structural, Debug)]
pub struct EccParms {
    pub symmetric: SymDefObject,
    pub scheme: EccScheme,
    pub curve_id: u16,
    pub kdf: KdfScheme,
}

impl EccParms {
    /// The value after zeroization of every sub-field.
    pub open spec fn zeroized(pre: EccParms) -> EccParms {
        EccParms {
            symmetric: SymDefObject::zeroized(pre.symmetric),
            scheme: EccScheme::zeroized(pre.scheme),
            curve_id: 0,
            kdf: KdfScheme::zeroized(pre.kdf),
        }
    }

    /// Zeroes every sub-field in turn.
    pub fn zeroize_data(&mut self)
        ensures
            *final(self) == EccParms::zeroized(*old(self)),
    {
        self.symmetric.zeroize_data();
        self.scheme.zeroize_data();
        zeroize_u16(&mut self.curve_id);
        self.kdf.zeroize_data();
    }
}

/// The secret-bearing creation input of an object: an authorization value
/// and the sensitive data proper.
#[derive(Clone, PartialEq, Eq, Debug)]
pub struct SensitiveCreate {
    pub user_auth: SensitiveBuffer,
    pub data: SensitiveBuffer,
}

/// Both secret-bearing buffers wiped.
pub open spec fn sensitive_create_wiped(pre: SensitiveCreate, post: SensitiveCreate) -> bool {
    buffer_wiped(pre.user_auth, post.user_auth) && buffer_wiped(pre.data, post.data)
}

impl SensitiveCreate {
    /// Zeroes both secret-bearing buffers.
    pub fn zeroize_data(&mut self)
        ensures
            sensitive_create_wiped(*old(self), *final(self)),
    {
        self.user_auth.zeroize_data();
        self.data.zeroize_data();
    }
}

/// The data recorded about an object's creation environment.
#[derive(Clone, PartialEq, Eq, Debug)]
pub struct CreationData {
    pub pcr_select: PcrSelectionList,
    pub pcr_digest: SensitiveBuffer,
    pub locality: u8,
    pub parent_name_alg: u16,
    pub parent_name: SensitiveBuffer,
    pub parent_qualified_name: SensitiveBuffer,
    pub outside_info: SensitiveBuffer,
}

/// Every sub-field of the creation data zeroed.
pub open spec fn creation_data_wiped(pre: CreationData, post: CreationData) -> bool {
    &&& pcr_selection_list_wiped(pre.pcr_select, post.pcr_select)
    &&& buffer_wiped(pre.pcr_digest, post.pcr_digest)
    &&& post.locality == 0
    &&& post.parent_name_alg == 0
    &&& buffer_wiped(pre.parent_name, post.parent_name)
    &&& buffer_wiped(pre.parent_qualified_name, post.parent_qualified_name)
    &&& buffer_wiped(pre.outside_info, post.outside_info)
}

impl CreationData {
    /// Zeroes every sub-field in turn.
    pub fn zeroize_data(&mut self)
        ensures
            creation_data_wiped(*old(self), *final(self)),
    {
        self.pcr_select.zeroize_data();
        self.pcr_digest.zeroize_data();
        zeroize_u8(&mut self.locality);
        zeroize_u16(&mut self.parent_name_alg);
        self.parent_name.zeroize_data();
        self.parent_qualified_name.zeroize_data();
        self.outside_info.zeroize_data();
    }
}

/// A ticket issued by the module: one structure stands for every
/// protocol-defined ticket class, since all of them are zeroed the same
/// way.
#[derive(Clone, PartialEq, Eq, Debug)]
pub struct Ticket {
    /// The ticket's structure tag.
    pub tag: u16,
    /// The hierarchy that issued the ticket.
    pub hierarchy: u32,
    /// The ticket's digest buffer.
    pub digest: SensitiveBuffer,
}

/// Tag, issuing hierarchy and digest zeroed, uniformly for every ticket
/// class.
pub open spec fn ticket_wiped(pre: Ticket, post: Ticket) -> bool {
    &&& post.tag == 0
    &&& post.hierarchy == 0
    &&& buffer_wiped(pre.digest, post.digest)
}

impl Ticket {
    /// Zeroes the tag, the issuing hierarchy and the digest buffer.
    pub fn zeroize_data(&mut self)
        ensures
            ticket_wiped(*old(self), *final(self)),
    {
        zeroize_u16(&mut self.tag);
        zeroize_u32(&mut self.hierarchy);
        self.digest.zeroize_data();
    }
}

// ------------------------------------------------------------------
// The public area of an object
// ------------------------------------------------------------------

/// The payload of a public area: the key parameters and unique identifier
/// under one of the decodable algorithms, or an opaque payload under a
/// discriminant this layer cannot decode, whose layout is unknown and
/// which is therefore never touched.
#[derive(Clone, PartialEq, Eq, Debug)]
pub enum PublicPayload {
    Rsa { parms: RsaParms, unique: SensitiveBuffer },
    KeyedHash { parms: KeyedHashScheme, unique: SensitiveBuffer },
    SymCipher { parms: SymDefObject, unique: SensitiveBuffer },
    Ecc { parms: EccParms, unique: EccPoint },
    /// A payload under an unrecognized or reserved discriminant.
    Unknown,
}

/// The public area of an object: a tagged union whose raw `object_type`
/// discriminant decides how the parameter and unique storage is
/// interpreted.
#[derive(Clone, PartialEq, Eq, Debug)]
pub struct PublicArea {
    /// The raw discriminant, read before anything is zeroed and zeroed
    /// last.
    pub object_type: u16,
    /// The digest algorithm used to compute the object's name.
    pub name_alg: u16,
    /// The object's attribute word.
    pub object_attributes: u32,
    /// The authorization policy digest.
    pub auth_policy: SensitiveBuffer,
    /// The payload interpreted according to `object_type`.
    pub payload: PublicPayload,
}

/// The payloads correspond under the zeroization rules of the active
/// variant: parameters zeroed by their own union rules and the unique
/// identifier wiped.
pub open spec fn public_payload_wiped(pre: PublicPayload, post: PublicPayload) -> bool {
    match (pre, post) {
        (
            PublicPayload::Rsa { parms: p0, unique: u0 },
            PublicPayload::Rsa { parms: p1, unique: u1 },
        ) => p1 == RsaParms::zeroized(p0) && buffer_wiped(u0, u1),
        (
            PublicPayload::KeyedHash { parms: p0, unique: u0 },
            PublicPayload::KeyedHash { parms: p1, unique: u1 },
        ) => p1 == KeyedHashScheme::zeroized(p0) && buffer_wiped(u0, u1),
        (
            PublicPayload::SymCipher { parms: p0, unique: u0 },
            PublicPayload::SymCipher { parms: p1, unique: u1 },
        ) => p1 == SymDefObject::zeroized(p0) && buffer_wiped(u0, u1),
        (
            PublicPayload::Ecc { parms: p0, unique: u0 },
            PublicPayload::Ecc { parms: p1, unique: u1 },
        ) => p1 == EccParms::zeroized(p0) && ecc_point_wiped(u0, u1),
        _ => false,
    }
}

impl PublicArea {
    /// Well-formedness: the payload variant matches what the raw
    /// discriminant decodes to, so the one storage region is never read
    /// under two interpretations at once.
    pub open spec fn wf(self) -> bool {
        match decode_public_algorithm_spec(self.object_type) {
            Some(PublicAlgorithmKind::Rsa) => self.payload is Rsa,
            Some(PublicAlgorithmKind::KeyedHash) => self.payload is KeyedHash,
            Some(PublicAlgorithmKind::SymCipher) => self.payload is SymCipher,
            Some(PublicAlgorithmKind::Ecc) => self.payload is Ecc,
            None => self.payload is Unknown,
        }
    }

    /// Decodes the discriminant from its pristine value; under a known
    /// algorithm the attribute word, the name algorithm, the authorization
    /// policy, the parameters and the unique identifier are all zeroed,
    /// and the discriminant last. Under an undecodable discriminant the
    /// payload's layout is unknown, so everything but the discriminant is
    /// left exactly as it was.
    pub fn zeroize_data(&mut self)
        requires
            old(self).wf(),
        ensures
            final(self).object_type == 0,
            decode_public_algorithm_spec(old(self).object_type) is None ==> *final(self) == (
            PublicArea { object_type: 0, ..*old(self) }),
            decode_public_algorithm_spec(old(self).object_type) is Some ==> {
                &&& final(self).name_alg == 0
                &&& final(self).object_attributes == 0
                &&& buffer_wiped(old(self).auth_policy, final(self).auth_policy)
                &&& public_payload_wiped(old(self).payload, final(self).payload)
            },
    {
        match decode_public_algorithm(self.object_type) {
            Some(_) => {
                zeroize_u32(&mut self.object_attributes);
                zeroize_u16(&mut self.name_alg);
                self.auth_policy.zeroize_data();
                match &mut self.payload {
                    PublicPayload::Rsa { parms, unique } => {
                        parms.zeroize_data();
                        unique.zeroize_data();
                    },
                    PublicPayload::KeyedHash { parms, unique } => {
                        parms.zeroize_data();
                        unique.zeroize_data();
                    },
                    PublicPayload::SymCipher { parms, unique } => {
                        parms.zeroize_data();
                        unique.zeroize_data();
                    },
                    PublicPayload::Ecc { parms, unique } => {
                        parms.zeroize_data();
                        unique.zeroize_data();
                    },
                    PublicPayload::Unknown => {},
                }
            },
            None => {},
        }
        zeroize_u16(&mut self.object_type);
    }
}

// ------------------------------------------------------------------
// Zeroization laws
// ------------------------------------------------------------------

/// For every decodable symmetric-object discriminant, zeroization leaves
/// every field of the active interpretation zero, and the discriminant
/// itself zero. The null and legacy interpretations have no
/// secret-bearing fields of their own.
pub proof fn lemma_sym_def_object_known_discriminant_wiped(pre: SymDefObject)
    requires
        decode_symmetric_object_spec(pre.algorithm) is Some,
    ensures
        SymDefObject::zeroized(pre).algorithm == 0,
        !(decode_symmetric_object_spec(pre.algorithm) == Some(SymmetricObjectKind::Null))
            && !(decode_symmetric_object_spec(pre.algorithm) == Some(SymmetricObjectKind::Tdes))
            ==> SymDefObject::zeroized(pre).key_bits == 0 && SymDefObject::zeroized(pre).mode == 0,
{
}

/// For an undecodable symmetric-object discriminant, the payload storage
/// is left unmodified and only the discriminant ends zero.
pub proof fn lemma_sym_def_object_unknown_discriminant_untouched(pre: SymDefObject)
    requires
        decode_symmetric_object_spec(pre.algorithm) is None,
    ensures
        SymDefObject::zeroized(pre) == (SymDefObject { algorithm: 0, ..pre }),
{
}

/// For every decodable keyed-hash scheme discriminant, zeroization leaves
/// every field of the active interpretation zero, and the discriminant
/// itself zero: the HMAC interpretation owns only the leading field, the
/// exclusive-or interpretation both, the null interpretation none.
pub proof fn lemma_keyed_hash_scheme_known_discriminant_wiped(pre: KeyedHashScheme)
    requires
        decode_keyed_hash_scheme_spec(pre.scheme) is Some,
    ensures
        KeyedHashScheme::zeroized(pre).scheme == 0,
        decode_keyed_hash_scheme_spec(pre.scheme) == Some(KeyedHashSchemeKind::Hmac)
            ==> KeyedHashScheme::zeroized(pre).hash_alg == 0,
        decode_keyed_hash_scheme_spec(pre.scheme) == Some(KeyedHashSchemeKind::Xor)
            ==> KeyedHashScheme::zeroized(pre).hash_alg == 0 && KeyedHashScheme::zeroized(pre).kdf
            == 0,
{
}

/// For an undecodable keyed-hash scheme discriminant, the payload storage
/// is left unmodified and only the discriminant ends zero.
pub proof fn lemma_keyed_hash_scheme_unknown_discriminant_untouched(pre: KeyedHashScheme)
    requires
        decode_keyed_hash_scheme_spec(pre.scheme) is None,
    ensures
        KeyedHashScheme::zeroized(pre) == (KeyedHashScheme { scheme: 0, ..pre }),
{
}

/// For every decodable RSA scheme discriminant, zeroization leaves every
/// field of the active interpretation zero, and the discriminant itself
/// zero. The encryption-only and null interpretations own no detail
/// field.
pub proof fn lemma_rsa_scheme_known_discriminant_wiped(pre: RsaScheme)
    requires
        decode_rsa_scheme_spec(pre.scheme) is Some,
    ensures
        RsaScheme::zeroized(pre).scheme == 0,
        !(decode_rsa_scheme_spec(pre.scheme) == Some(RsaSchemeKind::RsaEs)) && !(
        decode_rsa_scheme_spec(pre.scheme) == Some(RsaSchemeKind::Null)) ==> RsaScheme::zeroized(
            pre,
        ).hash_alg == 0,
{
}

/// For an undecodable RSA scheme discriminant, the payload storage is
/// left unmodified and only the discriminant ends zero.
pub proof fn lemma_rsa_scheme_unknown_discriminant_untouched(pre: RsaScheme)
    requires
        decode_rsa_scheme_spec(pre.scheme) is None,
    ensures
        RsaScheme::zeroized(pre) == (RsaScheme { scheme: 0, ..pre }),
{
}

/// For every decodable elliptic-curve scheme discriminant, zeroization
/// leaves every field of the active interpretation zero, and the
/// discriminant itself zero: only the anonymous-attestation
/// interpretation owns the trailing counter, the null interpretation owns
/// nothing.
pub proof fn lemma_ecc_scheme_known_discriminant_wiped(pre: EccScheme)
    requires
        decode_ecc_scheme_spec(pre.scheme) is Some,
    ensures
        EccScheme::zeroized(pre).scheme == 0,
        !(decode_ecc_scheme_spec(pre.scheme) == Some(EccSchemeKind::Null)) ==> EccScheme::zeroized(
            pre,
        ).hash_alg == 0,
        decode_ecc_scheme_spec(pre.scheme) == Some(EccSchemeKind::EcDaa) ==> EccScheme::zeroized(
            pre,
        ).count == 0,
{
}

/// For an undecodable elliptic-curve scheme discriminant, the payload
/// storage is left unmodified and only the discriminant ends zero.
pub proof fn lemma_ecc_scheme_unknown_discriminant_untouched(pre: EccScheme)
    requires
        decode_ecc_scheme_spec(pre.scheme) is None,
    ensures
        EccScheme::zeroized(pre) == (EccScheme { scheme: 0, ..pre }),
{
}

/// For every decodable key-derivation discriminant, zeroization leaves
/// every field of the active interpretation zero, and the discriminant
/// itself zero. The null interpretation owns no detail field.
pub proof fn lemma_kdf_scheme_known_discriminant_wiped(pre: KdfScheme)
    requires
        decode_kdf_spec(pre.scheme) is Some,
    ensures
        KdfScheme::zeroized(pre).scheme == 0,
        !(decode_kdf_spec(pre.scheme) == Some(KdfKind::Null)) ==> KdfScheme::zeroized(pre).hash_alg
            == 0,
{
}

/// For an undecodable key-derivation discriminant, the payload storage is
/// left unmodified and only the discriminant ends zero.
pub proof fn lemma_kdf_scheme_unknown_discriminant_untouched(pre: KdfScheme)
    requires
        decode_kdf_spec(pre.scheme) is None,
    ensures
        KdfScheme::zeroized(pre) == (KdfScheme { scheme: 0, ..pre }),
{
}

} // verus!
