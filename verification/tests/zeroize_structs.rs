use tss_esapi::data_zeroize::{
    CreationData, EccParms, EccPoint, EccScheme, KdfScheme, KeyedHashScheme, PcrSelection,
    PcrSelectionList, PublicArea, PublicPayload, RsaParms, RsaScheme, SensitiveBuffer,
    SensitiveCreate, SymDefObject, Ticket, TPM2_ALG_AES, TPM2_ALG_CAMELLIA, TPM2_ALG_ECDAA,
    TPM2_ALG_ECDSA, TPM2_ALG_HMAC, TPM2_ALG_KDF2, TPM2_ALG_KEYEDHASH, TPM2_ALG_NULL,
    TPM2_ALG_OAEP, TPM2_ALG_RSA, TPM2_ALG_RSAES, TPM2_ALG_RSASSA, TPM2_ALG_SM4, TPM2_ALG_TDES,
};

fn buf(size: u16, bytes: &[u8]) -> SensitiveBuffer {
    SensitiveBuffer { size, buffer: bytes.to_vec() }
}

#[test]
fn flat_buffer_is_wiped_beyond_its_logical_length() {
    let mut b = buf(3, &[0xAA, 0xBB, 0xCC, 0xDD, 0xEE, 0xFF, 0x11, 0x22]);
    b.zeroize_data();
    assert_eq!(b.size, 0);
    assert_eq!(b.buffer, vec![0u8; 8]);
}

#[test]
fn sym_def_object_aes_wipes_key_bits_and_mode() {
    let mut s = SymDefObject { algorithm: TPM2_ALG_AES, key_bits: 256, mode: 0x0043 };
    s.zeroize_data();
    assert_eq!(s, SymDefObject { algorithm: 0, key_bits: 0, mode: 0 });

    let mut s = SymDefObject { algorithm: TPM2_ALG_SM4, key_bits: 128, mode: 0x0043 };
    s.zeroize_data();
    assert_eq!(s, SymDefObject { algorithm: 0, key_bits: 0, mode: 0 });

    let mut s = SymDefObject { algorithm: TPM2_ALG_CAMELLIA, key_bits: 128, mode: 0x0043 };
    s.zeroize_data();
    assert_eq!(s, SymDefObject { algorithm: 0, key_bits: 0, mode: 0 });
}

#[test]
fn sym_def_object_null_and_tdes_keep_their_storage() {
    let mut s = SymDefObject { algorithm: TPM2_ALG_NULL, key_bits: 77, mode: 88 };
    s.zeroize_data();
    assert_eq!(s, SymDefObject { algorithm: 0, key_bits: 77, mode: 88 });

    let mut s = SymDefObject { algorithm: TPM2_ALG_TDES, key_bits: 77, mode: 88 };
    s.zeroize_data();
    assert_eq!(s, SymDefObject { algorithm: 0, key_bits: 77, mode: 88 });
}

#[test]
fn sym_def_object_unknown_discriminant_leaves_payload_untouched() {
    let mut s = SymDefObject { algorithm: 0x4242, key_bits: 0x1111, mode: 0x2222 };
    s.zeroize_data();
    assert_eq!(s, SymDefObject { algorithm: 0, key_bits: 0x1111, mode: 0x2222 });
}

#[test]
fn keyed_hash_scheme_hmac_wipes_only_its_own_field() {
    let mut k = KeyedHashScheme { scheme: TPM2_ALG_HMAC, hash_alg: 0x000B, kdf: 0x1234 };
    k.zeroize_data();
    assert_eq!(k, KeyedHashScheme { scheme: 0, hash_alg: 0, kdf: 0x1234 });
}

#[test]
fn keyed_hash_scheme_xor_wipes_both_fields() {
    let mut k = KeyedHashScheme { scheme: 0x000A, hash_alg: 0x000B, kdf: 0x0022 };
    k.zeroize_data();
    assert_eq!(k, KeyedHashScheme { scheme: 0, hash_alg: 0, kdf: 0 });
}

#[test]
fn keyed_hash_scheme_unknown_discriminant_leaves_payload_untouched() {
    let mut k = KeyedHashScheme { scheme: 0x7777, hash_alg: 0x000B, kdf: 0x0022 };
    k.zeroize_data();
    assert_eq!(k, KeyedHashScheme { scheme: 0, hash_alg: 0x000B, kdf: 0x0022 });
}

#[test]
fn rsa_scheme_variants_follow_their_own_rules() {
    let mut r = RsaScheme { scheme: TPM2_ALG_RSASSA, hash_alg: 0x000B };
    r.zeroize_data();
    assert_eq!(r, RsaScheme { scheme: 0, hash_alg: 0 });

    let mut r = RsaScheme { scheme: TPM2_ALG_OAEP, hash_alg: 0x000B };
    r.zeroize_data();
    assert_eq!(r, RsaScheme { scheme: 0, hash_alg: 0 });

    // The encryption-only scheme owns no detail field.
    let mut r = RsaScheme { scheme: TPM2_ALG_RSAES, hash_alg: 0x000B };
    r.zeroize_data();
    assert_eq!(r, RsaScheme { scheme: 0, hash_alg: 0x000B });

    let mut r = RsaScheme { scheme: 0x5555, hash_alg: 0x000B };
    r.zeroize_data();
    assert_eq!(r, RsaScheme { scheme: 0, hash_alg: 0x000B });
}

#[test]
fn ecc_scheme_ecdaa_also_wipes_its_counter() {
    let mut e = EccScheme { scheme: TPM2_ALG_ECDAA, hash_alg: 0x000B, count: 42 };
    e.zeroize_data();
    assert_eq!(e, EccScheme { scheme: 0, hash_alg: 0, count: 0 });

    let mut e = EccScheme { scheme: TPM2_ALG_ECDSA, hash_alg: 0x000B, count: 42 };
    e.zeroize_data();
    assert_eq!(e, EccScheme { scheme: 0, hash_alg: 0, count: 42 });

    let mut e = EccScheme { scheme: 0x6666, hash_alg: 0x000B, count: 42 };
    e.zeroize_data();
    assert_eq!(e, EccScheme { scheme: 0, hash_alg: 0x000B, count: 42 });
}

#[test]
fn kdf_scheme_known_functions_wipe_their_digest_field() {
    let mut k = KdfScheme { scheme: TPM2_ALG_KDF2, hash_alg: 0x000B };
    k.zeroize_data();
    assert_eq!(k, KdfScheme { scheme: 0, hash_alg: 0 });

    let mut k = KdfScheme { scheme: TPM2_ALG_NULL, hash_alg: 0x000B };
    k.zeroize_data();
    assert_eq!(k, KdfScheme { scheme: 0, hash_alg: 0x000B });
}

#[test]
fn pcr_selection_list_is_wiped_beyond_its_logical_count() {
    let mut l = PcrSelectionList {
        count: 1,
        pcr_selections: vec![
            PcrSelection { hash: 0x000B, size_of_select: 3, pcr_select: vec![0xFF, 0x0F, 0x03] },
            PcrSelection { hash: 0x000C, size_of_select: 3, pcr_select: vec![0x55, 0x66, 0x77] },
        ],
    };
    l.zeroize_data();
    assert_eq!(l.count, 0);
    assert_eq!(l.pcr_selections.len(), 2);
    for s in &l.pcr_selections {
        assert_eq!(s.hash, 0);
        assert_eq!(s.size_of_select, 0);
        assert_eq!(s.pcr_select, vec![0u8; 3]);
    }
}

#[test]
fn creation_data_is_wiped_field_by_field() {
    let mut c = CreationData {
        pcr_select: PcrSelectionList {
            count: 1,
            pcr_selections: vec![PcrSelection {
                hash: 0x000B,
                size_of_select: 3,
                pcr_select: vec![1, 2, 3],
            }],
        },
        pcr_digest: buf(2, &[9, 9]),
        locality: 3,
        parent_name_alg: 0x000B,
        parent_name: buf(2, &[1, 2, 3, 4]),
        parent_qualified_name: buf(2, &[5, 6]),
        outside_info: buf(1, &[7]),
    };
    c.zeroize_data();
    assert_eq!(c.pcr_select.count, 0);
    assert_eq!(c.pcr_digest.buffer, vec![0u8; 2]);
    assert_eq!(c.locality, 0);
    assert_eq!(c.parent_name_alg, 0);
    assert_eq!(c.parent_name.buffer, vec![0u8; 4]);
    assert_eq!(c.parent_qualified_name.buffer, vec![0u8; 2]);
    assert_eq!(c.outside_info.buffer, vec![0u8; 1]);
}

#[test]
fn sensitive_create_wipes_auth_and_data() {
    let mut s = SensitiveCreate {
        user_auth: buf(4, &[1, 2, 3, 4]),
        data: buf(2, &[0xAA, 0xBB, 0xCC]),
    };
    s.zeroize_data();
    assert_eq!(s.user_auth.size, 0);
    assert_eq!(s.user_auth.buffer, vec![0u8; 4]);
    assert_eq!(s.data.size, 0);
    assert_eq!(s.data.buffer, vec![0u8; 3]);
}

#[test]
fn ticket_is_wiped_uniformly() {
    let mut t = Ticket { tag: 0x8021, hierarchy: 0x4000_0001, digest: buf(2, &[1, 2, 3]) };
    t.zeroize_data();
    assert_eq!(t.tag, 0);
    assert_eq!(t.hierarchy, 0);
    assert_eq!(t.digest.size, 0);
    assert_eq!(t.digest.buffer, vec![0u8; 3]);
}

#[test]
fn public_area_rsa_is_wiped_whole() {
    let mut p = PublicArea {
        object_type: TPM2_ALG_RSA,
        name_alg: 0x000B,
        object_attributes: 0x0003_0472,
        auth_policy: buf(2, &[1, 2, 3]),
        payload: PublicPayload::Rsa {
            parms: RsaParms {
                symmetric: SymDefObject { algorithm: TPM2_ALG_AES, key_bits: 128, mode: 0x0043 },
                scheme: RsaScheme { scheme: TPM2_ALG_RSASSA, hash_alg: 0x000B },
                key_bits: 2048,
                exponent: 65537,
            },
            unique: buf(4, &[9, 9, 9, 9]),
        },
    };
    p.zeroize_data();
    assert_eq!(p.object_type, 0);
    assert_eq!(p.name_alg, 0);
    assert_eq!(p.object_attributes, 0);
    assert_eq!(p.auth_policy.buffer, vec![0u8; 3]);
    match p.payload {
        PublicPayload::Rsa { parms, unique } => {
            assert_eq!(
                parms,
                RsaParms {
                    symmetric: SymDefObject { algorithm: 0, key_bits: 0, mode: 0 },
                    scheme: RsaScheme { scheme: 0, hash_alg: 0 },
                    key_bits: 0,
                    exponent: 0,
                }
            );
            assert_eq!(unique.size, 0);
            assert_eq!(unique.buffer, vec![0u8; 4]);
        }
        _ => panic!("the payload variant must be preserved"),
    }
}

#[test]
fn public_area_keyed_hash_is_wiped_whole() {
    let mut p = PublicArea {
        object_type: TPM2_ALG_KEYEDHASH,
        name_alg: 0x000B,
        object_attributes: 0x0004_0052,
        auth_policy: buf(0, &[]),
        payload: PublicPayload::KeyedHash {
            parms: KeyedHashScheme { scheme: TPM2_ALG_HMAC, hash_alg: 0x000B, kdf: 0 },
            unique: buf(2, &[0xDE, 0xAD]),
        },
    };
    p.zeroize_data();
    assert_eq!(p.object_type, 0);
    match p.payload {
        PublicPayload::KeyedHash { parms, unique } => {
            assert_eq!(parms, KeyedHashScheme { scheme: 0, hash_alg: 0, kdf: 0 });
            assert_eq!(unique.buffer, vec![0u8; 2]);
        }
        _ => panic!("the payload variant must be preserved"),
    }
}

#[test]
fn public_area_ecc_wipes_both_coordinates() {
    let mut p = PublicArea {
        object_type: 0x0023,
        name_alg: 0x000B,
        object_attributes: 0x0002_0072,
        auth_policy: buf(1, &[1]),
        payload: PublicPayload::Ecc {
            parms: EccParms {
                symmetric: SymDefObject { algorithm: TPM2_ALG_NULL, key_bits: 0, mode: 0 },
                scheme: EccScheme { scheme: TPM2_ALG_ECDSA, hash_alg: 0x000B, count: 0 },
                curve_id: 0x0003,
                kdf: KdfScheme { scheme: TPM2_ALG_NULL, hash_alg: 0 },
            },
            unique: EccPoint { x: buf(2, &[4, 5]), y: buf(2, &[6, 7]) },
        },
    };
    p.zeroize_data();
    assert_eq!(p.object_type, 0);
    match p.payload {
        PublicPayload::Ecc { parms, unique } => {
            assert_eq!(parms.curve_id, 0);
            assert_eq!(parms.scheme.scheme, 0);
            assert_eq!(unique.x.buffer, vec![0u8; 2]);
            assert_eq!(unique.y.buffer, vec![0u8; 2]);
        }
        _ => panic!("the payload variant must be preserved"),
    }
}

#[test]
fn public_area_unknown_discriminant_leaves_everything_but_the_tag() {
    let mut p = PublicArea {
        object_type: 0x0F0F,
        name_alg: 0x000B,
        object_attributes: 0x1234_5678,
        auth_policy: buf(2, &[8, 9]),
        payload: PublicPayload::Unknown,
    };
    p.zeroize_data();
    assert_eq!(p.object_type, 0);
    assert_eq!(p.name_alg, 0x000B);
    assert_eq!(p.object_attributes, 0x1234_5678);
    assert_eq!(p.auth_policy, buf(2, &[8, 9]));
    assert_eq!(p.payload, PublicPayload::Unknown);
}
