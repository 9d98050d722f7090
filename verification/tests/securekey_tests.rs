use securekey::containers::{PrivateKeyContainer, PublicKeyContainer};
use securekey::destroy::{random_overwrite, wipe_length, FALLBACK_WIPE_LEN};
use securekey::digest::{file_sha256_hex, sha256};
use securekey::encoding::{decode_base64, encode_base64, encode_hex};
use securekey::export::{export_public_key, ExportError};
use securekey::inspect::{inspect_key, KeyKind};
use securekey::keygen::{
    assemble_key_pair, generate_key_pair, private_key_file_name, public_key_file_name, KeyPair,
};
use securekey::params::{get_security_category, ParamSet};
use securekey::rotate::{plan_rotation, plan_rotation_at};
use securekey::signing::{default_signature_path, sign_content, sign_file, SignError};
use securekey::slh::{sign_message, verify_message};
use securekey::clock::{now_compact, now_rfc3339};
use securekey::text::{text_contains, to_lowercase, to_uppercase};
use securekey::verifying::{verify_content, Verdict, VerifyError};

fn generated(name: &str) -> KeyPair {
    generate_key_pair(name)
}

#[test]
fn security_category_follows_the_size_in_the_name() {
    assert_eq!(get_security_category("sha2-128f"), 1);
    assert_eq!(get_security_category("shake-128s"), 1);
    assert_eq!(get_security_category("sha2-192s"), 3);
    assert_eq!(get_security_category("slh-dsa-shake-192f"), 3);
    assert_eq!(get_security_category("sha2-256f"), 5);
    assert_eq!(get_security_category("shake-256s"), 5);
    assert_eq!(get_security_category("unknown"), 1);
    assert_eq!(get_security_category(""), 1);
    // 128 is looked for before 256
    assert_eq!(get_security_category("x256-128"), 1);
    assert_eq!(get_security_category("x256-192"), 3);
}

#[test]
fn every_short_and_prefixed_name_selects_its_set() {
    let cases = [
        ("sha2-128f", ParamSet::Sha2_128f),
        ("sha2-128s", ParamSet::Sha2_128s),
        ("sha2-192f", ParamSet::Sha2_192f),
        ("sha2-192s", ParamSet::Sha2_192s),
        ("sha2-256f", ParamSet::Sha2_256f),
        ("sha2-256s", ParamSet::Sha2_256s),
        ("shake-128f", ParamSet::Shake128f),
        ("shake-128s", ParamSet::Shake128s),
        ("shake-192f", ParamSet::Shake192f),
        ("shake-192s", ParamSet::Shake192s),
        ("shake-256f", ParamSet::Shake256f),
        ("shake-256s", ParamSet::Shake256s),
    ];
    for (name, set) in cases.iter() {
        assert_eq!(ParamSet::from_name(name), Some(*set));
        let long = format!("slh-dsa-{}", name);
        assert_eq!(ParamSet::from_name(&long), Some(*set));
        assert_eq!(ParamSet::from_name_or_default(name), *set);
    }
}

#[test]
fn unknown_names_select_nothing_or_the_default() {
    assert_eq!(ParamSet::from_name("SHA2-128F"), None);
    assert_eq!(ParamSet::from_name("sha2-128"), None);
    assert_eq!(ParamSet::from_name(""), None);
    assert_eq!(ParamSet::from_name_or_default("rsa-2048"), ParamSet::Sha2_128f);
}

#[test]
fn key_and_signature_lengths() {
    assert_eq!(ParamSet::Sha2_128f.signing_key_length(), 64);
    assert_eq!(ParamSet::Shake192s.signing_key_length(), 96);
    assert_eq!(ParamSet::Sha2_256s.signing_key_length(), 128);
    assert_eq!(ParamSet::Shake128f.verifying_key_length(), 32);
    assert_eq!(ParamSet::Sha2_192f.verifying_key_length(), 48);
    assert_eq!(ParamSet::Shake256f.verifying_key_length(), 64);
    assert_eq!(ParamSet::Sha2_128s.signature_length(), 7856);
    assert_eq!(ParamSet::Shake128f.signature_length(), 17088);
    assert_eq!(ParamSet::Sha2_192s.signature_length(), 16224);
    assert_eq!(ParamSet::Shake192f.signature_length(), 35664);
    assert_eq!(ParamSet::Sha2_256s.signature_length(), 29792);
    assert_eq!(ParamSet::Shake256f.signature_length(), 49856);
}

#[test]
fn text_primitives() {
    assert!(text_contains("sha2-128f", "128"));
    assert!(!text_contains("sha2-128f", "192"));
    assert_eq!(to_lowercase("SHA2-128F"), "sha2-128f");
    assert_eq!(to_uppercase("pem"), "PEM");
}

#[test]
fn sha256_fingerprints() {
    assert_eq!(
        file_sha256_hex(b""),
        "e3b0c44298fc1c149afbf4c8996fb92427ae41e4649b934ca495991b7852b855"
    );
    assert_eq!(
        file_sha256_hex(b"abc"),
        "ba7816bf8f01cfea414140de5dae2223b00361a396177a9cb410ff61f20015ad"
    );
    assert_eq!(sha256(b"abc").len(), 32);
}

#[test]
fn hex_and_base64_encodings() {
    assert_eq!(encode_hex(&[0x00, 0x0f, 0xa0, 0xff]), "000fa0ff");
    assert_eq!(encode_hex(&[]), "");
    assert_eq!(encode_base64(b"hello"), "aGVsbG8=");
    assert_eq!(encode_base64(b""), "");
    assert_eq!(decode_base64("aGVsbA=="), Some(b"hell".to_vec()));
    assert_eq!(decode_base64("aGVsbG8"), None);
    assert_eq!(decode_base64("not base64!"), None);
    let bytes: Vec<u8> = (0u8..=255).collect();
    assert_eq!(decode_base64(&encode_base64(&bytes)), Some(bytes));
}

#[test]
fn generated_key_pair_is_consistent() {
    let keys = generated("SHA2-128F");
    assert_eq!(keys.private.param_set, "sha2-128f");
    assert_eq!(keys.public.param_set, "sha2-128f");
    assert_eq!(keys.private.algorithm, "SLH-DSA (SPHINCS+)");
    assert_eq!(keys.public.algorithm, "SLH-DSA (SPHINCS+)");
    assert_eq!(keys.private.security_category, 1);
    assert_eq!(keys.public.security_category, 1);
    assert_eq!(keys.private.created_at, keys.public.created_at);
    assert_eq!(keys.private.public_key_b64, keys.public.public_key_b64);
    let sk = decode_base64(&keys.private.private_key_b64).unwrap();
    let pk = decode_base64(&keys.public.public_key_b64).unwrap();
    assert_eq!(sk.len(), 64);
    assert_eq!(pk.len(), 32);
    assert_eq!(&sk[32..], &pk[..]);
}

#[test]
fn unknown_name_generates_the_default_set_but_records_the_name() {
    let keys = generated("Mystery-256");
    assert_eq!(keys.private.param_set, "mystery-256");
    assert_eq!(keys.private.security_category, 5);
    let sk = decode_base64(&keys.private.private_key_b64).unwrap();
    assert_eq!(sk.len(), ParamSet::Sha2_128f.signing_key_length());
}

#[test]
fn assembled_containers_record_the_given_keys() {
    let sk = [7u8; 64];
    let pk = [9u8; 32];
    let keys = assemble_key_pair("shake-192s", "2024-01-01T00:00:00+00:00", &sk, &pk);
    assert_eq!(keys.private.security_category, 3);
    assert_eq!(keys.private.created_at, "2024-01-01T00:00:00+00:00");
    assert_eq!(keys.private.private_key_b64, encode_base64(&sk));
    assert_eq!(keys.public.public_key_b64, encode_base64(&pk));
}

#[test]
fn key_file_names() {
    assert_eq!(private_key_file_name("securekey"), "securekey_private.key");
    assert_eq!(public_key_file_name("securekey"), "securekey_public.pub");
    assert_eq!(default_signature_path("docs/SLH-DSA.md"), "docs/SLH-DSA.md.sig");
}

#[test]
fn signed_file_verifies_as_valid() {
    let keys = generated("sha2-128f");
    let content = b"payload to protect".to_vec();
    let sig = sign_file(&keys.private, &content, "payload.bin").unwrap();
    assert_eq!(sig.param_set, "sha2-128f");
    assert_eq!(sig.file_name, "payload.bin");
    assert_eq!(sig.algorithm, "SLH-DSA (SPHINCS+)");
    assert_eq!(sig.file_sha256, file_sha256_hex(&content));
    assert_eq!(
        decode_base64(&sig.signature_b64).unwrap().len(),
        ParamSet::Sha2_128f.signature_length()
    );
    assert_eq!(verify_content(&keys.public, &sig, &content), Ok(Verdict::Valid));
}

#[test]
fn signed_file_verifies_for_a_shake_key_and_prefixed_name() {
    let keys = generated("SLH-DSA-SHAKE-128F");
    let content = b"another payload".to_vec();
    let sig = sign_file(&keys.private, &content, "p").unwrap();
    assert_eq!(verify_content(&keys.public, &sig, &content), Ok(Verdict::Valid));
}

#[test]
fn signing_is_deterministic() {
    let keys = generated("sha2-128f");
    let a = sign_content(&keys.private, b"same", "f", "t1").unwrap();
    let b = sign_content(&keys.private, b"same", "f", "t2").unwrap();
    assert_eq!(a.signature_b64, b.signature_b64);
    assert_eq!(a.signed_at, "t1");
    assert_eq!(b.signed_at, "t2");
}

#[test]
fn tampered_file_is_a_hash_mismatch() {
    let keys = generated("sha2-128f");
    let sig = sign_file(&keys.private, b"original", "f").unwrap();
    assert_eq!(
        verify_content(&keys.public, &sig, b"modified"),
        Ok(Verdict::HashMismatch)
    );
}

#[test]
fn hash_mismatch_is_reported_before_decoding() {
    let public = PublicKeyContainer {
        algorithm: "x".to_string(),
        param_set: "sha2-128f".to_string(),
        created_at: "t".to_string(),
        security_category: 1,
        public_key_b64: "***".to_string(),
    };
    let keys = generated("sha2-128f");
    let sig = sign_file(&keys.private, b"one", "f").unwrap();
    assert_eq!(verify_content(&public, &sig, b"two"), Ok(Verdict::HashMismatch));
    assert_eq!(
        verify_content(&public, &sig, b"one"),
        Err(VerifyError::PublicKeyNotBase64)
    );
}

#[test]
fn wrong_key_or_signature_is_invalid() {
    let keys = generated("sha2-128f");
    let other = generated("sha2-128f");
    let content = b"payload".to_vec();
    let sig = sign_file(&keys.private, &content, "f").unwrap();
    assert_eq!(verify_content(&other.public, &sig, &content), Ok(Verdict::Invalid));

    let mut raw = decode_base64(&sig.signature_b64).unwrap();
    raw[100] ^= 0xff;
    let mut forged = sig.clone();
    forged.signature_b64 = encode_base64(&raw);
    assert_eq!(verify_content(&keys.public, &forged, &content), Ok(Verdict::Invalid));

    let mut short = sig.clone();
    short.signature_b64 = encode_base64(&raw[..raw.len() - 1]);
    assert_eq!(verify_content(&keys.public, &short, &content), Ok(Verdict::Invalid));

    let mut garbled = sig.clone();
    garbled.signature_b64 = "@@@".to_string();
    assert_eq!(
        verify_content(&keys.public, &garbled, &content),
        Err(VerifyError::SignatureNotBase64)
    );
}

#[test]
fn unknown_parameter_set_never_verifies() {
    let keys = generated("mystery");
    let content = b"payload".to_vec();
    let sig = sign_file(&keys.private, &content, "f").unwrap();
    assert_eq!(verify_content(&keys.public, &sig, &content), Ok(Verdict::Invalid));
}

#[test]
fn signing_errors() {
    let keys = generated("sha2-128f");
    let mut bad_b64 = keys.private.clone();
    bad_b64.private_key_b64 = "%%%".to_string();
    assert_eq!(
        sign_file(&bad_b64, b"x", "f"),
        Err(SignError::PrivateKeyNotBase64)
    );
    let mut short = keys.private.clone();
    short.private_key_b64 = encode_base64(&[1u8; 63]);
    assert_eq!(sign_file(&short, b"x", "f"), Err(SignError::InvalidSigningKey));
    assert_eq!(SignError::InvalidSigningKey.message(), "Invalid sk bytes");
    assert_eq!(
        SignError::PrivateKeyNotBase64.message(),
        "Failed to decode private key base64"
    );
    assert_eq!(
        VerifyError::SignatureNotBase64.message(),
        "Failed to decode signature base64"
    );
}

#[test]
fn dispatch_rejects_wrong_lengths() {
    assert_eq!(sign_message(ParamSet::Sha2_128f, &[0u8; 10], b"m"), None);
    assert!(!verify_message(ParamSet::Sha2_128f, &[0u8; 32], b"m", &[0u8; 5]));
    assert!(!verify_message(ParamSet::Sha2_128f, &[0u8; 31], b"m", &[0u8; 17088]));
}

fn public_with(b64: &str) -> PublicKeyContainer {
    PublicKeyContainer {
        algorithm: "SLH-DSA (SPHINCS+)".to_string(),
        param_set: "sha2-128f".to_string(),
        created_at: "t".to_string(),
        security_category: 1,
        public_key_b64: b64.to_string(),
    }
}

#[test]
fn export_formats() {
    let b64 = encode_base64(&[0xde, 0xad, 0xbe, 0xef]);
    let public = public_with(&b64);

    let hex = export_public_key(&public, "hex").unwrap();
    assert_eq!(hex.heading, "=== Exported Public Key (HEX) ===");
    assert_eq!(hex.lines, vec!["deadbeef".to_string()]);

    let pem = export_public_key(&public, "PEM").unwrap();
    assert_eq!(pem.heading, "=== Exported Public Key (PEM) ===");
    assert_eq!(
        pem.lines,
        vec![
            "-----BEGIN SLH-DSA PUBLIC KEY-----".to_string(),
            b64.clone(),
            "-----END SLH-DSA PUBLIC KEY-----".to_string(),
        ]
    );

    let plain = export_public_key(&public, "base64").unwrap();
    assert_eq!(plain.heading, "=== Exported Public Key (BASE64) ===");
    assert_eq!(plain.lines, vec![b64.clone()]);

    let other = export_public_key(&public, "der").unwrap();
    assert_eq!(other.lines, vec![b64]);
}

#[test]
fn export_rejects_non_base64_key() {
    assert_eq!(
        export_public_key(&public_with("!!"), "hex"),
        Err(ExportError::PublicKeyNotBase64)
    );
    assert_eq!(ExportError::PublicKeyNotBase64.message(), "Invalid base64");
}

#[test]
fn export_of_generated_key_shows_the_verifying_key() {
    let keys = generated("sha2-128f");
    let pk = decode_base64(&keys.public.public_key_b64).unwrap();
    let out = export_public_key(&keys.public, "hex").unwrap();
    assert_eq!(out.lines, vec![encode_hex(&pk)]);
}

#[test]
fn inspect_prefers_the_private_container() {
    let keys = assemble_key_pair("sha2-256s", "when", &[1u8; 128], &[2u8; 64]);
    let m = inspect_key(Some(&keys.private), Some(&keys.public)).unwrap();
    assert_eq!(m.kind, KeyKind::Private);
    assert_eq!(m.param_set, "sha2-256s");
    assert_eq!(m.security_category, 5);
    assert_eq!(m.public_key_b64, keys.private.public_key_b64);
    let m = inspect_key(None, Some(&keys.public)).unwrap();
    assert_eq!(m.kind, KeyKind::Public);
    assert_eq!(m.created_at, "when");
    assert_eq!(inspect_key(None, None), None);
}

#[test]
fn rotation_plan() {
    let keys = generated("shake-128f");
    let plan = plan_rotation_at(&keys.private, "20240102_030405");
    assert_eq!(plan.archive_extension, "bak_20240102_030405");
    assert_eq!(plan.param_set, "shake-128f");
    assert_eq!(plan.key_name, "securekey_rotated");
    let now = plan_rotation(&keys.private);
    assert!(now.archive_extension.starts_with("bak_"));
    let stamp = &now.archive_extension["bak_".len()..];
    assert_eq!(stamp.len(), 15);
    assert_eq!(&stamp[8..9], "_");
    assert!(stamp.chars().enumerate().all(|(i, c)| i == 8 || c.is_ascii_digit()));
    let rotated = generate_key_pair(&plan.param_set);
    assert_eq!(rotated.private.param_set, keys.private.param_set);
    assert_eq!(rotated.private.security_category, keys.private.security_category);
}

#[test]
fn wipe_lengths_and_buffers() {
    assert_eq!(wipe_length(Some(123)), 123);
    assert_eq!(wipe_length(Some(0)), 0);
    assert_eq!(wipe_length(None), 4096);
    assert_eq!(FALLBACK_WIPE_LEN, 4096);
    assert_eq!(random_overwrite(0).bytes.len(), 0);
    let buf = random_overwrite(4096);
    assert!(buf.random);
    assert_eq!(buf.bytes.len(), 4096);
    assert!(buf.bytes.iter().any(|b| *b != 0));
}

#[test]
fn private_container_zeroize_wipes_every_field() {
    let mut keys = generated("sha2-128f");
    keys.private.zeroize();
    assert_eq!(
        keys.private,
        PrivateKeyContainer {
            algorithm: String::new(),
            param_set: String::new(),
            created_at: String::new(),
            security_category: 0,
            public_key_b64: String::new(),
            private_key_b64: String::new(),
        }
    );
}

#[test]
fn letter_case_never_changes_the_category() {
    for name in ["SHA2-192S", "sha2-192s", "Shake-256F", "x128Y", "NONE"].iter() {
        let c = get_security_category(name);
        assert_eq!(get_security_category(&to_lowercase(name)), c);
        assert_eq!(get_security_category(&to_uppercase(name)), c);
    }
}

#[test]
fn case_mapping_on_ascii_and_beyond() {
    assert_eq!(to_lowercase("SLH-DSA-Sha2-256S"), "slh-dsa-sha2-256s");
    assert_eq!(to_uppercase("shake-128f"), "SHAKE-128F");
    assert_eq!(to_lowercase("\u{c4}B"), "\u{e4}b");
    assert_eq!(to_lowercase(&to_lowercase("MiXeD-Case")), to_lowercase("MiXeD-Case"));
}

#[test]
fn generated_name_survives_lowercasing_again() {
    let keys = generated("Shake-128F");
    assert_eq!(keys.private.param_set, "shake-128f");
    assert_eq!(to_lowercase(&keys.private.param_set), keys.private.param_set);
    let sig = sign_file(&keys.private, b"data", "d").unwrap();
    assert_eq!(verify_content(&keys.public, &sig, b"data"), Ok(Verdict::Valid));
}

#[test]
fn clock_texts_have_their_shapes() {
    let t = now_rfc3339();
    assert!(t.len() >= 25);
    assert!(t.ends_with("+00:00"));
    assert!(t.contains('T'));
    let c = now_compact();
    assert_eq!(c.len(), 15);
    assert_eq!(c.chars().nth(8), Some('_'));
    let keys = generated("sha2-128f");
    assert!(keys.private.created_at.ends_with("+00:00"));
    let sig = sign_file(&keys.private, b"x", "x").unwrap();
    assert!(sig.signed_at.ends_with("+00:00"));
}

#[test]
fn base64_matches_the_documented_examples() {
    assert_eq!(encode_base64(b"f"), "Zg==");
    assert_eq!(encode_base64(b"fo"), "Zm8=");
    assert_eq!(encode_base64(b"foo"), "Zm9v");
    assert_eq!(encode_base64(b"\xFF\xEC\x20\x55\0"), "/+wgVQA=");
}
