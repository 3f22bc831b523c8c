use ssl_probe::cipher::{
    cipher_round_trip, cipher_self_check, decrypt, encrypt, random_bytes, round_trip_matches,
    IV_LEN, KEY_LEN,
};
use ssl_probe::digest::{digest_report, sha256_digest, sha256_hex};
use ssl_probe::error::CryptoError;
use ssl_probe::hex::hex_encode;
use ssl_probe::probe::{
    http_get_request, probe_report, response_preview, PREVIEW_CHARS, PROBE_HOST, PROBE_PATH,
};
use ssl_probe::version::{decimal_text, install_dir_text, version_info, VersionInfo};

#[test]
fn test_sha256_hash() {
    let data = b"OpenSSL test data";
    let result = sha256_digest(data).unwrap();

    assert_eq!(result.len(), 32);

    println!("SHA-256 hash computed successfully");
}

#[test]
fn test_aes_encryption_decryption() {
    let mut key = [0u8; 32];
    let mut iv = [0u8; 16];
    openssl::rand::rand_bytes(&mut key).unwrap();
    openssl::rand::rand_bytes(&mut iv).unwrap();

    let data = b"Secret message that needs encryption";

    let encrypted = encrypt(&key, &iv, data).unwrap();
    let decrypted = decrypt(&key, &iv, &encrypted).unwrap();

    assert_eq!(data.to_vec(), decrypted);

    println!("AES encryption/decryption test passed");
}

#[test]
fn test_openssl_version() {
    let info = version_info(None);
    println!("OpenSSL version: {}", info.version);

    assert!(!info.version.is_empty());
}

#[test]
fn hex_encode_known_bytes() {
    assert_eq!(hex_encode(&[0x00, 0xff, 0xab, 0x05, 0x10]), "00ffab0510");
    assert_eq!(hex_encode(&[]), "");
}

#[test]
fn hex_encode_length_and_pairs() {
    let data: Vec<u8> = (0u8..=255).collect();
    let s = hex_encode(&data);
    assert_eq!(s.len(), 2 * data.len());
    for (i, b) in data.iter().enumerate() {
        let pair = &s[2 * i..2 * i + 2];
        assert!(pair.chars().all(|c| c.is_ascii_digit() || ('a'..='f').contains(&c)));
        assert_eq!(u8::from_str_radix(pair, 16).unwrap(), *b);
    }
}

#[test]
fn sha256_known_digests() {
    assert_eq!(
        sha256_hex(b"abc").unwrap(),
        "ba7816bf8f01cfea414140de5dae2223b00361a396177a9cb410ff61f20015ad"
    );
    assert_eq!(
        sha256_hex(b"").unwrap(),
        "e3b0c44298fc1c149afbf4c8996fb92427ae41e4649b934ca495991b7852b855"
    );
}

#[test]
fn sha256_length_for_several_inputs() {
    for input in [&b"a"[..], b"OpenSSL test data", &[0u8; 1000][..]] {
        assert_eq!(sha256_digest(input).unwrap().len(), 32);
    }
}

#[test]
fn digest_report_for_hello() {
    let lines = digest_report("Hello, OpenSSL!").unwrap();
    assert_eq!(lines.len(), 3);
    assert_eq!(lines[0], "SHA-256 Hash test:");
    assert_eq!(lines[1], "Input: 'Hello, OpenSSL!'");
    let hex = lines[2].strip_prefix("Hash: ").unwrap();
    assert_eq!(hex.len(), 64);
    assert!(hex.chars().all(|c| c.is_ascii_digit() || ('a'..='f').contains(&c)));
    assert_eq!(hex, sha256_hex(b"Hello, OpenSSL!").unwrap());
}

#[test]
fn self_check_on_secret_message() {
    assert_eq!(
        cipher_self_check(b"Secret message that needs encryption"),
        Ok(true)
    );
}

#[test]
fn round_trip_with_many_random_keys() {
    let plaintexts: [&[u8]; 4] = [b"", b"x", b"exactly sixteen!", b"Secret message that needs encryption"];
    for _ in 0..8 {
        let key = random_bytes(KEY_LEN).unwrap();
        let iv = random_bytes(IV_LEN).unwrap();
        for p in plaintexts {
            let d = cipher_round_trip(&key, &iv, p).unwrap();
            assert_eq!(d, p.to_vec());
            assert!(round_trip_matches(p, &d));
        }
    }
}

#[test]
fn ciphertext_differs_from_plaintext_and_is_padded() {
    let key = [7u8; 32];
    let iv = [9u8; 16];
    let data = b"Secret message that needs encryption";
    let c = encrypt(&key, &iv, data).unwrap();
    assert_eq!(c.len(), 48);
    assert_ne!(&c[..data.len()], &data[..]);
    let c2 = encrypt(&key, &iv, b"exactly sixteen!").unwrap();
    assert_eq!(c2.len(), 32);
}

#[test]
fn aes_256_cbc_known_vector() {
    // NIST SP 800-38A, F.2.5 (first block), with PKCS#7 padding appended.
    let key = [
        0x60, 0x3d, 0xeb, 0x10, 0x15, 0xca, 0x71, 0xbe, 0x2b, 0x73, 0xae, 0xf0, 0x85, 0x7d, 0x77,
        0x81, 0x1f, 0x35, 0x2c, 0x07, 0x3b, 0x61, 0x08, 0xd7, 0x2d, 0x98, 0x10, 0xa3, 0x09, 0x14,
        0xdf, 0xf4,
    ];
    let iv: Vec<u8> = (0u8..16).collect();
    let block = [
        0x6b, 0xc1, 0xbe, 0xe2, 0x2e, 0x40, 0x9f, 0x96, 0xe9, 0x3d, 0x7e, 0x11, 0x73, 0x93, 0x17,
        0x2a,
    ];
    let c = encrypt(&key, &iv, &block).unwrap();
    assert_eq!(hex_encode(&c[..16]), "f58c4c04d6e5f1ba779eabfb5f7bfbd6");
}

#[test]
fn decrypt_rejects_truncated_ciphertext() {
    let key = [1u8; 32];
    let iv = [2u8; 16];
    assert_eq!(decrypt(&key, &iv, &[0u8; 5]), Err(CryptoError::Decrypt));
}

#[test]
fn round_trip_matches_detects_differences() {
    assert!(round_trip_matches(b"abc", b"abc"));
    assert!(!round_trip_matches(b"abc", b"abd"));
    assert!(!round_trip_matches(b"abc", b"ab"));
    assert!(round_trip_matches(b"", b""));
}

#[test]
fn random_bytes_has_requested_length() {
    assert_eq!(random_bytes(32).unwrap().len(), 32);
    assert_eq!(random_bytes(0).unwrap().len(), 0);
    let a = random_bytes(32).unwrap();
    let b = random_bytes(32).unwrap();
    assert_ne!(a, b);
}

#[test]
fn request_text_for_probe_host() {
    assert_eq!(
        http_get_request(PROBE_HOST, PROBE_PATH),
        "GET /ip HTTP/1.1\r\nHost: httpbin.org\r\nConnection: close\r\n\r\n"
    );
}

#[test]
fn preview_truncates_long_responses() {
    let long = "x".repeat(250);
    assert_eq!(response_preview(&long), "x".repeat(200));
    assert_eq!(response_preview("short"), "short");
    assert_eq!(response_preview(""), "");
    let exact = "y".repeat(PREVIEW_CHARS);
    assert_eq!(response_preview(&exact), exact);
}

#[test]
fn preview_counts_characters_not_bytes() {
    let wide = "é".repeat(250);
    let p = response_preview(&wide);
    assert_eq!(p.chars().count(), 200);
    assert_eq!(p, "é".repeat(200));
}

#[test]
fn report_for_successful_fetch() {
    let body = format!("HTTP/1.1 200 OK\r\n\r\n{}", "z".repeat(300));
    let lines = probe_report(&Ok(body.clone()));
    assert_eq!(lines.len(), 3);
    assert_eq!(lines[0], "TLS Connection successful!");
    assert_eq!(lines[1], "Response preview (first 200 chars):");
    assert_eq!(lines[2], body.chars().take(200).collect::<String>());
}

#[test]
fn report_for_unreachable_network() {
    let lines = probe_report(&Err("failed to lookup address information".to_string()));
    assert_eq!(
        lines,
        vec![
            "TLS Connection test failed: failed to lookup address information".to_string(),
            "This might be due to network connectivity issues and doesn't necessarily mean OpenSSL is misconfigured.".to_string(),
        ]
    );
}

#[test]
fn absent_install_dir_is_shown_as_none() {
    assert_eq!(install_dir_text(&None), "None");
    assert_eq!(
        install_dir_text(&Some("/usr/local/ssl".to_string())),
        "Some(\"/usr/local/ssl\")"
    );
    assert_eq!(
        install_dir_text(&Some("a\"b\\c".to_string())),
        format!("{:?}", Some("a\"b\\c".to_string()))
    );
    let info = VersionInfo {
        version: "OpenSSL 3.0.2 15 Mar 2022".to_string(),
        number: 805306400,
        install_dir: None,
    };
    assert_eq!(
        info.report_lines(),
        vec![
            "Version: OpenSSL 3.0.2 15 Mar 2022".to_string(),
            "Version Number: 805306400".to_string(),
            "OpenSSL Dir: None".to_string(),
        ]
    );
}

#[test]
fn version_info_keeps_install_dir() {
    let info = version_info(Some("/opt/ssl".to_string()));
    assert_eq!(info.install_dir, Some("/opt/ssl".to_string()));
    assert!(!info.version.is_empty());
    assert_eq!(info.report_lines()[2], "OpenSSL Dir: Some(\"/opt/ssl\")");
    assert_eq!(decimal_text(info.number), info.number.to_string());
}

#[test]
fn decimal_text_values() {
    assert_eq!(decimal_text(0), "0");
    assert_eq!(decimal_text(7), "7");
    assert_eq!(decimal_text(-120), "-120");
    assert_eq!(decimal_text(i64::MAX), "9223372036854775807");
    assert_eq!(decimal_text(i64::MIN), "-9223372036854775808");
}

#[test]
fn crypto_error_messages() {
    assert_eq!(CryptoError::Digest.message(), "digest computation failed");
    assert_eq!(CryptoError::Random.message(), "random source failed");
    assert_eq!(CryptoError::Encrypt.message(), "encryption failed");
    assert_eq!(CryptoError::Decrypt.message(), "decryption failed");
}
