//! The CA manager and the trust-material codec, run against the real
//! crypto: idempotence, regeneration, strict loading, and the decoding
//! contracts.

use holepunch::ca::{create_ca, ensure_ca, load_ca, CaFiles, CaOptions, CaOutcome};
use holepunch::error::{Error, IoKind};
use holepunch::trust::{decode_certificate, decode_key, encode_certificate, encode_key};

fn apply(files: &CaFiles, outcome: &CaOutcome) -> CaFiles {
    CaFiles {
        key: if outcome.wrote_key {
            Some(encode_key(&outcome.key))
        } else {
            files.key.clone()
        },
        cert: if outcome.wrote_cert {
            Some(encode_certificate(&outcome.cert))
        } else {
            files.cert.clone()
        },
    }
}

#[test]
fn ensure_generates_both_files_from_nothing() {
    let files = CaFiles { key: None, cert: None };
    let outcome = ensure_ca(&files, &CaOptions::standard()).unwrap();
    assert!(outcome.wrote_key);
    assert!(outcome.wrote_cert);
    let key_pem = encode_key(&outcome.key);
    let cert_pem = encode_certificate(&outcome.cert);
    assert!(key_pem.contains("PRIVATE KEY"));
    assert!(cert_pem.contains("CERTIFICATE"));
}

#[test]
fn ensure_twice_is_idempotent() {
    let empty = CaFiles { key: None, cert: None };
    let opts = CaOptions::standard();
    let first = ensure_ca(&empty, &opts).unwrap();
    let after_first = apply(&empty, &first);

    let second = ensure_ca(&after_first, &opts).unwrap();
    assert!(!second.wrote_key);
    assert!(!second.wrote_cert);
    assert_eq!(encode_key(&second.key), encode_key(&first.key));
    assert_eq!(encode_certificate(&second.cert), encode_certificate(&first.cert));

    let after_second = apply(&after_first, &second);
    assert_eq!(after_second.key, after_first.key);
    assert_eq!(after_second.cert, after_first.cert);
}

#[test]
fn deleting_key_regenerates_certificate_even_if_cert_file_remains() {
    let empty = CaFiles { key: None, cert: None };
    let opts = CaOptions::standard();
    let first = ensure_ca(&empty, &opts).unwrap();
    let after_first = apply(&empty, &first);

    // The key file disappears; the certificate file stays behind.
    let key_deleted = CaFiles { key: None, cert: after_first.cert.clone() };
    let second = ensure_ca(&key_deleted, &opts).unwrap();
    assert!(second.wrote_key);
    assert!(second.wrote_cert);
    assert_ne!(encode_key(&second.key), encode_key(&first.key));
    assert_ne!(encode_certificate(&second.cert), encode_certificate(&first.cert));
}

#[test]
fn ensure_regenerates_missing_certificate_from_loaded_key() {
    let empty = CaFiles { key: None, cert: None };
    let opts = CaOptions::standard();
    let first = ensure_ca(&empty, &opts).unwrap();
    let cert_deleted = CaFiles { key: Some(encode_key(&first.key)), cert: None };
    let second = ensure_ca(&cert_deleted, &opts).unwrap();
    assert!(!second.wrote_key);
    assert!(second.wrote_cert);
    assert_eq!(encode_key(&second.key), encode_key(&first.key));
}

#[test]
fn ensure_fails_on_malformed_key_file_without_regenerating() {
    let files = CaFiles { key: Some("not a key".to_string()), cert: None };
    match ensure_ca(&files, &CaOptions::standard()) {
        Err(Error::Certificate(_)) => {},
        other => panic!("expected a certificate failure, got {other:?}"),
    }
}

#[test]
fn ensure_fails_on_malformed_certificate_file() {
    let empty = CaFiles { key: None, cert: None };
    let opts = CaOptions::standard();
    let first = ensure_ca(&empty, &opts).unwrap();
    let files = CaFiles {
        key: Some(encode_key(&first.key)),
        cert: Some("not a certificate".to_string()),
    };
    match ensure_ca(&files, &opts) {
        Err(Error::Certificate(_)) => {},
        other => panic!("expected a certificate failure, got {other:?}"),
    }
}

#[test]
fn load_succeeds_on_well_formed_files_without_writing() {
    let empty = CaFiles { key: None, cert: None };
    let opts = CaOptions::standard();
    let made = ensure_ca(&empty, &opts).unwrap();
    let files = apply(&empty, &made);
    let loaded = load_ca(&files).unwrap();
    assert!(!loaded.wrote_key);
    assert!(!loaded.wrote_cert);
    assert_eq!(Some(encode_key(&loaded.key)), files.key);
    assert_eq!(Some(encode_certificate(&loaded.cert)), files.cert);
}

#[test]
fn load_fails_with_not_found_on_absent_key() {
    let files = CaFiles { key: None, cert: None };
    match load_ca(&files) {
        Err(Error::IO(IoKind::NotFound)) => {},
        other => panic!("expected NotFound, got {other:?}"),
    }
}

#[test]
fn load_fails_with_not_found_on_absent_certificate() {
    let empty = CaFiles { key: None, cert: None };
    let made = ensure_ca(&empty, &CaOptions::standard()).unwrap();
    let files = CaFiles { key: Some(encode_key(&made.key)), cert: None };
    match load_ca(&files) {
        Err(Error::IO(IoKind::NotFound)) => {},
        other => panic!("expected NotFound, got {other:?}"),
    }
}

#[test]
fn load_never_generates_on_malformed_input() {
    let files = CaFiles {
        key: Some("garbage".to_string()),
        cert: Some("garbage".to_string()),
    };
    match load_ca(&files) {
        Err(Error::Certificate(_)) => {},
        other => panic!("expected a certificate failure, got {other:?}"),
    }
}

#[test]
fn create_always_regenerates_both() {
    let opts = CaOptions::standard();
    let a = create_ca(&opts).unwrap();
    let b = create_ca(&opts).unwrap();
    assert!(a.wrote_key && a.wrote_cert);
    assert!(b.wrote_key && b.wrote_cert);
    assert_ne!(encode_key(&a.key), encode_key(&b.key));
    assert_ne!(encode_certificate(&a.cert), encode_certificate(&b.cert));
}

#[test]
fn key_codec_round_trips() {
    let made = create_ca(&CaOptions::standard()).unwrap();
    let pem = encode_key(&made.key);
    let decoded = decode_key(&pem).unwrap();
    assert_eq!(encode_key(&decoded), pem);
}

#[test]
fn certificate_codec_round_trips() {
    let made = create_ca(&CaOptions::standard()).unwrap();
    let pem = encode_certificate(&made.cert);
    let decoded = decode_certificate(&pem).unwrap();
    assert_eq!(encode_certificate(&decoded), pem);
}

#[test]
fn decode_key_rejects_garbage() {
    match decode_key("-----BEGIN NOTHING-----") {
        Err(Error::Certificate(message)) => {
            assert!(message.starts_with("Error with CA or chain: "));
        },
        other => panic!("expected a certificate failure, got {other:?}"),
    }
}

#[test]
fn decode_certificate_rejects_a_key() {
    let made = create_ca(&CaOptions::standard()).unwrap();
    assert!(matches!(
        decode_certificate(&encode_key(&made.key)),
        Err(Error::Certificate(_))
    ));
}

#[test]
fn decode_certificate_rejects_a_certificate_that_is_no_authority() {
    // A leaf certificate made directly with rcgen, without the CA flag.
    let key = rcgen::KeyPair::generate().unwrap();
    let leaf = rcgen::CertificateParams::new(vec!["leaf".to_string()])
        .unwrap()
        .self_signed(&key)
        .unwrap();
    match decode_certificate(&leaf.pem()) {
        Err(Error::Certificate(message)) => {
            assert!(message.contains("does not declare a certificate authority"));
        },
        other => panic!("expected a certificate failure, got {other:?}"),
    }
}

#[test]
fn generated_certificate_has_the_root_subject_and_five_year_window() {
    let made = create_ca(&CaOptions::standard()).unwrap();
    let pem = encode_certificate(&made.cert);
    // Read the generated certificate back through rcgen itself and check
    // what the generation contract states: one subject name, the
    // application identifier suffixed `-root`, and a validity window of
    // exactly 1825 whole days.
    let recovered = rcgen::CertificateParams::from_ca_cert_pem(&pem).unwrap();
    assert_eq!(recovered.subject_alt_names.len(), 1);
    match &recovered.subject_alt_names[0] {
        rcgen::SanType::DnsName(name) => assert_eq!(name.as_str(), "holepunch-root"),
        other => panic!("expected a DNS subject name, got {other:?}"),
    }
    let span = recovered.not_after - recovered.not_before;
    assert_eq!(span.whole_days(), 1825);
    assert_eq!(span, time::Duration::days(1825));
}

#[test]
fn generated_certificate_certifies_its_own_key() {
    // The signed-by tie: the generated certificate's subject key
    // identifier (a digest of the subject public key) is that of the
    // returned key, and not that of any other key.
    let made = create_ca(&CaOptions::standard()).unwrap();
    let key = rcgen::KeyPair::from_pem(&encode_key(&made.key)).unwrap();
    let recovered =
        rcgen::CertificateParams::from_ca_cert_pem(&encode_certificate(&made.cert)).unwrap();
    let ski_of = |kp: &rcgen::KeyPair| {
        rcgen::CertificateParams::new(vec!["probe".to_string()])
            .unwrap()
            .self_signed(kp)
            .unwrap()
            .key_identifier()
    };
    match &recovered.key_identifier_method {
        rcgen::KeyIdMethod::PreSpecified(ski) => {
            assert_eq!(&ski[..], &ski_of(&key)[..]);
            let other = rcgen::KeyPair::generate().unwrap();
            assert_ne!(&ski[..], &ski_of(&other)[..]);
        },
        other => panic!("expected the certificate's own key identifier, got {other:?}"),
    }
}

#[test]
fn standard_options_are_the_fixed_constants() {
    let opts = CaOptions::standard();
    assert_eq!(opts.common_name, "holepunch");
    assert_eq!(opts.country, "NET");
    assert_eq!(opts.validity_days, 1825);
}
