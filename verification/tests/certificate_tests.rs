use getso::certificate::extract_certificates;
use getso::certificate::SslCertificate;
use getso::error::ErrorKind;

use openssl::asn1::Asn1Time;
use openssl::hash::MessageDigest;
use openssl::nid::Nid;
use openssl::pkey::PKey;
use openssl::pkey::Private;
use openssl::rsa::Rsa;
use openssl::x509::extension::SubjectAlternativeName;
use openssl::x509::X509;
use openssl::x509::X509NameBuilder;

fn test_key() -> PKey<Private> {
    PKey::from_rsa(Rsa::generate(2048).unwrap()).unwrap()
}

/// A self-signed certificate in DER form, with the given Common Names,
/// the given Subject Alternative Name extension (built by `san`), and a
/// validity window in 2024-2025.
fn make_der(cns: &[&str], san: Option<SubjectAlternativeName>) -> Vec<u8> {
    let key = test_key();
    let mut name = X509NameBuilder::new().unwrap();
    for cn in cns {
        name.append_entry_by_nid(Nid::COMMONNAME, cn).unwrap();
    }
    let name = name.build();
    let mut builder = X509::builder().unwrap();
    builder.set_version(2).unwrap();
    builder.set_subject_name(&name).unwrap();
    builder.set_issuer_name(&name).unwrap();
    builder.set_pubkey(&key).unwrap();
    // Jan 1 00:00:00 2024 GMT and Jan 1 00:00:00 2025 GMT
    builder
        .set_not_before(&Asn1Time::from_unix(1704067200).unwrap())
        .unwrap();
    builder
        .set_not_after(&Asn1Time::from_unix(1735689600).unwrap())
        .unwrap();
    if let Some(s) = san {
        let ext = s.build(&builder.x509v3_context(None, None)).unwrap();
        builder.append_extension(ext).unwrap();
    }
    builder.sign(&key, MessageDigest::sha256()).unwrap();
    builder.build().to_der().unwrap()
}

#[test]
fn one_certificate_yields_its_fields_verbatim() {
    let mut san = SubjectAlternativeName::new();
    san.dns("example.com");
    san.dns("www.example.com");
    let der = make_der(&["example.com"], Some(san));
    let chain = vec![der.clone()];
    let records = extract_certificates(&chain).unwrap();
    assert_eq!(records.len(), 1);
    assert_eq!(records[0].subject_names, vec!["example.com".to_string()]);
    assert_eq!(
        records[0].subject_alt_names,
        vec!["example.com".to_string(), "www.example.com".to_string()]
    );
    // the validity window is surfaced exactly as the certificate displays it
    let x509 = X509::from_der(&der).unwrap();
    assert_eq!(records[0].not_before, x509.not_before().to_string());
    assert_eq!(records[0].not_after, x509.not_after().to_string());
    assert!(records[0].not_before.contains("2024"));
    assert!(records[0].not_after.contains("2025"));
    assert!(records[0].not_before.starts_with("Jan"));
    assert!(records[0].not_before.ends_with("GMT"));
}

#[test]
fn missing_san_extension_yields_empty_sequence_not_an_error() {
    let der = make_der(&["no-san.example"], None);
    let chain = vec![der];
    let records = extract_certificates(&chain).unwrap();
    assert_eq!(records.len(), 1);
    assert_eq!(records[0].subject_names, vec!["no-san.example".to_string()]);
    assert_eq!(records[0].subject_alt_names, Vec::<String>::new());
}

#[test]
fn only_dns_sans_are_kept_in_certificate_order() {
    let mut san = SubjectAlternativeName::new();
    san.dns("first.example");
    san.ip("192.0.2.7");
    san.email("operator@example.com");
    san.dns("second.example");
    let der = make_der(&["mixed.example"], Some(san));
    let chain = vec![der];
    let records = extract_certificates(&chain).unwrap();
    assert_eq!(
        records[0].subject_alt_names,
        vec!["first.example".to_string(), "second.example".to_string()]
    );
}

#[test]
fn several_common_names_are_all_surfaced() {
    let der = make_der(&["one.example", "two.example"], None);
    let chain = vec![der];
    let records = extract_certificates(&chain).unwrap();
    assert_eq!(
        records[0].subject_names,
        vec!["one.example".to_string(), "two.example".to_string()]
    );
}

#[test]
fn chain_order_is_preserved() {
    let leaf = make_der(&["leaf.example"], None);
    let intermediate = make_der(&["intermediate.example"], None);
    let chain = vec![leaf, intermediate];
    let records = extract_certificates(&chain).unwrap();
    assert_eq!(records.len(), 2);
    assert_eq!(records[0].subject_names, vec!["leaf.example".to_string()]);
    assert_eq!(
        records[1].subject_names,
        vec!["intermediate.example".to_string()]
    );
}

#[test]
fn unparsable_entry_is_a_decode_failure() {
    let good = make_der(&["good.example"], None);
    let chain = vec![good, vec![0u8, 1, 2, 3]];
    assert_eq!(
        extract_certificates(&chain),
        Err(ErrorKind::CertificateDecodeFailure)
    );
}

#[test]
fn extraction_is_idempotent() {
    let mut san = SubjectAlternativeName::new();
    san.dns("repeat.example");
    let der = make_der(&["repeat.example"], Some(san));
    let chain = vec![der];
    let first = extract_certificates(&chain).unwrap();
    let second = extract_certificates(&chain).unwrap();
    assert_eq!(first, second);
}

#[test]
fn new_keeps_every_field_as_handed_in() {
    let record = SslCertificate::new(
        vec!["cn.example".to_string()],
        vec!["alt.example".to_string()],
        "Jan  1 00:00:00 2024 GMT".to_string(),
        "Jan  1 00:00:00 2025 GMT".to_string(),
    );
    assert_eq!(record.subject_names, vec!["cn.example".to_string()]);
    assert_eq!(record.subject_alt_names, vec!["alt.example".to_string()]);
    assert_eq!(record.not_before, "Jan  1 00:00:00 2024 GMT");
    assert_eq!(record.not_after, "Jan  1 00:00:00 2025 GMT");
}
