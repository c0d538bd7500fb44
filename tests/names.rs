use acm::names::{rfc1035_label, rfc1123_subdomain, subdomain_from, uuid};
use rand::Rng;

const DEFAULT_IF_INVALID_SUBDOMAIN: &str = "invalid-rfc1123-connector-name";

#[test]
fn fuzz_rfc1035() {
    for _ in 0..100000 {
        let label = rfc1035_label();
        let mut chars = label.chars();
        let first = chars.next().unwrap();
        assert!(first.is_ascii_lowercase());
        assert!(label.chars().all(|c| c.is_ascii_lowercase() || c.is_ascii_digit()));
    }
}

#[test]
fn test_complex_name() {
    let domain = rfc1123_subdomain(
        "Alation's Oracle Connecfor (OCF:v.1.23) aaaaaaaaaaaaaaaaaaaaaaaaaaaaaaaaaaaaaaaaaaa",
    );
    assert!(domain.starts_with("alation-s-oracle-connecfor-ocf-v-1-23"));
    assert!(domain.len() <= 63);
}

#[test]
fn test_empty_rfc1123() {
    let domain = rfc1123_subdomain("");
    assert!(domain.starts_with(DEFAULT_IF_INVALID_SUBDOMAIN));
}

#[test]
fn test_case_3a_rfc1123() {
    let domain = rfc1123_subdomain("super cool connector v1.2");
    assert!(domain.starts_with("super-cool-connector-v-1-2"));
    assert_eq!(domain.len(), "super-cool-connector-v-1-2-".len() + 32);
}

#[test]
fn test_case_3b_rfc1123() {
    let domain =
        rfc1123_subdomain("super cool connector v1.2.123456789123456789123456789123456789");
    assert_eq!(
        domain.len(),
        "super-cool-connector-v-1-2-123456789123456789123456789-".len() + 8
    );
}

#[test]
fn test_case_3c_rfc1123() {
    let domain = rfc1123_subdomain("super cool connector v1.2.123456789");
    assert_eq!(
        domain.len(),
        "super-cool-connector-v-1-2-123456789-".len() + 26
    );
}

#[test]
fn fuzz_rfc1123() {
    let mut rng = rand::thread_rng();
    for _ in 0..10000 {
        let length = rng.gen_range(0..200);
        let test: String = (0..length).map(|_| rng.gen_range(' '..='~')).collect();
        let got = rfc1123_subdomain(&test);
        assert!(got.len() <= 63);
        assert!(got.len() > 33);
        assert!(got.starts_with(char::is_alphanumeric));
    }
}

#[test]
fn uuid_is_32_lowercase_hex_digits() {
    let id = uuid();
    assert_eq!(id.len(), 32);
    assert!(id.chars().all(|c| c.is_ascii_digit() || ('a'..='f').contains(&c)));
    assert_ne!(uuid(), uuid());
}

#[test]
fn subdomain_cuts_exactly() {
    let id = "0123456789abcdef0123456789abcdef";
    assert_eq!(subdomain_from("abc", id), format!("abc-{}", id));
    let long_prefix = "p".repeat(60);
    assert_eq!(subdomain_from(&long_prefix, id), format!("{}-01234567", "p".repeat(54)));
    let mid_prefix = "q".repeat(40);
    assert_eq!(subdomain_from(&mid_prefix, id), format!("{}-{}", mid_prefix, &id[..22]));
}

#[test]
fn test_invalid_prefix_rfc1123() {
    let domain = rfc1123_subdomain("ðŸ¤®ðŸ¤®ðŸ¤®");
    assert!(domain.starts_with(DEFAULT_IF_INVALID_SUBDOMAIN));
}

#[test]
fn non_ascii_letters_do_not_reach_kebab_case() {
    let domain = rfc1123_subdomain("é1x");
    assert!(domain.is_ascii());
    assert!(!domain.starts_with(DEFAULT_IF_INVALID_SUBDOMAIN));
    assert!(domain.len() <= 63);
}
