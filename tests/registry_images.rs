use acm::error::{AcmError, ErrorKind};
use acm::image_import::Image;
use acm::image_registry::{
    digest_of_hash, ecr_uninstall_outcome, find_by_tag, get, image_delete_outcome, manifest_digest,
    EcrUninstallFailure,
};
use acm::json::{envelope, json_string, to_json};
use acm::names::hex_of;
use acm::text::hex;

fn image(tag: &str, digest: &str) -> Image {
    Image { tag: tag.to_string(), digest: digest.to_string() }
}

#[test]
fn manifest_digest_is_sha256_hex() {
    assert_eq!(
        manifest_digest(b"abc"),
        "sha256:ba7816bf8f01cfea414140de5dae2223b00361a396177a9cb410ff61f20015ad"
    );
    assert_eq!(digest_of_hash(&[0x00, 0xff, 0x1a]), "sha256:00ff1a");
}

#[test]
fn hex_renders_two_digits_per_byte() {
    assert_eq!(hex(&[]), "");
    assert_eq!(hex(&[0x0f, 0xa0]), "0fa0");
    assert_eq!(hex_of(0x0123456789abcdef_u128), "00000000000000000123456789abcdef");
}

#[test]
fn get_finds_first_image_of_tag() {
    let images = vec![image("v1", "sha256:1"), image("v2", "sha256:2"), image("v2", "sha256:3")];
    assert_eq!(find_by_tag(&images, "v2"), Some(1));
    assert_eq!(find_by_tag(&images, "v3"), None);
    assert_eq!(get(images, "v2").unwrap().digest, "sha256:2");
}

#[test]
fn registry_delete_status() {
    assert!(image_delete_outcome(202).is_ok());
    assert!(image_delete_outcome(404).is_ok());
    let err = image_delete_outcome(500).unwrap_err();
    assert_eq!(err.kind, ErrorKind::ImageDeleteError);
    assert_eq!(err.cause, Some("500".to_string()));
    assert_eq!(err.http_code(), 503);
}

#[test]
fn error_json_without_cause() {
    let e = AcmError::of(ErrorKind::PodDeleted);
    assert_eq!(
        to_json(&e),
        "{\"kind\":\"PodDeleted\",\"message\":\"The pod for this job was deleted.\",\"cause\":null}"
    );
}

#[test]
fn error_json_with_cause_escapes_text() {
    let e = AcmError::new(ErrorKind::StringError, Some("say \"hi\"".to_string()));
    let j = to_json(&e);
    let v: serde_json::Value = serde_json::from_str(&j).unwrap();
    assert_eq!(v["kind"], "StringError");
    assert_eq!(v["cause"], "say \"hi\"");
}

#[test]
fn envelope_holds_payload_or_error() {
    assert_eq!(envelope(Some("\"Hello, Alation!\""), None), "{\"payload\":\"Hello, Alation!\",\"error\":null}");
    let e = AcmError::of(ErrorKind::PhantomError);
    let j = envelope(None, Some(&e));
    let v: serde_json::Value = serde_json::from_str(&j).unwrap();
    assert!(v["payload"].is_null());
    assert_eq!(v["error"]["kind"], "PhantomError");
}

#[test]
fn ecr_uninstall_of_missing_image_succeeds() {
    let failure = |code: &str| EcrUninstallFailure {
        image_tag: "precise".to_string(),
        failure_code: code.to_string(),
        failure_reason: "Requested image not found".to_string(),
    };
    assert!(ecr_uninstall_outcome(&vec![]).is_ok());
    assert!(ecr_uninstall_outcome(&vec![failure("ImageNotFound")]).is_ok());
    let err = ecr_uninstall_outcome(&vec![failure("InvalidImageTag")]).unwrap_err();
    assert_eq!(err.kind, ErrorKind::EcrUninstallError);
    assert_eq!(err.cause, Some("Requested image not found".to_string()));
    assert_eq!(err.http_code(), 400);
}

#[test]
fn json_string_escapes_like_serde_json() {
    for text in ["plain", "q\"uote", "back\\slash", "tab\tnew\nline\r", "\u{1}\u{1f}\u{8}\u{c}", "é ✓", "\u{7f}"] {
        assert_eq!(json_string(text), serde_json::to_string(text).unwrap());
    }
    assert_eq!(json_string("\u{1}"), "\"\\u0001\"");
}
