use acm::config::{
    aws_secret_access_key, implementation, map_empty_to_error, registry, repository,
    Implementation, Secret,
};

#[test]
fn test_secret_display() {
    let password = Secret::from_str("please don't log this");
    let log_entry = format!("my password is {}!", password.redacted());
    assert_eq!("my password is <REDACTED>!", log_entry);
}

#[test]
fn test_secret_debug() {
    let password = Secret::from_str("please don't log this");
    let log_entry = format!("my password is {}!", password.redacted());
    assert_eq!("my password is <REDACTED>!", log_entry);
    assert_eq!(password.raw_secret(), "please don't log this");
}

#[test]
fn settings_fall_back_to_defaults() {
    assert_eq!(registry(None), "registry.kube-system");
    assert_eq!(repository(None), "ocf");
    assert_eq!(implementation(None), "Minikube");
    assert_eq!(registry(Some("example.com".to_string())), "example.com");
}

#[test]
fn empty_mandatory_setting_is_unset() {
    assert_eq!(map_empty_to_error(Some(String::new())), None);
    assert_eq!(map_empty_to_error(None), None);
    assert_eq!(map_empty_to_error(Some("us-east-2".to_string())), Some("us-east-2".to_string()));
    assert!(aws_secret_access_key(Some(String::new())).is_none());
    assert_eq!(aws_secret_access_key(Some("k".to_string())).unwrap().raw_secret(), "k");
}

#[test]
fn implementation_ignores_case() {
    assert_eq!(Implementation::which("ECR"), Some(Implementation::Ecr));
    assert_eq!(Implementation::which("MiniKube"), Some(Implementation::Minikube));
    assert_eq!(Implementation::which("gcr"), None);
    assert_eq!(Implementation::from_lowercase("ECR"), None);
    assert_eq!(Implementation::from_lowercase("ecr"), Some(Implementation::Ecr));
}
