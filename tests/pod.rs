use acm::error::ErrorKind;
use acm::pod::{
    deploy_labels, new, Container, ContainerPort, ContainerState, Pod, PodSpec, PodStatus, TerminatedState,
    WaitingState,
};

fn state() -> ContainerState {
    ContainerState { running: false, terminated: None, waiting: None }
}

fn waiting(reason: &str, message: &str) -> ContainerState {
    ContainerState {
        running: false,
        terminated: None,
        waiting: Some(WaitingState {
            reason: Some(reason.to_string()),
            message: Some(message.to_string()),
        }),
    }
}

fn pod_with(states: Vec<ContainerState>) -> Pod {
    Pod {
        name: "p".to_string(),
        namespace: Some("ocf".to_string()),
        spec: Some(PodSpec {
            containers: vec![Container {
                name: "p".to_string(),
                image: "img".to_string(),
                env: vec![],
                ports: Some(vec![ContainerPort { container_port: 8080, protocol: Some("TCP".to_string()) }]),
                restart_policy: None,
                image_pull_policy: None,
            }],
        }),
        status: Some(PodStatus { pod_ip: Some("10.1.2.3".to_string()), container_statuses: states }),
    }
}

#[test]
fn empty() {
    new("", "asdas");
}

#[test]
fn not_rfc1123_compliant_name() {
    new("not a bloody chance", "asdas");
}

#[test]
fn new_pod_has_one_connector_container() {
    let pod = new("registry/ocf:v1", "Oracle v1");
    assert!(pod.name.starts_with("oracle-v-1-"));
    assert_eq!(pod.namespace, Some("ocf".to_string()));
    let spec = pod.spec.as_ref().unwrap();
    assert_eq!(spec.containers.len(), 1);
    assert_eq!(spec.containers[0].image, "registry/ocf:v1");
    assert_eq!(spec.containers[0].name, pod.name);
    let ports = spec.containers[0].ports.as_ref().unwrap();
    assert_eq!(ports.len(), 1);
    assert_eq!(ports[0].container_port, 8080);
    assert_eq!(ports[0].protocol, Some("TCP".to_string()));
    assert_eq!(spec.containers[0].env.len(), 1);
    assert_eq!(spec.containers[0].env[0].name, "PORT");
    assert_eq!(spec.containers[0].env[0].value, "8080");
    assert_eq!(spec.containers[0].restart_policy, Some("Never".to_string()));
    assert_eq!(spec.containers[0].image_pull_policy, Some("IfNotPresent".to_string()));
    assert!(pod.status.is_none());
}

#[test]
fn phase_predicates() {
    let mut running = state();
    running.running = true;
    let pod = pod_with(vec![state(), running]);
    assert!(pod.running());
    assert!(!pod.terminated());
    assert!(!pod.crashed());

    let crashed = pod_with(vec![waiting("CrashLoopBackOff", "boom")]);
    assert!(crashed.crashed());
    assert!(!crashed.running());
    assert!(!crashed.was_err_image_pull());

    let no_status = Pod { status: None, ..pod_with(vec![]) };
    assert!(!no_status.running());
    assert!(!no_status.terminated());
}

#[test]
fn err_image_pull_carries_first_message() {
    let pod = pod_with(vec![
        waiting("ContainerCreating", "wait"),
        waiting("ErrImagePull", "no such image"),
        waiting("ErrImagePull", "second"),
    ]);
    assert!(pod.was_err_image_pull());
    let err = pod.err_image_pull().unwrap_err();
    assert_eq!(err.kind, ErrorKind::ErrImagePull);
    assert_eq!(err.cause, Some("no such image".to_string()));
    assert_eq!(err.http_code(), 404);
    assert!(pod_with(vec![state()]).err_image_pull().is_ok());
}

#[test]
fn termination_details_come_from_last_container() {
    let mut done = state();
    done.terminated = Some(TerminatedState {
        reason: Some("Error".to_string()),
        message: Some("exit 1".to_string()),
    });
    let pod = pod_with(vec![state(), done]);
    assert!(pod.terminated());
    assert_eq!(pod.terminated_reason(), Some("Error".to_string()));
    assert_eq!(pod.terminated_message(), Some("exit 1".to_string()));
    let pod = pod_with(vec![state()]);
    assert_eq!(pod.terminated_reason(), None);
}

#[test]
fn address_uses_dashed_ip_namespace_and_first_port() {
    let pod = pod_with(vec![]);
    assert_eq!(pod.dns().unwrap(), "10-1-2-3.ocf.pod");
    assert_eq!(pod.port().unwrap(), 8080);
    assert_eq!(pod.address().unwrap(), "10-1-2-3.ocf.pod:8080");
}

#[test]
fn address_failures_name_the_missing_part() {
    let no_status = Pod { status: None, ..pod_with(vec![]) };
    assert_eq!(no_status.dns().unwrap_err().kind, ErrorKind::PodHasNoStatus);
    let mut no_ip = pod_with(vec![]);
    no_ip.status.as_mut().unwrap().pod_ip = None;
    assert_eq!(no_ip.address().unwrap_err().kind, ErrorKind::PodHasNoIp);
    let no_namespace = Pod { namespace: None, ..pod_with(vec![]) };
    assert_eq!(no_namespace.address().unwrap_err().kind, ErrorKind::PodHasNoNamespace);
    let no_spec = Pod { spec: None, ..pod_with(vec![]) };
    assert_eq!(no_spec.port().unwrap_err().kind, ErrorKind::PodHasNoSpec);
    let no_containers = Pod { spec: Some(PodSpec { containers: vec![] }), ..pod_with(vec![]) };
    assert_eq!(no_containers.port().unwrap_err().kind, ErrorKind::PodHasNoContainers);
    let no_ports = Pod {
        spec: Some(PodSpec {
            containers: vec![Container {
                name: "c".to_string(),
                image: "i".to_string(),
                env: vec![],
                ports: Some(vec![]),
                restart_policy: None,
                image_pull_policy: None,
            }],
        }),
        ..pod_with(vec![])
    };
    assert_eq!(no_ports.port().unwrap_err().kind, ErrorKind::ContainerHasNoPorts);
}

#[test]
fn copy_keeps_everything() {
    let pod = pod_with(vec![waiting("ErrImagePull", "m")]);
    let copy = pod.copy();
    assert_eq!(copy.address().unwrap(), pod.address().unwrap());
    assert!(copy.was_err_image_pull());
}

#[test]
fn deploy_labels_name_the_servicer_and_lease() {
    let labels = deploy_labels(&pod_with(vec![]), 1800).unwrap();
    let pairs: Vec<(String, String)> = labels.into_iter().map(|l| (l.key, l.value)).collect();
    assert_eq!(
        pairs,
        vec![
            ("servicer".to_string(), "p".to_string()),
            ("servicer_dns".to_string(), "10-1-2-3.ocf.pod".to_string()),
            ("servicer_port".to_string(), "8080".to_string()),
            ("ttl".to_string(), "1800".to_string()),
        ]
    );
    let no_spec = Pod { spec: None, ..pod_with(vec![]) };
    assert_eq!(deploy_labels(&no_spec, 1).unwrap_err().kind, ErrorKind::PodHasNoSpec);
}
