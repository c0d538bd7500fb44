use acm::error::{AcmError, ErrorKind};
use acm::event_watcher::{EventWatcher, HealthOutcome, WatchEffect, WatchEvent, WatchStage};
use acm::garbage_collector::GcStatus;
use acm::pod::{Container, ContainerPort, ContainerState, Pod, PodSpec, PodStatus, WaitingState};

fn pod(running: bool, waiting: Option<&str>) -> Pod {
    Pod {
        name: "oracle-v-1-abc".to_string(),
        namespace: Some("ocf".to_string()),
        spec: Some(PodSpec {
            containers: vec![Container { name: "c".to_string(), image: "oracle".to_string(), env: vec![], ports: Some(vec![ContainerPort { container_port: 8080, protocol: None }]), restart_policy: None, image_pull_policy: None }],
        }),
        status: Some(PodStatus {
            pod_ip: Some("10.0.0.7".to_string()),
            container_statuses: vec![ContainerState {
                running,
                terminated: None,
                waiting: waiting.map(|r| WaitingState { reason: Some(r.to_string()), message: Some("msg".to_string()) }),
            }],
        }),
    }
}

fn names(effects: &[WatchEffect]) -> Vec<String> {
    effects
        .iter()
        .map(|e| match e {
            WatchEffect::Sleep => "sleep".to_string(),
            WatchEffect::ResetBackoff => "reset".to_string(),
            WatchEffect::Gc(GcStatus::Running(_)) => "gc-running".to_string(),
            WatchEffect::Gc(GcStatus::Terminated) => "gc-terminated".to_string(),
            WatchEffect::StartHealthCheck(a) => format!("check {}", a),
            WatchEffect::KillHealthCheck => "kill-check".to_string(),
            WatchEffect::JoinHealthCheck => "join-check".to_string(),
            WatchEffect::Deliver(Ok(p)) => format!("ok {}", p.name),
            WatchEffect::Deliver(Err(e)) => format!("err {:?}", e.kind),
            WatchEffect::DeletePod => "delete".to_string(),
        })
        .collect()
}

fn feed(events: Vec<WatchEvent>) -> (EventWatcher, Vec<String>) {
    let mut w = EventWatcher::new_watcher("oracle-v-1-abc".to_string());
    let mut all = vec![];
    for e in events {
        assert!(w.accepts(&e));
        let (next, effects) = w.step(e);
        all.extend(names(&effects));
        w = next;
    }
    (w, all)
}

#[test]
fn happy_path_delivers_pod_and_keeps_it() {
    let (w, effects) = feed(vec![
        WatchEvent::Added,
        WatchEvent::Applied(pod(false, None)),
        WatchEvent::Applied(pod(true, None)),
        WatchEvent::HealthCheck(HealthOutcome::Healthy),
        WatchEvent::Delivered(true),
        WatchEvent::Applied(pod(true, None)),
    ]);
    assert_eq!(
        effects,
        vec!["reset", "reset", "reset", "gc-running", "check 10-0-0-7.ocf.pod:8080", "join-check", "ok oracle-v-1-abc", "reset"]
    );
    assert_eq!(w.stage(), WatchStage::Steady);
    assert!(!effects.contains(&"delete".to_string()));
}

#[test]
fn image_pull_failure_terminates_with_404() {
    let mut w = EventWatcher::new_watcher("p".to_string());
    let (next, effects) = w.step(WatchEvent::Applied(pod(false, Some("ErrImagePull"))));
    w = next;
    assert_eq!(names(&effects), vec!["reset", "err ErrImagePull", "gc-terminated", "delete"]);
    match &effects[1] {
        WatchEffect::Deliver(Err(e)) => {
            assert_eq!(e.http_code(), 404);
            assert_eq!(e.cause, Some("msg".to_string()));
        }
        _ => panic!("expected an error"),
    }
    assert!(w.is_done());
}

#[test]
fn crash_loop_in_phase_one_is_pod_crashed() {
    let (_, effects) = feed(vec![WatchEvent::Applied(pod(false, Some("CrashLoopBackOff")))]);
    assert_eq!(effects, vec!["reset", "err PodCrashed", "gc-terminated", "delete"]);
}

#[test]
fn client_gone_after_healthy_stops_gc_and_deletes() {
    let (w, effects) = feed(vec![
        WatchEvent::Applied(pod(true, None)),
        WatchEvent::HealthCheck(HealthOutcome::Healthy),
        WatchEvent::Delivered(false),
    ]);
    assert_eq!(&effects[effects.len() - 2..], &["gc-terminated".to_string(), "delete".to_string()]);
    assert!(w.is_done());
}

#[test]
fn reboot_after_healthy_terminates() {
    let (w, effects) = feed(vec![
        WatchEvent::Applied(pod(true, None)),
        WatchEvent::HealthCheck(HealthOutcome::Healthy),
        WatchEvent::Delivered(true),
        WatchEvent::Restarted,
    ]);
    assert_eq!(
        &effects[effects.len() - 4..],
        &["reset", "err PodRebooted", "gc-terminated", "delete"].map(|s| s.to_string())
    );
    assert!(w.is_done());
}

#[test]
fn slow_grpc_delivers_not_ready_and_deletes() {
    let (_, effects) = feed(vec![
        WatchEvent::Applied(pod(true, None)),
        WatchEvent::HealthCheck(HealthOutcome::Failed(AcmError::of(ErrorKind::NotReady))),
    ]);
    assert_eq!(&effects[3..], &["join-check", "err NotReady", "gc-terminated", "delete"].map(|s| s.to_string()));
}

#[test]
fn deleted_in_steady_state_only_stops_gc() {
    let (w, effects) = feed(vec![
        WatchEvent::Applied(pod(true, None)),
        WatchEvent::HealthCheck(HealthOutcome::Healthy),
        WatchEvent::Delivered(true),
        WatchEvent::Deleted,
    ]);
    assert_eq!(&effects[effects.len() - 2..], &["reset".to_string(), "gc-terminated".to_string()]);
    assert!(!effects.contains(&"delete".to_string()));
    assert!(w.is_done());
}

#[test]
fn deleted_during_health_check_cancels_it() {
    let (_, effects) = feed(vec![WatchEvent::Applied(pod(true, None)), WatchEvent::Deleted]);
    assert_eq!(&effects[3..], &["kill-check", "err PodDeleted", "gc-terminated", "delete"].map(|s| s.to_string()));
}

#[test]
fn restarted_before_running_is_ignored() {
    let (w, effects) = feed(vec![WatchEvent::Restarted, WatchEvent::Added]);
    assert_eq!(effects, vec!["reset", "reset"]);
    assert_eq!(w.stage(), WatchStage::AwaitRunning);
}

#[test]
fn stream_errors_back_off_then_give_up() {
    let (w, effects) = feed(vec![
        WatchEvent::StreamError { retry: true, elapsed: "1s".to_string() },
        WatchEvent::StreamError { retry: false, elapsed: "900s".to_string() },
    ]);
    assert_eq!(effects, vec!["sleep", "err KubernetesUnresponsive", "gc-terminated", "delete"]);
    assert!(w.is_done());
}

#[test]
fn closed_stream_is_unexpected() {
    let (_, effects) = feed(vec![WatchEvent::StreamClosed]);
    assert_eq!(effects, vec!["reset", "err UnexpectedCloseOfEventStream", "gc-terminated", "delete"]);
}

#[test]
fn dropped_health_check_is_reported() {
    let (_, effects) = feed(vec![
        WatchEvent::Applied(pod(true, None)),
        WatchEvent::HealthCheck(HealthOutcome::Dropped),
    ]);
    assert_eq!(&effects[3..], &["join-check", "err HealthCheckDroppedItsChannel", "gc-terminated", "delete"].map(|s| s.to_string()));
}

#[test]
fn gc_refusing_running_is_reported() {
    let (_, effects) = feed(vec![WatchEvent::Applied(pod(true, None)), WatchEvent::GcRefused]);
    assert_eq!(&effects[3..], &["kill-check", "err GarbageCollectorUnresponsive", "gc-terminated", "delete"].map(|s| s.to_string()));
}

#[test]
fn running_pod_without_address_terminates() {
    let mut p = pod(true, None);
    p.status.as_mut().unwrap().pod_ip = None;
    let (_, effects) = feed(vec![WatchEvent::Applied(p)]);
    assert_eq!(effects, vec!["reset", "gc-running", "err PodHasNoIp", "gc-terminated", "delete"]);
}

#[test]
fn done_watcher_accepts_nothing() {
    let (w, _) = feed(vec![WatchEvent::Deleted]);
    assert!(!w.accepts(&WatchEvent::Added));
}
