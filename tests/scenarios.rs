use acm::error::ErrorKind;
use acm::event_watcher::{EventWatcher, HealthOutcome, WatchEffect, WatchEvent};
use acm::external_handle::PodManagerUpperHandle;
use acm::garbage_collector::{
    refresh_result, Clock, GarbageCollectorDaemon, GcAction, GcEvent, GcStatus, DEFAULT_TTL,
};
use acm::pod::{Container, ContainerPort, ContainerState, Pod, PodSpec, PodStatus};
use acm::pod_manager::Registry;

fn running_pod(name: &str) -> Pod {
    Pod {
        name: name.to_string(),
        namespace: Some("ocf".to_string()),
        spec: Some(PodSpec {
            containers: vec![Container { name: name.to_string(), image: "oracle".to_string(), env: vec![], ports: Some(vec![ContainerPort { container_port: 8080, protocol: None }]), restart_policy: None, image_pull_policy: None }],
        }),
        status: Some(PodStatus {
            pod_ip: Some("10.0.0.9".to_string()),
            container_statuses: vec![ContainerState { running: true, terminated: None, waiting: None }],
        }),
    }
}

fn at(s: u64) -> Clock {
    Clock { wall: 1_700_000_000 + s as i64, mono_ms: s * 1000 }
}

/// Drives a watcher and its garbage collector together: every GC signal that
/// the watcher emits is fed to the garbage collector.
fn drive(
    w: EventWatcher,
    gc: &mut GarbageCollectorDaemon,
    e: WatchEvent,
    now: Clock,
) -> (EventWatcher, Vec<WatchEffect>, Vec<GcAction>) {
    let (w, effects) = w.step(e);
    let mut gc_actions = vec![];
    for eff in &effects {
        if let WatchEffect::Gc(status) = eff {
            let status = match status {
                GcStatus::Running(p) => GcStatus::Running(Box::new(p.copy())),
                GcStatus::Terminated => GcStatus::Terminated,
            };
            gc_actions.extend(gc.step(GcEvent::Status(Some(status)), now));
        }
    }
    (w, effects, gc_actions)
}

#[test]
fn happy_path_ticket_names_pod_and_gc_collects_at_ttl() {
    let id = "oracle-v-1-0123456789abcdef";
    let mut registry: Registry<PodManagerUpperHandle> = Registry::new();
    let generation = registry.insert(id.to_string(), PodManagerUpperHandle::new());
    let mut gc = GarbageCollectorDaemon::new(id.to_string(), DEFAULT_TTL);
    let w = EventWatcher::new_watcher(id.to_string());
    let (w, _, _) = drive(w, &mut gc, WatchEvent::Added, at(0));
    let (w, _, _) = drive(w, &mut gc, WatchEvent::Applied(running_pod(id)), at(1));
    let (w, effects, _) = drive(w, &mut gc, WatchEvent::HealthCheck(HealthOutcome::Healthy), at(2));
    let verdict = match effects.into_iter().last().unwrap() {
        WatchEffect::Deliver(v) => v,
        _ => panic!("expected a verdict"),
    };
    let (_w, _, _) = drive(w, &mut gc, WatchEvent::Delivered(true), at(2));
    let pod = registry.entries[0].manager.record(Some(verdict)).unwrap();
    let ticket = match &gc.step(GcEvent::Refresh, at(3))[0] {
        GcAction::Reply(t) => t.copy(),
        _ => panic!("expected a ticket"),
    };
    assert_eq!(ticket.ticket, pod.name);
    let actions = gc.step(GcEvent::DeadlineReached, at(3 + DEFAULT_TTL));
    assert!(matches!(actions[..], [GcAction::DeletePod]));
    assert!(registry.remove(id, generation));
    assert_eq!(registry.len(), 0);
}

#[test]
fn image_pull_failure_reaches_the_client_as_404() {
    let mut h = PodManagerUpperHandle::new();
    let mut p = running_pod("p");
    p.status.as_mut().unwrap().container_statuses[0] = ContainerState {
        running: false,
        terminated: None,
        waiting: Some(acm::pod::WaitingState {
            reason: Some("ErrImagePull".to_string()),
            message: Some("not found".to_string()),
        }),
    };
    let (_, effects) = EventWatcher::new_watcher("p".to_string()).step(WatchEvent::Applied(p));
    assert!(matches!(effects.last(), Some(WatchEffect::DeletePod)));
    let verdict = effects.into_iter().find_map(|e| match e {
        WatchEffect::Deliver(v) => Some(v),
        _ => None,
    });
    let err = h.record(verdict).unwrap_err();
    assert_eq!(err.kind, ErrorKind::ErrImagePull);
    assert_eq!(err.http_code(), 404);
}

#[test]
fn client_abandons_and_pod_is_collected_at_ttl() {
    let mut gc = GarbageCollectorDaemon::new("p".to_string(), 60);
    let w = EventWatcher::new_watcher("p".to_string());
    let (w, _, _) = drive(w, &mut gc, WatchEvent::Applied(running_pod("p")), at(0));
    let (w, _, _) = drive(w, &mut gc, WatchEvent::HealthCheck(HealthOutcome::Healthy), at(1));
    let (w, effects, _) = drive(w, &mut gc, WatchEvent::Delivered(true), at(1));
    assert!(effects.is_empty());
    assert!(!w.is_done());
    assert!(gc.is_running());
    let actions = gc.step(GcEvent::DeadlineReached, at(60));
    assert!(matches!(actions[..], [GcAction::DeletePod]));
}

#[test]
fn reboot_after_healthy_closes_refresh() {
    let mut gc = GarbageCollectorDaemon::new("p".to_string(), 60);
    let w = EventWatcher::new_watcher("p".to_string());
    let (w, _, _) = drive(w, &mut gc, WatchEvent::Applied(running_pod("p")), at(0));
    let (w, _, _) = drive(w, &mut gc, WatchEvent::HealthCheck(HealthOutcome::Healthy), at(1));
    let (w, _, _) = drive(w, &mut gc, WatchEvent::Delivered(true), at(1));
    let (w, effects, _) = drive(w, &mut gc, WatchEvent::Restarted, at(5));
    assert!(w.is_done());
    assert!(matches!(effects.last(), Some(WatchEffect::DeletePod)));
    assert!(!gc.is_running());
    let err = refresh_result(None).unwrap_err();
    assert_eq!(err.kind, ErrorKind::RefreshChannelClosed);
}

#[test]
fn concurrent_delete_and_refresh_remove_entry_once() {
    let mut registry: Registry<u8> = Registry::new();
    let generation = registry.insert("x".to_string(), 0);
    let mut gc = GarbageCollectorDaemon::new("x".to_string(), 60);
    let w = EventWatcher::new_watcher("x".to_string());
    let (w, _, _) = drive(w, &mut gc, WatchEvent::Applied(running_pod("x")), at(0));
    let (w, _, _) = drive(w, &mut gc, WatchEvent::HealthCheck(HealthOutcome::Healthy), at(1));
    let (w, _, _) = drive(w, &mut gc, WatchEvent::Delivered(true), at(1));
    let refreshed = gc.step(GcEvent::Refresh, at(2));
    assert_eq!(refreshed.len(), 2);
    let (w, effects, gc_actions) = drive(w, &mut gc, WatchEvent::Deleted, at(3));
    assert!(w.is_done());
    assert!(!effects.iter().any(|e| matches!(e, WatchEffect::DeletePod)));
    assert!(gc_actions.is_empty());
    assert!(!gc.is_running());
    assert!(registry.remove("x", generation));
    assert!(!registry.remove("x", generation));
    assert!(registry.get("x").is_err());
}
