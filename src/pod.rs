//! The parts of a Kubernetes pod that the connector manager reads, and the
//! phase predicates and addressing rules over them.
use vstd::prelude::*;
use crate::error::{AcmError, ErrorKind, is_error};
use crate::text::{decimal, decimal_of, decimal_u64, replace_char, replaced, str_eq};

verus! {

/// `state.terminated` of a container.
#[derive(Debug)]
pub struct TerminatedState {
    pub reason: Option<String>,
    pub message: Option<String>,
}

/// `state.waiting` of a container.
#[derive(Debug)]
pub struct WaitingState {
    pub reason: Option<String>,
    pub message: Option<String>,
}

/// The state of one container; a container without a reported state has
/// all three parts unset.
#[derive(Debug)]
pub struct ContainerState {
    pub running: bool,
    pub terminated: Option<TerminatedState>,
    pub waiting: Option<WaitingState>,
}

/// `status` of a pod.
#[derive(Debug)]
pub struct PodStatus {
    pub pod_ip: Option<String>,
    pub container_statuses: Vec<ContainerState>,
}

/// A port on which a container listens, with its protocol.
#[derive(Debug)]
pub struct ContainerPort {
    pub container_port: i32,
    pub protocol: Option<String>,
}

/// An environment variable of a container.
#[derive(Debug)]
pub struct EnvVar {
    pub name: String,
    pub value: String,
}

/// One container of a pod's spec.
#[derive(Debug)]
pub struct Container {
    pub name: String,
    pub image: String,
    pub env: Vec<EnvVar>,
    pub ports: Option<Vec<ContainerPort>>,
    pub restart_policy: Option<String>,
    pub image_pull_policy: Option<String>,
}

/// `spec` of a pod.
#[derive(Debug)]
pub struct PodSpec {
    pub containers: Vec<Container>,
}

/// A pod, as far as the connector manager reads it.
#[derive(Debug)]
pub struct Pod {
    pub name: String,
    pub namespace: Option<String>,
    pub spec: Option<PodSpec>,
    pub status: Option<PodStatus>,
}

/// The waiting reason of a crash looping container.
pub open spec fn crash_loop_reason() -> Seq<char> {
    "CrashLoopBackOff"@
}

/// The waiting reason of a container whose image could not be pulled.
pub open spec fn image_pull_reason() -> Seq<char> {
    "ErrImagePull"@
}

/// The container states a pod reports (none without a status).
pub open spec fn states_of(p: Pod) -> Seq<ContainerState> {
    match p.status {
        Some(s) => s.container_statuses@,
        None => Seq::empty(),
    }
}

/// The container waits with the given reason.
pub open spec fn waits_with(c: ContainerState, reason: Seq<char>) -> bool {
    match c.waiting {
        Some(w) => match w.reason {
            Some(r) => r@ == reason,
            None => false,
        },
        None => false,
    }
}

/// Some container of the pod is running.
pub open spec fn is_running(p: Pod) -> bool {
    exists|i: int| 0 <= i < states_of(p).len() && (#[trigger] states_of(p)[i]).running
}

/// Some container of the pod has terminated.
pub open spec fn is_terminated(p: Pod) -> bool {
    exists|i: int| 0 <= i < states_of(p).len() && (#[trigger] states_of(p)[i]).terminated is Some
}

/// Some container of the pod waits with the given reason.
pub open spec fn waits_for(p: Pod, reason: Seq<char>) -> bool {
    exists|i: int| 0 <= i < states_of(p).len() && waits_with(#[trigger] states_of(p)[i], reason)
}

/// Some container of the pod is in a crash loop.
pub open spec fn is_crashed(p: Pod) -> bool {
    waits_for(p, crash_loop_reason())
}

/// Some container of the pod failed to pull its image.
pub open spec fn is_err_image_pull(p: Pod) -> bool {
    waits_for(p, image_pull_reason())
}

/// `i` is the first container that waits with the given reason.
pub open spec fn first_waiting(p: Pod, reason: Seq<char>, i: int) -> bool {
    &&& 0 <= i < states_of(p).len()
    &&& waits_with(states_of(p)[i], reason)
    &&& forall|j: int| 0 <= j < i ==> !waits_with(#[trigger] states_of(p)[j], reason)
}

/// The reason of the last container's termination, if it has one.
pub open spec fn last_terminated_reason(p: Pod) -> Option<String> {
    let s = states_of(p);
    if s.len() == 0 {
        None
    } else {
        match s.last().terminated {
            Some(t) => t.reason,
            None => None,
        }
    }
}

/// The message of the last container's termination, if it has one.
pub open spec fn last_terminated_message(p: Pod) -> Option<String> {
    let s = states_of(p);
    if s.len() == 0 {
        None
    } else {
        match s.last().terminated {
            Some(t) => t.message,
            None => None,
        }
    }
}

/// The cluster DNS name of a pod: its IP with dashes for dots, its namespace,
/// and the `pod` suffix.
pub open spec fn dns_of(ip: Seq<char>, namespace: Seq<char>) -> Seq<char> {
    replace_char(ip, '.', '-') + "."@ + namespace + ".pod"@
}

/// The error kind that stops the DNS name of a pod from being known, if any.
pub open spec fn dns_failure(p: Pod) -> Option<ErrorKind> {
    match p.status {
        None => Some(ErrorKind::PodHasNoStatus),
        Some(s) => match s.pod_ip {
            None => Some(ErrorKind::PodHasNoIp),
            Some(_) => match p.namespace {
                None => Some(ErrorKind::PodHasNoNamespace),
                Some(_) => None,
            },
        },
    }
}

/// The DNS name of a pod that has an IP and a namespace.
pub open spec fn spec_dns(p: Pod) -> Seq<char>
    recommends
        dns_failure(p) is None,
{
    dns_of(p.status.unwrap().pod_ip.unwrap()@, p.namespace.unwrap()@)
}

/// The error kind that stops the port of a pod from being known, if any.
pub open spec fn port_failure(p: Pod) -> Option<ErrorKind> {
    match p.spec {
        None => Some(ErrorKind::PodHasNoSpec),
        Some(s) => if s.containers@.len() == 0 {
            Some(ErrorKind::PodHasNoContainers)
        } else {
            match s.containers@[0].ports {
                None => Some(ErrorKind::ContainerHasNoPorts),
                Some(ports) => if ports@.len() == 0 {
                    Some(ErrorKind::ContainerHasNoPorts)
                } else {
                    None
                },
            }
        },
    }
}

/// The first port of the first container of a pod that has one.
pub open spec fn spec_port(p: Pod) -> i32
    recommends
        port_failure(p) is None,
{
    p.spec.unwrap().containers@[0].ports.unwrap()@[0].container_port
}

/// The error kind that stops the address of a pod from being known: that of
/// the DNS name first, then that of the port.
pub open spec fn address_failure(p: Pod) -> Option<ErrorKind> {
    if dns_failure(p) is Some {
        dns_failure(p)
    } else {
        port_failure(p)
    }
}

/// `host:port` of a pod whose address is known.
pub open spec fn spec_address(p: Pod) -> Seq<char> {
    spec_dns(p) + ":"@ + decimal_of(spec_port(p) as int)
}

fn copy_text(s: &Option<String>) -> (r: Option<String>)
    ensures
        r == *s,
{
    match s {
        Some(t) => Some(t.clone()),
        None => None,
    }
}

impl ContainerState {
    /// A copy of this state.
    pub fn copy(&self) -> (r: ContainerState)
        ensures
            r == *self,
    {
        let terminated = match &self.terminated {
            Some(t) => Some(TerminatedState { reason: copy_text(&t.reason), message: copy_text(&t.message) }),
            None => None,
        };
        let waiting = match &self.waiting {
            Some(w) => Some(WaitingState { reason: copy_text(&w.reason), message: copy_text(&w.message) }),
            None => None,
        };
        ContainerState { running: self.running, terminated, waiting }
    }
}

/// Two containers agree on every field.
pub open spec fn same_container(a: Container, b: Container) -> bool {
    &&& a.name == b.name
    &&& a.image == b.image
    &&& a.env@ == b.env@
    &&& a.ports.is_some() == b.ports.is_some()
    &&& a.ports.is_some() ==> a.ports.unwrap()@ == b.ports.unwrap()@
    &&& a.restart_policy == b.restart_policy
    &&& a.image_pull_policy == b.image_pull_policy
}

impl Container {
    /// A copy of this container.
    pub fn copy(&self) -> (r: Container)
        ensures
            same_container(r, *self),
    {
        let ports = match &self.ports {
            Some(p) => {
                let mut out: Vec<ContainerPort> = Vec::new();
                let mut i: usize = 0;
                while i < p.len()
                    invariant
                        i <= p@.len(),
                        out@ == p@.subrange(0, i as int),
                    decreases p@.len() - i,
                {
                    out.push(ContainerPort { container_port: p[i].container_port, protocol: copy_text(&p[i].protocol) });
                    assert(p@.subrange(0, i + 1) == p@.subrange(0, i as int).push(p@[i as int]));
                    i = i + 1;
                }
                assert(p@ == p@.subrange(0, p@.len() as int));
                Some(out)
            },
            None => None,
        };
        let mut env: Vec<EnvVar> = Vec::new();
        let mut i: usize = 0;
        while i < self.env.len()
            invariant
                i <= self.env@.len(),
                env@ == self.env@.subrange(0, i as int),
            decreases self.env@.len() - i,
        {
            env.push(EnvVar { name: self.env[i].name.clone(), value: self.env[i].value.clone() });
            assert(self.env@.subrange(0, i + 1) == self.env@.subrange(0, i as int).push(self.env@[i as int]));
            i = i + 1;
        }
        assert(self.env@ == self.env@.subrange(0, self.env@.len() as int));
        Container {
            name: self.name.clone(),
            image: self.image.clone(),
            env,
            ports,
            restart_policy: copy_text(&self.restart_policy),
            image_pull_policy: copy_text(&self.image_pull_policy),
        }
    }
}

/// Two pods agree on everything the manager reads from them.
pub open spec fn same_pod(a: Pod, b: Pod) -> bool {
    &&& a.name == b.name
    &&& a.namespace == b.namespace
    &&& a.status.is_some() == b.status.is_some()
    &&& a.status.is_some() ==> a.status.unwrap().pod_ip == b.status.unwrap().pod_ip
        && a.status.unwrap().container_statuses@ == b.status.unwrap().container_statuses@
    &&& a.spec.is_some() == b.spec.is_some()
    &&& a.spec.is_some() ==> {
        let ca = a.spec.unwrap().containers@;
        let cb = b.spec.unwrap().containers@;
        &&& ca.len() == cb.len()
        &&& forall|i: int| 0 <= i < ca.len() ==> same_container(#[trigger] ca[i], cb[i])
    }
}

impl Pod {
    /// A copy of this pod.
    pub fn copy(&self) -> (r: Pod)
        ensures
            same_pod(r, *self),
    {
        let status = match &self.status {
            Some(s) => {
                let mut out: Vec<ContainerState> = Vec::new();
                let mut i: usize = 0;
                while i < s.container_statuses.len()
                    invariant
                        i <= s.container_statuses@.len(),
                        out@ == s.container_statuses@.subrange(0, i as int),
                    decreases s.container_statuses@.len() - i,
                {
                    out.push(s.container_statuses[i].copy());
                    assert(s.container_statuses@.subrange(0, i + 1)
                        == s.container_statuses@.subrange(0, i as int).push(s.container_statuses@[i as int]));
                    i = i + 1;
                }
                assert(s.container_statuses@ == s.container_statuses@.subrange(0, s.container_statuses@.len() as int));
                Some(PodStatus { pod_ip: copy_text(&s.pod_ip), container_statuses: out })
            },
            None => None,
        };
        let spec = match &self.spec {
            Some(s) => {
                let mut out: Vec<Container> = Vec::new();
                let mut i: usize = 0;
                while i < s.containers.len()
                    invariant
                        i <= s.containers@.len(),
                        out@.len() == i,
                        forall|j: int| 0 <= j < i ==> same_container(#[trigger] out@[j], s.containers@[j]),
                    decreases s.containers@.len() - i,
                {
                    out.push(s.containers[i].copy());
                    i = i + 1;
                }
                Some(PodSpec { containers: out })
            },
            None => None,
        };
        Pod { name: self.name.clone(), namespace: copy_text(&self.namespace), spec, status }
    }
}

fn waits(c: &ContainerState, reason: &str) -> (r: bool)
    ensures
        r == waits_with(*c, reason@),
{
    match &c.waiting {
        Some(w) => match &w.reason {
            Some(r) => str_eq(r.as_str(), reason),
            None => false,
        },
        None => false,
    }
}

/// The first of `states` that waits with `reason`.
fn find_waiting(states: &Vec<ContainerState>, reason: &str) -> (r: Option<usize>)
    ensures
        r matches Some(i) ==> i < states@.len() && waits_with(states@[i as int], reason@)
            && forall|j: int| 0 <= j < i ==> !waits_with(#[trigger] states@[j], reason@),
        r is None ==> forall|j: int| 0 <= j < states@.len() ==> !waits_with(#[trigger] states@[j], reason@),
{
    let mut i: usize = 0;
    while i < states.len()
        invariant
            i <= states@.len(),
            forall|j: int| 0 <= j < i ==> !waits_with(#[trigger] states@[j], reason@),
        decreases states@.len() - i,
    {
        if waits(&states[i], reason) {
            return Some(i);
        }
        i = i + 1;
    }
    None
}

impl Pod {
    /// Whether some container of the pod is running.
    pub fn running(&self) -> (r: bool)
        ensures
            r == is_running(*self),
    {
        match &self.status {
            None => false,
            Some(s) => {
                let states = &s.container_statuses;
                let mut i: usize = 0;
                while i < states.len()
                    invariant
                        states@ == states_of(*self),
                        i <= states@.len(),
                        forall|j: int| 0 <= j < i ==> !(#[trigger] states@[j]).running,
                    decreases states@.len() - i,
                {
                    if states[i].running {
                        return true;
                    }
                    i = i + 1;
                }
                false
            },
        }
    }

    /// Whether some container of the pod has terminated.
    pub fn terminated(&self) -> (r: bool)
        ensures
            r == is_terminated(*self),
    {
        match &self.status {
            None => false,
            Some(s) => {
                let states = &s.container_statuses;
                let mut i: usize = 0;
                while i < states.len()
                    invariant
                        states@ == states_of(*self),
                        i <= states@.len(),
                        forall|j: int| 0 <= j < i ==> (#[trigger] states@[j]).terminated is None,
                    decreases states@.len() - i,
                {
                    if states[i].terminated.is_some() {
                        return true;
                    }
                    i = i + 1;
                }
                false
            },
        }
    }

    /// Whether some container of the pod is in a crash loop.
    pub fn crashed(&self) -> (r: bool)
        ensures
            r == is_crashed(*self),
    {
        match &self.status {
            None => false,
            Some(s) => {
                let found = find_waiting(&s.container_statuses, "CrashLoopBackOff");
                assert(s.container_statuses@ == states_of(*self));
                if let Some(i) = found {
                    assert(waits_with(states_of(*self)[i as int], crash_loop_reason()));
                }
                found.is_some()
            },
        }
    }

    /// Whether some container of the pod failed to pull its image.
    pub fn was_err_image_pull(&self) -> (r: bool)
        ensures
            r == is_err_image_pull(*self),
    {
        match &self.status {
            None => false,
            Some(s) => {
                let found = find_waiting(&s.container_statuses, "ErrImagePull");
                assert(s.container_statuses@ == states_of(*self));
                if let Some(i) = found {
                    assert(waits_with(states_of(*self)[i as int], image_pull_reason()));
                }
                found.is_some()
            },
        }
    }

    /// `Err` of kind `ErrImagePull`, whose cause is the waiting message of the
    /// first container that failed to pull its image; `Ok` when none did.
    pub fn err_image_pull(&self) -> (r: Result<(), AcmError>)
        ensures
            r is Ok <==> !is_err_image_pull(*self),
            r matches Err(e) ==> exists|i: int| first_waiting(*self, image_pull_reason(), i)
                && is_error(e, ErrorKind::ErrImagePull, states_of(*self)[i].waiting.unwrap().message),
    {
        match &self.status {
            None => Ok(()),
            Some(s) => match find_waiting(&s.container_statuses, "ErrImagePull") {
                None => Ok(()),
                Some(i) => {
                    let message = match &s.container_statuses[i].waiting {
                        Some(w) => copy_text(&w.message),
                        None => None,
                    };
                    assert(first_waiting(*self, image_pull_reason(), i as int));
                    Err(AcmError::new(ErrorKind::ErrImagePull, message))
                },
            },
        }
    }

    /// The termination reason of the last container, if it has one.
    pub fn terminated_reason(&self) -> (r: Option<String>)
        ensures
            r == last_terminated_reason(*self),
    {
        match &self.status {
            None => None,
            Some(s) => {
                let n = s.container_statuses.len();
                if n == 0 {
                    None
                } else {
                    match &s.container_statuses[n - 1].terminated {
                        Some(t) => copy_text(&t.reason),
                        None => None,
                    }
                }
            },
        }
    }

    /// The termination message of the last container, if it has one.
    pub fn terminated_message(&self) -> (r: Option<String>)
        ensures
            r == last_terminated_message(*self),
    {
        match &self.status {
            None => None,
            Some(s) => {
                let n = s.container_statuses.len();
                if n == 0 {
                    None
                } else {
                    match &s.container_statuses[n - 1].terminated {
                        Some(t) => copy_text(&t.message),
                        None => None,
                    }
                }
            },
        }
    }

    /// The cluster DNS name of the pod: `<ip with dashes>.<namespace>.pod`.
    pub fn dns(&self) -> (r: Result<String, AcmError>)
        ensures
            r is Ok <==> dns_failure(*self) is None,
            r matches Ok(d) ==> d@ == spec_dns(*self),
            r matches Err(e) ==> e.kind == dns_failure(*self).unwrap(),
    {
        let status = match &self.status {
            None => return Err(AcmError::of(ErrorKind::PodHasNoStatus)),
            Some(s) => s,
        };
        let ip = match &status.pod_ip {
            None => return Err(AcmError::of(ErrorKind::PodHasNoIp)),
            Some(ip) => ip,
        };
        let namespace = match &self.namespace {
            None => return Err(AcmError::of(ErrorKind::PodHasNoNamespace)),
            Some(n) => n,
        };
        let mut out = replaced(ip.as_str(), '.', '-');
        out.append(".");
        out.append(namespace.as_str());
        out.append(".pod");
        Ok(out)
    }

    /// The first port of the pod's first container.
    pub fn port(&self) -> (r: Result<i32, AcmError>)
        ensures
            r is Ok <==> port_failure(*self) is None,
            r matches Ok(p) ==> p == spec_port(*self),
            r matches Err(e) ==> e.kind == port_failure(*self).unwrap(),
    {
        let spec = match &self.spec {
            None => return Err(AcmError::of(ErrorKind::PodHasNoSpec)),
            Some(s) => s,
        };
        if spec.containers.len() == 0 {
            return Err(AcmError::of(ErrorKind::PodHasNoContainers));
        }
        match &spec.containers[0].ports {
            None => Err(AcmError::of(ErrorKind::ContainerHasNoPorts)),
            Some(ports) => if ports.len() == 0 {
                Err(AcmError::of(ErrorKind::ContainerHasNoPorts))
            } else {
                Ok(ports[0].container_port)
            },
        }
    }

    /// `host:port` of the pod, from its DNS name and its first port.
    pub fn address(&self) -> (r: Result<String, AcmError>)
        ensures
            r is Ok <==> address_failure(*self) is None,
            r matches Ok(a) ==> a@ == spec_address(*self),
            r matches Err(e) ==> e.kind == address_failure(*self).unwrap(),
    {
        let mut out = match self.dns() {
            Ok(d) => d,
            Err(e) => return Err(e),
        };
        let port = match self.port() {
            Ok(p) => p,
            Err(e) => return Err(e),
        };
        out.append(":");
        let digits = decimal(port as i64);
        out.append(digits.as_str());
        Ok(out)
    }
}

/// The namespace in which connector pods run.
pub const OCF_NAMESPACE: &'static str = "ocf";
/// The port on which a connector listens.
pub const CONNECTOR_PORT: i32 = 8080;

/// A fresh connector pod of image `reference`: one container named after the
/// pod, listening on the connector port, in the connector namespace; the pod's
/// name is a valid subdomain made from `name`.
pub fn new(reference: &str, name: &str) -> (r: Pod)
    ensures
        exists|id: Seq<char>| crate::names::is_uuid(id)
            && r.name@ == crate::names::subdomain_of(crate::names::normalised(name@), id),
        r.name@.len() <= crate::names::MAX_LABEL_LEN,
        r.namespace matches Some(n) && n@ == "ocf"@,
        r.status is None,
        r.spec is Some,
        r.spec.unwrap().containers@.len() == 1,
        r.spec.unwrap().containers@[0].name == r.name,
        r.spec.unwrap().containers@[0].image@ == reference@,
        r.spec.unwrap().containers@[0].ports is Some,
        r.spec.unwrap().containers@[0].ports.unwrap()@.len() == 1,
        r.spec.unwrap().containers@[0].ports.unwrap()@[0].container_port == CONNECTOR_PORT,
        r.spec.unwrap().containers@[0].ports.unwrap()@[0].protocol matches Some(p) && p@ == "TCP"@,
        r.spec.unwrap().containers@[0].env@.len() == 1,
        r.spec.unwrap().containers@[0].env@[0].name@ == "PORT"@,
        r.spec.unwrap().containers@[0].env@[0].value@ == "8080"@,
        r.spec.unwrap().containers@[0].restart_policy matches Some(p) && p@ == "Never"@,
        r.spec.unwrap().containers@[0].image_pull_policy matches Some(p) && p@ == "IfNotPresent"@,
{
    let pod_name = crate::names::rfc1123_subdomain(name);
    let mut ports: Vec<ContainerPort> = Vec::new();
    ports.push(ContainerPort { container_port: CONNECTOR_PORT, protocol: Some(String::from_str("TCP")) });
    let mut env: Vec<EnvVar> = Vec::new();
    env.push(EnvVar { name: String::from_str("PORT"), value: String::from_str("8080") });
    let container = Container {
        name: pod_name.clone(),
        image: String::from_str(reference),
        env,
        ports: Some(ports),
        restart_policy: Some(String::from_str("Never")),
        image_pull_policy: Some(String::from_str("IfNotPresent")),
    };
    let mut containers: Vec<Container> = Vec::new();
    containers.push(container);
    proof { reveal_strlit("ocf"); }
    Pod {
        name: pod_name,
        namespace: Some(String::from_str(OCF_NAMESPACE)),
        spec: Some(PodSpec { containers }),
        status: None,
    }
}

/// A label of a pod: a key and its value.
#[derive(Debug)]
pub struct Label {
    pub key: String,
    pub value: String,
}

/// The labels stamped on a new pod: the name, DNS name and port of the pod
/// that deploys it (its servicer), and the lease in seconds.
pub open spec fn deploy_labels_of(servicer: Pod, ttl: u64) -> Seq<(Seq<char>, Seq<char>)> {
    seq![
        ("servicer"@, servicer.name@),
        ("servicer_dns"@, spec_dns(servicer)),
        ("servicer_port"@, decimal_of(spec_port(servicer) as int)),
        ("ttl"@, decimal_of(ttl as int)),
    ]
}

/// The views of some labels.
pub open spec fn label_views(labels: Seq<Label>) -> Seq<(Seq<char>, Seq<char>)> {
    labels.map_values(|l: Label| (l.key@, l.value@))
}

fn label(key: &str, value: String) -> (r: Label)
    ensures
        r.key@ == key@,
        r.value == value,
{
    Label { key: String::from_str(key), value }
}

/// The labels of a pod deployed by `servicer` with a lease of `ttl` seconds;
/// the servicer's own DNS name and port must be known.
pub fn deploy_labels(servicer: &Pod, ttl: u64) -> (r: Result<Vec<Label>, AcmError>)
    ensures
        r is Ok <==> address_failure(*servicer) is None,
        r matches Ok(ls) ==> label_views(ls@) == deploy_labels_of(*servicer, ttl),
        r matches Err(e) ==> e.kind == address_failure(*servicer).unwrap(),
{
    let dns = match servicer.dns() {
        Ok(d) => d,
        Err(e) => return Err(e),
    };
    let port = match servicer.port() {
        Ok(p) => p,
        Err(e) => return Err(e),
    };
    let ttl_text = decimal_u64(ttl);
    let mut labels: Vec<Label> = Vec::new();
    labels.push(label("servicer", servicer.name.clone()));
    labels.push(label("servicer_dns", dns));
    labels.push(label("servicer_port", decimal(port as i64)));
    labels.push(label("ttl", ttl_text));
    assert(label_views(labels@) =~= deploy_labels_of(*servicer, ttl));
    Ok(labels)
}

} // verus!
