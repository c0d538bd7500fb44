//! Error values of the connector manager: a kind from a closed set, a fixed
//! human readable message per kind, and an optional cause.
use vstd::prelude::*;

verus! {

/// Every kind of failure that the connector manager reports.
#[derive(Clone, Copy, Debug, PartialEq, Eq, Structural)]
pub enum ErrorKind {
    PodDeleted,
    PodCrashed,
    PodRebooted,
    ErrImagePull,
    KubernetesUnresponsive,
    UnexpectedCloseOfEventStream,
    HealthCheckDroppedItsChannel,
    TooManyFailures,
    NotReady,
    RefreshChannelClosed,
    PodManagerNotFound,
    PhantomError,
    GarbageCollectorUnresponsive,
    InboundResultChannelDropped,
    OutboundResultChannelDropped,
    PodHasNoStatus,
    PodHasNoIp,
    PodHasNoNamespace,
    PodHasNoSpec,
    PodHasNoContainers,
    ContainerHasNoPorts,
    GrpcEndpointParseError,
    TagNotFound,
    CtrImageLsNoData,
    UnexpectedContainerdImageLsFormat,
    UnexpectedContainerdImageRow,
    UnexpectedImageReferenceFormat,
    StringError,
    KubernetesApi,
    KubernetesConnection,
    KubernetesRequest,
    ImageDeleteError,
    EcrUninstallError,
}

pub const BAD_REQUEST: u16 = 400;
pub const NOT_FOUND: u16 = 404;
pub const INTERNAL_SERVER_ERROR: u16 = 500;
pub const SERVICE_UNAVAILABLE: u16 = 503;

/// The HTTP status under which each kind of error is surfaced.
pub open spec fn status_of(k: ErrorKind) -> u16 {
    match k {
        ErrorKind::PodDeleted | ErrorKind::PodCrashed | ErrorKind::PodRebooted
        | ErrorKind::TooManyFailures | ErrorKind::NotReady
        | ErrorKind::RefreshChannelClosed | ErrorKind::ImageDeleteError => SERVICE_UNAVAILABLE,
        ErrorKind::ErrImagePull | ErrorKind::PodManagerNotFound
        | ErrorKind::TagNotFound => NOT_FOUND,
        ErrorKind::PhantomError | ErrorKind::EcrUninstallError => BAD_REQUEST,
        _ => INTERNAL_SERVER_ERROR,
    }
}

/// The fixed message that accompanies each kind of error.
pub open spec fn message_of(k: ErrorKind) -> Seq<char> {
    match k {
        ErrorKind::PodDeleted => "The pod for this job was deleted."@,
        ErrorKind::PodCrashed => "The connector has crashed. Please read its logs."@,
        ErrorKind::PodRebooted => "The pod for this job was rebooted, and has been deleted."@,
        ErrorKind::ErrImagePull => "The image for the connector could not be pulled from the image registry."@,
        ErrorKind::KubernetesUnresponsive => "The Kubernetes API server has failed to serve this job's event stream for too long."@,
        ErrorKind::UnexpectedCloseOfEventStream => "The Kubernetes API server permanently closed the event stream for this job's pod."@,
        ErrorKind::HealthCheckDroppedItsChannel => "The server health check for this job stopped without reporting a status."@,
        ErrorKind::TooManyFailures => "There were too many failures when connecting to the pod for its server health check."@,
        ErrorKind::NotReady => "The pod's server did not become ready in time."@,
        ErrorKind::RefreshChannelClosed => "This pod appears to have already been shutdown or garbage collected."@,
        ErrorKind::PodManagerNotFound => "The pod manager for the requested pod could not be found."@,
        ErrorKind::PhantomError => "The result of this job was an error that has already been consumed."@,
        ErrorKind::GarbageCollectorUnresponsive => "The garbage collector for the requested pod exited earlier than expected."@,
        ErrorKind::InboundResultChannelDropped => "An internal channel was dropped before a result was placed into it."@,
        ErrorKind::OutboundResultChannelDropped => "An internal channel was dropped before a result was taken out of it."@,
        ErrorKind::PodHasNoStatus => "The pod object has no status field."@,
        ErrorKind::PodHasNoIp => "The pod object has no IP address."@,
        ErrorKind::PodHasNoNamespace => "The pod object has no namespace."@,
        ErrorKind::PodHasNoSpec => "The pod object has no spec."@,
        ErrorKind::PodHasNoContainers => "The pod object has no containers."@,
        ErrorKind::ContainerHasNoPorts => "The pod's first container has no listening ports."@,
        ErrorKind::GrpcEndpointParseError => "The address of the pod is not a valid gRPC endpoint."@,
        ErrorKind::TagNotFound => "The requested image tag does not exist in the registry."@,
        ErrorKind::CtrImageLsNoData => "Listing images produced only the table header."@,
        ErrorKind::UnexpectedContainerdImageLsFormat => "Listing images did not produce a header followed by a single row."@,
        ErrorKind::UnexpectedContainerdImageRow => "The image row listed by containerd has too few columns."@,
        ErrorKind::UnexpectedImageReferenceFormat => "The image reference listed by containerd has no tag."@,
        ErrorKind::StringError => "An error occurred."@,
        ErrorKind::KubernetesApi => "The Kubernetes API server rejected our request."@,
        ErrorKind::KubernetesConnection => "Failed to connect to the Kubernetes API server."@,
        ErrorKind::KubernetesRequest => "A request to the Kubernetes API server failed."@,
        ErrorKind::ImageDeleteError => "The registry refused to delete the image."@,
        ErrorKind::EcrUninstallError => "The Elastic Container Registry failed to delete the image."@,
    }
}

impl ErrorKind {
    /// The HTTP status code of this kind.
    pub fn http_code(&self) -> (r: u16)
        ensures
            r == status_of(*self),
    {
        match self {
            ErrorKind::PodDeleted | ErrorKind::PodCrashed | ErrorKind::PodRebooted
            | ErrorKind::TooManyFailures | ErrorKind::NotReady
            | ErrorKind::RefreshChannelClosed | ErrorKind::ImageDeleteError => SERVICE_UNAVAILABLE,
            ErrorKind::ErrImagePull | ErrorKind::PodManagerNotFound
            | ErrorKind::TagNotFound => NOT_FOUND,
            ErrorKind::PhantomError | ErrorKind::EcrUninstallError => BAD_REQUEST,
            _ => INTERNAL_SERVER_ERROR,
        }
    }

    /// The fixed message of this kind.
    pub fn message(&self) -> (r: String)
        ensures
            r@ == message_of(*self),
    {
        let text: &str = match self {
            ErrorKind::PodDeleted => "The pod for this job was deleted.",
            ErrorKind::PodCrashed => "The connector has crashed. Please read its logs.",
            ErrorKind::PodRebooted => "The pod for this job was rebooted, and has been deleted.",
            ErrorKind::ErrImagePull => "The image for the connector could not be pulled from the image registry.",
            ErrorKind::KubernetesUnresponsive => "The Kubernetes API server has failed to serve this job's event stream for too long.",
            ErrorKind::UnexpectedCloseOfEventStream => "The Kubernetes API server permanently closed the event stream for this job's pod.",
            ErrorKind::HealthCheckDroppedItsChannel => "The server health check for this job stopped without reporting a status.",
            ErrorKind::TooManyFailures => "There were too many failures when connecting to the pod for its server health check.",
            ErrorKind::NotReady => "The pod's server did not become ready in time.",
            ErrorKind::RefreshChannelClosed => "This pod appears to have already been shutdown or garbage collected.",
            ErrorKind::PodManagerNotFound => "The pod manager for the requested pod could not be found.",
            ErrorKind::PhantomError => "The result of this job was an error that has already been consumed.",
            ErrorKind::GarbageCollectorUnresponsive => "The garbage collector for the requested pod exited earlier than expected.",
            ErrorKind::InboundResultChannelDropped => "An internal channel was dropped before a result was placed into it.",
            ErrorKind::OutboundResultChannelDropped => "An internal channel was dropped before a result was taken out of it.",
            ErrorKind::PodHasNoStatus => "The pod object has no status field.",
            ErrorKind::PodHasNoIp => "The pod object has no IP address.",
            ErrorKind::PodHasNoNamespace => "The pod object has no namespace.",
            ErrorKind::PodHasNoSpec => "The pod object has no spec.",
            ErrorKind::PodHasNoContainers => "The pod object has no containers.",
            ErrorKind::ContainerHasNoPorts => "The pod's first container has no listening ports.",
            ErrorKind::GrpcEndpointParseError => "The address of the pod is not a valid gRPC endpoint.",
            ErrorKind::TagNotFound => "The requested image tag does not exist in the registry.",
            ErrorKind::CtrImageLsNoData => "Listing images produced only the table header.",
            ErrorKind::UnexpectedContainerdImageLsFormat => "Listing images did not produce a header followed by a single row.",
            ErrorKind::UnexpectedContainerdImageRow => "The image row listed by containerd has too few columns.",
            ErrorKind::UnexpectedImageReferenceFormat => "The image reference listed by containerd has no tag.",
            ErrorKind::StringError => "An error occurred.",
            ErrorKind::KubernetesApi => "The Kubernetes API server rejected our request.",
            ErrorKind::KubernetesConnection => "Failed to connect to the Kubernetes API server.",
            ErrorKind::KubernetesRequest => "A request to the Kubernetes API server failed.",
            ErrorKind::ImageDeleteError => "The registry refused to delete the image.",
            ErrorKind::EcrUninstallError => "The Elastic Container Registry failed to delete the image.",
        };
        String::from_str(text)
    }
}

/// An error as it is reported to clients: `{kind, message, cause}`.
#[derive(Debug)]
pub struct AcmError {
    pub kind: ErrorKind,
    pub message: String,
    pub cause: Option<String>,
}

/// `e` is an error of kind `k` with its kind's message and the given cause.
pub open spec fn is_error(e: AcmError, k: ErrorKind, cause: Option<String>) -> bool {
    &&& e.kind == k
    &&& e.message@ == message_of(k)
    &&& e.cause == cause
}

impl AcmError {
    /// An error of kind `kind` with its kind's message.
    pub fn new(kind: ErrorKind, cause: Option<String>) -> (r: AcmError)
        ensures
            is_error(r, kind, cause),
    {
        AcmError { kind, message: kind.message(), cause }
    }

    /// An error of kind `kind` without a cause.
    pub fn of(kind: ErrorKind) -> (r: AcmError)
        ensures
            is_error(r, kind, None),
    {
        AcmError::new(kind, None)
    }

    /// The HTTP status code under which this error is surfaced.
    pub fn http_code(&self) -> (r: u16)
        ensures
            r == status_of(self.kind),
    {
        self.kind.http_code()
    }
}

} // verus!

verus! {

/// An error that is only a message.
pub struct StringError {
    pub message: String,
}

/// The watcher's verdict channel closed before a verdict was put in it.
pub struct InboundResultChannelDropped {}

/// The client's verdict channel closed before the verdict was taken out.
pub struct OutboundResultChannelDropped {}

/// The garbage collector no longer takes refresh requests.
pub struct RefreshChannelClosed {}

/// No pod manager is registered under `id`.
pub struct PodManagerNotFound {
    pub id: String,
}

/// The pod's server did not answer within the health check's patience.
pub struct NotReady {}

/// The address of a pod is not a valid endpoint.
pub struct GrpcEndpointParsdeError {
    pub uri: String,
}

/// The requested tag does not exist in the registry.
pub struct TagNotFound {
    pub tag: String,
    pub registry: String,
}

impl StringError {
    /// This failure as an error, with its message as the cause.
    pub fn error(self) -> (r: AcmError)
        ensures
            is_error(r, ErrorKind::StringError, Some(self.message)),
    {
        AcmError::new(ErrorKind::StringError, Some(self.message))
    }
}

impl InboundResultChannelDropped {
    /// This failure as an error.
    pub fn error(&self) -> (r: AcmError)
        ensures
            is_error(r, ErrorKind::InboundResultChannelDropped, None),
    {
        AcmError::of(ErrorKind::InboundResultChannelDropped)
    }
}

impl OutboundResultChannelDropped {
    /// This failure as an error.
    pub fn error(&self) -> (r: AcmError)
        ensures
            is_error(r, ErrorKind::OutboundResultChannelDropped, None),
    {
        AcmError::of(ErrorKind::OutboundResultChannelDropped)
    }
}

impl RefreshChannelClosed {
    /// This failure as an error.
    pub fn error(&self) -> (r: AcmError)
        ensures
            is_error(r, ErrorKind::RefreshChannelClosed, None),
    {
        AcmError::of(ErrorKind::RefreshChannelClosed)
    }
}

impl PodManagerNotFound {
    /// This failure as an error, with the pod's name as the cause.
    pub fn error(self) -> (r: AcmError)
        ensures
            is_error(r, ErrorKind::PodManagerNotFound, Some(self.id)),
    {
        AcmError::new(ErrorKind::PodManagerNotFound, Some(self.id))
    }
}

impl NotReady {
    /// This failure as an error.
    pub fn error(&self) -> (r: AcmError)
        ensures
            is_error(r, ErrorKind::NotReady, None),
    {
        AcmError::of(ErrorKind::NotReady)
    }
}

impl GrpcEndpointParsdeError {
    /// This failure as an error, with the address as the cause.
    pub fn error(self) -> (r: AcmError)
        ensures
            is_error(r, ErrorKind::GrpcEndpointParseError, Some(self.uri)),
    {
        AcmError::new(ErrorKind::GrpcEndpointParseError, Some(self.uri))
    }
}

impl TagNotFound {
    /// This failure as an error, with the tag as the cause.
    pub fn error(self) -> (r: AcmError)
        ensures
            is_error(r, ErrorKind::TagNotFound, Some(self.tag)),
    {
        AcmError::new(ErrorKind::TagNotFound, Some(self.tag))
    }
}

} // verus!

verus! {

/// The name under which each kind of error is reported.
pub open spec fn kind_name(k: ErrorKind) -> Seq<char> {
    match k {
        ErrorKind::PodDeleted => "PodDeleted"@,
        ErrorKind::PodCrashed => "PodCrashed"@,
        ErrorKind::PodRebooted => "PodRebooted"@,
        ErrorKind::ErrImagePull => "ErrImagePull"@,
        ErrorKind::KubernetesUnresponsive => "KubernetesUnresponsive"@,
        ErrorKind::UnexpectedCloseOfEventStream => "UnexpectedCloseOfEventStream"@,
        ErrorKind::HealthCheckDroppedItsChannel => "HealthCheckDroppedItsChannel"@,
        ErrorKind::TooManyFailures => "TooManyFailures"@,
        ErrorKind::NotReady => "NotReady"@,
        ErrorKind::RefreshChannelClosed => "RefreshChannelClosed"@,
        ErrorKind::PodManagerNotFound => "PodManagerNotFound"@,
        ErrorKind::PhantomError => "PhantomError"@,
        ErrorKind::GarbageCollectorUnresponsive => "GarbageCollectorUnresponsive"@,
        ErrorKind::InboundResultChannelDropped => "InboundResultChannelDropped"@,
        ErrorKind::OutboundResultChannelDropped => "OutboundResultChannelDropped"@,
        ErrorKind::PodHasNoStatus => "PodHasNoStatus"@,
        ErrorKind::PodHasNoIp => "PodHasNoIp"@,
        ErrorKind::PodHasNoNamespace => "PodHasNoNamespace"@,
        ErrorKind::PodHasNoSpec => "PodHasNoSpec"@,
        ErrorKind::PodHasNoContainers => "PodHasNoContainers"@,
        ErrorKind::ContainerHasNoPorts => "ContainerHasNoPorts"@,
        ErrorKind::GrpcEndpointParseError => "GrpcEndpointParseError"@,
        ErrorKind::TagNotFound => "TagNotFound"@,
        ErrorKind::CtrImageLsNoData => "CtrImageLsNoData"@,
        ErrorKind::UnexpectedContainerdImageLsFormat => "UnexpectedContainerdImageLsFormat"@,
        ErrorKind::UnexpectedContainerdImageRow => "UnexpectedContainerdImageRow"@,
        ErrorKind::UnexpectedImageReferenceFormat => "UnexpectedImageReferenceFormat"@,
        ErrorKind::StringError => "StringError"@,
        ErrorKind::KubernetesApi => "KubernetesApi"@,
        ErrorKind::KubernetesConnection => "KubernetesConnection"@,
        ErrorKind::KubernetesRequest => "KubernetesRequest"@,
        ErrorKind::ImageDeleteError => "ImageDeleteError"@,
        ErrorKind::EcrUninstallError => "EcrUninstallError"@,
    }
}

impl ErrorKind {
    /// The name of this kind.
    pub fn name(&self) -> (r: String)
        ensures
            r@ == kind_name(*self),
    {
        let text: &str = match self {
            ErrorKind::PodDeleted => "PodDeleted",
            ErrorKind::PodCrashed => "PodCrashed",
            ErrorKind::PodRebooted => "PodRebooted",
            ErrorKind::ErrImagePull => "ErrImagePull",
            ErrorKind::KubernetesUnresponsive => "KubernetesUnresponsive",
            ErrorKind::UnexpectedCloseOfEventStream => "UnexpectedCloseOfEventStream",
            ErrorKind::HealthCheckDroppedItsChannel => "HealthCheckDroppedItsChannel",
            ErrorKind::TooManyFailures => "TooManyFailures",
            ErrorKind::NotReady => "NotReady",
            ErrorKind::RefreshChannelClosed => "RefreshChannelClosed",
            ErrorKind::PodManagerNotFound => "PodManagerNotFound",
            ErrorKind::PhantomError => "PhantomError",
            ErrorKind::GarbageCollectorUnresponsive => "GarbageCollectorUnresponsive",
            ErrorKind::InboundResultChannelDropped => "InboundResultChannelDropped",
            ErrorKind::OutboundResultChannelDropped => "OutboundResultChannelDropped",
            ErrorKind::PodHasNoStatus => "PodHasNoStatus",
            ErrorKind::PodHasNoIp => "PodHasNoIp",
            ErrorKind::PodHasNoNamespace => "PodHasNoNamespace",
            ErrorKind::PodHasNoSpec => "PodHasNoSpec",
            ErrorKind::PodHasNoContainers => "PodHasNoContainers",
            ErrorKind::ContainerHasNoPorts => "ContainerHasNoPorts",
            ErrorKind::GrpcEndpointParseError => "GrpcEndpointParseError",
            ErrorKind::TagNotFound => "TagNotFound",
            ErrorKind::CtrImageLsNoData => "CtrImageLsNoData",
            ErrorKind::UnexpectedContainerdImageLsFormat => "UnexpectedContainerdImageLsFormat",
            ErrorKind::UnexpectedContainerdImageRow => "UnexpectedContainerdImageRow",
            ErrorKind::UnexpectedImageReferenceFormat => "UnexpectedImageReferenceFormat",
            ErrorKind::StringError => "StringError",
            ErrorKind::KubernetesApi => "KubernetesApi",
            ErrorKind::KubernetesConnection => "KubernetesConnection",
            ErrorKind::KubernetesRequest => "KubernetesRequest",
            ErrorKind::ImageDeleteError => "ImageDeleteError",
            ErrorKind::EcrUninstallError => "EcrUninstallError",
        };
        String::from_str(text)
    }
}

} // verus!
