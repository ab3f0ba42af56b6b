//! Request and response payloads exchanged with the container daemon, the
//! HTTP exchange model, and the library's error type.

use vstd::prelude::*;

verus! {

/// HTTP method of a daemon request. Only the three methods the daemon API
/// needs are modelled.
#[derive(Clone, Copy, PartialEq, Eq, Structural, Debug)]
pub enum HttpMethod {
    Get,
    Post,
    Delete,
}

/// One HTTP exchange to perform against the daemon socket: the caller sends
/// `method` to `path` (with `body` as a JSON payload when present) and hands
/// the daemon's answer back as an [`HttpResponse`].
#[derive(Debug)]
pub struct HttpRequest {
    pub method: HttpMethod,
    pub path: String,
    pub body: Option<String>,
}

/// What came back from the daemon: the numeric status code and the full
/// response body, decoded as UTF-8 text.
#[derive(Debug)]
pub struct HttpResponse {
    pub status: u16,
    pub body: String,
}

/// Spec-level content of a request body.
pub open spec fn body_view(b: Option<String>) -> Option<Seq<char>> {
    match b {
        Option::None => Option::None,
        Option::Some(s) => Option::Some(s@),
    }
}

/// One host-port mapping inside the port-binding form of a container
/// creation request.
#[derive(Debug)]
pub struct PortBinding {
    pub host_port: String,
}

/// Body of a container creation request. Exactly one of the two shapes the
/// daemon accepts is present: a network mode, or a port-binding table mapping
/// a `"port/proto"` key to its host bindings.
#[derive(Debug)]
pub enum CreateContainer {
    NetworkMode { image: String, network_mode: String },
    PortBindings { image: String, port_bindings: Vec<(String, Vec<PortBinding>)> },
}

/// Daemon answer to a container creation request.
#[derive(Debug)]
pub struct CreateContainerResult {
    pub id: String,
}

/// Identity of an image matched by a listing query.
#[derive(Debug)]
pub struct ImageDescriptor {
    pub id: String,
}

impl View for ImageDescriptor {
    type V = Seq<char>;

    open spec fn view(&self) -> Seq<char> {
        self.id@
    }
}

/// Listing filter that constrains an image query to given references.
#[derive(Debug)]
pub struct ImageFilter {
    pub reference: Vec<String>,
}

/// Listing filter that constrains a container query to given ids.
#[derive(Debug)]
pub struct ContainerFilter {
    pub id: Vec<String>,
}

/// One network attachment of a container: the address the daemon assigned on
/// that network.
#[derive(Debug)]
pub struct Network {
    pub ip_address: String,
}

/// The networks a container is attached to, keyed by network name, in the
/// order the daemon listed them.
#[derive(Debug)]
pub struct NetworkSettings {
    pub networks: Vec<(String, Network)>,
}

/// A container matched by a listing query.
#[derive(Debug)]
pub struct ContainerDescriptor {
    pub id: String,
    pub network_settings: NetworkSettings,
}

/// Spec-level content of a container descriptor: its id and its network
/// attachments as `(name, address)` pairs.
pub ghost struct ContainerView {
    pub id: Seq<char>,
    pub networks: Seq<(Seq<char>, Seq<char>)>,
}

impl View for ContainerDescriptor {
    type V = ContainerView;

    open spec fn view(&self) -> ContainerView {
        ContainerView {
            id: self.id@,
            networks: self.network_settings.networks@.map_values(
                |e: (String, Network)| (e.0@, e.1.ip_address@),
            ),
        }
    }
}

/// Everything that can go wrong in one daemon operation.
#[derive(Debug)]
pub enum DockerError {
    /// The daemon answered with a status outside `200..=204`. Carries the
    /// request path and the raw response body for diagnostics.
    Api { path: String, body: String },
    /// The daemon's response body did not match the expected JSON shape.
    /// Carries the offending body.
    Parse { body: String },
    /// A lookup by container id matched nothing.
    NoSuchContainer { id: String },
    /// A matched container has no network attachments to read an address
    /// from.
    NoNetwork { id: String },
}

/// Spec-level content of a [`DockerError`].
pub ghost enum ErrorView {
    Api { path: Seq<char>, body: Seq<char> },
    Parse { body: Seq<char> },
    NoSuchContainer { id: Seq<char> },
    NoNetwork { id: Seq<char> },
}

impl View for DockerError {
    type V = ErrorView;

    open spec fn view(&self) -> ErrorView {
        match self {
            DockerError::Api { path, body } => ErrorView::Api { path: path@, body: body@ },
            DockerError::Parse { body } => ErrorView::Parse { body: body@ },
            DockerError::NoSuchContainer { id } => ErrorView::NoSuchContainer { id: id@ },
            DockerError::NoNetwork { id } => ErrorView::NoNetwork { id: id@ },
        }
    }
}

/// The diagnostic text of an [`ErrorView`].
pub open spec fn spec_message(e: ErrorView) -> Seq<char> {
    match e {
        ErrorView::Api { path, body } => "Docker API call ("@ + path + ") failed: "@ + body,
        ErrorView::Parse { body } => "Failed to parse response json: "@ + body,
        ErrorView::NoSuchContainer { id } => "No containers found with ID = "@ + id,
        ErrorView::NoNetwork { id } => "No network found for container with ID = "@ + id,
    }
}

impl DockerError {
    /// The human-readable description of the error. For an API error it
    /// contains both the request path and the raw response body.
    pub fn message(&self) -> (m: String)
        ensures
            m@ == spec_message(self@),
    {
        match self {
            DockerError::Api { path, body } => {
                let mut m = String::new();
                m.append("Docker API call (");
                m.append(path.as_str());
                m.append(") failed: ");
                m.append(body.as_str());
                m
            },
            DockerError::Parse { body } => {
                let mut m = String::new();
                m.append("Failed to parse response json: ");
                m.append(body.as_str());
                m
            },
            DockerError::NoSuchContainer { id } => {
                let mut m = String::new();
                m.append("No containers found with ID = ");
                m.append(id.as_str());
                m
            },
            DockerError::NoNetwork { id } => {
                let mut m = String::new();
                m.append("No network found for container with ID = ");
                m.append(id.as_str());
                m
            },
        }
    }
}

} // verus!
