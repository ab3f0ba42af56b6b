//! The composite operations: each sequences a short fixed series of daemon
//! exchanges. A session holds the state between round trips; the caller
//! performs each returned request and hands the answer back to [`StartSession::step`]
//! or [`CleanupSession::step`]. Composites are not atomic: a step that fails
//! leaves earlier effects in place.

use vstd::prelude::*;

use crate::json::{dec_str, write_dec};
use crate::parse::{parse_create_result, parse_create_result_exec, parse_image_list,
    parse_image_list_exec};
use crate::requests;
use crate::requests::{
    create_path, find_images_path, is_create_request, is_delete_request, is_find_images_request,
    is_prune_request, is_pull_request, is_start_request, is_stop_request, pull_path, start_path,
    stop_path,
};
use crate::response::is_success;
use crate::types::{CreateContainer, DockerError, ErrorView, HttpResponse, HttpRequest,
    PortBinding};

verus! {

/// Where a container start stands between round trips.
#[derive(Clone, Copy, PartialEq, Eq, Structural, Debug)]
pub enum StartPhase {
    /// Awaiting the answer to the image listing query.
    FindingImages,
    /// Awaiting the answer to the image pull.
    Pulling,
    /// Awaiting the answer to the container creation.
    Creating,
    /// Awaiting the answer to the container start.
    Starting,
    /// The container is started; its id is available.
    Done,
    /// A step failed; the error is available.
    Failed,
}

/// A container start in progress: pull the image if it is absent, create the
/// container, start it.
pub struct StartSession {
    pub container_name: String,
    pub image: String,
    pub create: CreateContainer,
    pub phase: StartPhase,
    pub id: Option<String>,
    pub error: Option<DockerError>,
}

impl StartSession {
    /// What every phase guarantees about the session's fields.
    pub open spec fn wf(self) -> bool {
        &&& (self.phase == StartPhase::Starting || self.phase == StartPhase::Done)
            ==> self.id is Some
        &&& self.phase == StartPhase::Failed ==> self.error is Some
    }

    /// Whether the session still awaits a daemon answer.
    pub open spec fn in_progress(self) -> bool {
        self.phase == StartPhase::FindingImages || self.phase == StartPhase::Pulling || self.phase
            == StartPhase::Creating || self.phase == StartPhase::Starting
    }

    /// The path of the request whose answer the session awaits.
    pub open spec fn expected_path(self) -> Seq<char> {
        match self.phase {
            StartPhase::FindingImages => find_images_path(self.image@),
            StartPhase::Pulling => pull_path(self.image@),
            StartPhase::Creating => create_path(self.container_name@),
            StartPhase::Starting => match self.id {
                Option::Some(id) => start_path(id@),
                Option::None => Seq::empty(),
            },
            _ => Seq::empty(),
        }
    }

    /// Whether the session still awaits a daemon answer.
    pub fn awaiting(&self) -> (b: bool)
        ensures
            b == self.in_progress(),
    {
        match self.phase {
            StartPhase::FindingImages | StartPhase::Pulling | StartPhase::Creating
                | StartPhase::Starting => true,
            _ => false,
        }
    }

    /// Feeds the daemon's answer to the awaited request into the session and
    /// hands back the next request to perform, if one is left.
    ///
    /// An image found by the listing is not pulled: the session goes straight
    /// to creation. An image absent from the listing is pulled before
    /// creation. Any non-`2xx` answer fails the session with the API error of
    /// the awaited request; a body that does not decode fails it with the
    /// parse error.
    pub fn step(&mut self, resp: &HttpResponse) -> (next: Option<HttpRequest>)
        requires
            old(self).in_progress(),
            old(self).wf(),
        ensures
            final(self).wf(),
            final(self).container_name == old(self).container_name,
            final(self).image == old(self).image,
            final(self).create == old(self).create,
            !is_success(resp.status) ==> {
                &&& final(self).phase == StartPhase::Failed
                &&& next is None
                &&& final(self).error matches Some(e) && e@ == (ErrorView::Api {
                    path: old(self).expected_path(),
                    body: resp.body@,
                })
            },
            is_success(resp.status) && old(self).phase == StartPhase::FindingImages ==> match
                parse_image_list(resp.body@) {
                Option::None => {
                    &&& final(self).phase == StartPhase::Failed
                    &&& next is None
                    &&& final(self).error matches Some(e) && e@ == (ErrorView::Parse {
                        body: resp.body@,
                    })
                },
                Option::Some(ids) => {
                    if ids.len() == 0 {
                        &&& final(self).phase == StartPhase::Pulling
                        &&& next matches Some(r) && is_pull_request(r, old(self).image@)
                    } else {
                        &&& final(self).phase == StartPhase::Creating
                        &&& next matches Some(r) && is_create_request(
                            r,
                            old(self).container_name@,
                            old(self).create,
                        )
                    }
                },
            },
            is_success(resp.status) && old(self).phase == StartPhase::Pulling ==> {
                &&& final(self).phase == StartPhase::Creating
                &&& next matches Some(r) && is_create_request(
                    r,
                    old(self).container_name@,
                    old(self).create,
                )
            },
            is_success(resp.status) && old(self).phase == StartPhase::Creating ==> match
                parse_create_result(resp.body@) {
                Option::None => {
                    &&& final(self).phase == StartPhase::Failed
                    &&& next is None
                    &&& final(self).error matches Some(e) && e@ == (ErrorView::Parse {
                        body: resp.body@,
                    })
                },
                Option::Some(id) => {
                    &&& final(self).phase == StartPhase::Starting
                    &&& final(self).id matches Some(s) && s@ == id
                    &&& next matches Some(r) && is_start_request(r, id)
                },
            },
            is_success(resp.status) && old(self).phase == StartPhase::Starting ==> {
                &&& final(self).phase == StartPhase::Done
                &&& final(self).id == old(self).id
                &&& next is None
            },
    {
        if !(200 <= resp.status && resp.status <= 204) {
            let path: String = match self.phase {
                StartPhase::FindingImages => requests::find_images(self.image.as_str()).path,
                StartPhase::Pulling => requests::pull_image(self.image.as_str()).path,
                StartPhase::Creating => {
                    let mut p = String::new();
                    p.append("/containers/create?name=");
                    p.append(self.container_name.as_str());
                    p
                },
                _ => {
                    match &self.id {
                        Option::Some(id) => requests::start_container(id.as_str()).path,
                        Option::None => {
                            proof {
                                assert(false);
                            }
                            String::new()
                        },
                    }
                },
            };
            self.error = Option::Some(DockerError::Api { path, body: resp.body.clone() });
            self.phase = StartPhase::Failed;
            return Option::None;
        }
        match self.phase {
            StartPhase::FindingImages => {
                match parse_image_list_exec(resp.body.as_str()) {
                    Option::None => {
                        self.error = Option::Some(DockerError::Parse { body: resp.body.clone() });
                        self.phase = StartPhase::Failed;
                        Option::None
                    },
                    Option::Some(ids) => {
                        if ids.len() == 0 {
                            self.phase = StartPhase::Pulling;
                            Option::Some(requests::pull_image(self.image.as_str()))
                        } else {
                            self.phase = StartPhase::Creating;
                            Option::Some(
                                requests::create_container(
                                    self.container_name.as_str(),
                                    &self.create,
                                ),
                            )
                        }
                    },
                }
            },
            StartPhase::Pulling => {
                self.phase = StartPhase::Creating;
                Option::Some(requests::create_container(self.container_name.as_str(), &self.create))
            },
            StartPhase::Creating => {
                match parse_create_result_exec(resp.body.as_str()) {
                    Option::None => {
                        self.error = Option::Some(DockerError::Parse { body: resp.body.clone() });
                        self.phase = StartPhase::Failed;
                        Option::None
                    },
                    Option::Some(id) => {
                        let req = requests::start_container(id.as_str());
                        self.id = Option::Some(id);
                        self.phase = StartPhase::Starting;
                        Option::Some(req)
                    },
                }
            },
            _ => {
                self.phase = StartPhase::Done;
                Option::None
            },
        }
    }

    /// The result of a finished session: the started container's id, or the
    /// error of the step that failed.
    pub fn result(self) -> (r: Result<String, DockerError>)
        requires
            !self.in_progress(),
            self.wf(),
        ensures
            self.phase == StartPhase::Done ==> (r matches Ok(id) && self.id matches Some(x) && id@
                == x@),
            self.phase == StartPhase::Failed ==> (r matches Err(e) && self.error matches Some(x)
                && e@ == x@),
    {
        match self.phase {
            StartPhase::Done => Result::Ok(self.id.unwrap()),
            _ => Result::Err(self.error.unwrap()),
        }
    }
}

/// Begins a container start whose creation body carries a network mode. The
/// first request to perform is the image listing query.
pub fn start_container_with_network_mode(container_name: &str, image: &str, network_mode: &str) -> (r:
    (StartSession, HttpRequest))
    ensures
        r.0.wf(),
        r.0.phase == StartPhase::FindingImages,
        r.0.container_name@ == container_name@,
        r.0.image@ == image@,
        r.0.create matches CreateContainer::NetworkMode { image: im, network_mode: nm } && im@
            == image@ && nm@ == network_mode@,
        is_find_images_request(r.1, image@),
{
    let req = requests::find_images(image);
    let session = StartSession {
        container_name: container_name.to_owned(),
        image: image.to_owned(),
        create: CreateContainer::NetworkMode {
            image: image.to_owned(),
            network_mode: network_mode.to_owned(),
        },
        phase: StartPhase::FindingImages,
        id: Option::None,
        error: Option::None,
    };
    (session, req)
}

/// Begins a container start whose creation body maps `container_port/tcp` to
/// the one binding `host_port`. The first request to perform is the image
/// listing query.
pub fn start_container_with_port_binding(
    container_name: &str,
    image: &str,
    container_port: u16,
    host_port: u16,
) -> (r: (StartSession, HttpRequest))
    ensures
        r.0.wf(),
        r.0.phase == StartPhase::FindingImages,
        r.0.container_name@ == container_name@,
        r.0.image@ == image@,
        r.0.create matches CreateContainer::PortBindings { image: im, port_bindings: pb } && im@
            == image@ && pb@.len() == 1 && pb@[0].0@ == dec_str(container_port as int) + "/tcp"@
            && pb@[0].1@.len() == 1 && pb@[0].1@[0].host_port@ == dec_str(host_port as int),
        is_find_images_request(r.1, image@),
{
    let req = requests::find_images(image);
    let mut key = String::new();
    write_dec(&mut key, container_port);
    key.append("/tcp");
    let mut hp = String::new();
    write_dec(&mut hp, host_port);
    let bindings: Vec<PortBinding> = vec![PortBinding { host_port: hp }];
    let port_bindings: Vec<(String, Vec<PortBinding>)> = vec![(key, bindings)];
    let session = StartSession {
        container_name: container_name.to_owned(),
        image: image.to_owned(),
        create: CreateContainer::PortBindings { image: image.to_owned(), port_bindings },
        phase: StartPhase::FindingImages,
        id: Option::None,
        error: Option::None,
    };
    (session, req)
}

/// How a stopped container is cleaned up.
#[derive(Clone, Copy, PartialEq, Eq, Structural, Debug)]
pub enum Cleanup {
    /// Delete the one container.
    Delete,
    /// Prune all stopped containers, best effort.
    Prune,
}

/// Where a stop-and-cleanup stands between round trips.
#[derive(Clone, Copy, PartialEq, Eq, Structural, Debug)]
pub enum CleanupPhase {
    /// Awaiting the answer to the container stop.
    Stopping,
    /// Awaiting the answer to the cleanup request.
    CleaningUp,
    /// The cleanup is finished.
    Done,
    /// A step failed; the error is available.
    Failed,
}

/// A stop-and-cleanup in progress: stop the container, then delete it or
/// prune all stopped containers.
pub struct CleanupSession {
    pub id: String,
    pub cleanup: Cleanup,
    pub phase: CleanupPhase,
    pub error: Option<DockerError>,
}

impl CleanupSession {
    /// What every phase guarantees about the session's fields.
    pub open spec fn wf(self) -> bool {
        self.phase == CleanupPhase::Failed ==> self.error is Some
    }

    /// Whether the session still awaits a daemon answer.
    pub open spec fn in_progress(self) -> bool {
        self.phase == CleanupPhase::Stopping || self.phase == CleanupPhase::CleaningUp
    }

    /// Whether the session still awaits a daemon answer.
    pub fn awaiting(&self) -> (b: bool)
        ensures
            b == self.in_progress(),
    {
        match self.phase {
            CleanupPhase::Stopping | CleanupPhase::CleaningUp => true,
            _ => false,
        }
    }

    /// Feeds the daemon's answer to the awaited request into the session and
    /// hands back the next request to perform, if one is left.
    ///
    /// The stop always comes first: only its success reaches the cleanup
    /// request. A pruning cleanup never fails the session, whatever the
    /// daemon answered; a deleting cleanup fails it on any non-`2xx` answer.
    pub fn step(&mut self, resp: &HttpResponse) -> (next: Option<HttpRequest>)
        requires
            old(self).in_progress(),
            old(self).wf(),
        ensures
            final(self).wf(),
            final(self).id == old(self).id,
            final(self).cleanup == old(self).cleanup,
            old(self).phase == CleanupPhase::Stopping && !is_success(resp.status) ==> {
                &&& final(self).phase == CleanupPhase::Failed
                &&& next is None
                &&& final(self).error matches Some(e) && e@ == (ErrorView::Api {
                    path: stop_path(old(self).id@),
                    body: resp.body@,
                })
            },
            old(self).phase == CleanupPhase::Stopping && is_success(resp.status) ==> {
                &&& final(self).phase == CleanupPhase::CleaningUp
                &&& old(self).cleanup == Cleanup::Delete ==> (next matches Some(r)
                    && is_delete_request(r, old(self).id@))
                &&& old(self).cleanup == Cleanup::Prune ==> (next matches Some(r)
                    && is_prune_request(r))
            },
            old(self).phase == CleanupPhase::CleaningUp && old(self).cleanup == Cleanup::Prune
                ==> {
                &&& final(self).phase == CleanupPhase::Done
                &&& next is None
            },
            old(self).phase == CleanupPhase::CleaningUp && old(self).cleanup == Cleanup::Delete
                ==> {
                &&& is_success(resp.status) ==> final(self).phase == CleanupPhase::Done
                &&& !is_success(resp.status) ==> {
                    &&& final(self).phase == CleanupPhase::Failed
                    &&& final(self).error matches Some(e) && e@ == (ErrorView::Api {
                        path: crate::requests::delete_path(old(self).id@),
                        body: resp.body@,
                    })
                }
                &&& next is None
            },
    {
        let ok = 200 <= resp.status && resp.status <= 204;
        match self.phase {
            CleanupPhase::Stopping => {
                if !ok {
                    let req = requests::stop_container(self.id.as_str());
                    self.error = Option::Some(
                        DockerError::Api { path: req.path, body: resp.body.clone() },
                    );
                    self.phase = CleanupPhase::Failed;
                    Option::None
                } else {
                    self.phase = CleanupPhase::CleaningUp;
                    match self.cleanup {
                        Cleanup::Delete => Option::Some(
                            requests::delete_container(self.id.as_str()),
                        ),
                        Cleanup::Prune => Option::Some(requests::prune_containers()),
                    }
                }
            },
            _ => {
                match self.cleanup {
                    Cleanup::Prune => {
                        self.phase = CleanupPhase::Done;
                        Option::None
                    },
                    Cleanup::Delete => {
                        if ok {
                            self.phase = CleanupPhase::Done;
                        } else {
                            let req = requests::delete_container(self.id.as_str());
                            self.error = Option::Some(
                                DockerError::Api { path: req.path, body: resp.body.clone() },
                            );
                            self.phase = CleanupPhase::Failed;
                        }
                        Option::None
                    },
                }
            },
        }
    }

    /// The result of a finished session.
    pub fn result(self) -> (r: Result<(), DockerError>)
        requires
            !self.in_progress(),
            self.wf(),
        ensures
            self.phase == CleanupPhase::Done ==> r is Ok,
            self.phase == CleanupPhase::Failed ==> (r matches Err(e) && self.error matches Some(x)
                && e@ == x@),
    {
        match self.phase {
            CleanupPhase::Done => Result::Ok(()),
            _ => Result::Err(self.error.unwrap()),
        }
    }
}

/// Begins a stop-and-cleanup of container `id`. The first request to perform
/// is the stop; the cleanup request follows only once the stop succeeded.
pub fn stop_and_cleanup_container(id: &str, cleanup: Cleanup) -> (r: (CleanupSession, HttpRequest))
    ensures
        r.0.wf(),
        r.0.phase == CleanupPhase::Stopping,
        r.0.id@ == id@,
        r.0.cleanup == cleanup,
        is_stop_request(r.1, id@),
{
    let req = requests::stop_container(id);
    let session = CleanupSession {
        id: id.to_owned(),
        cleanup,
        phase: CleanupPhase::Stopping,
        error: Option::None,
    };
    (session, req)
}

} // verus!
