//! Interpretation of daemon responses: the status check every operation
//! applies, and the typed reading of each operation's body.

use vstd::prelude::*;

use crate::parse::{
    containers_view, parse_container_list, parse_container_list_exec, parse_create_result,
    parse_create_result_exec, parse_image_list, parse_image_list_exec,
};
use crate::requests;
use crate::requests::{create_path, find_containers_path, find_images_path, pull_path};
use crate::types::{
    ContainerDescriptor, CreateContainerResult, DockerError, ErrorView, HttpResponse,
    ImageDescriptor,
};

verus! {

/// Whether a status code counts as success: the daemon's `2xx` answers.
pub open spec fn is_success(status: u16) -> bool {
    200 <= status <= 204
}

/// Spec-level content of a vector of image descriptors.
pub open spec fn images_view(v: Seq<ImageDescriptor>) -> Seq<Seq<char>> {
    v.map_values(|d: ImageDescriptor| d@)
}

/// The answer to a pull request: success on any `2xx` status, the API error
/// with the pull path and the raw body otherwise.
pub fn pull_image_outcome(image_name: &str, resp: &HttpResponse) -> (r: Result<(), DockerError>)
    ensures
        r is Ok <==> is_success(resp.status),
        r matches Err(e) ==> e@ == (ErrorView::Api { path: pull_path(image_name@), body: resp.body@ }),
{
    if 200 <= resp.status && resp.status <= 204 {
        Result::Ok(())
    } else {
        let req = requests::pull_image(image_name);
        Result::Err(DockerError::Api { path: req.path, body: resp.body.clone() })
    }
}

/// The answer to a start request.
pub fn start_container_outcome(id: &str, resp: &HttpResponse) -> (r: Result<(), DockerError>)
    ensures
        r is Ok <==> is_success(resp.status),
        r matches Err(e) ==> e@ == (ErrorView::Api {
            path: requests::start_path(id@),
            body: resp.body@,
        }),
{
    if 200 <= resp.status && resp.status <= 204 {
        Result::Ok(())
    } else {
        let req = requests::start_container(id);
        Result::Err(DockerError::Api { path: req.path, body: resp.body.clone() })
    }
}

/// The answer to a stop request.
pub fn stop_container_outcome(id: &str, resp: &HttpResponse) -> (r: Result<(), DockerError>)
    ensures
        r is Ok <==> is_success(resp.status),
        r matches Err(e) ==> e@ == (ErrorView::Api {
            path: requests::stop_path(id@),
            body: resp.body@,
        }),
{
    if 200 <= resp.status && resp.status <= 204 {
        Result::Ok(())
    } else {
        let req = requests::stop_container(id);
        Result::Err(DockerError::Api { path: req.path, body: resp.body.clone() })
    }
}

/// The answer to a delete request.
pub fn delete_container_outcome(id: &str, resp: &HttpResponse) -> (r: Result<(), DockerError>)
    ensures
        r is Ok <==> is_success(resp.status),
        r matches Err(e) ==> e@ == (ErrorView::Api {
            path: requests::delete_path(id@),
            body: resp.body@,
        }),
{
    if 200 <= resp.status && resp.status <= 204 {
        Result::Ok(())
    } else {
        let req = requests::delete_container(id);
        Result::Err(DockerError::Api { path: req.path, body: resp.body.clone() })
    }
}

/// The answer to a prune request: pruning is best-effort cleanup, so every
/// outcome counts as success.
pub fn prune_containers_outcome(resp: &HttpResponse) -> (r: Result<(), DockerError>)
    ensures
        r is Ok,
{
    let _ = resp;
    Result::Ok(())
}

/// The answer to an image listing request: on `2xx`, the body decoded as a
/// sequence of image descriptors; the parse error with the offending body
/// when it does not decode; the API error otherwise.
pub fn find_images_outcome(reference: &str, resp: &HttpResponse) -> (r: Result<
    Vec<ImageDescriptor>,
    DockerError,
>)
    ensures
        !is_success(resp.status) ==> (r matches Err(e) && e@ == (ErrorView::Api {
            path: find_images_path(reference@),
            body: resp.body@,
        })),
        is_success(resp.status) && parse_image_list(resp.body@) is None ==> (r matches Err(e) && e@
            == (ErrorView::Parse { body: resp.body@ })),
        is_success(resp.status) ==> (parse_image_list(resp.body@) matches Some(ids) ==> r matches Ok(
            v,
        ) && images_view(v@) == ids),
{
    if !(200 <= resp.status && resp.status <= 204) {
        let req = requests::find_images(reference);
        return Result::Err(DockerError::Api { path: req.path, body: resp.body.clone() });
    }
    match parse_image_list_exec(resp.body.as_str()) {
        Option::None => Result::Err(DockerError::Parse { body: resp.body.clone() }),
        Option::Some(ids) => {
            let mut out: Vec<ImageDescriptor> = Vec::new();
            let mut i: usize = 0;
            proof {
                assert(images_view(out@) =~= ids.deep_view().take(0));
            }
            while i < ids.len()
                invariant
                    i <= ids.len(),
                    images_view(out@) == ids.deep_view().take(i as int),
                decreases ids.len() - i,
            {
                let ghost prev = out@;
                out.push(ImageDescriptor { id: ids[i].clone() });
                proof {
                    let dv = ids.deep_view();
                    assert(dv.len() == ids@.len());
                    assert(images_view(prev) == dv.take(i as int));
                    assert(images_view(prev).len() == prev.len());
                    assert(dv.take(i as int).len() == i);
                    assert(prev.len() == i);
                    assert(out@ == prev.push(ImageDescriptor { id: ids@[i as int] }));
                    assert forall|j: int| 0 <= j < i + 1 implies images_view(out@)[j] == dv.take(
                        i + 1,
                    )[j] by {
                        if j < i {
                            assert(images_view(prev)[j] == dv.take(i as int)[j]);
                        }
                    }
                    assert(images_view(out@) =~= dv.take(i + 1));
                }
                i = i + 1;
            }
            proof {
                assert(ids.deep_view().take(ids@.len() as int) =~= ids.deep_view());
            }
            Result::Ok(out)
        },
    }
}

/// The answer to a container listing request, read the same way.
pub fn find_containers_outcome(id: &str, resp: &HttpResponse) -> (r: Result<
    Vec<ContainerDescriptor>,
    DockerError,
>)
    ensures
        !is_success(resp.status) ==> (r matches Err(e) && e@ == (ErrorView::Api {
            path: find_containers_path(id@),
            body: resp.body@,
        })),
        is_success(resp.status) && parse_container_list(resp.body@) is None ==> (r matches Err(e)
            && e@ == (ErrorView::Parse { body: resp.body@ })),
        is_success(resp.status) ==> (parse_container_list(resp.body@) matches Some(cs) ==> r matches Ok(
            v,
        ) && containers_view(v@) == cs),
{
    if !(200 <= resp.status && resp.status <= 204) {
        let req = requests::find_containers(id);
        return Result::Err(DockerError::Api { path: req.path, body: resp.body.clone() });
    }
    match parse_container_list_exec(resp.body.as_str()) {
        Option::None => Result::Err(DockerError::Parse { body: resp.body.clone() }),
        Option::Some(cs) => Result::Ok(cs),
    }
}

/// The answer to a container creation request: the daemon-assigned id.
pub fn create_container_outcome(container_name: &str, resp: &HttpResponse) -> (r: Result<
    CreateContainerResult,
    DockerError,
>)
    ensures
        !is_success(resp.status) ==> (r matches Err(e) && e@ == (ErrorView::Api {
            path: create_path(container_name@),
            body: resp.body@,
        })),
        is_success(resp.status) && parse_create_result(resp.body@) is None ==> (r matches Err(e)
            && e@ == (ErrorView::Parse { body: resp.body@ })),
        is_success(resp.status) ==> (parse_create_result(resp.body@) matches Some(id) ==> r matches Ok(
            c,
        ) && c.id@ == id),
{
    if !(200 <= resp.status && resp.status <= 204) {
        let mut path = String::new();
        path.append("/containers/create?name=");
        path.append(container_name);
        return Result::Err(DockerError::Api { path, body: resp.body.clone() });
    }
    match parse_create_result_exec(resp.body.as_str()) {
        Option::None => Result::Err(DockerError::Parse { body: resp.body.clone() }),
        Option::Some(id) => Result::Ok(CreateContainerResult { id }),
    }
}

/// The answer to a container address lookup: the address of the first
/// network entry of the first matching container. A daemon may list a
/// container's networks in any order; this library reads the first entry in
/// wire order, a deterministic choice meant for single-network containers.
pub fn get_container_ip_outcome(id: &str, resp: &HttpResponse) -> (r: Result<String, DockerError>)
    ensures
        !is_success(resp.status) ==> (r matches Err(e) && e@ == (ErrorView::Api {
            path: find_containers_path(id@),
            body: resp.body@,
        })),
        is_success(resp.status) && parse_container_list(resp.body@) is None ==> (r matches Err(e)
            && e@ == (ErrorView::Parse { body: resp.body@ })),
        is_success(resp.status) ==> (parse_container_list(resp.body@) matches Some(cs) ==> {
            if cs.len() == 0 {
                r matches Err(e) && e@ == (ErrorView::NoSuchContainer { id: id@ })
            } else if cs[0].networks.len() == 0 {
                r matches Err(e) && e@ == (ErrorView::NoNetwork { id: id@ })
            } else {
                r matches Ok(ip) && ip@ == cs[0].networks[0].1
            }
        }),
{
    match find_containers_outcome(id, resp) {
        Result::Err(e) => Result::Err(e),
        Result::Ok(cs) => {
            if cs.len() == 0 {
                Result::Err(DockerError::NoSuchContainer { id: id.to_owned() })
            } else {
                let c = &cs[0];
                proof {
                    assert(containers_view(cs@)[0] == cs@[0]@);
                }
                if c.network_settings.networks.len() == 0 {
                    Result::Err(DockerError::NoNetwork { id: id.to_owned() })
                } else {
                    let ip = c.network_settings.networks[0].1.ip_address.clone();
                    proof {
                        assert(cs@[0]@.networks[0] == (
                            cs@[0].network_settings.networks@[0].0@,
                            cs@[0].network_settings.networks@[0].1.ip_address@,
                        ));
                    }
                    Result::Ok(ip)
                }
            }
        },
    }
}

} // verus!
