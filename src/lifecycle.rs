use vstd::prelude::*;
use crate::client::{
    Client, ClientView, HttpRequest, Method, request_of, lifecycle_view, instances_path,
    instance_path, launch_path, shutdown_path, url_of, root_url, compute_service, compute_version,
};
use crate::zone::Zone;

verus! {

// Each lifecycle operation starts from a fresh builder with the caller's
// credentials and zone `Ishikari1`; the zone argument reaches the path only.

/// The request of a lifecycle operation: verb `m` on `path`.
pub open spec fn lifecycle_request(v: ClientView, path: Seq<char>, m: Method, r: HttpRequest) -> bool {
    request_of(lifecycle_view(v, path), m, r)
}

/// Whatever zone the caller passes, a lifecycle request is routed through
/// `Ishikari1` on the general compute family; the caller's path follows the
/// bare root URL unchanged.
pub proof fn lemma_lifecycle_zone_fixed(v: ClientView, path: Seq<char>)
    ensures
        lifecycle_view(v, path).zone == Zone::Ishikari1,
        lifecycle_view(v, path).service == compute_service(),
        lifecycle_view(v, path).api_version == compute_version(),
        url_of(lifecycle_view(v, path)) == root_url(lifecycle_view(v, Seq::empty())) + path,
{
    assert(url_of(lifecycle_view(v, path)) =~= root_url(lifecycle_view(v, Seq::empty())) + path);
}

impl Client {
    /// Creates an instance: `Post` on the zone's collection endpoint.
    pub fn new_instance_request(&self, project_id: &str, zone: &Zone) -> (r: HttpRequest)
        ensures
            lifecycle_request(self@, instances_path(project_id@, *zone), Method::Post, r),
    {
        self.lifecycle_base().instances(project_id, zone).request(Method::Post)
    }

    /// Deletes an instance: `Delete` on the instance's endpoint.
    pub fn delete_instance_request(&self, project_id: &str, zone: &Zone, instance_name: &str) -> (r: HttpRequest)
        ensures
            lifecycle_request(self@, instance_path(project_id@, instance_name@, *zone), Method::Delete, r),
    {
        self.lifecycle_base().delete_instance(project_id, instance_name, zone).request(Method::Delete)
    }

    /// Lists the instances: `Get` on the zone's collection endpoint.
    pub fn list_instances_request(&self, project_id: &str, zone: &Zone) -> (r: HttpRequest)
        ensures
            lifecycle_request(self@, instances_path(project_id@, *zone), Method::Get, r),
    {
        self.lifecycle_base().list(project_id, zone).request(Method::Get)
    }

    /// Starts an instance: `Put` on its start endpoint.
    pub fn launch_instance_request(&self, project_id: &str, zone: &Zone, instance_name: &str) -> (r: HttpRequest)
        ensures
            lifecycle_request(self@, launch_path(project_id@, instance_name@, *zone), Method::Put, r),
    {
        self.lifecycle_base().launch(project_id, instance_name, zone).request(Method::Put)
    }

    /// Stops an instance: `Put` on its stop endpoint.
    pub fn shutdown_instance_request(&self, project_id: &str, zone: &Zone, instance_name: &str) -> (r: HttpRequest)
        ensures
            lifecycle_request(self@, shutdown_path(project_id@, instance_name@, *zone), Method::Put, r),
    {
        self.lifecycle_base().shutdown(project_id, instance_name, zone).request(Method::Put)
    }
}

} // verus!
