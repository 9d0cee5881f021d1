use sakura_client::client::{Client, ClientError, Method, BASE_URL};
use sakura_client::response::{
    DeleteInstanceResponse, LaunchInstanceResponse, NewInstanceResponse, ShutdownInstanceResponse,
};
use sakura_client::zone::Zone;

fn client() -> Client {
    Client::new("key-one".to_string(), Some("key-two".to_string()))
}

fn root(zone: &str, service: &str, version: &str) -> String {
    format!("{BASE_URL}/{zone}/api/{service}/{version}")
}

#[test]
fn zone_codes_match_table() {
    assert_eq!(Zone::Tokyo1.code(), "tk1a");
    assert_eq!(Zone::Tokyo2.code(), "tk1b");
    assert_eq!(Zone::Ishikari1.code(), "is1a");
    assert_eq!(Zone::Ishikari2.code(), "is1b");
}

#[test]
fn zone_names_match_table() {
    assert_eq!(Zone::Tokyo1.name(), "Tokyo1");
    assert_eq!(Zone::Tokyo2.name(), "Tokyo2");
    assert_eq!(Zone::Ishikari1.name(), "Ishikari1");
    assert_eq!(Zone::Ishikari2.name(), "Ishikari2");
}

#[test]
fn zone_code_differs_from_name() {
    for z in [Zone::Tokyo1, Zone::Tokyo2, Zone::Ishikari1, Zone::Ishikari2] {
        assert_ne!(z.code(), z.name());
    }
}

#[test]
fn zone_default_is_tokyo1() {
    assert_eq!(Zone::default(), Zone::Tokyo1);
}

#[test]
fn new_client_defaults() {
    let c = client();
    assert_eq!(c.get_zone(), Zone::Tokyo1);
    assert_eq!(c.full_url(), "https://compute.googleapis.com/compute/v1/Tokyo1/api/cloud/1.1");
}

#[test]
fn dok_switches_family_and_zone_together() {
    let c = client().dok();
    assert_eq!(c.get_zone(), Zone::Ishikari1);
    assert_eq!(
        c.full_url(),
        "https://compute.googleapis.com/compute/v1/Ishikari1/api/managed-container/1.0"
    );
}

#[test]
fn set_zone_changes_base_zone_only() {
    let c = client().set_zone(Zone::Ishikari2);
    assert_eq!(c.get_zone(), Zone::Ishikari2);
    assert_eq!(c.full_url(), root("Ishikari2", "cloud", "1.1"));
}

#[test]
fn instances_and_list_share_suffix() {
    let a = client().instances("proj1", &Zone::Tokyo2).full_url();
    let b = client().list("proj1", &Zone::Tokyo2).full_url();
    assert_eq!(a, b);
    assert_eq!(a, format!("{}/projects/proj1/zones/tk1b/instances", root("Tokyo1", "cloud", "1.1")));
}

#[test]
fn clear_resets_suffix_and_body() {
    let c = client()
        .instances("proj1", &Zone::Tokyo1)
        .set_body("{\"a\":1}".to_string())
        .clear();
    assert_eq!(c.full_url(), root("Tokyo1", "cloud", "1.1"));
    let r = c.request(Method::Post);
    assert_eq!(r.body, Some(String::new()));
    let again = c.launch("p", "n", &Zone::Tokyo1).full_url();
    assert_eq!(again, format!("{}/projects/p/zones/tk1a/instances/n/start", root("Tokyo1", "cloud", "1.1")));
}

#[test]
fn launch_shutdown_delete_paths() {
    let base = root("Tokyo1", "cloud", "1.1");
    assert_eq!(
        client().launch("proj1", "vm-a", &Zone::Tokyo1).full_url(),
        format!("{base}/projects/proj1/zones/tk1a/instances/vm-a/start")
    );
    assert_eq!(
        client().shutdown("proj1", "vm-a", &Zone::Tokyo1).full_url(),
        format!("{base}/projects/proj1/zones/tk1a/instances/vm-a/stop")
    );
    assert_eq!(
        client().delete_instance("proj1", "vm-a", &Zone::Tokyo1).full_url(),
        format!("{base}/projects/proj1/zones/tk1a/instances/vm-a")
    );
}

#[test]
fn suffix_accumulates() {
    let c = client().instances("a", &Zone::Tokyo1).list("b", &Zone::Ishikari1);
    assert_eq!(
        c.full_url(),
        format!("{}/projects/a/zones/tk1a/instances/projects/b/zones/is1a/instances", root("Tokyo1", "cloud", "1.1"))
    );
}

#[test]
fn get_request_has_no_body() {
    let r = client().set_body("x".to_string()).request(Method::Get);
    assert_eq!(r.method, Method::Get);
    assert_eq!(r.body, None);
    assert_eq!(r.user, "key-one");
    assert_eq!(r.password, Some("key-two".to_string()));
    assert_eq!(r.url, root("Tokyo1", "cloud", "1.1"));
}

#[test]
fn body_verbs_carry_body() {
    for m in [Method::Post, Method::Put, Method::Delete] {
        let r = client().set_body("{\"k\":\"v\"}".to_string()).request(m);
        assert_eq!(r.method, m);
        assert_eq!(r.body, Some("{\"k\":\"v\"}".to_string()));
    }
}

#[test]
fn query_parameters_are_appended() {
    let params = vec![
        ("a".to_string(), "1".to_string()),
        ("b".to_string(), "x y".to_string()),
    ];
    let r = client().instances("p", &Zone::Tokyo1).request_with_params(&params).unwrap();
    assert_eq!(r.method, Method::Get);
    assert_eq!(r.body, None);
    assert_eq!(
        r.url,
        format!("{}/projects/p/zones/tk1a/instances?a=1&b=x+y", root("Tokyo1", "cloud", "1.1"))
    );
}

#[test]
fn missing_primary_key_fails() {
    let r = Client::from_credentials(None, Some("k2".to_string()));
    assert_eq!(r.err(), Some(ClientError::MissingKey));
    let r = Client::from_credentials(Some(String::new()), None);
    assert_eq!(r.err(), Some(ClientError::MissingKey));
}

#[test]
fn present_primary_key_succeeds() {
    let c = Client::from_credentials(Some("k1".to_string()), None).unwrap();
    let r = c.request(Method::Get);
    assert_eq!(r.user, "k1");
    assert_eq!(r.password, None);
    assert_eq!(c.get_zone(), Zone::Tokyo1);
}

#[test]
fn lifecycle_base_forces_ishikari1() {
    let c = client().dok().set_zone(Zone::Tokyo2).instances("x", &Zone::Tokyo1);
    let b = c.lifecycle_base();
    assert_eq!(b.get_zone(), Zone::Ishikari1);
    assert_eq!(b.full_url(), root("Ishikari1", "cloud", "1.1"));
}

#[test]
fn lifecycle_requests_keep_caller_zone_in_path() {
    let c = client().set_zone(Zone::Tokyo2);
    let base = root("Ishikari1", "cloud", "1.1");

    let r = c.new_instance_request("proj1", &Zone::Tokyo1);
    assert_eq!(r.method, Method::Post);
    assert_eq!(r.url, format!("{base}/projects/proj1/zones/tk1a/instances"));
    assert_eq!(r.body, Some(String::new()));

    let r = c.list_instances_request("proj1", &Zone::Tokyo1);
    assert_eq!(r.method, Method::Get);
    assert_eq!(r.url, format!("{base}/projects/proj1/zones/tk1a/instances"));

    let r = c.launch_instance_request("proj1", &Zone::Tokyo2, "vm-a");
    assert_eq!(r.method, Method::Put);
    assert_eq!(r.url, format!("{base}/projects/proj1/zones/tk1b/instances/vm-a/start"));

    let r = c.shutdown_instance_request("proj1", &Zone::Ishikari2, "vm-a");
    assert_eq!(r.method, Method::Put);
    assert_eq!(r.url, format!("{base}/projects/proj1/zones/is1b/instances/vm-a/stop"));

    let r = c.delete_instance_request("proj1", &Zone::Ishikari1, "vm-a");
    assert_eq!(r.method, Method::Delete);
    assert_eq!(r.url, format!("{base}/projects/proj1/zones/is1a/instances/vm-a"));
    assert_eq!(r.user, "key-one");
    assert_eq!(r.password, Some("key-two".to_string()));
}

#[test]
fn response_records_default_empty() {
    let n = NewInstanceResponse::default();
    assert_eq!(n.id, "");
    assert_eq!(n.self_link, "");
    let l = LaunchInstanceResponse { process: 3, ..Default::default() };
    assert_eq!(l.clone().process, 3);
    assert_eq!(ShutdownInstanceResponse::default().process, 0);
    assert_eq!(DeleteInstanceResponse::default().end_time, "");
}

#[test]
fn request_to_given_url() {
    let c = client().set_body("b".to_string());
    let r = c.request_to(Method::Put, "https://example.test/x?y=1".to_string());
    assert_eq!(r.method, Method::Put);
    assert_eq!(r.url, "https://example.test/x?y=1");
    assert_eq!(r.body, Some("b".to_string()));
    assert_eq!(r.user, "key-one");
}
