use ceph_rbd_metrics::ceph::{
    CephRestfulClient, CephRestfulClientAccess, CephRestfulClientError, Stage,
};

fn access(endpoint: &str) -> CephRestfulClientAccess {
    CephRestfulClientAccess::new(endpoint, "admin".to_string(), "secret".to_string()).unwrap()
}

#[test]
fn access_keeps_the_endpoint_as_a_serialized_url() {
    let access = access("https://ceph.example.net:8443");
    assert_eq!(access.host, "https://ceph.example.net:8443/");
    assert_eq!(access.username, "admin");
    assert_eq!(access.password, "secret");
}

#[test]
fn access_normalizes_the_endpoint() {
    assert_eq!(access("HTTP://Ceph.Example.NET/a/../b").host, "http://ceph.example.net/b");
}

#[test]
fn access_rejects_what_is_no_absolute_url() {
    for endpoint in ["", "ceph.example.net", "/api", "http://", "://nowhere"] {
        assert_eq!(
            CephRestfulClientAccess::new(endpoint, "admin".to_string(), "secret".to_string()),
            Err(CephRestfulClientError::UrlParse),
            "{endpoint:?}"
        );
    }
}

#[test]
fn endpoint_resolves_a_path_against_the_host() {
    let client = CephRestfulClient::new(access("https://ceph.example.net:8443"));
    assert_eq!(
        client.endpoint("/api/block/image"),
        Ok("https://ceph.example.net:8443/api/block/image".to_string())
    );
}

#[test]
fn endpoint_replaces_the_path_of_the_host() {
    let client = CephRestfulClient::new(access("https://ceph.example.net/dashboard/"));
    assert_eq!(
        client.endpoint("/api/auth"),
        Ok("https://ceph.example.net/api/auth".to_string())
    );
}

#[test]
fn endpoint_fails_where_the_host_is_no_url() {
    let broken = CephRestfulClientAccess {
        host: "not a url".to_string(),
        username: "admin".to_string(),
        password: "secret".to_string(),
    };
    let client = CephRestfulClient::new(broken);
    assert_eq!(client.endpoint("/api/auth"), Err(CephRestfulClientError::UrlParse));
}

#[test]
fn listing_address_escapes_the_limit() {
    let client = CephRestfulClient::new(access("http://ceph.local"));
    assert_eq!(
        client.listing_address("25"),
        Ok("http://ceph.local/api/block/image?limit=25".to_string())
    );
    assert_eq!(
        client.listing_address("a b&c"),
        Ok("http://ceph.local/api/block/image?limit=a+b%26c".to_string())
    );
}

#[test]
fn authentication_stands_outside_the_transient_retry() {
    assert_eq!(
        CephRestfulClient::stages(),
        vec![Stage::Authentication, Stage::Tracing, Stage::TransientRetry]
    );
}
