use ceph_rbd_metrics::ceph::image::{
    error_of_status, flatten, ImageInfo, ImageMetadata, ImagesInPoolInfo, ListAction, ListEvent,
    ListState,
};
use ceph_rbd_metrics::ceph::{CephRestfulClient, CephRestfulClientAccess, CephRestfulClientError};

fn image(name: &str, id: &str, pool: &str, size: u64) -> ImageInfo {
    ImageInfo {
        size,
        obj_size: 4194304,
        num_objs: size / 4194304,
        name: name.to_string(),
        id: id.to_string(),
        pool_name: pool.to_string(),
        total_disk_usage: size / 2,
        disk_usage: size / 4,
    }
}

fn client() -> CephRestfulClient {
    CephRestfulClient::new(
        CephRestfulClientAccess::new("http://ceph.local:8080", "u".to_string(), "p".to_string())
            .unwrap(),
    )
}

fn answered(
    status: u16,
    total_count: Option<&[u8]>,
    groups: Option<Vec<ImagesInPoolInfo>>,
) -> ListEvent {
    ListEvent::Answered { status, total_count: total_count.map(|v| v.to_vec()), groups }
}

fn two_groups() -> Vec<ImagesInPoolInfo> {
    vec![
        ImagesInPoolInfo::new("rbd".to_string(), vec![image("img1", "a1", "rbd", 1024)]),
        ImagesInPoolInfo::new(
            "rbd2".to_string(),
            vec![image("img2", "a2", "rbd2", 2048), image("img3", "a3", "rbd2", 4096)],
        ),
    ]
}

fn failed(error: CephRestfulClientError) -> (ListState, ListAction) {
    (ListState::Done, ListAction::Finish(Err(error)))
}

#[test]
fn flatten_keeps_group_order_and_item_order() {
    let flat = flatten(two_groups());
    let names: Vec<&str> = flat.iter().map(|i| i.name.as_str()).collect();
    assert_eq!(names, vec!["img1", "img2", "img3"]);
    assert_eq!(flat[2], image("img3", "a3", "rbd2", 4096));
}

#[test]
fn flatten_of_nothing_is_nothing() {
    assert_eq!(flatten(Vec::new()), Vec::new());
    assert_eq!(
        flatten(vec![
            ImagesInPoolInfo::new("a".to_string(), Vec::new()),
            ImagesInPoolInfo::new("b".to_string(), Vec::new()),
        ]),
        Vec::new()
    );
}

#[test]
fn flatten_skips_empty_groups() {
    let flat = flatten(vec![
        ImagesInPoolInfo::new("a".to_string(), Vec::new()),
        ImagesInPoolInfo::new("b".to_string(), vec![image("x", "1", "b", 1)]),
        ImagesInPoolInfo::new("c".to_string(), Vec::new()),
        ImagesInPoolInfo::new("d".to_string(), vec![image("y", "2", "d", 2)]),
    ]);
    assert_eq!(flat, vec![image("x", "1", "b", 1), image("y", "2", "d", 2)]);
}

#[test]
fn metadata_is_name_id_and_pool() {
    let info = image("img1", "a1", "rbd", 1024);
    let expected = ImageMetadata {
        image_name: "img1".to_string(),
        image_id: "a1".to_string(),
        pool_name: "rbd".to_string(),
    };
    assert_eq!(ImageMetadata::of(&info), expected);
    assert_eq!(ImageMetadata::from(info), expected);
}

#[test]
fn metadata_ignores_usage() {
    let a = image("img1", "a1", "rbd", 1024);
    let mut b = image("img1", "a1", "rbd", 999_999);
    b.disk_usage = 7;
    b.num_objs = 8;
    assert_eq!(ImageMetadata::from(a), ImageMetadata::from(b));
}

#[test]
fn listing_begins_by_asking_for_one_item() {
    assert_eq!(
        client().begin_listing(),
        (
            ListState::Counting,
            ListAction::Get { url: "http://ceph.local:8080/api/block/image?limit=1".to_string() }
        )
    );
}

#[test]
fn listing_cannot_begin_without_a_url() {
    let broken = CephRestfulClient::new(CephRestfulClientAccess {
        host: "nowhere".to_string(),
        username: "u".to_string(),
        password: "p".to_string(),
    });
    assert_eq!(broken.begin_listing(), failed(CephRestfulClientError::UrlParse));
}

#[test]
fn listing_asks_for_as_many_items_as_announced() {
    let step = client().list_images(ListState::Counting, answered(200, Some(b"3"), None));
    assert_eq!(
        step,
        (
            ListState::Listing { expected: 3 },
            ListAction::Get { url: "http://ceph.local:8080/api/block/image?limit=3".to_string() }
        )
    );
}

#[test]
fn listing_writes_the_limit_without_leading_zeros() {
    let step = client().list_images(ListState::Counting, answered(200, Some(b"0012"), None));
    assert_eq!(
        step,
        (
            ListState::Listing { expected: 12 },
            ListAction::Get { url: "http://ceph.local:8080/api/block/image?limit=12".to_string() }
        )
    );
}

#[test]
fn header_three_with_groups_of_one_and_two_yields_three_in_group_order() {
    let client = client();
    let (state, _) = client.begin_listing();
    let (state, _) = client.list_images(state, answered(200, Some(b"3"), Some(Vec::new())));
    let (state, action) = client.list_images(state, answered(200, None, Some(two_groups())));
    assert_eq!(state, ListState::Done);
    match action {
        ListAction::Finish(Ok(images)) => {
            assert_eq!(images.len(), 3);
            assert_eq!(
                images,
                vec![
                    image("img1", "a1", "rbd", 1024),
                    image("img2", "a2", "rbd2", 2048),
                    image("img3", "a3", "rbd2", 4096),
                ]
            );
        }
        other => panic!("unexpected {other:?}"),
    }
}

#[test]
fn listing_twice_gives_equal_sequences() {
    let client = client();
    let run = || {
        let (state, _) = client.begin_listing();
        let (state, _) = client.list_images(state, answered(200, Some(b"3"), None));
        client.list_images(state, answered(200, Some(b"3"), Some(two_groups())))
    };
    let first = run();
    let second = run();
    assert_eq!(first, second);
    assert!(matches!(first.1, ListAction::Finish(Ok(ref images)) if images.len() == 3));
}

#[test]
fn listing_of_an_empty_cluster_is_empty() {
    let client = client();
    let (state, action) = client.list_images(ListState::Counting, answered(200, Some(b"0"), None));
    assert_eq!(
        action,
        ListAction::Get { url: "http://ceph.local:8080/api/block/image?limit=0".to_string() }
    );
    assert_eq!(
        client.list_images(state, answered(200, None, Some(Vec::new()))),
        (ListState::Done, ListAction::Finish(Ok(Vec::new())))
    );
}

#[test]
fn missing_count_is_a_protocol_error() {
    assert_eq!(
        client().list_images(ListState::Counting, answered(200, None, Some(two_groups()))),
        failed(CephRestfulClientError::Protocol)
    );
}

#[test]
fn count_that_is_no_number_is_a_protocol_error() {
    for value in [&b""[..], b"three", b"-3", b"3.0", b" 3", b"18446744073709551616"] {
        assert_eq!(
            client().list_images(ListState::Counting, answered(200, Some(value), None)),
            failed(CephRestfulClientError::Protocol)
        );
    }
}

#[test]
fn fewer_items_than_announced_is_a_protocol_error() {
    assert_eq!(
        client().list_images(
            ListState::Listing { expected: 4 },
            answered(200, None, Some(two_groups()))
        ),
        failed(CephRestfulClientError::Protocol)
    );
}

#[test]
fn more_items_than_announced_is_a_protocol_error() {
    assert_eq!(
        client().list_images(
            ListState::Listing { expected: 2 },
            answered(200, None, Some(two_groups()))
        ),
        failed(CephRestfulClientError::Protocol)
    );
}

#[test]
fn body_that_is_no_listing_is_a_protocol_error() {
    assert_eq!(
        client().list_images(ListState::Listing { expected: 0 }, answered(200, Some(b"0"), None)),
        failed(CephRestfulClientError::Protocol)
    );
}

#[test]
fn server_error_settles_the_listing_as_transient() {
    for state in [ListState::Counting, ListState::Listing { expected: 3 }] {
        assert_eq!(
            client().list_images(state, answered(500, Some(b"3"), Some(two_groups()))),
            failed(CephRestfulClientError::TransientNetwork)
        );
        assert_eq!(
            client().list_images(state, answered(503, None, None)),
            failed(CephRestfulClientError::TransientNetwork)
        );
    }
}

#[test]
fn other_statuses_settle_the_listing_as_protocol_errors() {
    for status in [100u16, 199, 300, 304, 404, 418, 499, 600, 0] {
        assert_eq!(
            client().list_images(
                ListState::Counting,
                answered(status, Some(b"3"), Some(two_groups()))
            ),
            failed(CephRestfulClientError::Protocol),
            "{status}"
        );
    }
    assert_eq!(error_of_status(599), CephRestfulClientError::TransientNetwork);
    assert_eq!(error_of_status(500), CephRestfulClientError::TransientNetwork);
    assert_eq!(error_of_status(499), CephRestfulClientError::Protocol);
    assert_eq!(error_of_status(600), CephRestfulClientError::Protocol);
}

#[test]
fn every_success_status_is_accepted() {
    for status in [200u16, 201, 204, 299] {
        let (state, _) =
            client().list_images(ListState::Counting, answered(status, Some(b"1"), None));
        assert_eq!(state, ListState::Listing { expected: 1 });
    }
}

#[test]
fn failed_request_settles_the_listing_with_its_error() {
    for error in [
        CephRestfulClientError::TransientNetwork,
        CephRestfulClientError::Transport,
        CephRestfulClientError::NotReplayable,
        CephRestfulClientError::Auth(ceph_rbd_metrics::ceph::AuthError::RefreshFailed),
        CephRestfulClientError::Auth(ceph_rbd_metrics::ceph::AuthError::InvalidCredentials),
    ] {
        for state in [ListState::Counting, ListState::Listing { expected: 1 }] {
            assert_eq!(client().list_images(state, ListEvent::Failed(error)), failed(error));
        }
    }
}

#[test]
fn settled_listing_takes_no_more_answers() {
    assert_eq!(
        client().list_images(ListState::Done, answered(200, Some(b"3"), Some(two_groups()))),
        failed(CephRestfulClientError::Protocol)
    );
    assert_eq!(
        client().list_images(
            ListState::Done,
            ListEvent::Failed(CephRestfulClientError::Transport)
        ),
        failed(CephRestfulClientError::Protocol)
    );
}

#[test]
fn failed_second_phase_yields_nothing_of_the_first() {
    let client = client();
    let (state, _) = client.begin_listing();
    let (state, _) =
        client.list_images(state, answered(200, Some(b"3"), Some(two_groups())));
    let step = client.list_images(state, answered(502, None, None));
    assert_eq!(step, failed(CephRestfulClientError::TransientNetwork));
}
