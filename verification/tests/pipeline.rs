use std::collections::VecDeque;

use ceph_rbd_metrics::ceph::image::{
    ImageInfo, ImagesInPoolInfo, ListAction, ListEvent,
};
use ceph_rbd_metrics::ceph::login::{
    CephApiAuthentication, HandleAction, HandleEvent, LoginReply,
};
use ceph_rbd_metrics::ceph::retry::{RetryAction, RetryState};
use ceph_rbd_metrics::ceph::{
    AuthError, CephRestfulClient, CephRestfulClientAccess, CephRestfulClientError, Delivery,
};
use ceph_rbd_metrics::router::metrics::metrics_handler;

/// A manager that is played from a script. It accepts one token, hands it
/// out to whoever logs in while `accepts_login` holds, and answers a
/// listing with its images. Statuses in `forced` are served first, one per
/// physical send of a listing request, whatever the request carries.
struct Manager {
    token: String,
    accepts_login: bool,
    images: Vec<ImagesInPoolInfo>,
    announced: String,
    forced: VecDeque<u16>,
    /// Whether every request for more than one item is answered with 500.
    full_listing_is_broken: bool,
    logins: usize,
    sends: usize,
    seen: Vec<(String, Option<String>)>,
}

struct Answer {
    status: u16,
    total_count: Option<Vec<u8>>,
    groups: Option<Vec<ImagesInPoolInfo>>,
}

fn image(name: &str, id: &str, pool: &str, size: u64) -> ImageInfo {
    ImageInfo {
        size,
        obj_size: 4194304,
        num_objs: 1,
        name: name.to_string(),
        id: id.to_string(),
        pool_name: pool.to_string(),
        total_disk_usage: size,
        disk_usage: size,
    }
}

impl Manager {
    fn new(token: &str) -> Self {
        Manager {
            token: token.to_string(),
            accepts_login: true,
            images: vec![
                ImagesInPoolInfo::new("rbd".to_string(), vec![image("img1", "a1", "rbd", 1024)]),
                ImagesInPoolInfo::new(
                    "rbd2".to_string(),
                    vec![image("img2", "a2", "rbd2", 2048)],
                ),
            ],
            announced: "2".to_string(),
            forced: VecDeque::new(),
            full_listing_is_broken: false,
            logins: 0,
            sends: 0,
            seen: Vec::new(),
        }
    }

    fn login(&mut self) -> LoginReply {
        self.logins += 1;
        if self.accepts_login {
            LoginReply {
                delivery: Delivery::Response { status: 201 },
                token: Some(self.token.clone()),
            }
        } else {
            LoginReply { delivery: Delivery::Response { status: 401 }, token: None }
        }
    }

    fn get(&mut self, url: &str, authorization: &Option<String>) -> Answer {
        self.sends += 1;
        self.seen.push((url.to_string(), authorization.clone()));
        if let Some(status) = self.forced.pop_front() {
            return Answer { status, total_count: None, groups: None };
        }
        if self.full_listing_is_broken && !url.ends_with("limit=1") {
            return Answer { status: 500, total_count: None, groups: None };
        }
        if *authorization != Some(format!("Bearer {}", self.token)) {
            return Answer { status: 401, total_count: None, groups: None };
        }
        Answer {
            status: 200,
            total_count: Some(self.announced.clone().into_bytes()),
            groups: Some(self.images.clone()),
        }
    }
}

/// One send through the retry stage, without the waiting.
fn send_with_retry(manager: &mut Manager, url: &str, authorization: &Option<String>) -> Answer {
    let mut state = RetryState::new();
    loop {
        let answer = manager.get(url, authorization);
        let (after, action) =
            state.on_attempt(Delivery::Response { status: answer.status }, true);
        state = after;
        match action {
            RetryAction::Retry { .. } => continue,
            RetryAction::Deliver => return answer,
            RetryAction::Fail(error) => panic!("unexpected {error:?}"),
        }
    }
}

/// One request through the authentication stage and the retry stage.
fn execute(
    authentication: &mut CephApiAuthentication,
    manager: &mut Manager,
    url: &str,
) -> Result<Answer, CephRestfulClientError> {
    let (mut state, mut action) = authentication.begin(true);
    let mut last = None;
    loop {
        match action {
            HandleAction::Send { authorization } => {
                let answer = send_with_retry(manager, url, &authorization);
                let delivery = Delivery::Response { status: answer.status };
                last = Some(answer);
                (state, action) = authentication.handle(state, HandleEvent::Sent(delivery));
            }
            HandleAction::Login => {
                let reply = manager.login();
                (state, action) = authentication.handle(state, HandleEvent::LoggedIn(reply));
            }
            HandleAction::Return => return Ok(last.take().unwrap()),
            HandleAction::Fail(error) => return Err(error),
        }
    }
}

/// A whole listing.
fn list(
    client: &CephRestfulClient,
    authentication: &mut CephApiAuthentication,
    manager: &mut Manager,
) -> Result<Vec<ImageInfo>, CephRestfulClientError> {
    let (mut state, mut action) = client.begin_listing();
    loop {
        let url = match action {
            ListAction::Finish(outcome) => return outcome,
            ListAction::Get { url } => url,
        };
        let event = match execute(authentication, manager, &url) {
            Ok(answer) => ListEvent::Answered {
                status: answer.status,
                total_count: answer.total_count,
                groups: answer.groups,
            },
            Err(error) => ListEvent::Failed(error),
        };
        (state, action) = client.list_images(state, event);
    }
}

fn access() -> CephRestfulClientAccess {
    CephRestfulClientAccess::new("http://ceph.local:8080", "admin".to_string(), "pw".to_string())
        .unwrap()
}

fn parts() -> (CephRestfulClient, CephApiAuthentication) {
    (CephRestfulClient::new(access()), CephApiAuthentication::new(access()))
}

fn names(images: &[ImageInfo]) -> Vec<&str> {
    images.iter().map(|i| i.name.as_str()).collect()
}

#[test]
fn first_listing_logs_in_once_and_lists_in_two_phases() {
    let (client, mut authentication) = parts();
    let mut manager = Manager::new("tok-1");
    let images = list(&client, &mut authentication, &mut manager).unwrap();
    assert_eq!(names(&images), vec!["img1", "img2"]);
    assert_eq!(manager.logins, 1);
    assert_eq!(
        manager.seen,
        vec![
            ("http://ceph.local:8080/api/block/image?limit=1".to_string(), None),
            (
                "http://ceph.local:8080/api/block/image?limit=1".to_string(),
                Some("Bearer tok-1".to_string())
            ),
            (
                "http://ceph.local:8080/api/block/image?limit=2".to_string(),
                Some("Bearer tok-1".to_string())
            ),
        ]
    );
}

#[test]
fn second_listing_reuses_the_token() {
    let (client, mut authentication) = parts();
    let mut manager = Manager::new("tok-1");
    let first = list(&client, &mut authentication, &mut manager).unwrap();
    let second = list(&client, &mut authentication, &mut manager).unwrap();
    assert_eq!(first, second);
    assert_eq!(manager.logins, 1);
    assert_eq!(manager.sends, 5);
}

#[test]
fn expired_token_is_renewed_once() {
    let (client, mut authentication) = parts();
    let mut manager = Manager::new("tok-1");
    list(&client, &mut authentication, &mut manager).unwrap();
    manager.token = "tok-2".to_string();
    let images = list(&client, &mut authentication, &mut manager).unwrap();
    assert_eq!(images.len(), 2);
    assert_eq!(manager.logins, 2);
    assert_eq!(authentication.read(), Some("tok-2".to_string()));
}

#[test]
fn wrong_credentials_fail_the_listing_after_one_login() {
    let (client, mut authentication) = parts();
    let mut manager = Manager::new("tok-1");
    manager.accepts_login = false;
    assert_eq!(
        list(&client, &mut authentication, &mut manager),
        Err(CephRestfulClientError::Auth(AuthError::InvalidCredentials))
    );
    assert_eq!(manager.logins, 1);
    assert_eq!(manager.sends, 1);
    assert_eq!(authentication.read(), None);
}

#[test]
fn token_that_the_manager_does_not_honour_ends_in_refresh_failed() {
    let (client, mut authentication) = parts();
    let mut manager = Manager::new("tok-1");
    manager.forced = VecDeque::from(vec![401, 401]);
    assert_eq!(
        list(&client, &mut authentication, &mut manager),
        Err(CephRestfulClientError::Auth(AuthError::RefreshFailed))
    );
    assert_eq!(manager.logins, 1);
    assert_eq!(manager.sends, 2);
    assert_eq!(authentication.read(), None);
}

#[test]
fn passing_server_errors_are_retried_away() {
    let (client, mut authentication) = parts();
    let mut manager = Manager::new("tok-1");
    list(&client, &mut authentication, &mut manager).unwrap();
    manager.sends = 0;
    manager.forced = VecDeque::from(vec![503, 502, 500]);
    let images = list(&client, &mut authentication, &mut manager).unwrap();
    assert_eq!(images.len(), 2);
    assert_eq!(manager.sends, 5);
    assert_eq!(manager.logins, 1);
}

#[test]
fn lasting_server_error_is_given_up_after_three_retries() {
    let (client, mut authentication) = parts();
    let mut manager = Manager::new("tok-1");
    manager.forced = VecDeque::from(vec![500; 10]);
    assert_eq!(
        list(&client, &mut authentication, &mut manager),
        Err(CephRestfulClientError::TransientNetwork)
    );
    assert_eq!(manager.sends, 4);
    assert_eq!(manager.logins, 0);
}

#[test]
fn resend_after_a_login_has_retries_of_its_own() {
    let (client, mut authentication) = parts();
    let mut manager = Manager::new("tok-1");
    manager.forced = VecDeque::from(vec![503, 503, 503, 401, 503, 503, 503]);
    let images = list(&client, &mut authentication, &mut manager).unwrap();
    assert_eq!(images.len(), 2);
    assert_eq!(manager.logins, 1);
    assert_eq!(manager.sends, 4 + 4 + 1);
}

#[test]
fn failure_in_the_second_phase_yields_no_images_and_a_down_scrape() {
    let (client, mut authentication) = parts();
    let mut manager = Manager::new("tok-1");
    list(&client, &mut authentication, &mut manager).unwrap();
    manager.sends = 0;
    manager.full_listing_is_broken = true;
    let fetched = list(&client, &mut authentication, &mut manager);
    assert_eq!(fetched, Err(CephRestfulClientError::TransientNetwork));
    assert_eq!(manager.sends, 1 + 4);
    let (status, body) = metrics_handler(fetched);
    assert_eq!(status, 200);
    assert!(body.contains("ceph_rbd_up 0\n"));
    assert!(!body.contains("img1"));
}

#[test]
fn count_that_does_not_match_the_listing_fails_the_listing() {
    let (client, mut authentication) = parts();
    let mut manager = Manager::new("tok-1");
    manager.announced = "3".to_string();
    let fetched = list(&client, &mut authentication, &mut manager);
    assert_eq!(fetched, Err(CephRestfulClientError::Protocol));
    assert!(manager.seen.last().unwrap().0.ends_with("limit=3"));
}

#[test]
fn answer_without_a_count_fails_the_listing() {
    let (client, mut authentication) = parts();
    let mut manager = Manager::new("tok-1");
    manager.forced = VecDeque::from(vec![200]);
    let fetched = list(&client, &mut authentication, &mut manager);
    assert_eq!(fetched, Err(CephRestfulClientError::Protocol));
    assert_eq!(manager.sends, 1);
}

#[test]
fn scrape_of_a_reachable_manager_is_up_with_its_images() {
    let (client, mut authentication) = parts();
    let mut manager = Manager::new("tok-1");
    let (status, body) = metrics_handler(list(&client, &mut authentication, &mut manager));
    assert_eq!(status, 200);
    assert!(body.contains("ceph_rbd_up 1\n"));
    assert!(body.contains(
        "ceph_rbd_image_size_bytes{image_name=\"img1\",image_id=\"a1\",pool_name=\"rbd\"} 1024\n"
    ));
    assert!(body.contains(
        "ceph_rbd_image_size_bytes{image_name=\"img2\",image_id=\"a2\",pool_name=\"rbd2\"} 2048\n"
    ));
}

#[test]
fn scrape_of_a_manager_that_is_down_is_served_as_down() {
    let (client, mut authentication) = parts();
    let mut manager = Manager::new("tok-1");
    manager.forced = VecDeque::from(vec![500; 4]);
    let (status, body) = metrics_handler(list(&client, &mut authentication, &mut manager));
    assert_eq!(status, 200);
    assert!(body.contains("ceph_rbd_up 0\n"));
    assert!(!body.contains("image_size"));
}
