//! Block images as the manager lists them.

use crate::ceph::address::{append_query_pair, joined_url, url_with_pair};
use crate::ceph::count::{count_of, decimal_text, format_count, parse_count};
use crate::ceph::{is_server_error, is_success, CephRestfulClient, CephRestfulClientError};
use vstd::prelude::*;

verus! {

/// One block image, as one listing saw it.
#[derive(Clone, Debug, PartialEq, Eq)]
pub struct ImageInfo {
    pub size: u64,
    pub obj_size: u64,
    pub num_objs: u64,
    pub name: String,
    pub id: String,
    pub pool_name: String,
    pub total_disk_usage: u64,
    pub disk_usage: u64,
}

/// The images of one pool, in the order in which the manager lists them.
#[derive(Clone, Debug, PartialEq, Eq)]
pub struct ImagesInPoolInfo {
    pool_name: String,
    value: Vec<ImageInfo>,
}

impl ImagesInPoolInfo {
    /// The group of the pool `pool_name` with the images `value`.
    pub fn new(pool_name: String, value: Vec<ImageInfo>) -> (group: Self)
        ensures
            group.pool_name() == pool_name,
            group.images() == value@,
    {
        ImagesInPoolInfo { pool_name, value }
    }

    /// The pool that the group stands for.
    pub closed spec fn pool_name(&self) -> String {
        self.pool_name
    }

    /// The images of the group, in order.
    pub closed spec fn images(&self) -> Seq<ImageInfo> {
        self.value@
    }

    /// Gives up the group for its images.
    pub fn into_images(self) -> (images: Vec<ImageInfo>)
        ensures
            images@ == self.images(),
    {
        self.value
    }
}

/// What tells one image from another: its name, its id and its pool.
#[derive(Clone, Debug, Hash, PartialEq, Eq)]
pub struct ImageMetadata {
    pub image_name: String,
    pub image_id: String,
    pub pool_name: String,
}

/// The identity of a listing entry: a projection that reads its name, its id
/// and its pool, and none of its numbers.
pub open spec fn identity_of(info: ImageInfo) -> ImageMetadata {
    ImageMetadata { image_name: info.name, image_id: info.id, pool_name: info.pool_name }
}

impl ImageMetadata {
    /// The identity of an image, read off a listing entry without using it up.
    pub fn of(info: &ImageInfo) -> (metadata: Self)
        ensures
            metadata == identity_of(*info),
    {
        ImageMetadata {
            image_name: info.name.clone(),
            image_id: info.id.clone(),
            pool_name: info.pool_name.clone(),
        }
    }
}

impl From<ImageInfo> for ImageMetadata {
    fn from(info: ImageInfo) -> (metadata: Self) {
        ImageMetadata { image_name: info.name, image_id: info.id, pool_name: info.pool_name }
    }
}

impl vstd::std_specs::convert::FromSpecImpl<ImageInfo> for ImageMetadata {
    open spec fn obeys_from_spec() -> bool {
        true
    }

    open spec fn from_spec(info: ImageInfo) -> Self {
        identity_of(info)
    }
}

/// The images of all groups in one sequence: the groups in the order given,
/// the images of each group in their own order.
pub open spec fn flattened(groups: Seq<ImagesInPoolInfo>) -> Seq<ImageInfo>
    decreases groups.len(),
{
    if groups.len() == 0 {
        Seq::empty()
    } else {
        flattened(groups.drop_last()) + groups.last().images()
    }
}

/// The number of images in all groups together.
pub open spec fn total_images(groups: Seq<ImagesInPoolInfo>) -> nat
    decreases groups.len(),
{
    if groups.len() == 0 {
        0
    } else {
        total_images(groups.drop_last()) + groups.last().images().len()
    }
}

/// Flattening loses nothing and adds nothing: the flat sequence is as long as
/// the groups are together.
pub proof fn lemma_flattened_len(groups: Seq<ImagesInPoolInfo>)
    ensures
        flattened(groups).len() == total_images(groups),
    decreases groups.len(),
{
    if groups.len() > 0 {
        lemma_flattened_len(groups.drop_last());
    }
}

/// Puts the images of all groups into one sequence, group after group.
pub fn flatten(groups: Vec<ImagesInPoolInfo>) -> (images: Vec<ImageInfo>)
    ensures
        images@ == flattened(groups@),
{
    let mut images: Vec<ImageInfo> = Vec::new();
    let ghost all = groups@;
    for group in it: groups
        invariant
            it.seq() == all,
            images@ == flattened(all.take(it.index() as int)),
    {
        let mut items = group.into_images();
        proof {
            let k = it.index() as int;
            assert(all.take(k + 1).drop_last() =~= all.take(k));
            assert(all.take(k + 1).last() == group);
        }
        images.append(&mut items);
    }
    proof {
        assert(all.take(all.len() as int) =~= all);
    }
    images
}

/// Where a listing stands.
#[derive(Debug, Clone, Copy, PartialEq, Eq, Structural)]
pub enum ListState {
    /// The request for one item was sent, to learn how many there are.
    Counting,
    /// The request for all items was sent; `expected` is how many the
    /// manager said there are.
    Listing { expected: u64 },
    /// The listing is settled.
    Done,
}

/// What came of the request that the listing asked for.
#[derive(Debug, Clone, PartialEq, Eq)]
pub enum ListEvent {
    /// The manager answered: with this status, with this value of the header
    /// `X-Total-Count` if it sent one, and with these groups if the body
    /// reads as a list of groups.
    Answered { status: u16, total_count: Option<Vec<u8>>, groups: Option<Vec<ImagesInPoolInfo>> },
    /// The request failed on its way.
    Failed(CephRestfulClientError),
}

/// What the listing asks for next.
#[derive(Debug, PartialEq, Eq)]
pub enum ListAction {
    /// Send a GET request to this address.
    Get { url: String },
    /// Nothing more: this is the outcome of the listing.
    Finish(Result<Vec<ImageInfo>, CephRestfulClientError>),
}

/// A `ListAction` with its text and its images as sequences.
pub enum ListDirective {
    Get { url: Seq<char> },
    Finish(Result<Seq<ImageInfo>, CephRestfulClientError>),
}

impl View for ListAction {
    type V = ListDirective;

    open spec fn view(&self) -> ListDirective {
        match *self {
            ListAction::Get { url } => ListDirective::Get { url: url@ },
            ListAction::Finish(Ok(images)) => ListDirective::Finish(Ok(images@)),
            ListAction::Finish(Err(e)) => ListDirective::Finish(Err(e)),
        }
    }
}

/// The address of the image listing at `host` with the parameter `limit`.
pub open spec fn listing_url(host: Seq<char>, limit: Seq<char>) -> Option<Seq<char>> {
    match joined_url(host, "/api/block/image"@) {
        Some(address) => url_with_pair(address, "limit"@, limit),
        None => None,
    }
}

/// The error that an answer with a status outside 2xx is reported as: a
/// failure that outlived its retries for 5xx, a breach of the API otherwise.
pub open spec fn status_error(status: u16) -> CephRestfulClientError {
    if is_server_error(status) {
        CephRestfulClientError::TransientNetwork
    } else {
        CephRestfulClientError::Protocol
    }
}

/// The request with which a listing begins, for the manager at `host`: one
/// item is asked for.
pub open spec fn begin_spec(host: Seq<char>) -> (ListState, ListDirective) {
    match listing_url(host, "1"@) {
        Some(url) => (ListState::Counting, ListDirective::Get { url }),
        None => (ListState::Done, ListDirective::Finish(Err(CephRestfulClientError::UrlParse))),
    }
}

/// The outcome of a listing for which the manager announced `expected` items
/// and sent `groups`: the items of all groups in order, if they are as many
/// as announced. Anything else is a breach of the API.
pub open spec fn listing_outcome(expected: u64, groups: Seq<ImagesInPoolInfo>) -> Result<
    Seq<ImageInfo>,
    CephRestfulClientError,
> {
    if total_images(groups) == expected {
        Ok(flattened(groups))
    } else {
        Err(CephRestfulClientError::Protocol)
    }
}

/// One step of a listing against the manager at `host`.
///
/// - A request that failed on its way settles the listing with its error.
/// - An answer with a status outside 2xx settles it with `status_error`.
/// - The answer to the first request must carry a count in `X-Total-Count`:
///   without the header, or with a value that is no count, the listing is
///   settled with `Protocol`. With a count, all items are asked for.
/// - The answer to the second request must carry groups that hold as many
///   items as were announced; then the items are the outcome. Without groups
///   or with another number of items the listing is settled with `Protocol`.
/// - Whatever comes after the listing was settled is answered with `Protocol`.
pub open spec fn list_spec(host: Seq<char>, state: ListState, event: ListEvent) -> (
    ListState,
    ListDirective,
) {
    let failed = |e: CephRestfulClientError| (ListState::Done, ListDirective::Finish(Err(e)));
    match (state, event) {
        (ListState::Done, _) => failed(CephRestfulClientError::Protocol),
        (_, ListEvent::Failed(e)) => failed(e),
        (ListState::Counting, ListEvent::Answered { status, total_count, .. }) => {
            if !is_success(status) {
                failed(status_error(status))
            } else {
                match total_count {
                    None => failed(CephRestfulClientError::Protocol),
                    Some(value) => match count_of(value@) {
                        None => failed(CephRestfulClientError::Protocol),
                        Some(n) => match listing_url(host, decimal_text(n as nat)) {
                            Some(url) => (
                                ListState::Listing { expected: n },
                                ListDirective::Get { url },
                            ),
                            None => failed(CephRestfulClientError::UrlParse),
                        },
                    },
                }
            }
        },
        (ListState::Listing { expected }, ListEvent::Answered { status, groups, .. }) => {
            if !is_success(status) {
                failed(status_error(status))
            } else {
                match groups {
                    None => failed(CephRestfulClientError::Protocol),
                    Some(gs) => (
                        ListState::Done,
                        ListDirective::Finish(listing_outcome(expected, gs@)),
                    ),
                }
            }
        },
    }
}

/// The outcome of a whole listing against the manager at `host`, given what
/// came of its first and of its second request. A listing that is settled
/// before its second request does not look at `second`.
pub open spec fn listing_run(host: Seq<char>, first: ListEvent, second: ListEvent) -> Result<
    Seq<ImageInfo>,
    CephRestfulClientError,
> {
    let start = begin_spec(host);
    match start.1 {
        ListDirective::Finish(outcome) => outcome,
        ListDirective::Get { .. } => {
            let counted = list_spec(host, start.0, first);
            match counted.1 {
                ListDirective::Finish(outcome) => outcome,
                ListDirective::Get { .. } => {
                    let listed = list_spec(host, counted.0, second);
                    match listed.1 {
                        ListDirective::Finish(outcome) => outcome,
                        ListDirective::Get { .. } => Err(CephRestfulClientError::Protocol),
                    }
                },
            }
        },
    }
}

/// A listing that succeeds holds exactly as many items as were announced,
/// and they are the items of the groups in order; a listing whose groups
/// hold another number of items fails with `Protocol`.
pub proof fn lemma_listing_is_as_long_as_announced(expected: u64, groups: Seq<ImagesInPoolInfo>)
    ensures
        match listing_outcome(expected, groups) {
            Ok(images) => images.len() == expected && images == flattened(groups)
                && total_images(groups) == expected,
            Err(e) => total_images(groups) != expected && e == CephRestfulClientError::Protocol,
        },
{
    lemma_flattened_len(groups);
}

/// If `X-Total-Count` announces `n` items, a listing that succeeds has `n`
/// items: they are the items of the groups of the second answer, in order,
/// and the lengths of those groups add up to `n`.
pub proof fn lemma_listing_counts(
    host: Seq<char>,
    first: ListEvent,
    second: ListEvent,
    value: Vec<u8>,
    n: u64,
)
    requires
        first matches ListEvent::Answered { total_count, .. } && total_count == Some(value),
        count_of(value@) == Some(n),
    ensures
        listing_run(host, first, second) matches Ok(images) ==> {
            &&& images.len() == n
            &&& second matches ListEvent::Answered { groups: Some(gs), .. }
            &&& images == flattened(gs@)
            &&& total_images(gs@) == n
        },
{
    if listing_run(host, first, second) is Ok {
        let start = begin_spec(host);
        let counted = list_spec(host, start.0, first);
        assert(counted.0 == (ListState::Listing { expected: n }));
        match second {
            ListEvent::Answered { groups: Some(gs), .. } => {
                lemma_listing_is_as_long_as_announced(n, gs@);
            },
            _ => {},
        }
    }
}

/// Listing twice against a manager that has not changed gives the same items
/// in the same order: the outcome of a listing is a function of the
/// manager's address and of its two answers, and of nothing that an earlier
/// listing may have left behind.
pub proof fn lemma_listing_repeatable(
    once: CephRestfulClient,
    again: CephRestfulClient,
    first: ListEvent,
    second: ListEvent,
)
    requires
        once.access().host@ == again.access().host@,
    ensures
        listing_run(once.access().host@, first, second) == listing_run(
            again.access().host@,
            first,
            second,
        ),
{
}

/// A listing sends two requests at most: whatever answers the second one
/// settles it.
pub proof fn lemma_listing_settles(host: Seq<char>, expected: u64, event: ListEvent)
    ensures
        list_spec(host, ListState::Listing { expected }, event).0 == ListState::Done,
        list_spec(host, ListState::Listing { expected }, event).1 is Finish,
        list_spec(host, ListState::Done, event).0 == ListState::Done,
        list_spec(host, ListState::Counting, event).0 != ListState::Counting,
{
}

impl CephRestfulClient {
    /// The address of the image listing with the parameter `limit`.
    pub fn listing_address(&self, limit: &str) -> (address: Result<
        String,
        CephRestfulClientError,
    >)
        ensures
            match address {
                Ok(url) => listing_url(self.access().host@, limit@) == Some(url@),
                Err(e) => listing_url(self.access().host@, limit@) is None && e
                    == CephRestfulClientError::UrlParse,
            },
    {
        let endpoint = self.endpoint("/api/block/image")?;
        match append_query_pair(endpoint.as_str(), "limit", limit) {
            Ok(url) => Ok(url),
            Err(_) => Err(CephRestfulClientError::UrlParse),
        }
    }

    /// Begins a listing: one item is asked for, to learn from the answer how
    /// many there are.
    pub fn begin_listing(&self) -> (start: (ListState, ListAction))
        ensures
            (start.0, start.1@) == begin_spec(self.access().host@),
    {
        match self.listing_address("1") {
            Ok(url) => (ListState::Counting, ListAction::Get { url }),
            Err(e) => (ListState::Done, ListAction::Finish(Err(e))),
        }
    }

    /// Takes a listing one step further.
    pub fn list_images(&self, state: ListState, event: ListEvent) -> (step: (
        ListState,
        ListAction,
    ))
        ensures
            (step.0, step.1@) == list_spec(self.access().host@, state, event),
    {
        match (state, event) {
            (ListState::Done, _) => settled(CephRestfulClientError::Protocol),
            (_, ListEvent::Failed(e)) => settled(e),
            (ListState::Counting, ListEvent::Answered { status, total_count, .. }) => {
                if status < 200 || status > 299 {
                    return settled(error_of_status(status));
                }
                let value = match total_count {
                    Some(value) => value,
                    None => {
                        return settled(CephRestfulClientError::Protocol);
                    },
                };
                let expected = match parse_count(value.as_slice()) {
                    Some(n) => n,
                    None => {
                        return settled(CephRestfulClientError::Protocol);
                    },
                };
                let limit = format_count(expected);
                match self.listing_address(limit.as_str()) {
                    Ok(url) => (ListState::Listing { expected }, ListAction::Get { url }),
                    Err(e) => settled(e),
                }
            },
            (ListState::Listing { expected }, ListEvent::Answered { status, groups, .. }) => {
                if status < 200 || status > 299 {
                    return settled(error_of_status(status));
                }
                let groups = match groups {
                    Some(groups) => groups,
                    None => {
                        return settled(CephRestfulClientError::Protocol);
                    },
                };
                proof {
                    lemma_flattened_len(groups@);
                }
                let images = flatten(groups);
                if images.len() as u64 == expected {
                    (ListState::Done, ListAction::Finish(Ok(images)))
                } else {
                    settled(CephRestfulClientError::Protocol)
                }
            },
        }
    }
}

/// The error that an answer with a status outside 2xx is reported as.
pub fn error_of_status(status: u16) -> (error: CephRestfulClientError)
    ensures
        error == status_error(status),
{
    if 500 <= status && status <= 599 {
        CephRestfulClientError::TransientNetwork
    } else {
        CephRestfulClientError::Protocol
    }
}

fn settled(error: CephRestfulClientError) -> (step: (ListState, ListAction))
    ensures
        step.0 == ListState::Done,
        step.1@ == ListDirective::Finish(Err(error)),
{
    (ListState::Done, ListAction::Finish(Err(error)))
}

} // verus!
