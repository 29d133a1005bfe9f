//! One scrape: from the outcome of a listing to the text that is served.

use crate::ceph::image::{ImageInfo, ImageMetadata};
use crate::ceph::CephRestfulClientError;
use crate::router::exposition::{
    encode_registry, family_series, gauge_family, new_family, new_registry, plain_gauge,
    register_family, register_family_in_bytes, register_gauge, registry_metrics, registry_prefix,
    set_series, Labels, Registered, Series,
};
use prometheus_client::registry::Registry;
use vstd::prelude::*;

verus! {

/// The status of an answer that carries a payload.
pub const OK: u16 = 200;

/// The status of an answer whose payload could not be written.
pub const INTERNAL_SERVER_ERROR: u16 = 500;

/// What one scrape found: whether the manager answered, and the images it
/// listed if it did. A snapshot of a manager that is down holds no images.
#[derive(Debug)]
pub struct Snapshot {
    up: bool,
    volumes: Vec<ImageInfo>,
}

impl Snapshot {
    /// A manager that is down has no images.
    #[verifier::type_invariant]
    spec fn consistent(self) -> bool {
        !self.up ==> self.volumes@.len() == 0
    }

    /// Whether the manager answered the listing.
    pub closed spec fn up(&self) -> bool {
        self.up
    }

    /// The images that the listing gave, in its order.
    pub closed spec fn volumes(&self) -> Seq<ImageInfo> {
        self.volumes@
    }

    /// The snapshot of a listing that succeeded.
    pub fn healthy(volumes: Vec<ImageInfo>) -> (snapshot: Self)
        ensures
            snapshot.up(),
            snapshot.volumes() == volumes@,
    {
        Snapshot { up: true, volumes }
    }

    /// The snapshot of a listing that failed.
    pub fn degraded() -> (snapshot: Self)
        ensures
            !snapshot.up(),
            snapshot.volumes() == Seq::<ImageInfo>::empty(),
    {
        Snapshot { up: false, volumes: Vec::new() }
    }

    /// The snapshot of a listing, however it ended. Whatever a failed listing
    /// may have gathered before it failed is not part of the outcome, so none
    /// of it can reach the snapshot.
    pub fn of(fetched: Result<Vec<ImageInfo>, CephRestfulClientError>) -> (snapshot: Self)
        ensures
            snapshot.up() == fetched is Ok,
            fetched matches Ok(volumes) ==> snapshot.volumes() == volumes@,
            fetched is Err ==> snapshot.volumes() == Seq::<ImageInfo>::empty(),
    {
        match fetched {
            Ok(volumes) => Snapshot::healthy(volumes),
            Err(_) => Snapshot::degraded(),
        }
    }

    /// Whether the manager answered. A snapshot that says no holds no images.
    pub fn is_up(&self) -> (up: bool)
        ensures
            up == self.up(),
            !up ==> self.volumes().len() == 0,
    {
        proof {
            use_type_invariant(self);
        }
        self.up
    }

    /// The images of the snapshot.
    pub fn images(&self) -> (images: &Vec<ImageInfo>)
        ensures
            images@ == self.volumes(),
            !self.up() ==> images@.len() == 0,
    {
        proof {
            use_type_invariant(self);
        }
        &self.volumes
    }
}

/// The five numbers that are served of each image.
#[derive(Debug, Clone, Copy, PartialEq, Eq, Structural)]
pub enum Measure {
    Size,
    ObjSize,
    NumObjs,
    TotalDiskUsage,
    DiskUsage,
}

/// What an image reports for a measure.
pub open spec fn measured(measure: Measure, image: ImageInfo) -> u64 {
    match measure {
        Measure::Size => image.size,
        Measure::ObjSize => image.obj_size,
        Measure::NumObjs => image.num_objs,
        Measure::TotalDiskUsage => image.total_disk_usage,
        Measure::DiskUsage => image.disk_usage,
    }
}

/// The value that a gauge takes for a number of the listing. Gauges hold
/// signed 64-bit integers: a number up to `i64::MAX` is itself, a larger one
/// wraps around.
pub open spec fn gauge_reading(value: u64) -> i64 {
    if value <= i64::MAX {
        value as i64
    } else {
        (value - 0x1_0000_0000_0000_0000) as i64
    }
}

/// The label set of an image: its name, its id and its pool, under the keys
/// `image_name`, `image_id` and `pool_name`, in that order.
pub open spec fn labels_of(image: ImageInfo) -> Labels {
    seq![
        ("image_name"@, image.name@),
        ("image_id"@, image.id@),
        ("pool_name"@, image.pool_name@),
    ]
}

/// The series of a measure over a listing. Each image sets the series of its
/// label set; of two images with the same name, id and pool the later one
/// stays.
pub open spec fn series_of(measure: Measure, images: Seq<ImageInfo>) -> Series
    decreases images.len(),
{
    if images.len() == 0 {
        Series::empty()
    } else {
        series_of(measure, images.drop_last()).insert(
            labels_of(images.last()),
            gauge_reading(measured(measure, images.last())),
        )
    }
}

/// The gauge that says whether the manager is up.
pub open spec fn up_metric(up: bool) -> Registered {
    plain_gauge(
        "up"@,
        "Value is 1 if the ceph mgr providing api endpoint is up, 0 otherwise"@,
        if up {
            1i64
        } else {
            0i64
        },
    )
}

/// The family of a measure over a listing, under its name and help text.
pub open spec fn measure_metric(measure: Measure, images: Seq<ImageInfo>) -> Registered {
    let series = series_of(measure, images);
    match measure {
        Measure::Size => gauge_family("image_size"@, "Allocated size of the image"@, true, series),
        Measure::ObjSize => gauge_family(
            "image_obj_size"@,
            "Size of the image object"@,
            true,
            series,
        ),
        Measure::NumObjs => gauge_family(
            "image_num_objs"@,
            "Number of objects in the image"@,
            false,
            series,
        ),
        Measure::TotalDiskUsage => gauge_family(
            "image_total_disk_usage"@,
            "Total disk usage of the image"@,
            true,
            series,
        ),
        Measure::DiskUsage => gauge_family(
            "image_disk_usage"@,
            "Disk usage of the image"@,
            true,
            series,
        ),
    }
}

/// The metrics that a snapshot is served as, in order: always the `up`
/// gauge, and behind it, if the manager is up, the five families.
pub open spec fn exposed(up: bool, images: Seq<ImageInfo>) -> Seq<Registered> {
    if up {
        seq![
            up_metric(true),
            measure_metric(Measure::Size, images),
            measure_metric(Measure::ObjSize, images),
            measure_metric(Measure::NumObjs, images),
            measure_metric(Measure::TotalDiskUsage, images),
            measure_metric(Measure::DiskUsage, images),
        ]
    } else {
        seq![up_metric(false)]
    }
}

/// The value of a gauge for a number of the listing.
pub fn gauge_value(value: u64) -> (reading: i64)
    ensures
        reading == gauge_reading(value),
{
    if value <= 0x7fff_ffff_ffff_ffff {
        value as i64
    } else {
        let above: u64 = value - 0x8000_0000_0000_0000;
        (above as i64) + i64::MIN
    }
}

/// The label set of an image as the registry takes it.
pub fn label_pairs(metadata: &ImageMetadata) -> (pairs: Vec<(String, String)>)
    ensures
        pairs.deep_view() == seq![
            ("image_name"@, metadata.image_name@),
            ("image_id"@, metadata.image_id@),
            ("pool_name"@, metadata.pool_name@),
        ],
{
    let mut pairs: Vec<(String, String)> = Vec::new();
    pairs.push((String::from_str("image_name"), metadata.image_name.clone()));
    pairs.push((String::from_str("image_id"), metadata.image_id.clone()));
    pairs.push((String::from_str("pool_name"), metadata.pool_name.clone()));
    assert(pairs.deep_view() =~= seq![
        ("image_name"@, metadata.image_name@),
        ("image_id"@, metadata.image_id@),
        ("pool_name"@, metadata.pool_name@),
    ]);
    pairs
}

/// Two listing entries with the same name, id and pool are one series,
/// whatever else they report.
pub proof fn lemma_labels_ignore_usage(a: ImageInfo, b: ImageInfo)
    requires
        a.name@ == b.name@,
        a.id@ == b.id@,
        a.pool_name@ == b.pool_name@,
    ensures
        labels_of(a) == labels_of(b),
{
}

/// No two images of the listing have the same name, id and pool.
pub open spec fn distinct_identities(images: Seq<ImageInfo>) -> bool {
    forall|i: int, j: int|
        0 <= i < j < images.len() ==> labels_of(#[trigger] images[i]) != labels_of(
            #[trigger] images[j],
        )
}

/// Whether some image of the listing has this label set.
pub open spec fn listed(images: Seq<ImageInfo>, labels: Labels) -> bool {
    exists|i: int| 0 <= i < images.len() && labels_of(#[trigger] images[i]) == labels
}

/// A measure has a series for the label set of each image of the listing,
/// and for nothing else. There are never more series than images.
pub proof fn lemma_series_labels(measure: Measure, images: Seq<ImageInfo>)
    ensures
        forall|labels: Labels|
            series_of(measure, images).dom().contains(labels) <==> #[trigger] listed(
                images,
                labels,
            ),
        series_of(measure, images).dom().finite(),
        series_of(measure, images).dom().len() <= images.len(),
    decreases images.len(),
{
    if images.len() > 0 {
        let front = images.drop_last();
        let last = images.len() - 1;
        lemma_series_labels(measure, front);
        assert forall|labels: Labels|
            series_of(measure, images).dom().contains(labels) <==> #[trigger] listed(
                images,
                labels,
            ) by {
            if listed(images, labels) {
                let i = choose|i: int|
                    0 <= i < images.len() && labels_of(#[trigger] images[i]) == labels;
                if i < last {
                    assert(labels_of(front[i]) == labels);
                    assert(listed(front, labels));
                }
            }
            if series_of(measure, images).dom().contains(labels) {
                if labels == labels_of(images.last()) {
                    assert(labels_of(images[last]) == labels);
                } else {
                    assert(listed(front, labels));
                    let i = choose|i: int|
                        0 <= i < front.len() && labels_of(#[trigger] front[i]) == labels;
                    assert(labels_of(images[i]) == labels);
                }
            }
        }
    } else {
        assert forall|labels: Labels| !#[trigger] listed(images, labels) by {}
    }
}

/// The series of an image holds the number that the image reports, unless a
/// later image of the listing has the same name, id and pool. A number up to
/// `i64::MAX` is held as it is.
pub proof fn lemma_series_value(measure: Measure, images: Seq<ImageInfo>, i: int)
    requires
        0 <= i < images.len(),
        forall|j: int|
            i < j < images.len() ==> labels_of(#[trigger] images[j]) != labels_of(images[i]),
    ensures
        series_of(measure, images).dom().contains(labels_of(images[i])),
        series_of(measure, images)[labels_of(images[i])] == gauge_reading(
            measured(measure, images[i]),
        ),
        measured(measure, images[i]) <= i64::MAX ==> series_of(measure, images)[labels_of(
            images[i],
        )] == measured(measure, images[i]),
    decreases images.len(),
{
    if i < images.len() - 1 {
        let front = images.drop_last();
        assert forall|j: int| i < j < front.len() implies labels_of(#[trigger] front[j])
            != labels_of(front[i]) by {
            assert(front[j] == images[j]);
        }
        lemma_series_value(measure, front, i);
        assert(labels_of(images[images.len() - 1]) != labels_of(images[i]));
    }
}

/// Where no two images have the same name, id and pool, each measure has
/// exactly one series for each image, with the number that the image reports.
pub proof fn lemma_one_series_per_image(measure: Measure, images: Seq<ImageInfo>)
    requires
        distinct_identities(images),
    ensures
        series_of(measure, images).dom().finite(),
        series_of(measure, images).dom().len() == images.len(),
        forall|i: int|
            0 <= i < images.len() ==> series_of(measure, images)[labels_of(#[trigger] images[i])]
                == gauge_reading(measured(measure, images[i])),
    decreases images.len(),
{
    lemma_series_labels(measure, images);
    if images.len() > 0 {
        let front = images.drop_last();
        assert(distinct_identities(front)) by {
            assert forall|i: int, j: int| 0 <= i < j < front.len() implies labels_of(
                #[trigger] front[i],
            ) != labels_of(#[trigger] front[j]) by {
                assert(front[i] == images[i] && front[j] == images[j]);
            }
        }
        lemma_one_series_per_image(measure, front);
        lemma_series_labels(measure, front);
        assert(!series_of(measure, front).dom().contains(labels_of(images.last()))) by {
            if listed(front, labels_of(images.last())) {
                let i = choose|i: int|
                    0 <= i < front.len() && labels_of(#[trigger] front[i]) == labels_of(
                        images.last(),
                    );
                assert(front[i] == images[i]);
                assert(labels_of(images[i]) != labels_of(images[images.len() - 1]));
            }
        }
    }
    assert forall|i: int| 0 <= i < images.len() implies series_of(measure, images)[labels_of(
        #[trigger] images[i],
    )] == gauge_reading(measured(measure, images[i])) by {
        assert forall|j: int| i < j < images.len() implies labels_of(#[trigger] images[j])
            != labels_of(images[i]) by {}
        lemma_series_value(measure, images, i);
    }
}

/// A listing that failed is served as a manager that is down: the `up` gauge
/// with the value 0 and nothing else, so no series of any image.
pub proof fn lemma_failed_listing_is_served_as_down(images: Seq<ImageInfo>)
    ensures
        exposed(false, images) == seq![up_metric(false)],
        up_metric(false).series == Series::empty().insert(Labels::empty(), 0i64),
        !up_metric(false).labelled,
{
}

/// A listing that succeeded is served as the `up` gauge with the value 1 and
/// the five families, the sizes in bytes and the number of objects without a
/// unit, each with the series of its measure.
pub proof fn lemma_listing_is_served_in_full(images: Seq<ImageInfo>)
    ensures
        exposed(true, images).len() == 6,
        exposed(true, images)[0].series == Series::empty().insert(Labels::empty(), 1i64),
        forall|k: int|
            1 <= k < 6 ==> (#[trigger] exposed(true, images)[k]).labelled,
        exposed(true, images)[1].series == series_of(Measure::Size, images),
        exposed(true, images)[2].series == series_of(Measure::ObjSize, images),
        exposed(true, images)[3].series == series_of(Measure::NumObjs, images),
        exposed(true, images)[4].series == series_of(Measure::TotalDiskUsage, images),
        exposed(true, images)[5].series == series_of(Measure::DiskUsage, images),
        exposed(true, images)[1].in_bytes && exposed(true, images)[2].in_bytes && !exposed(
            true,
            images,
        )[3].in_bytes && exposed(true, images)[4].in_bytes && exposed(true, images)[5].in_bytes,
{
}

/// Builds the registry of a snapshot: the `up` gauge, and for a manager that
/// is up the five families, each with one series for every image.
pub fn registry_of(snapshot: &Snapshot) -> (registry: Registry)
    ensures
        registry_prefix(registry) == "ceph_rbd"@,
        registry_metrics(registry) == exposed(snapshot.up(), snapshot.volumes()),
{
    let mut registry = new_registry("ceph_rbd");
    let help = "Value is 1 if the ceph mgr providing api endpoint is up, 0 otherwise";
    if !snapshot.is_up() {
        register_gauge(&mut registry, "up", help, 0);
        assert(registry_metrics(registry) =~= exposed(false, snapshot.volumes()));
        return registry;
    }
    register_gauge(&mut registry, "up", help, 1);
    let images = snapshot.images();
    let mut size = new_family();
    let mut obj_size = new_family();
    let mut num_objs = new_family();
    let mut total_disk_usage = new_family();
    let mut disk_usage = new_family();
    let n: usize = images.len();
    let mut i: usize = 0;
    while i < n
        invariant
            n == images@.len(),
            0 <= i <= n,
            family_series(size) == series_of(Measure::Size, images@.take(i as int)),
            family_series(obj_size) == series_of(Measure::ObjSize, images@.take(i as int)),
            family_series(num_objs) == series_of(Measure::NumObjs, images@.take(i as int)),
            family_series(total_disk_usage) == series_of(
                Measure::TotalDiskUsage,
                images@.take(i as int),
            ),
            family_series(disk_usage) == series_of(Measure::DiskUsage, images@.take(i as int)),
        decreases n - i,
    {
        let image = &images[i];
        let label = label_pairs(&ImageMetadata::of(image));
        proof {
            assert(images@.take(i + 1).drop_last() =~= images@.take(i as int));
            assert(images@.take(i + 1).last() == *image);
            assert(label.deep_view() =~= labels_of(*image));
        }
        set_series(&mut size, &label, gauge_value(image.size));
        set_series(&mut obj_size, &label, gauge_value(image.obj_size));
        set_series(&mut num_objs, &label, gauge_value(image.num_objs));
        set_series(&mut total_disk_usage, &label, gauge_value(image.total_disk_usage));
        set_series(&mut disk_usage, &label, gauge_value(image.disk_usage));
        i = i + 1;
    }
    proof {
        assert(images@.take(n as int) =~= images@);
    }
    register_family_in_bytes(&mut registry, "image_size", "Allocated size of the image", size);
    register_family_in_bytes(
        &mut registry,
        "image_obj_size",
        "Size of the image object",
        obj_size,
    );
    register_family(
        &mut registry,
        "image_num_objs",
        "Number of objects in the image",
        num_objs,
    );
    register_family_in_bytes(
        &mut registry,
        "image_total_disk_usage",
        "Total disk usage of the image",
        total_disk_usage,
    );
    register_family_in_bytes(
        &mut registry,
        "image_disk_usage",
        "Disk usage of the image",
        disk_usage,
    );
    assert(registry_metrics(registry) =~= exposed(true, snapshot.volumes()));
    registry
}

/// The answer to a scrape, given what the encoder made of the registry: the
/// text with status 200, or status 500 and no text where it made nothing.
pub fn answer(encoded: Option<String>) -> (response: (u16, String))
    ensures
        match encoded {
            Some(text) => response.0 == OK && response.1 == text,
            None => response.0 == INTERNAL_SERVER_ERROR && response.1@ == Seq::<char>::empty(),
        },
{
    match encoded {
        Some(text) => (OK, text),
        None => (INTERNAL_SERVER_ERROR, String::new()),
    }
}

/// Answers a scrape from the outcome of the listing that was made for it.
/// A listing that failed is served too, as a manager that is down. The text
/// is what the encoder writes for `registry_of` the snapshot; the status is
/// 500, with no text, only where the encoder fails.
pub fn metrics_handler(fetched: Result<Vec<ImageInfo>, CephRestfulClientError>) -> (response: (
    u16,
    String,
))
    ensures
        response.0 == OK || response.0 == INTERNAL_SERVER_ERROR,
        response.0 == INTERNAL_SERVER_ERROR ==> response.1@ == Seq::<char>::empty(),
{
    let snapshot = Snapshot::of(fetched);
    let registry = registry_of(&snapshot);
    answer(encode_registry(&registry))
}

} // verus!
