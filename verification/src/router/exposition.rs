//! The registry of `prometheus_client`, as far as a scrape fills it.
//!
//! A scrape builds a fresh registry, hands it gauges that already hold their
//! values, and has it written out. Nothing keeps a handle on a metric once the
//! registry has it, so what the registry holds is what was handed over.

use prometheus_client::encoding::text::encode;
use prometheus_client::metrics::family::Family;
use prometheus_client::metrics::gauge::Gauge;
use prometheus_client::registry::{Registry, Unit};
use vstd::prelude::*;

verus! {

/// A label set as the registry sees it: pairs of key and value, in order.
pub type Labels = Seq<(Seq<char>, Seq<char>)>;

/// The series of one metric: the value of the gauge of each label set.
pub type Series = Map<Labels, i64>;

/// One registered metric: how it was described and what it holds.
pub struct Registered {
    pub name: Seq<char>,
    /// The help text as it was handed over. The registry ends it with a full
    /// stop when it writes it out.
    pub help: Seq<char>,
    /// Whether the metric was declared in bytes.
    pub in_bytes: bool,
    /// Whether the metric is a family, with a label set on each series, or a
    /// single gauge, whose one series has no labels.
    pub labelled: bool,
    pub series: Series,
}

/// A single gauge that holds `value`.
pub open spec fn plain_gauge(name: Seq<char>, help: Seq<char>, value: i64) -> Registered {
    Registered {
        name,
        help,
        in_bytes: false,
        labelled: false,
        series: Series::empty().insert(Labels::empty(), value),
    }
}

/// A family of gauges with the given series.
pub open spec fn gauge_family(
    name: Seq<char>,
    help: Seq<char>,
    in_bytes: bool,
    series: Series,
) -> Registered {
    Registered { name, help, in_bytes, labelled: true, series }
}

/// The registry of `prometheus_client`. What it holds is spoken of through
/// `registry_prefix` and `registry_metrics`.
#[verifier::external_type_specification]
#[verifier::external_body]
pub struct ExRegistry(prometheus_client::registry::Registry);

/// A `Family` of integer gauges whose label sets are lists of pairs. What it
/// holds is spoken of through `family_series`. The family is kept behind this
/// struct because its type names a function pointer.
#[verifier::external_body]
pub struct GaugeFamily {
    inner: Family<Vec<(String, String)>, Gauge>,
}

/// The prefix that a registry puts before the name of each of its metrics.
pub uninterp spec fn registry_prefix(registry: Registry) -> Seq<char>;

/// The metrics of a registry, in the order in which they were registered.
pub uninterp spec fn registry_metrics(registry: Registry) -> Seq<Registered>;

/// The series of a family: for each label set that a gauge was made for, the
/// value that the gauge holds.
pub uninterp spec fn family_series(family: GaugeFamily) -> Series;

/// Calls `Registry::with_prefix`. The contract claims that the new registry
/// has that prefix and no metrics.
#[verifier::external_body]
pub(crate) fn new_registry(prefix: &str) -> (registry: Registry)
    ensures
        registry_prefix(registry) == prefix@,
        registry_metrics(registry) == Seq::<Registered>::empty(),
{
    Registry::with_prefix(prefix)
}

/// Calls `Registry::register` with a new `Gauge` that was set to `value`. The
/// contract claims that the registry keeps its prefix and its metrics and has
/// that gauge as one more metric, behind them.
#[verifier::external_body]
pub(crate) fn register_gauge(registry: &mut Registry, name: &str, help: &str, value: i64)
    ensures
        registry_prefix(*final(registry)) == registry_prefix(*old(registry)),
        registry_metrics(*final(registry)) == registry_metrics(*old(registry)).push(
            plain_gauge(name@, help@, value),
        ),
{
    let gauge: Gauge = Gauge::default();
    gauge.set(value);
    registry.register(name, help, gauge);
}

/// Calls `Family::default`. The contract claims that the new family has no
/// series.
#[verifier::external_body]
pub(crate) fn new_family() -> (family: GaugeFamily)
    ensures
        family_series(family) == Series::empty(),
{
    GaugeFamily { inner: Family::default() }
}

/// Calls `Family::get_or_create` and `Gauge::set` on the gauge it hands out.
/// The contract claims that the series of `labels` now holds `value`, be it
/// new or not, and that the other series are as they were.
#[verifier::external_body]
pub(crate) fn set_series(family: &mut GaugeFamily, labels: &Vec<(String, String)>, value: i64)
    ensures
        family_series(*final(family)) == family_series(*old(family)).insert(
            labels.deep_view(),
            value,
        ),
{
    family.inner.get_or_create(labels).set(value);
}

/// Calls `Registry::register` with the family. The contract claims that the
/// registry keeps its prefix and its metrics and has the family, with the
/// series it held, as one more metric, behind them.
#[verifier::external_body]
pub(crate) fn register_family(
    registry: &mut Registry,
    name: &str,
    help: &str,
    family: GaugeFamily,
)
    ensures
        registry_prefix(*final(registry)) == registry_prefix(*old(registry)),
        registry_metrics(*final(registry)) == registry_metrics(*old(registry)).push(
            gauge_family(name@, help@, false, family_series(family)),
        ),
{
    registry.register(name, help, family.inner);
}

/// Calls `Registry::register_with_unit` with the family and `Unit::Bytes`.
/// The contract claims what `register_family` claims, and that the metric is
/// declared in bytes.
#[verifier::external_body]
pub(crate) fn register_family_in_bytes(
    registry: &mut Registry,
    name: &str,
    help: &str,
    family: GaugeFamily,
)
    ensures
        registry_prefix(*final(registry)) == registry_prefix(*old(registry)),
        registry_metrics(*final(registry)) == registry_metrics(*old(registry)).push(
            gauge_family(name@, help@, true, family_series(family)),
        ),
{
    registry.register_with_unit(name, help, Unit::Bytes, family.inner);
}

/// Calls `prometheus_client::encoding::text::encode` on an empty `String` and
/// hands back the text, or `None` where the encoder reported an error.
/// Nothing is claimed of the text: the encoder writes the series of a family
/// in the order in which a hash map yields them.
#[verifier::external_body]
pub(crate) fn encode_registry(registry: &Registry) -> (text: Option<String>) {
    let mut text = String::new();
    encode(&mut text, registry).ok().map(|_| text)
}

} // verus!
