//! The metric series of the `prometheus` crate, as far as the exporter uses
//! them: an integer counter, integer gauges partitioned by label values, and
//! the registry that gathers them.
//!
//! Nothing in this file is proved. Each item states what the `prometheus`
//! source shows of one of its functions; the rest of the crate is verified
//! against these statements.

use vstd::prelude::*;

verus! {

#[verifier::external_type_specification]
#[verifier::external_body]
pub struct ExRegistry(prometheus::Registry);

#[verifier::external_type_specification]
#[verifier::external_body]
pub struct ExError(prometheus::Error);

#[verifier::external_type_specification]
#[verifier::external_body]
pub struct ExMetricFamily(prometheus::proto::MetricFamily);

/// A `prometheus::IntCounter`: one unsigned value that only goes up.
///
/// The counter is generic over a trait of `prometheus` that Verus does not
/// know, so it is held here, out of Verus's sight, and spoken of through
/// [`counter_name`] and [`counter_value`].
#[verifier::external_body]
pub struct CounterSeries {
    inner: prometheus::IntCounter,
}

/// A `prometheus::IntGaugeVec`: signed values, one for each combination of
/// label values that was set so far.
///
/// Held out of Verus's sight for the same reason, and spoken of through
/// [`gauge_name`], [`gauge_labels`] and [`gauge_children`].
#[verifier::external_body]
pub struct GaugeSeries {
    inner: prometheus::IntGaugeVec,
}

/// The name under which a counter is exported.
pub uninterp spec fn counter_name(counter: CounterSeries) -> Seq<char>;

/// The current value of a counter.
pub uninterp spec fn counter_value(counter: CounterSeries) -> u64;

/// The name under which a gauge vector is exported.
pub uninterp spec fn gauge_name(gauge: GaugeSeries) -> Seq<char>;

/// The label names that a gauge vector was made with, in their order.
pub uninterp spec fn gauge_labels(gauge: GaugeSeries) -> Seq<Seq<char>>;

/// The children of a gauge vector. `prometheus` keys them by a hash of the
/// label values; each child keeps the label values it was created with and
/// its current value.
pub uninterp spec fn gauge_children(gauge: GaugeSeries) -> Map<u64, (Seq<Seq<char>>, i64)>;

/// The key of the child for the given label values: the 64-bit FNV-1a hash
/// that `prometheus` computes over the bytes of the values, one after the
/// other.
pub uninterp spec fn label_hash(values: Seq<Seq<char>>) -> u64;

/// The names of the series that a registry gathers.
pub uninterp spec fn registered(registry: prometheus::Registry) -> Set<Seq<char>>;

/// Whether `prometheus` writes the families as text: it does where each has
/// a name, at least one metric, and a type other than untyped.
pub uninterp spec fn encodable(families: Seq<prometheus::proto::MetricFamily>) -> bool;

/// The text that `prometheus` writes for metric families.
pub uninterp spec fn encoded_text(families: Seq<prometheus::proto::MetricFamily>) -> Seq<char>;

/// The identifier under which a registry files a series of the given name:
/// the 64-bit FNV-1a hash that `prometheus` computes over the bytes of the
/// name and a separator byte. A registry takes no two series with one
/// identifier.
pub uninterp spec fn descriptor_id(name: Seq<char>) -> u64;

/// A character that may start a label name: an ASCII letter or an
/// underscore.
pub open spec fn is_label_start(c: char) -> bool {
    ('a' <= c <= 'z') || ('A' <= c <= 'Z') || c == '_'
}

/// A character that may start a metric name: what may start a label name,
/// or a colon.
pub open spec fn is_metric_start(c: char) -> bool {
    is_label_start(c) || c == ':'
}

/// An ASCII digit, which may follow the start of a name.
pub open spec fn is_name_digit(c: char) -> bool {
    '0' <= c <= '9'
}

/// What `prometheus` takes for a label name: a start, followed by starts
/// and digits.
pub open spec fn valid_label_name(name: Seq<char>) -> bool {
    &&& name.len() > 0
    &&& is_label_start(name[0])
    &&& forall|i: int| 0 < i < name.len() ==> is_label_start(name[i]) || is_name_digit(name[i])
}

/// What `prometheus` takes for a metric name: a start, followed by starts
/// and digits.
pub open spec fn valid_metric_name(name: Seq<char>) -> bool {
    &&& name.len() > 0
    &&& is_metric_start(name[0])
    &&& forall|i: int| 0 < i < name.len() ==> is_metric_start(name[i]) || is_name_digit(name[i])
}

/// What `prometheus` takes for a counter: a metric name and a help text
/// that is not empty.
pub open spec fn counter_accepted(name: Seq<char>, help: Seq<char>) -> bool {
    valid_metric_name(name) && help.len() > 0
}

/// What `prometheus` takes for a gauge vector: a metric name, a help text
/// that is not empty, and label names that differ from each other.
pub open spec fn gauge_accepted(name: Seq<char>, help: Seq<char>, labels: Seq<Seq<char>>) -> bool {
    &&& valid_metric_name(name)
    &&& help.len() > 0
    &&& forall|i: int| 0 <= i < labels.len() ==> valid_label_name(#[trigger] labels[i])
    &&& forall|i: int, j: int|
        0 <= i < j < labels.len() ==> #[trigger] labels[i] != #[trigger] labels[j]
}

/// The children of a gauge vector after a value was set for label values
/// with the given key: an existing child takes the value and keeps its
/// labels, a missing one is created with these label values.
pub open spec fn children_after_set(
    children: Map<u64, (Seq<Seq<char>>, i64)>,
    key: u64,
    values: Seq<Seq<char>>,
    value: i64,
) -> Map<u64, (Seq<Seq<char>>, i64)> {
    if children.dom().contains(key) {
        children.insert(key, (children[key].0, value))
    } else {
        children.insert(key, (values, value))
    }
}

/// `Registry::new`: the new registry gathers nothing.
pub assume_specification[ prometheus::Registry::new ]() -> (registry: prometheus::Registry)
    ensures
        registered(registry) == Set::<Seq<char>>::empty(),
;

/// `IntCounter::new`: it succeeds on a metric name with a help text that
/// is not empty, and on nothing else. The counter then has the given name
/// and starts at zero.
#[verifier::external_body]
pub(crate) fn counter_new(name: &str, help: &str) -> (made: Result<
    CounterSeries,
    prometheus::Error,
>)
    ensures
        made is Ok <==> counter_accepted(name@, help@),
        made matches Ok(counter) ==> counter_name(counter) == name@ && counter_value(counter)
            == 0,
{
    match prometheus::IntCounter::new(name, help) {
        Ok(inner) => Ok(CounterSeries { inner }),
        Err(e) => Err(e),
    }
}

/// `IntCounter::inc`: adds one to the value with an atomic `fetch_add`,
/// which wraps around at the largest 64-bit value.
#[verifier::external_body]
pub(crate) fn counter_inc(counter: &mut CounterSeries)
    ensures
        counter_name(*final(counter)) == counter_name(*old(counter)),
        counter_value(*final(counter)) == if counter_value(*old(counter)) == u64::MAX {
            0
        } else {
            (counter_value(*old(counter)) + 1) as u64
        },
{
    counter.inner.inc();
}

/// `IntGaugeVec::new` on `Opts::new(name, help)`: it succeeds on a metric
/// name with a help text that is not empty and label names that differ from
/// each other, and on nothing else. The vector then has the given name and
/// label names and no child yet.
#[verifier::external_body]
pub(crate) fn gauge_new(name: &str, help: &str, labels: &Vec<&str>) -> (made: Result<
    GaugeSeries,
    prometheus::Error,
>)
    ensures
        made is Ok <==> gauge_accepted(name@, help@, labels.deep_view()),
        made matches Ok(gauge) ==> {
            &&& gauge_name(gauge) == name@
            &&& gauge_labels(gauge) == labels.deep_view()
            &&& gauge_children(gauge) == Map::<u64, (Seq<Seq<char>>, i64)>::empty()
        },
{
    match prometheus::IntGaugeVec::new(prometheus::Opts::new(name, help), labels.as_slice()) {
        Ok(inner) => Ok(GaugeSeries { inner }),
        Err(e) => Err(e),
    }
}

/// `IntGaugeVec::with_label_values` followed by `IntGauge::set`: sets the
/// child for the given label values, creating it first where the vector has
/// none under their key. `with_label_values` panics unless there is one
/// value for each label name.
#[verifier::external_body]
pub(crate) fn gauge_set(gauge: &mut GaugeSeries, values: &Vec<&str>, value: i64)
    requires
        values.len() == gauge_labels(*old(gauge)).len(),
    ensures
        gauge_name(*final(gauge)) == gauge_name(*old(gauge)),
        gauge_labels(*final(gauge)) == gauge_labels(*old(gauge)),
        gauge_children(*final(gauge)) == children_after_set(
            gauge_children(*old(gauge)),
            label_hash(values.deep_view()),
            values.deep_view(),
            value,
        ),
{
    gauge.inner.with_label_values(values.as_slice()).set(value);
}

/// `Registry::register` on a handle of the counter: it succeeds where no
/// series that the registry gathers has the identifier of the counter, and
/// the registry then gathers the counter as well. Where it fails, the
/// registry gathers what it did before.
#[verifier::external_body]
pub(crate) fn register_counter(registry: &mut prometheus::Registry, counter: &CounterSeries) -> (done:
    Result<(), prometheus::Error>)
    ensures
        done is Ok <==> forall|other: Seq<char>| #[trigger]
            registered(*old(registry)).contains(other) ==> descriptor_id(other)
                != descriptor_id(counter_name(*counter)),
        registered(*final(registry)) == if done is Ok {
            registered(*old(registry)).insert(counter_name(*counter))
        } else {
            registered(*old(registry))
        },
{
    registry.register(Box::new(counter.inner.clone()))
}

/// `Registry::register` on a handle of the gauge vector: it succeeds where
/// no series that the registry gathers has the identifier of the vector,
/// and the registry then gathers the vector as well. Where it fails, the
/// registry gathers what it did before.
#[verifier::external_body]
pub(crate) fn register_gauge(registry: &mut prometheus::Registry, gauge: &GaugeSeries) -> (done:
    Result<(), prometheus::Error>)
    ensures
        done is Ok <==> forall|other: Seq<char>| #[trigger]
            registered(*old(registry)).contains(other) ==> descriptor_id(other)
                != descriptor_id(gauge_name(*gauge)),
        registered(*final(registry)) == if done is Ok {
            registered(*old(registry)).insert(gauge_name(*gauge))
        } else {
            registered(*old(registry))
        },
{
    registry.register(Box::new(gauge.inner.clone()))
}

/// `TextEncoder::encode_utf8` into an empty string. It refuses a family
/// without a name or without metrics and panics on an untyped one; for
/// families that it writes, it succeeds and the string holds their text.
#[verifier::external_body]
pub(crate) fn encode_text(families: &Vec<prometheus::proto::MetricFamily>) -> (text: Result<
    String,
    prometheus::Error,
>)
    requires
        encodable(families@),
    ensures
        text is Ok,
        text matches Ok(t) ==> t@ == encoded_text(families@),
{
    let mut buffer = String::new();
    match prometheus::TextEncoder::new().encode_utf8(families.as_slice(), &mut buffer) {
        Ok(()) => Ok(buffer),
        Err(e) => Err(e),
    }
}

} // verus!
