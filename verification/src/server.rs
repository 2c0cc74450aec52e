//! The aggregator: the long-lived metric series, the update that one scrape
//! makes to them, and the text snapshot.

use crate::metrics::container::{ContainerMetric, ContainerSample};
use crate::metrics::ssh::SshMetrics;
use crate::metrics::CollectorError;
use crate::series::{
    children_after_set, counter_accepted, counter_inc, counter_name, counter_new, counter_value,
    descriptor_id, encodable, encode_text, encoded_text, gauge_accepted, gauge_children,
    gauge_labels, gauge_name, gauge_new, gauge_set, label_hash, register_counter,
    register_gauge, registered, CounterSeries, GaugeSeries,
};
use vstd::prelude::*;

verus! {

/// Why the series could not be set up.
#[derive(Clone, Copy, Debug, PartialEq, Eq)]
pub enum SeriesError {
    /// The registry refused a series, because it files it under the
    /// identifier of one that it gathers already.
    Register,
}

/// The values of all series at one instant.
///
/// A gauge is given by its children: under the key of each combination of
/// label values that was set so far, these label values and the value that
/// was set last.
pub struct SeriesSnapshot {
    pub request_count: u64,
    pub ssh_io_bytes: Map<u64, (Seq<Seq<char>>, i64)>,
    pub container_memory: Map<u64, (Seq<Seq<char>>, i64)>,
    pub container_network: Map<u64, (Seq<Seq<char>>, i64)>,
}

/// The series of the exporter and the registry that gathers them.
///
/// Made once by [`make_state`], changed by every scrape, never reset: a
/// label combination that was set once stays in its gauge.
pub struct AppState {
    registry: prometheus::Registry,
    request_counter: CounterSeries,
    ssh_io_bytes: GaugeSeries,
    container_memory: GaugeSeries,
    container_network: GaugeSeries,
}

impl AppState {
    /// The registry that gathers the series.
    pub closed spec fn registry(&self) -> prometheus::Registry {
        self.registry
    }

    /// The counter of requests.
    pub closed spec fn request_counter(&self) -> CounterSeries {
        self.request_counter
    }

    /// The gauge of the SSH daemon's I/O, by direction.
    pub closed spec fn ssh_io_bytes(&self) -> GaugeSeries {
        self.ssh_io_bytes
    }

    /// The gauge of resident memory, by container.
    pub closed spec fn container_memory(&self) -> GaugeSeries {
        self.container_memory
    }

    /// The gauge of network traffic, by container and direction.
    pub closed spec fn container_network(&self) -> GaugeSeries {
        self.container_network
    }

    /// The series carry the exported names and label names, and the
    /// registry gathers exactly these four.
    pub open spec fn wf(&self) -> bool {
        &&& counter_name(self.request_counter()) == "request_count"@
        &&& gauge_name(self.ssh_io_bytes()) == "ssh_io_bytes"@
        &&& gauge_labels(self.ssh_io_bytes()) == seq!["direction"@]
        &&& gauge_name(self.container_memory()) == "container_memory"@
        &&& gauge_labels(self.container_memory()) == seq!["container"@]
        &&& gauge_name(self.container_network()) == "container_network"@
        &&& gauge_labels(self.container_network()) == seq!["container"@, "direction"@]
        &&& registered(self.registry()) == Set::<Seq<char>>::empty().insert(
            "request_count"@,
        ).insert("ssh_io_bytes"@).insert("container_memory"@).insert("container_network"@)
    }
}

impl View for AppState {
    type V = SeriesSnapshot;

    open spec fn view(&self) -> SeriesSnapshot {
        SeriesSnapshot {
            request_count: counter_value(self.request_counter()),
            ssh_io_bytes: gauge_children(self.ssh_io_bytes()),
            container_memory: gauge_children(self.container_memory()),
            container_network: gauge_children(self.container_network()),
        }
    }
}

/// The metric families that the registry of the exporter gathers when its
/// series hold the given values.
pub uninterp spec fn gathered_families(
    request_count: u64,
    ssh_io_bytes: Map<u64, (Seq<Seq<char>>, i64)>,
    container_memory: Map<u64, (Seq<Seq<char>>, i64)>,
    container_network: Map<u64, (Seq<Seq<char>>, i64)>,
) -> Seq<prometheus::proto::MetricFamily>;

/// The text snapshot of the series when they hold the given values.
pub open spec fn exposition(snapshot: SeriesSnapshot) -> Seq<char> {
    encoded_text(
        gathered_families(
            snapshot.request_count,
            snapshot.ssh_io_bytes,
            snapshot.container_memory,
            snapshot.container_network,
        ),
    )
}

/// `Registry::gather` on the registry of the state: the families of the
/// registered series that have a value, by name, each with its children
/// ordered by their label values. The registry reads the four series of the
/// state, which [`make_state`], the only place that builds a state,
/// registered with it; so what it gathers depends on their values alone.
/// Each family has the name and the type of its series, a counter or a
/// gauge, and one without a child is left out, so `prometheus` writes them.
#[verifier::external_body]
fn gather_series(state: &AppState) -> (families: Vec<prometheus::proto::MetricFamily>)
    requires
        state.wf(),
    ensures
        families@ == gathered_families(
            state@.request_count,
            state@.ssh_io_bytes,
            state@.container_memory,
            state@.container_network,
        ),
        encodable(families@),
{
    state.registry.gather()
}

/// The snapshot of freshly made series: no request counted, no gauge set.
pub open spec fn initial_snapshot() -> SeriesSnapshot {
    SeriesSnapshot {
        request_count: 0,
        ssh_io_bytes: Map::empty(),
        container_memory: Map::empty(),
        container_network: Map::empty(),
    }
}

/// Creates the four series and registers them, one after the other.
///
/// Fails where the registry files two of the series under one identifier.
pub fn make_state() -> (made: Result<AppState, SeriesError>)
    ensures
        made is Ok <==> series_accepted(),
        made matches Ok(state) ==> state.wf() && state@ == initial_snapshot(),
{
    let mut direction: Vec<&str> = Vec::new();
    direction.push("direction");
    let mut container: Vec<&str> = Vec::new();
    container.push("container");
    let mut container_direction: Vec<&str> = Vec::new();
    container_direction.push("container");
    container_direction.push("direction");
    proof {
        assert(direction.deep_view() =~= seq!["direction"@]);
        assert(container.deep_view() =~= seq!["container"@]);
        assert(container_direction.deep_view() =~= seq!["container"@, "direction"@]);
        lemma_series_are_well_named();
    }

    let mut registry = prometheus::Registry::new();

    let request_counter = match counter_new("request_count", "Number of requests to the server.") {
        Ok(counter) => counter,
        Err(_) => unreached(),
    };
    // The registry gathers nothing yet, so it takes the first series.
    match register_counter(&mut registry, &request_counter) {
        Ok(()) => {},
        Err(_) => unreached(),
    }

    let ssh_io_bytes = match gauge_new("ssh_io_bytes", "SSH I/O bytes", &direction) {
        Ok(gauge) => gauge,
        Err(_) => unreached(),
    };
    let ghost first = registered(registry);
    if register_gauge(&mut registry, &ssh_io_bytes).is_err() {
        return Err(SeriesError::Register);
    }
    assert(first.contains("request_count"@));

    let container_memory = match gauge_new("container_memory", "Container memory usage", &container) {
        Ok(gauge) => gauge,
        Err(_) => unreached(),
    };
    let ghost second = registered(registry);
    if register_gauge(&mut registry, &container_memory).is_err() {
        return Err(SeriesError::Register);
    }
    assert(second.contains("request_count"@) && second.contains("ssh_io_bytes"@));

    let container_network = match gauge_new(
        "container_network",
        "Container network usage",
        &container_direction,
    ) {
        Ok(gauge) => gauge,
        Err(_) => unreached(),
    };
    let ghost third = registered(registry);
    if register_gauge(&mut registry, &container_network).is_err() {
        return Err(SeriesError::Register);
    }
    assert(third.contains("request_count"@) && third.contains("ssh_io_bytes"@) && third.contains(
        "container_memory"@,
    ));

    Ok(AppState { registry, request_counter, ssh_io_bytes, container_memory, container_network })
}

/// Whether the registry takes all four series: it does where it files no
/// two of them under one identifier.
pub open spec fn series_accepted() -> bool {
    let request_count = descriptor_id("request_count"@);
    let ssh_io_bytes = descriptor_id("ssh_io_bytes"@);
    let container_memory = descriptor_id("container_memory"@);
    let container_network = descriptor_id("container_network"@);
    &&& ssh_io_bytes != request_count
    &&& container_memory != request_count
    &&& container_memory != ssh_io_bytes
    &&& container_network != request_count
    &&& container_network != ssh_io_bytes
    &&& container_network != container_memory
}

/// The names and help texts of the series and the names of their labels
/// are such that `prometheus` takes each series when it is created.
proof fn lemma_series_are_well_named()
    ensures
        counter_accepted("request_count"@, "Number of requests to the server."@),
        gauge_accepted("ssh_io_bytes"@, "SSH I/O bytes"@, seq!["direction"@]),
        gauge_accepted("container_memory"@, "Container memory usage"@, seq!["container"@]),
        gauge_accepted(
            "container_network"@,
            "Container network usage"@,
            seq!["container"@, "direction"@],
        ),
{
    reveal_strlit("request_count");
    reveal_strlit("Number of requests to the server.");
    reveal_strlit("ssh_io_bytes");
    reveal_strlit("SSH I/O bytes");
    reveal_strlit("container_memory");
    reveal_strlit("Container memory usage");
    reveal_strlit("container_network");
    reveal_strlit("Container network usage");
    reveal_strlit("direction");
    reveal_strlit("container");
    assert("container"@[0] != "direction"@[0]);
}

/// The counter after one more request; it starts over after the largest
/// 64-bit value.
pub open spec fn next_count(count: u64) -> u64 {
    if count == u64::MAX {
        0
    } else {
        (count + 1) as u64
    }
}

/// The children of a gauge after `value` was set for the label values
/// `values`.
pub open spec fn with_value(
    children: Map<u64, (Seq<Seq<char>>, i64)>,
    values: Seq<Seq<char>>,
    value: i64,
) -> Map<u64, (Seq<Seq<char>>, i64)> {
    children_after_set(children, label_hash(values), values, value)
}

/// The SSH gauge after the totals of a scrape were set: `read`, then
/// `write`.
pub open spec fn ssh_applied(
    children: Map<u64, (Seq<Seq<char>>, i64)>,
    metrics: SshMetrics,
) -> Map<u64, (Seq<Seq<char>>, i64)> {
    with_value(
        with_value(children, seq!["read"@], metrics.read_bytes as i64),
        seq!["write"@],
        metrics.write_bytes as i64,
    )
}

/// The memory gauge after the samples of a scrape were set, one after the
/// other, each under the name of its container.
pub open spec fn memory_applied(
    children: Map<u64, (Seq<Seq<char>>, i64)>,
    samples: Seq<ContainerSample>,
) -> Map<u64, (Seq<Seq<char>>, i64)>
    decreases samples.len(),
{
    if samples.len() == 0 {
        children
    } else {
        with_value(
            memory_applied(children, samples.drop_last()),
            seq![samples.last().name],
            samples.last().mem_bytes as i64,
        )
    }
}

/// The network gauge after the samples of a scrape were set, one after the
/// other: for each container its received bytes under `rx`, then its sent
/// bytes under `tx`.
pub open spec fn network_applied(
    children: Map<u64, (Seq<Seq<char>>, i64)>,
    samples: Seq<ContainerSample>,
) -> Map<u64, (Seq<Seq<char>>, i64)>
    decreases samples.len(),
{
    if samples.len() == 0 {
        children
    } else {
        with_value(
            with_value(
                network_applied(children, samples.drop_last()),
                seq![samples.last().name, "rx"@],
                samples.last().rx_bytes as i64,
            ),
            seq![samples.last().name, "tx"@],
            samples.last().tx_bytes as i64,
        )
    }
}

/// What the container collector handed over, as samples.
pub open spec fn samples_collected(
    containers: Result<Vec<ContainerMetric>, CollectorError>,
) -> Option<Seq<ContainerSample>> {
    match containers {
        Ok(metrics) => Some(metrics.deep_view()),
        Err(_) => None,
    }
}

/// The series after one scrape.
///
/// The request is counted whatever the collectors did. A collector that
/// failed leaves its gauges as they were.
pub open spec fn scraped(
    before: SeriesSnapshot,
    ssh: Result<SshMetrics, CollectorError>,
    containers: Option<Seq<ContainerSample>>,
) -> SeriesSnapshot {
    SeriesSnapshot {
        request_count: next_count(before.request_count),
        ssh_io_bytes: match ssh {
            Ok(metrics) => ssh_applied(before.ssh_io_bytes, metrics),
            Err(_) => before.ssh_io_bytes,
        },
        container_memory: match containers {
            Some(samples) => memory_applied(before.container_memory, samples),
            None => before.container_memory,
        },
        container_network: match containers {
            Some(samples) => network_applied(before.container_network, samples),
            None => before.container_network,
        },
    }
}

/// One scrape counts exactly one request, whatever the collectors handed
/// over, as long as the counter has not reached the largest 64-bit value.
pub proof fn lemma_scrape_counts_one_request(
    before: SeriesSnapshot,
    ssh: Result<SshMetrics, CollectorError>,
    containers: Option<Seq<ContainerSample>>,
)
    requires
        before.request_count < u64::MAX,
    ensures
        scraped(before, ssh, containers).request_count == before.request_count + 1,
{
}

/// A scrape in which the host-service collector failed leaves every value
/// of the SSH gauge as it was.
pub proof fn lemma_failed_ssh_keeps_gauge(
    before: SeriesSnapshot,
    ssh: Result<SshMetrics, CollectorError>,
    containers: Option<Seq<ContainerSample>>,
)
    requires
        ssh is Err,
    ensures
        scraped(before, ssh, containers).ssh_io_bytes == before.ssh_io_bytes,
{
}

/// A scrape in which the container collector failed leaves every value of
/// the container gauges as it was.
pub proof fn lemma_failed_containers_keep_gauges(
    before: SeriesSnapshot,
    ssh: Result<SshMetrics, CollectorError>,
)
    ensures
        scraped(before, ssh, None).container_memory == before.container_memory,
        scraped(before, ssh, None).container_network == before.container_network,
{
}

/// Rendering the same series twice gives the same text.
pub proof fn lemma_render_repeatable(state: AppState, first: Seq<char>, second: Seq<char>)
    requires
        first == exposition(state@),
        second == exposition(state@),
    ensures
        first == second,
{
}

impl AppState {
    /// Counts one request.
    fn count_request(&mut self)
        requires
            old(self).wf(),
        ensures
            final(self).wf(),
            final(self)@ == (SeriesSnapshot {
                request_count: next_count(old(self)@.request_count),
                ..old(self)@
            }),
    {
        counter_inc(&mut self.request_counter);
    }

    /// Sets the two directions of the SSH gauge to the totals of a scrape.
    fn apply_ssh(&mut self, metrics: &SshMetrics)
        requires
            old(self).wf(),
        ensures
            final(self).wf(),
            final(self)@ == (SeriesSnapshot {
                ssh_io_bytes: ssh_applied(old(self)@.ssh_io_bytes, *metrics),
                ..old(self)@
            }),
    {
        let mut read: Vec<&str> = Vec::new();
        read.push("read");
        let mut write: Vec<&str> = Vec::new();
        write.push("write");
        proof {
            assert(read.deep_view() =~= seq!["read"@]);
            assert(write.deep_view() =~= seq!["write"@]);
        }
        gauge_set(&mut self.ssh_io_bytes, &read, #[verifier::truncate] (metrics.read_bytes as i64));
        gauge_set(
            &mut self.ssh_io_bytes,
            &write,
            #[verifier::truncate] (metrics.write_bytes as i64),
        );
    }

    /// Sets the memory gauge and both directions of the network gauge for
    /// one container.
    fn apply_container(&mut self, metric: &ContainerMetric)
        requires
            old(self).wf(),
        ensures
            final(self).wf(),
            final(self)@ == (SeriesSnapshot {
                container_memory: with_value(
                    old(self)@.container_memory,
                    seq![metric@.name],
                    metric@.mem_bytes as i64,
                ),
                container_network: with_value(
                    with_value(
                        old(self)@.container_network,
                        seq![metric@.name, "rx"@],
                        metric@.rx_bytes as i64,
                    ),
                    seq![metric@.name, "tx"@],
                    metric@.tx_bytes as i64,
                ),
                ..old(self)@
            }),
    {
        let mut container: Vec<&str> = Vec::new();
        container.push(metric.name.as_str());
        let mut received: Vec<&str> = Vec::new();
        received.push(metric.name.as_str());
        received.push("rx");
        let mut sent: Vec<&str> = Vec::new();
        sent.push(metric.name.as_str());
        sent.push("tx");
        proof {
            assert(container.deep_view() =~= seq![metric@.name]);
            assert(received.deep_view() =~= seq![metric@.name, "rx"@]);
            assert(sent.deep_view() =~= seq![metric@.name, "tx"@]);
        }
        gauge_set(
            &mut self.container_memory,
            &container,
            #[verifier::truncate] (metric.mem_bytes as i64),
        );
        gauge_set(
            &mut self.container_network,
            &received,
            #[verifier::truncate] (metric.rx_bytes as i64),
        );
        gauge_set(
            &mut self.container_network,
            &sent,
            #[verifier::truncate] (metric.tx_bytes as i64),
        );
    }

    /// Sets the container gauges to the samples of a scrape.
    fn apply_containers(&mut self, metrics: &Vec<ContainerMetric>)
        requires
            old(self).wf(),
        ensures
            final(self).wf(),
            final(self)@ == (SeriesSnapshot {
                container_memory: memory_applied(
                    old(self)@.container_memory,
                    metrics.deep_view(),
                ),
                container_network: network_applied(
                    old(self)@.container_network,
                    metrics.deep_view(),
                ),
                ..old(self)@
            }),
    {
        let mut i: usize = 0;
        while i < metrics.len()
            invariant
                i <= metrics.len(),
                self.wf(),
                self@ == (SeriesSnapshot {
                    container_memory: memory_applied(
                        old(self)@.container_memory,
                        metrics.deep_view().take(i as int),
                    ),
                    container_network: network_applied(
                        old(self)@.container_network,
                        metrics.deep_view().take(i as int),
                    ),
                    ..old(self)@
                }),
            decreases metrics.len() - i,
        {
            proof {
                let seen = metrics.deep_view().take(i + 1);
                assert(seen.drop_last() =~= metrics.deep_view().take(i as int));
            }
            self.apply_container(&metrics[i]);
            i = i + 1;
        }
        proof {
            assert(metrics.deep_view().take(i as int) =~= metrics.deep_view());
        }
    }
}

/// Renders the text snapshot of the series as they are.
pub fn render(state: &AppState) -> (body: String)
    requires
        state.wf(),
    ensures
        body@ == exposition(state@),
{
    let families = gather_series(state);
    match encode_text(&families) {
        Ok(text) => text,
        Err(_) => unreached(),
    }
}

/// Handles one scrape: counts the request, folds what the collectors
/// handed over into the gauges, and renders the snapshot.
///
/// A collector that failed changes nothing: its gauges keep the values of
/// the last scrape in which it succeeded, and the scrape goes on.
pub fn metrics(
    state: &mut AppState,
    ssh: Result<SshMetrics, CollectorError>,
    containers: Result<Vec<ContainerMetric>, CollectorError>,
) -> (body: String)
    requires
        old(state).wf(),
    ensures
        final(state).wf(),
        final(state)@ == scraped(old(state)@, ssh, samples_collected(containers)),
        body@ == exposition(final(state)@),
{
    state.count_request();
    match &ssh {
        Ok(totals) => {
            state.apply_ssh(totals);
        },
        Err(_) => {},
    }
    match &containers {
        Ok(samples) => {
            state.apply_containers(samples);
        },
        Err(_) => {},
    }
    render(state)
}

} // verus!
