//! Container collector: from the inspection record and the kernel counters of
//! every running container to one sample per container whose process id
//! resolves.

use crate::metrics::CollectorError;
use vstd::prelude::*;

verus! {

/// Byte counters of one network device as seen by a process.
#[derive(Clone, Copy, Debug)]
pub struct DeviceStatus {
    pub recv_bytes: u64,
    pub sent_bytes: u64,
}

/// CPU and memory counters of a process: ticks spent in user and in kernel
/// mode, and the number of resident pages.
#[derive(Clone, Copy, Debug)]
pub struct ProcessUsage {
    pub utime: u64,
    pub stime: u64,
    pub rss: u64,
}

/// Everything that was read about one running container.
///
/// `name` and `pid` come from the inspection record and are `None` where the
/// record does not carry them. `devices` and `usage` are the two accounting
/// reads for the container's process; each is `None` where the read failed
/// or was not attempted.
#[derive(Debug)]
pub struct ContainerRecord {
    pub name: Option<String>,
    pub pid: Option<i64>,
    pub devices: Option<Vec<DeviceStatus>>,
    pub usage: Option<ProcessUsage>,
}

/// Mathematical model of a [`ContainerRecord`].
pub struct ContainerReading {
    pub name: Option<Seq<char>>,
    pub pid: Option<i64>,
    pub devices: Option<Seq<DeviceStatus>>,
    pub usage: Option<ProcessUsage>,
}

/// The sample of one container.
#[derive(Debug)]
pub struct ContainerMetric {
    pub name: String,
    pub pid: i32,
    pub rx_bytes: u64,
    pub tx_bytes: u64,
    /// User plus kernel ticks.
    pub cpu_ticks: u64,
    /// Resident pages times the page size.
    pub mem_bytes: u64,
}

/// Mathematical model of a [`ContainerMetric`].
pub struct ContainerSample {
    pub name: Seq<char>,
    pub pid: int,
    pub rx_bytes: nat,
    pub tx_bytes: nat,
    pub cpu_ticks: nat,
    pub mem_bytes: nat,
}

impl View for ContainerRecord {
    type V = ContainerReading;

    open spec fn view(&self) -> ContainerReading {
        ContainerReading {
            name: match self.name {
                Some(n) => Some(n@),
                None => None,
            },
            pid: self.pid,
            devices: match self.devices {
                Some(d) => Some(d@),
                None => None,
            },
            usage: self.usage,
        }
    }
}

impl DeepView for ContainerRecord {
    type V = ContainerReading;

    open spec fn deep_view(&self) -> ContainerReading {
        self@
    }
}

impl View for ContainerMetric {
    type V = ContainerSample;

    open spec fn view(&self) -> ContainerSample {
        ContainerSample {
            name: self.name@,
            pid: self.pid as int,
            rx_bytes: self.rx_bytes as nat,
            tx_bytes: self.tx_bytes as nat,
            cpu_ticks: self.cpu_ticks as nat,
            mem_bytes: self.mem_bytes as nat,
        }
    }
}

impl DeepView for ContainerMetric {
    type V = ContainerSample;

    open spec fn deep_view(&self) -> ContainerSample {
        self@
    }
}

/// A process id resolves when the inspection record carries one and it is
/// positive.
pub open spec fn pid_resolves(pid: Option<i64>) -> bool {
    pid matches Some(p) && p > 0
}

/// Sum of the received bytes over all devices.
pub open spec fn received_total(devices: Seq<DeviceStatus>) -> nat
    decreases devices.len(),
{
    if devices.len() == 0 {
        0
    } else {
        received_total(devices.drop_last()) + devices.last().recv_bytes as nat
    }
}

/// Sum of the sent bytes over all devices.
pub open spec fn sent_total(devices: Seq<DeviceStatus>) -> nat
    decreases devices.len(),
{
    if devices.len() == 0 {
        0
    } else {
        sent_total(devices.drop_last()) + devices.last().sent_bytes as nat
    }
}

/// Decides whether a container has a process to account for.
///
/// Returns the process id to read the counters of, or `None` where the
/// container is to be skipped.
pub fn resolve_pid(pid: Option<i64>) -> (resolved: Option<i32>)
    ensures
        resolved is Some <==> pid_resolves(pid),
        resolved matches Some(p) ==> p == pid->0 as i32,
{
    match pid {
        Some(p) if p > 0 => Some(#[verifier::truncate] (p as i32)),
        _ => None,
    }
}

/// The name a sample carries: the reported one, or `unknown` where the
/// inspection record has none.
pub open spec fn sample_name(name: Option<Seq<char>>) -> Seq<char> {
    match name {
        Some(n) => n,
        None => "unknown"@,
    }
}

/// The sample that a container with a resolving process id contributes.
///
/// A failed accounting read counts as zero: no devices for the network
/// totals, no ticks and no resident pages for CPU and memory.
pub open spec fn sample_of(reading: ContainerReading, page_size: u64) -> ContainerSample {
    ContainerSample {
        name: sample_name(reading.name),
        pid: (reading.pid->0 as i32) as int,
        rx_bytes: match reading.devices {
            Some(d) => received_total(d),
            None => 0,
        },
        tx_bytes: match reading.devices {
            Some(d) => sent_total(d),
            None => 0,
        },
        cpu_ticks: match reading.usage {
            Some(u) => (u.utime + u.stime) as nat,
            None => 0,
        },
        mem_bytes: match reading.usage {
            Some(u) => (u.rss * page_size) as nat,
            None => 0,
        },
    }
}

/// The samples of one scrape: one per container whose process id resolves,
/// in the order of the containers.
pub open spec fn samples_of(readings: Seq<ContainerReading>, page_size: u64) -> Seq<
    ContainerSample,
> {
    readings.filter(|r: ContainerReading| pid_resolves(r.pid)).map_values(
        |r: ContainerReading| sample_of(r, page_size),
    )
}

/// The error of the first inspection that failed, if any did.
pub open spec fn first_failure(inspections: Seq<Result<ContainerRecord, CollectorError>>) -> Option<
    CollectorError,
>
    decreases inspections.len(),
{
    if inspections.len() == 0 {
        None
    } else {
        match first_failure(inspections.drop_last()) {
            Some(e) => Some(e),
            None => match inspections.last() {
                Ok(_) => None,
                Err(e) => Some(e),
            },
        }
    }
}

/// What was read about the containers, where every inspection succeeded.
pub open spec fn inspected(inspections: Seq<Result<ContainerRecord, CollectorError>>) -> Seq<
    ContainerReading,
> {
    inspections.map_values(|i: Result<ContainerRecord, CollectorError>| i->Ok_0@)
}

/// Every counter of the sample fits in 64 bits.
pub open spec fn sample_fits(sample: ContainerSample) -> bool {
    &&& sample.rx_bytes <= u64::MAX
    &&& sample.tx_bytes <= u64::MAX
    &&& sample.cpu_ticks <= u64::MAX
    &&& sample.mem_bytes <= u64::MAX
}

/// Every sample that a container of the listing can give fits in 64-bit
/// counters.
pub open spec fn inspections_fit(
    inspections: Seq<Result<ContainerRecord, CollectorError>>,
    page_size: u64,
) -> bool {
    forall|i: int|
        0 <= i < inspections.len() && (#[trigger] inspections[i]) is Ok && pid_resolves(
            inspections[i]->Ok_0@.pid,
        ) ==> sample_fits(sample_of(inspections[i]->Ok_0@, page_size))
}

/// One more container adds its sample where its process id resolves, and
/// nothing otherwise.
pub proof fn lemma_samples_push(
    readings: Seq<ContainerReading>,
    reading: ContainerReading,
    page_size: u64,
)
    ensures
        samples_of(readings.push(reading), page_size) == if pid_resolves(reading.pid) {
            samples_of(readings, page_size).push(sample_of(reading, page_size))
        } else {
            samples_of(readings, page_size)
        },
{
    let resolves = |r: ContainerReading| pid_resolves(r.pid);
    let sample = |r: ContainerReading| sample_of(r, page_size);
    readings.lemma_filter_push(reading, resolves);
    if pid_resolves(reading.pid) {
        readings.filter(resolves).lemma_push_map_commute(sample, reading);
    }
}

/// A container whose process id resolves has a sample even where its
/// counters could not be read, and what could not be read counts as zero.
pub proof fn lemma_unreadable_counts_zero(reading: ContainerReading, page_size: u64)
    requires
        pid_resolves(reading.pid),
    ensures
        samples_of(seq![reading], page_size) == seq![sample_of(reading, page_size)],
        reading.devices is None ==> sample_of(reading, page_size).rx_bytes == 0 && sample_of(
            reading,
            page_size,
        ).tx_bytes == 0,
        reading.usage is None ==> sample_of(reading, page_size).cpu_ticks == 0 && sample_of(
            reading,
            page_size,
        ).mem_bytes == 0,
{
    lemma_samples_push(Seq::empty(), reading, page_size);
}

/// A container whose process id is missing, zero or negative gives no
/// sample: the samples are those of the scrape without it.
pub proof fn lemma_unresolved_is_skipped(
    before: Seq<ContainerReading>,
    reading: ContainerReading,
    after: Seq<ContainerReading>,
    page_size: u64,
)
    requires
        !pid_resolves(reading.pid),
    ensures
        samples_of(before.push(reading) + after, page_size) == samples_of(
            before + after,
            page_size,
        ),
{
    let resolves = |r: ContainerReading| pid_resolves(r.pid);
    before.lemma_filter_push(reading, resolves);
    Seq::filter_distributes_over_add(before.push(reading), after, resolves);
    Seq::filter_distributes_over_add(before, after, resolves);
}

/// A failure among the first `n` inspections is the first failure of all.
proof fn lemma_first_failure_stays(
    inspections: Seq<Result<ContainerRecord, CollectorError>>,
    n: int,
)
    requires
        0 <= n <= inspections.len(),
        first_failure(inspections.take(n)) is Some,
    ensures
        first_failure(inspections) == first_failure(inspections.take(n)),
    decreases inspections.len(),
{
    if n == inspections.len() {
        assert(inspections.take(n) =~= inspections);
    } else {
        assert(inspections.take(n) =~= inspections.drop_last().take(n));
        lemma_first_failure_stays(inspections.drop_last(), n);
    }
}

/// The total over the first `n` devices is at most the total over all.
proof fn lemma_totals_monotone(devices: Seq<DeviceStatus>, n: int)
    requires
        0 <= n <= devices.len(),
    ensures
        received_total(devices.take(n)) <= received_total(devices),
        sent_total(devices.take(n)) <= sent_total(devices),
    decreases devices.len(),
{
    if n == devices.len() {
        assert(devices.take(n) =~= devices);
    } else {
        assert(devices.take(n) =~= devices.drop_last().take(n));
        lemma_totals_monotone(devices.drop_last(), n);
    }
}

/// Sums the receive and transmit counters over the devices of a process.
pub fn device_totals(devices: &Vec<DeviceStatus>) -> (totals: (u64, u64))
    requires
        received_total(devices@) <= u64::MAX,
        sent_total(devices@) <= u64::MAX,
    ensures
        totals.0 == received_total(devices@),
        totals.1 == sent_total(devices@),
{
    let mut rx: u64 = 0;
    let mut tx: u64 = 0;
    let mut i: usize = 0;
    while i < devices.len()
        invariant
            i <= devices.len(),
            rx == received_total(devices@.take(i as int)),
            tx == sent_total(devices@.take(i as int)),
            received_total(devices@) <= u64::MAX,
            sent_total(devices@) <= u64::MAX,
        decreases devices.len() - i,
    {
        proof {
            assert(devices@.take(i + 1).drop_last() =~= devices@.take(i as int));
            lemma_totals_monotone(devices@, i + 1);
        }
        rx = rx + devices[i].recv_bytes;
        tx = tx + devices[i].sent_bytes;
        i = i + 1;
    }
    proof {
        assert(devices@.take(i as int) =~= devices@);
    }
    (rx, tx)
}

/// The sample of one container, or `None` where its process id does not
/// resolve and the container is skipped.
pub fn container_metric(record: &ContainerRecord, page_size: u64) -> (metric: Option<
    ContainerMetric,
>)
    requires
        pid_resolves(record@.pid) ==> sample_fits(sample_of(record@, page_size)),
    ensures
        metric is Some <==> pid_resolves(record@.pid),
        metric matches Some(m) ==> m@ == sample_of(record@, page_size),
{
    let pid = match resolve_pid(record.pid) {
        Some(p) => p,
        None => {
            return None;
        },
    };
    let name = match &record.name {
        Some(n) => n.clone(),
        None => "unknown".to_owned(),
    };
    // A failed read of the device counters counts as no traffic.
    let (rx_bytes, tx_bytes) = match &record.devices {
        Some(d) => device_totals(d),
        None => (0, 0),
    };
    // A failed read of the process counters counts as no usage.
    let (cpu_ticks, mem_bytes) = match &record.usage {
        Some(u) => (u.utime + u.stime, u.rss * page_size),
        None => (0, 0),
    };
    Some(ContainerMetric { name, pid, rx_bytes, tx_bytes, cpu_ticks, mem_bytes })
}

/// Collects the samples of one scrape from what the container runtime gave:
/// the listing of the running containers, or the failure to list them, and
/// for each container what was read about it, or the failure to inspect it.
///
/// The collection is all or nothing: where the listing failed or one
/// inspection failed, it fails with that error, the first one in the order
/// of the containers, and hands out no sample. Otherwise a container whose
/// process id is missing, zero or negative gives no sample, and every other
/// container gives one, with zeros where a read failed.
pub fn collect_container_metrics(
    listing: &Result<Vec<Result<ContainerRecord, CollectorError>>, CollectorError>,
    page_size: u64,
) -> (collected: Result<Vec<ContainerMetric>, CollectorError>)
    requires
        listing matches Ok(inspections) ==> inspections_fit(inspections@, page_size),
    ensures
        match *listing {
            Err(e) => collected == Err::<Vec<ContainerMetric>, CollectorError>(e),
            Ok(inspections) => match first_failure(inspections@) {
                Some(e) => collected == Err::<Vec<ContainerMetric>, CollectorError>(e),
                None => collected matches Ok(metrics) && metrics.deep_view() == samples_of(
                    inspected(inspections@),
                    page_size,
                ),
            },
        },
{
    let inspections = match listing {
        Ok(inspections) => inspections,
        Err(e) => {
            return Err(*e);
        },
    };
    let mut metrics: Vec<ContainerMetric> = Vec::new();
    let mut i: usize = 0;
    while i < inspections.len()
        invariant
            i <= inspections.len(),
            *listing == Ok::<Vec<Result<ContainerRecord, CollectorError>>, CollectorError>(
                *inspections,
            ),
            inspections_fit(inspections@, page_size),
            first_failure(inspections@.take(i as int)) is None,
            metrics.deep_view() == samples_of(inspected(inspections@.take(i as int)), page_size),
        decreases inspections.len() - i,
    {
        proof {
            let seen = inspections@.take(i as int);
            let next = inspections@[i as int];
            assert(inspections@.take(i + 1) =~= seen.push(next));
            assert(seen.push(next).drop_last() =~= seen);
            if next is Ok {
                assert(inspected(seen.push(next)) =~= inspected(seen).push(next->Ok_0@));
                lemma_samples_push(inspected(seen), next->Ok_0@, page_size);
            } else {
                lemma_first_failure_stays(inspections@, i + 1);
            }
        }
        match &inspections[i] {
            Ok(record) => {
                match container_metric(record, page_size) {
                    Some(metric) => {
                        metrics.push(metric);
                    },
                    None => {},
                }
            },
            Err(e) => {
                return Err(*e);
            },
        }
        i = i + 1;
    }
    proof {
        assert(inspections@.take(i as int) =~= inspections@);
    }
    Ok(metrics)
}

/// Whether both totals over the devices fit in 64 bits.
fn devices_fit(devices: &Vec<DeviceStatus>) -> (fit: bool)
    ensures
        fit == (received_total(devices@) <= u64::MAX && sent_total(devices@) <= u64::MAX),
{
    let mut rx: u64 = 0;
    let mut tx: u64 = 0;
    let mut i: usize = 0;
    while i < devices.len()
        invariant
            i <= devices.len(),
            rx == received_total(devices@.take(i as int)),
            tx == sent_total(devices@.take(i as int)),
        decreases devices.len() - i,
    {
        proof {
            assert(devices@.take(i + 1).drop_last() =~= devices@.take(i as int));
            lemma_totals_monotone(devices@, i + 1);
        }
        match (rx.checked_add(devices[i].recv_bytes), tx.checked_add(devices[i].sent_bytes)) {
            (Some(r), Some(t)) => {
                rx = r;
                tx = t;
            },
            _ => {
                return false;
            },
        }
        i = i + 1;
    }
    proof {
        assert(devices@.take(i as int) =~= devices@);
    }
    true
}

/// Whether the sample of this container, if it gives one, fits in 64-bit
/// counters.
fn record_fits(record: &ContainerRecord, page_size: u64) -> (fit: bool)
    ensures
        fit == (pid_resolves(record@.pid) ==> sample_fits(sample_of(record@, page_size))),
{
    if resolve_pid(record.pid).is_none() {
        return true;
    }
    let devices_ok = match &record.devices {
        Some(d) => devices_fit(d),
        None => true,
    };
    let usage_ok = match &record.usage {
        Some(u) => u.utime.checked_add(u.stime).is_some() && u.rss.checked_mul(
            page_size,
        ).is_some(),
        None => true,
    };
    devices_ok && usage_ok
}

/// Whether every sample that a container of the listing can give fits in
/// 64-bit counters, which is what [`collect_container_metrics`] asks of its
/// input.
pub fn container_readings_fit(
    listing: &Result<Vec<Result<ContainerRecord, CollectorError>>, CollectorError>,
    page_size: u64,
) -> (fit: bool)
    ensures
        fit == (listing matches Ok(inspections) ==> inspections_fit(inspections@, page_size)),
{
    let inspections = match listing {
        Ok(inspections) => inspections,
        Err(_) => {
            return true;
        },
    };
    let mut i: usize = 0;
    while i < inspections.len()
        invariant
            i <= inspections.len(),
            *listing == Ok::<Vec<Result<ContainerRecord, CollectorError>>, CollectorError>(
                *inspections,
            ),
            forall|j: int|
                0 <= j < i && (#[trigger] inspections@[j]) is Ok && pid_resolves(
                    inspections@[j]->Ok_0@.pid,
                ) ==> sample_fits(sample_of(inspections@[j]->Ok_0@, page_size)),
        decreases inspections.len() - i,
    {
        match &inspections[i] {
            Ok(record) => {
                if !record_fits(record, page_size) {
                    return false;
                }
            },
            Err(_) => {},
        }
        i = i + 1;
    }
    true
}

} // verus!
