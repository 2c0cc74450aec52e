use tatsumi_exporter::metrics::container::{
    collect_container_metrics, container_metric, container_readings_fit, device_totals,
    resolve_pid, ContainerMetric, ContainerRecord, DeviceStatus, ProcessUsage,
};
use tatsumi_exporter::metrics::CollectorError;

type Listing = Result<Vec<Result<ContainerRecord, CollectorError>>, CollectorError>;

fn listing(records: Vec<ContainerRecord>) -> Listing {
    Ok(records.into_iter().map(Ok).collect())
}

fn collect(listing: &Listing, page_size: u64) -> Vec<ContainerMetric> {
    collect_container_metrics(listing, page_size).expect("every inspection succeeded")
}

fn device(recv_bytes: u64, sent_bytes: u64) -> DeviceStatus {
    DeviceStatus { recv_bytes, sent_bytes }
}

fn record(
    name: Option<&str>,
    pid: Option<i64>,
    devices: Option<Vec<DeviceStatus>>,
    usage: Option<ProcessUsage>,
) -> ContainerRecord {
    ContainerRecord { name: name.map(|n| n.to_string()), pid, devices, usage }
}

#[test]
fn device_counters_are_summed_per_direction() {
    let devices: Vec<DeviceStatus> = vec![device(100, 50), device(20, 5)];
    assert_eq!(device_totals(&devices), (120, 55));
}

#[test]
fn no_devices_sum_to_zero() {
    let devices: Vec<DeviceStatus> = Vec::new();
    assert_eq!(device_totals(&devices), (0, 0));
}

#[test]
fn sample_sums_the_devices_of_its_process() {
    let rec = record(
        Some("/web"),
        Some(4242),
        Some(vec![device(100, 50), device(20, 5)]),
        None,
    );
    let metric = container_metric(&rec, 4096).expect("the process id resolves");
    assert_eq!(metric.rx_bytes, 120);
    assert_eq!(metric.tx_bytes, 55);
}

#[test]
fn memory_is_resident_pages_times_page_size() {
    let usage = ProcessUsage { utime: 0, stime: 0, rss: 4096 };
    let rec = record(Some("/db"), Some(17), None, Some(usage));
    let metric = container_metric(&rec, 4096).expect("the process id resolves");
    assert_eq!(metric.mem_bytes, 16_777_216);
}

#[test]
fn cpu_ticks_are_user_plus_kernel() {
    let usage = ProcessUsage { utime: 1200, stime: 34, rss: 1 };
    let rec = record(Some("/db"), Some(17), None, Some(usage));
    let metric = container_metric(&rec, 4096).expect("the process id resolves");
    assert_eq!(metric.cpu_ticks, 1234);
    assert_eq!(metric.mem_bytes, 4096);
}

#[test]
fn sample_keeps_name_and_pid() {
    let rec = record(Some("/cache"), Some(31337), None, None);
    let metric = container_metric(&rec, 4096).expect("the process id resolves");
    assert_eq!(metric.name, "/cache");
    assert_eq!(metric.pid, 31337);
}

#[test]
fn missing_name_becomes_unknown() {
    let rec = record(None, Some(9), None, None);
    let metric = container_metric(&rec, 4096).expect("the process id resolves");
    assert_eq!(metric.name, "unknown");
}

#[test]
fn unreadable_process_gives_a_zero_sample() {
    let rec = record(Some("/gone"), Some(55), None, None);
    let metric = container_metric(&rec, 4096).expect("the process id resolves");
    assert_eq!(metric.pid, 55);
    assert_eq!(metric.rx_bytes, 0);
    assert_eq!(metric.tx_bytes, 0);
    assert_eq!(metric.cpu_ticks, 0);
    assert_eq!(metric.mem_bytes, 0);
}

#[test]
fn unreadable_usage_leaves_the_network_totals() {
    let rec = record(Some("/half"), Some(55), Some(vec![device(7, 8)]), None);
    let metric = container_metric(&rec, 4096).expect("the process id resolves");
    assert_eq!((metric.rx_bytes, metric.tx_bytes), (7, 8));
    assert_eq!((metric.cpu_ticks, metric.mem_bytes), (0, 0));
}

#[test]
fn unreadable_devices_leave_the_usage() {
    let usage = ProcessUsage { utime: 2, stime: 3, rss: 10 };
    let rec = record(Some("/half"), Some(55), None, Some(usage));
    let metric = container_metric(&rec, 100).expect("the process id resolves");
    assert_eq!((metric.rx_bytes, metric.tx_bytes), (0, 0));
    assert_eq!((metric.cpu_ticks, metric.mem_bytes), (5, 1000));
}

#[test]
fn pid_resolves_only_when_positive() {
    assert_eq!(resolve_pid(Some(1)), Some(1));
    assert_eq!(resolve_pid(Some(4242)), Some(4242));
    assert_eq!(resolve_pid(Some(0)), None);
    assert_eq!(resolve_pid(Some(-1)), None);
    assert_eq!(resolve_pid(Some(i64::MIN)), None);
    assert_eq!(resolve_pid(None), None);
}

#[test]
fn pid_is_cut_to_32_bits() {
    assert_eq!(resolve_pid(Some(4_294_967_301)), Some(5));
    let rec = record(Some("/wide"), Some(4_294_967_301), None, None);
    let metric = container_metric(&rec, 4096).expect("the process id resolves");
    assert_eq!(metric.pid, 5);
}

#[test]
fn container_without_pid_gives_no_sample() {
    let usage = ProcessUsage { utime: 1, stime: 1, rss: 1 };
    let rec = record(Some("/nopid"), None, Some(vec![device(1, 1)]), Some(usage));
    assert!(container_metric(&rec, 4096).is_none());
}

#[test]
fn container_with_zero_or_negative_pid_gives_no_sample() {
    assert!(container_metric(&record(Some("/zero"), Some(0), None, None), 4096).is_none());
    assert!(container_metric(&record(Some("/neg"), Some(-7), None, None), 4096).is_none());
}

#[test]
fn skipped_containers_are_absent_and_unreadable_ones_are_zero() {
    let records: Vec<ContainerRecord> = vec![
        record(Some("/a"), Some(10), Some(vec![device(1, 2)]), None),
        record(Some("/skipped"), None, None, None),
        record(Some("/unreadable"), Some(11), None, None),
        record(Some("/zero"), Some(0), None, None),
        record(None, Some(12), None, Some(ProcessUsage { utime: 1, stime: 2, rss: 3 })),
    ];
    let records: Listing = listing(records);
    let metrics = collect(&records, 4096);
    assert_eq!(metrics.len(), 3);
    assert_eq!(metrics[0].name, "/a");
    assert_eq!((metrics[0].rx_bytes, metrics[0].tx_bytes), (1, 2));
    assert_eq!(metrics[1].name, "/unreadable");
    assert_eq!(metrics[1].pid, 11);
    assert_eq!(
        (metrics[1].rx_bytes, metrics[1].tx_bytes, metrics[1].cpu_ticks, metrics[1].mem_bytes),
        (0, 0, 0, 0)
    );
    assert_eq!(metrics[2].name, "unknown");
    assert_eq!(metrics[2].pid, 12);
    assert_eq!((metrics[2].cpu_ticks, metrics[2].mem_bytes), (3, 12288));
}

#[test]
fn no_containers_give_no_samples() {
    let records: Vec<ContainerRecord> = Vec::new();
    let records: Listing = listing(records);
    assert!(collect(&records, 4096).is_empty());
}

#[test]
fn only_skipped_containers_give_no_samples() {
    let records: Vec<ContainerRecord> =
        vec![record(Some("/a"), None, None, None), record(Some("/b"), Some(-1), None, None)];
    let records: Listing = listing(records);
    assert!(collect(&records, 4096).is_empty());
}

#[test]
fn readings_in_range_fit() {
    let records: Vec<ContainerRecord> = vec![
        record(
            Some("/a"),
            Some(10),
            Some(vec![device(u64::MAX - 1, 0), device(1, u64::MAX)]),
            Some(ProcessUsage { utime: u64::MAX, stime: 0, rss: u64::MAX }),
        ),
    ];
    let records: Listing = listing(records);
    assert!(container_readings_fit(&records, 1));
    let metrics = collect(&records, 1);
    assert_eq!(metrics[0].rx_bytes, u64::MAX);
    assert_eq!(metrics[0].tx_bytes, u64::MAX);
    assert_eq!(metrics[0].cpu_ticks, u64::MAX);
    assert_eq!(metrics[0].mem_bytes, u64::MAX);
}

#[test]
fn received_total_beyond_64_bits_does_not_fit() {
    let records: Vec<ContainerRecord> =
        vec![record(Some("/a"), Some(10), Some(vec![device(u64::MAX, 0), device(1, 0)]), None)];
    let records: Listing = listing(records);
    assert!(!container_readings_fit(&records, 4096));
}

#[test]
fn sent_total_beyond_64_bits_does_not_fit() {
    let records: Vec<ContainerRecord> =
        vec![record(Some("/a"), Some(10), Some(vec![device(0, u64::MAX), device(0, 1)]), None)];
    let records: Listing = listing(records);
    assert!(!container_readings_fit(&records, 4096));
}

#[test]
fn cpu_ticks_beyond_64_bits_do_not_fit() {
    let usage = ProcessUsage { utime: u64::MAX, stime: 1, rss: 0 };
    let records: Vec<ContainerRecord> = vec![record(Some("/a"), Some(10), None, Some(usage))];
    let records: Listing = listing(records);
    assert!(!container_readings_fit(&records, 4096));
}

#[test]
fn memory_beyond_64_bits_does_not_fit() {
    let usage = ProcessUsage { utime: 0, stime: 0, rss: u64::MAX / 2 };
    let records: Vec<ContainerRecord> = vec![record(Some("/a"), Some(10), None, Some(usage))];
    let records: Listing = listing(records);
    assert!(!container_readings_fit(&records, 4));
    assert!(container_readings_fit(&records, 2));
}

#[test]
fn readings_of_skipped_containers_always_fit() {
    let usage = ProcessUsage { utime: u64::MAX, stime: u64::MAX, rss: u64::MAX };
    let records: Vec<ContainerRecord> = vec![record(
        Some("/skipped"),
        Some(0),
        Some(vec![device(u64::MAX, u64::MAX), device(u64::MAX, u64::MAX)]),
        Some(usage),
    )];
    let records: Listing = listing(records);
    assert!(container_readings_fit(&records, 4096));
    assert!(collect(&records, 4096).is_empty());
}

#[test]
fn failed_listing_fails_the_collection() {
    let failed: Listing = Err(CollectorError::RuntimeUnavailable);
    assert!(container_readings_fit(&failed, 4096));
    let collected = collect_container_metrics(&failed, 4096);
    assert!(matches!(collected, Err(CollectorError::RuntimeUnavailable)));
}

#[test]
fn failed_inspection_fails_the_collection() {
    let inspections: Listing = Ok(vec![
        Ok(record(Some("/a"), Some(10), Some(vec![device(1, 2)]), None)),
        Err(CollectorError::InspectionFailed),
        Ok(record(Some("/b"), Some(11), None, None)),
    ]);
    assert!(container_readings_fit(&inspections, 4096));
    let collected = collect_container_metrics(&inspections, 4096);
    assert!(matches!(collected, Err(CollectorError::InspectionFailed)));
}

#[test]
fn failed_inspection_of_a_skipped_container_still_fails_the_collection() {
    let inspections: Listing = Ok(vec![
        Ok(record(Some("/skipped"), None, None, None)),
        Err(CollectorError::InspectionFailed),
    ]);
    let collected = collect_container_metrics(&inspections, 4096);
    assert!(matches!(collected, Err(CollectorError::InspectionFailed)));
}

#[test]
fn first_failed_inspection_names_the_error() {
    let inspections: Listing = Ok(vec![
        Ok(record(Some("/a"), Some(10), None, None)),
        Err(CollectorError::RuntimeUnavailable),
        Err(CollectorError::InspectionFailed),
    ]);
    let collected = collect_container_metrics(&inspections, 4096);
    assert!(matches!(collected, Err(CollectorError::RuntimeUnavailable)));
}

#[test]
fn empty_listing_gives_no_samples() {
    let inspections: Listing = Ok(Vec::new());
    let collected = collect_container_metrics(&inspections, 4096);
    assert!(matches!(collected, Ok(metrics) if metrics.is_empty()));
}
