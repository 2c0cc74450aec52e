//! Host-service collector: the I/O counters of all processes of the SSH
//! daemon, summed into one aggregate.

use crate::metrics::CollectorError;
use crate::text::chars_of;
use vstd::prelude::*;

verus! {

/// Cumulative I/O byte counters of one process.
#[derive(Clone, Copy, Debug)]
pub struct IoCounters {
    pub read_bytes: u64,
    pub write_bytes: u64,
}

/// What was read about one process of the host.
///
/// `comm` is the command name and `io` the I/O counters; each is `None`
/// where the read failed.
#[derive(Debug)]
pub struct ProcessRecord {
    pub comm: Option<String>,
    pub io: Option<IoCounters>,
}

/// Mathematical model of a [`ProcessRecord`].
pub struct ProcessReading {
    pub comm: Option<Seq<char>>,
    pub io: Option<IoCounters>,
}

impl View for ProcessRecord {
    type V = ProcessReading;

    open spec fn view(&self) -> ProcessReading {
        ProcessReading {
            comm: match self.comm {
                Some(c) => Some(c@),
                None => None,
            },
            io: self.io,
        }
    }
}

impl DeepView for ProcessRecord {
    type V = ProcessReading;

    open spec fn deep_view(&self) -> ProcessReading {
        self@
    }
}

/// Totals of the I/O counters of the processes that belong to the SSH
/// daemon.
#[derive(Clone, Copy, Debug)]
pub struct SshMetrics {
    pub read_bytes: u64,
    pub write_bytes: u64,
}

/// `pattern` stands in `text` at offset `at`.
pub open spec fn occurs_at(text: Seq<char>, pattern: Seq<char>, at: int) -> bool {
    &&& 0 <= at
    &&& at + pattern.len() <= text.len()
    &&& text.subrange(at, at + pattern.len()) == pattern
}

/// `pattern` stands somewhere in `text`.
pub open spec fn has_substring(text: Seq<char>, pattern: Seq<char>) -> bool {
    exists|at: int| occurs_at(text, pattern, at)
}

/// A process belongs to the SSH daemon when its command name could be read
/// and contains `sshd`.
pub open spec fn is_ssh_process(process: ProcessReading) -> bool {
    process.comm matches Some(c) && has_substring(c, "sshd"@)
}

/// The counters that a process adds to the aggregate: its own where it
/// belongs to the SSH daemon and they could be read, nothing otherwise.
pub open spec fn contribution(process: ProcessReading) -> (nat, nat) {
    if is_ssh_process(process) && process.io is Some {
        (process.io->0.read_bytes as nat, process.io->0.write_bytes as nat)
    } else {
        (0, 0)
    }
}

/// Sum of the contributions of all processes.
pub open spec fn io_totals(processes: Seq<ProcessReading>) -> (nat, nat)
    decreases processes.len(),
{
    if processes.len() == 0 {
        (0, 0)
    } else {
        let rest = io_totals(processes.drop_last());
        let last = contribution(processes.last());
        (rest.0 + last.0, rest.1 + last.1)
    }
}

/// Both totals of the scrape fit in 64-bit counters.
pub open spec fn io_totals_fit(processes: Seq<ProcessReading>) -> bool {
    io_totals(processes).0 <= u64::MAX && io_totals(processes).1 <= u64::MAX
}

/// Whether `pattern` stands in `text` at offset `at`.
fn matches_at(text: &Vec<char>, pattern: &Vec<char>, at: usize) -> (found: bool)
    requires
        at + pattern.len() <= text.len(),
    ensures
        found == occurs_at(text@, pattern@, at as int),
{
    let mut j: usize = 0;
    while j < pattern.len()
        invariant
            j <= pattern.len(),
            at + pattern.len() <= text.len(),
            forall|k: int| 0 <= k < j ==> text@[at + k] == pattern@[k],
        decreases pattern.len() - j,
    {
        if text[at + j] != pattern[j] {
            return false;
        }
        j = j + 1;
    }
    assert(text@.subrange(at as int, at + pattern.len()) =~= pattern@);
    true
}

/// Whether `pattern` stands somewhere in `text`.
pub fn contains(text: &str, pattern: &str) -> (found: bool)
    ensures
        found == has_substring(text@, pattern@),
{
    let haystack = chars_of(text);
    let needle = chars_of(pattern);
    if needle.len() > haystack.len() {
        return false;
    }
    // The last offset at which the pattern still fits.
    let last = haystack.len() - needle.len();
    let mut at: usize = 0;
    while at < last
        invariant
            haystack@ == text@,
            needle@ == pattern@,
            at <= last,
            last == haystack.len() - needle.len(),
            needle.len() <= haystack.len(),
            forall|k: int| 0 <= k < at ==> !occurs_at(haystack@, needle@, k),
        decreases last - at,
    {
        if matches_at(&haystack, &needle, at) {
            return true;
        }
        at = at + 1;
    }
    matches_at(&haystack, &needle, at)
}

/// Whether a process belongs to the SSH daemon.
pub fn belongs_to_ssh(process: &ProcessRecord) -> (belongs: bool)
    ensures
        belongs == is_ssh_process(process@),
{
    match &process.comm {
        Some(c) => contains(c.as_str(), "sshd"),
        None => false,
    }
}

/// One more process adds its counters where it belongs to the SSH daemon
/// and they could be read, and nothing otherwise.
pub proof fn lemma_io_totals_push(processes: Seq<ProcessReading>, process: ProcessReading)
    ensures
        io_totals(processes.push(process)) == if is_ssh_process(process) && process.io is Some {
            (
                io_totals(processes).0 + process.io->0.read_bytes as nat,
                io_totals(processes).1 + process.io->0.write_bytes as nat,
            )
        } else {
            io_totals(processes)
        },
{
    assert(processes.push(process).drop_last() =~= processes);
}

/// A process whose command name or whose counters could not be read adds
/// nothing to the totals.
pub proof fn lemma_unreadable_process_adds_nothing(
    processes: Seq<ProcessReading>,
    process: ProcessReading,
)
    requires
        process.comm is None || process.io is None,
    ensures
        io_totals(processes.push(process)) == io_totals(processes),
{
    lemma_io_totals_push(processes, process);
}

/// The totals over the first `n` processes are at most the totals over all.
proof fn lemma_io_totals_monotone(processes: Seq<ProcessReading>, n: int)
    requires
        0 <= n <= processes.len(),
    ensures
        io_totals(processes.take(n)).0 <= io_totals(processes).0,
        io_totals(processes.take(n)).1 <= io_totals(processes).1,
    decreases processes.len(),
{
    if n == processes.len() {
        assert(processes.take(n) =~= processes);
    } else {
        assert(processes.take(n) =~= processes.drop_last().take(n));
        lemma_io_totals_monotone(processes.drop_last(), n);
    }
}

/// Collects the aggregate of one scrape from what the process table gave:
/// what was read about each process of the host, or the failure to list
/// them.
///
/// The collection fails only where the processes could not be listed, and
/// then with that error. Otherwise it sums the I/O counters of the
/// processes of the SSH daemon: a process whose command name could not be
/// read does not belong to the daemon, and one whose counters could not be
/// read adds nothing. With no such process at all the aggregate is zero.
pub fn collect_ssh_metrics(table: &Result<Vec<ProcessRecord>, CollectorError>) -> (collected:
    Result<SshMetrics, CollectorError>)
    requires
        table matches Ok(processes) ==> io_totals_fit(processes.deep_view()),
    ensures
        match *table {
            Err(e) => collected == Err::<SshMetrics, CollectorError>(e),
            Ok(processes) => {
                &&& collected matches Ok(metrics)
                &&& metrics.read_bytes == io_totals(processes.deep_view()).0
                &&& metrics.write_bytes == io_totals(processes.deep_view()).1
            },
        },
{
    let processes = match table {
        Ok(processes) => processes,
        Err(e) => {
            return Err(*e);
        },
    };
    let mut read_bytes: u64 = 0;
    let mut write_bytes: u64 = 0;
    let mut i: usize = 0;
    while i < processes.len()
        invariant
            i <= processes.len(),
            io_totals_fit(processes.deep_view()),
            read_bytes == io_totals(processes.deep_view().take(i as int)).0,
            write_bytes == io_totals(processes.deep_view().take(i as int)).1,
        decreases processes.len() - i,
    {
        proof {
            let seen = processes.deep_view().take(i + 1);
            assert(seen.drop_last() =~= processes.deep_view().take(i as int));
            lemma_io_totals_monotone(processes.deep_view(), i + 1);
        }
        if belongs_to_ssh(&processes[i]) {
            match processes[i].io {
                Some(io) => {
                    read_bytes = read_bytes + io.read_bytes;
                    write_bytes = write_bytes + io.write_bytes;
                },
                None => {},
            }
        }
        i = i + 1;
    }
    proof {
        assert(processes.deep_view().take(i as int) =~= processes.deep_view());
    }
    Ok(SshMetrics { read_bytes, write_bytes })
}

/// Whether both totals of the scrape fit in 64-bit counters, which is what
/// [`collect_ssh_metrics`] asks of its input.
pub fn ssh_readings_fit(table: &Result<Vec<ProcessRecord>, CollectorError>) -> (fit: bool)
    ensures
        fit == (table matches Ok(processes) ==> io_totals_fit(processes.deep_view())),
{
    let processes = match table {
        Ok(processes) => processes,
        Err(_) => {
            return true;
        },
    };
    let mut read_bytes: u64 = 0;
    let mut write_bytes: u64 = 0;
    let mut i: usize = 0;
    while i < processes.len()
        invariant
            i <= processes.len(),
            *table == Ok::<Vec<ProcessRecord>, CollectorError>(*processes),
            read_bytes == io_totals(processes.deep_view().take(i as int)).0,
            write_bytes == io_totals(processes.deep_view().take(i as int)).1,
        decreases processes.len() - i,
    {
        proof {
            let seen = processes.deep_view().take(i + 1);
            assert(seen.drop_last() =~= processes.deep_view().take(i as int));
            lemma_io_totals_monotone(processes.deep_view(), i + 1);
        }
        if belongs_to_ssh(&processes[i]) {
            match processes[i].io {
                Some(io) => {
                    match (
                        read_bytes.checked_add(io.read_bytes),
                        write_bytes.checked_add(io.write_bytes),
                    ) {
                        (Some(r), Some(w)) => {
                            read_bytes = r;
                            write_bytes = w;
                        },
                        _ => {
                            return false;
                        },
                    }
                },
                None => {},
            }
        }
        i = i + 1;
    }
    proof {
        assert(processes.deep_view().take(i as int) =~= processes.deep_view());
    }
    true
}

} // verus!
