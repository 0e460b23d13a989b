use vstd::prelude::*;
use crate::classify::{hundredths_of, percent_hundredths};
use crate::format::{bytes_text, format_bytes as format_bytes_text};
use crate::history::{window, HistoryBuffer};
use crate::rate::{aggregate_counters, aggregate_spec, network_rate, rate_spec};
use crate::ranking::{select_top, top_spec, ProcessSnapshot};

verus! {

/// Samples kept per history: one minute at four ticks a second.
pub const DEFAULT_HISTORY_LEN: usize = 240;

/// How many processes `top_processes` lists.
pub const TOP_PROCESS_COUNT: usize = 10;

/// One reading of the host, as handed to [`App::update`].
pub struct MetricsReading {
    /// CPU use of each logical core, in hundredths of a percent.
    pub per_core_cpu: Vec<u32>,
    pub used_memory: u64,
    pub total_memory: u64,
    /// Cumulative `(received, transmitted)` bytes of each network interface.
    pub interface_counters: Vec<(u64, u64)>,
    pub processes: Vec<ProcessSnapshot>,
}

pub open spec fn usage_sum(s: Seq<u32>) -> nat
    decreases s.len(),
{
    if s.len() == 0 {
        0
    } else {
        usage_sum(s.drop_last()) + s.last() as nat
    }
}

/// The mean of `s`, rounded down; zero for no values.
pub open spec fn mean_spec(s: Seq<u32>) -> nat {
    if s.len() == 0 { 0 } else { usage_sum(s) / s.len() }
}

/// The mean CPU use over the cores of one sample, in the sample's unit.
pub fn mean_usage(values: &Vec<u32>) -> (r: u32)
    ensures
        r == mean_spec(values@),
{
    let mut total: u128 = 0;
    let mut i: usize = 0;
    while i < values.len()
        invariant
            i <= values@.len(),
            total == usage_sum(values@.take(i as int)),
            total <= (i as int) * 0xffff_ffff,
        decreases values@.len() - i,
    {
        proof {
            let next = values@.take(i + 1);
            assert(next.drop_last() =~= values@.take(i as int));
            assert((i as int) * 0xffff_ffff + 0xffff_ffff == (i + 1) * 0xffff_ffff) by (nonlinear_arith);
            assert((i as int) * 0xffff_ffff <= 0xffff_ffff_ffff_ffff * 0xffff_ffff) by (nonlinear_arith)
                requires
                    i <= 0xffff_ffff_ffff_ffff,
            ;
        }
        total = total + values[i] as u128;
        i = i + 1;
    }
    proof {
        assert(values@.take(i as int) =~= values@);
    }
    if values.len() == 0 {
        0
    } else {
        let n = values.len() as u128;
        assert(total / n <= 0xffff_ffff) by (nonlinear_arith)
            requires
                total <= n * 0xffff_ffff,
                n > 0,
        ;
        (total / n) as u32
    }
}

/// The whole aggregation state: bounded histories of CPU, memory and
/// network rate, the last counter snapshot, and the current CPU average.
pub struct App {
    /// Per-core CPU use of each tick, hundredths of a percent.
    pub cpu_history: HistoryBuffer<Vec<u32>>,
    /// The capacity of every history.
    pub cpu_history_len: usize,
    /// `(used, total)` memory of each tick.
    pub memory_history: HistoryBuffer<(u64, u64)>,
    /// `(download, upload)` bytes per second between consecutive ticks.
    pub network_history: HistoryBuffer<(u64, u64)>,
    /// The counter snapshot of the last tick.
    pub prev_network_data: Option<(u64, u64)>,
    /// The mean of the last CPU sample, hundredths of a percent.
    pub cpu_average: u32,
    /// The process table of the last tick.
    pub processes: Vec<ProcessSnapshot>,
}

impl App {
    pub open spec fn wf(&self) -> bool {
        &&& self.cpu_history.wf()
        &&& self.memory_history.wf()
        &&& self.network_history.wf()
        &&& self.cpu_history.capacity_spec() == self.cpu_history_len
        &&& self.memory_history.capacity_spec() == self.cpu_history_len
        &&& self.network_history.capacity_spec() == self.cpu_history_len
    }

    /// The state at start-up: every history empty, holding at most
    /// `history_len` samples.
    pub fn with_history_len(history_len: usize) -> (r: App)
        ensures
            r.wf(),
            r.cpu_history_len == history_len,
            r.cpu_history@.len() == 0,
            r.memory_history@.len() == 0,
            r.network_history@.len() == 0,
            r.prev_network_data.is_none(),
            r.cpu_average == 0,
            r.processes@.len() == 0,
    {
        App {
            cpu_history: HistoryBuffer::new(history_len),
            cpu_history_len: history_len,
            memory_history: HistoryBuffer::new(history_len),
            network_history: HistoryBuffer::new(history_len),
            prev_network_data: None,
            cpu_average: 0,
            processes: Vec::new(),
        }
    }

    /// The state at start-up, keeping one minute of samples at four a second.
    pub fn new() -> (r: App)
        ensures
            r.wf(),
            r.cpu_history_len == DEFAULT_HISTORY_LEN,
            r.cpu_history@.len() == 0,
            r.memory_history@.len() == 0,
            r.network_history@.len() == 0,
            r.prev_network_data.is_none(),
            r.cpu_average == 0,
            r.processes@.len() == 0,
    {
        App::with_history_len(DEFAULT_HISTORY_LEN)
    }

    fn update_cpu_data(&mut self, cpu_usage: Vec<u32>)
        requires
            old(self).wf(),
        ensures
            final(self).wf(),
            final(self).cpu_history_len == old(self).cpu_history_len,
            final(self).cpu_history@ == window(
                old(self).cpu_history@.push(cpu_usage),
                old(self).cpu_history_len as nat,
            ),
            final(self).cpu_average == mean_spec(cpu_usage@),
            final(self).memory_history == old(self).memory_history,
            final(self).network_history == old(self).network_history,
            final(self).prev_network_data == old(self).prev_network_data,
            final(self).processes == old(self).processes,
    {
        self.cpu_average = mean_usage(&cpu_usage);
        self.cpu_history.push(cpu_usage);
    }

    fn update_memory_data(&mut self, used_memory: u64, total_memory: u64)
        requires
            old(self).wf(),
        ensures
            final(self).wf(),
            final(self).cpu_history_len == old(self).cpu_history_len,
            final(self).memory_history@ == window(
                old(self).memory_history@.push((used_memory, total_memory)),
                old(self).cpu_history_len as nat,
            ),
            final(self).cpu_history == old(self).cpu_history,
            final(self).cpu_average == old(self).cpu_average,
            final(self).network_history == old(self).network_history,
            final(self).prev_network_data == old(self).prev_network_data,
            final(self).processes == old(self).processes,
    {
        self.memory_history.push((used_memory, total_memory));
    }

    fn update_network_data(&mut self, counters: &Vec<(u64, u64)>, interval_micros: u64)
        requires
            old(self).wf(),
        ensures
            final(self).wf(),
            final(self).cpu_history_len == old(self).cpu_history_len,
            final(self).network_history@ == match rate_spec(
                old(self).prev_network_data,
                aggregate_spec(counters@),
                interval_micros,
            ) {
                Some(rate) => window(
                    old(self).network_history@.push(rate),
                    old(self).cpu_history_len as nat,
                ),
                None => old(self).network_history@,
            },
            final(self).prev_network_data == Some(aggregate_spec(counters@)),
            final(self).cpu_history == old(self).cpu_history,
            final(self).cpu_average == old(self).cpu_average,
            final(self).memory_history == old(self).memory_history,
            final(self).processes == old(self).processes,
    {
        let snapshot = aggregate_counters(counters);
        match network_rate(self.prev_network_data, snapshot, interval_micros) {
            Some(rate) => self.network_history.push(rate),
            None => {},
        }
        self.prev_network_data = Some(snapshot);
    }

    /// Folds one reading into the state. `interval_micros` is the time
    /// measured since the previous reading; network rates are derived over it.
    pub fn update(&mut self, reading: MetricsReading, interval_micros: u64)
        requires
            old(self).wf(),
        ensures
            final(self).wf(),
            final(self).cpu_history_len == old(self).cpu_history_len,
            final(self).cpu_history@ == window(
                old(self).cpu_history@.push(reading.per_core_cpu),
                old(self).cpu_history_len as nat,
            ),
            final(self).cpu_average == mean_spec(reading.per_core_cpu@),
            final(self).memory_history@ == window(
                old(self).memory_history@.push((reading.used_memory, reading.total_memory)),
                old(self).cpu_history_len as nat,
            ),
            final(self).network_history@ == match rate_spec(
                old(self).prev_network_data,
                aggregate_spec(reading.interface_counters@),
                interval_micros,
            ) {
                Some(rate) => window(
                    old(self).network_history@.push(rate),
                    old(self).cpu_history_len as nat,
                ),
                None => old(self).network_history@,
            },
            final(self).prev_network_data == Some(aggregate_spec(reading.interface_counters@)),
            final(self).processes == reading.processes,
            old(self).cpu_history@.len() == old(self).memory_history@.len()
                ==> final(self).cpu_history@.len() == final(self).memory_history@.len(),
            old(self).network_history@.len() <= old(self).memory_history@.len()
                ==> final(self).network_history@.len() <= final(self).memory_history@.len(),
    {
        proof {
            self.network_history.lemma_bounded();
            self.memory_history.lemma_bounded();
        }
        let MetricsReading {
            per_core_cpu,
            used_memory,
            total_memory,
            interface_counters,
            processes,
        } = reading;
        self.update_cpu_data(per_core_cpu);
        self.update_memory_data(used_memory, total_memory);
        self.update_network_data(&interface_counters, interval_micros);
        self.processes = processes;
    }

    /// The number of cores in the latest CPU sample.
    pub fn cpu_count(&self) -> (r: usize)
        ensures
            r == if self.cpu_history@.len() == 0 {
                0
            } else {
                self.cpu_history@.last()@.len()
            },
    {
        match self.cpu_history.latest() {
            Some(v) => v.len(),
            None => 0,
        }
    }

    /// The per-core CPU use of the latest sample; empty before any.
    pub fn current_cpu_usage(&self) -> (r: Vec<u32>)
        ensures
            r@ == if self.cpu_history@.len() == 0 {
                Seq::<u32>::empty()
            } else {
                self.cpu_history@.last()@
            },
    {
        let mut out: Vec<u32> = Vec::new();
        match self.cpu_history.latest() {
            Some(v) => {
                let mut i: usize = 0;
                while i < v.len()
                    invariant
                        i <= v@.len(),
                        out@ == v@.take(i as int),
                    decreases v@.len() - i,
                {
                    out.push(v[i]);
                    i = i + 1;
                    assert(out@ =~= v@.take(i as int));
                }
                assert(out@ =~= v@);
            },
            None => {},
        }
        out
    }

    /// Memory in use in the latest sample, hundredths of a percent of the
    /// total; zero before any sample or when the total is zero.
    pub fn memory_usage_percent(&self) -> (r: u64)
        ensures
            self.memory_history@.len() == 0 ==> r == 0,
            self.memory_history@.len() > 0 ==> {
                let (used, total) = self.memory_history@.last();
                let p = hundredths_of(used as nat, total as nat);
                r == if p > 0xffff_ffff_ffff_ffff { 0xffff_ffff_ffff_ffff } else { p }
            },
    {
        match self.memory_history.latest() {
            Some(m) => percent_hundredths(m.0, m.1),
            None => 0,
        }
    }

    /// A byte count in binary units up to TB with one decimal place.
    pub fn format_bytes(bytes: u64) -> (r: String)
        ensures
            r@ == bytes_text(bytes as nat),
    {
        format_bytes_text(bytes)
    }

    /// The processes of the last reading that use the most CPU, highest
    /// first, at most ten.
    pub fn top_processes(&self) -> (r: Vec<ProcessSnapshot>)
        ensures
            r@ == top_spec(self.processes@, TOP_PROCESS_COUNT as nat),
    {
        select_top(&self.processes, TOP_PROCESS_COUNT)
    }
}

} // verus!
