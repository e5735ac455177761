use vstd::prelude::*;
use rand::Rng;
use crate::history::{push_sample, slide};
use crate::sys_info::{ProcessInfo, SystemInfo};

verus! {

/// Relies on rand::random: a value drawn from the thread-local generator.
/// Nothing is known of which value comes back.
pub assume_specification<T>[ rand::random::<T> ]() -> (r: T)
    where
        rand::distributions::Standard: rand::distributions::Distribution<T>,
;

/// `x` brought into `[lo, hi]`.
pub open spec fn clamp(x: int, lo: int, hi: int) -> int {
    if x < lo {
        lo
    } else if x > hi {
        hi
    } else {
        x
    }
}

/// Remainder of `r` by `m` with the sign of `r`, as Rust's `%` computes it.
pub open spec fn trunc_rem(r: int, m: int) -> int {
    if r >= 0 {
        r % m
    } else {
        -((-r) % m)
    }
}

/// One simulation step took `old` to `new`: `new` lies in `[0, max]`, and
/// when `old` did too, it moved by at least `lo` and at most `hi`.
pub open spec fn moved_within(old: int, new: int, lo: int, hi: int, max: int) -> bool {
    &&& 0 <= new <= max
    &&& 0 <= old <= max ==> old + lo <= new <= old + hi
}

/// `new` is `old` after one simulation step: each process keeps every field
/// but its CPU usage, which moved by less than five percentage points, and
/// its memory, which moved by less than 10 MB, each within its range.
pub open spec fn simulated_from(old: Seq<ProcessInfo>, new: Seq<ProcessInfo>) -> bool {
    &&& new.len() == old.len()
    &&& forall|k: int|
        0 <= k < new.len() ==> {
            let p = #[trigger] new[k];
            &&& moved_within(old[k].cpu_usage as int, p.cpu_usage as int, -499, 499, MAX_PROCESS_CPU as int)
            &&& moved_within(
                old[k].memory_usage as int,
                p.memory_usage as int,
                -9,
                9,
                MAX_PROCESS_MEMORY as int,
            )
            &&& p == (ProcessInfo { cpu_usage: p.cpu_usage, memory_usage: p.memory_usage, ..old[k] })
        }
}

/// The processes with their memory share recomputed from a memory total.
pub open spec fn with_memory_shares(ps: Seq<ProcessInfo>, total: u64) -> Seq<ProcessInfo> {
    Seq::new(
        ps.len(),
        |k: int|
            ProcessInfo {
                memory_percent: share_of(ps[k].memory_usage as int, total as int, 10000) as u64,
                ..ps[k]
            },
    )
}

proof fn lemma_trunc_rem_range(r: int, m: int)
    requires
        m > 0,
    ensures
        -m < trunc_rem(r, m) < m,
{
}

/// Moves `value` by `change` up or down and keeps it within `[0, max]`.
pub fn walk(value: u64, change: u64, up: bool, max: u64) -> (r: u64)
    ensures
        r as int == clamp(if up {
            value + change
        } else {
            value - change
        }, 0, max as int),
{
    if up {
        if change >= max || value >= max - change {
            max
        } else {
            value + change
        }
    } else if value <= change {
        0
    } else if value - change > max {
        max
    } else {
        value - change
    }
}

/// Moves `value` by the remainder of `draw` by `span`, less `bias`, and
/// keeps it within `[0, max]`.
pub fn drift(value: u64, draw: i64, span: i64, bias: i64, max: u64) -> (r: u64)
    requires
        0 < span,
    ensures
        r as int == clamp(value + trunc_rem(draw as int, span as int) - bias, 0, max as int),
{
    let rem: i64 = if draw >= 0 {
        draw % span
    } else if draw > -span {
        proof {
            vstd::arithmetic::div_mod::lemma_small_mod((-draw) as nat, span as nat);
        }
        draw
    } else {
        let d: i64 = -(draw + span);
        assert(d as int % span as int == (d as int + span as int) % span as int) by {
            vstd::arithmetic::div_mod::lemma_mod_add_multiples_vanish(d as int, span as int);
        }
        -(d % span)
    };
    assert(rem == trunc_rem(draw as int, span as int));
    let moved: i128 = value as i128 + rem as i128 - bias as i128;
    if moved < 0 {
        0
    } else if moved > max as i128 {
        max
    } else {
        moved as u64
    }
}

/// Largest per-process CPU usage, in hundredths of a percent.
pub const MAX_PROCESS_CPU: u64 = 10000;

/// Largest resident memory of a simulated process, in MB.
pub const MAX_PROCESS_MEMORY: u64 = 2000;

/// Largest simulated receive rate, in KB/s.
pub const MAX_SIM_RX: u64 = 5000;

/// Largest simulated send rate, in KB/s.
pub const MAX_SIM_TX: u64 = 2500;

/// Sum of a sequence of samples.
pub open spec fn seq_sum(s: Seq<u64>) -> int
    decreases s.len(),
{
    if s.len() == 0 {
        0
    } else {
        seq_sum(s.drop_last()) + s.last()
    }
}

/// Arithmetic mean of the per-core usages, truncated; 0 with no cores.
pub open spec fn mean_usage(s: Seq<u64>) -> int {
    if s.len() == 0 {
        0
    } else {
        seq_sum(s) / (s.len() as int)
    }
}

/// `part` as a share of `total` in units of `1 / scale`, truncated, capped
/// at `u64::MAX`; 0 when `total` is 0.
pub open spec fn share_of(part: int, total: int, scale: int) -> int {
    if total == 0 {
        0
    } else if part * scale / total > u64::MAX {
        u64::MAX as int
    } else {
        part * scale / total
    }
}

proof fn lemma_sum_bound(s: Seq<u64>)
    ensures
        0 <= seq_sum(s) <= s.len() * (u64::MAX as int),
    decreases s.len(),
{
    if s.len() > 0 {
        lemma_sum_bound(s.drop_last());
    }
}

fn mean_of(v: &Vec<u64>) -> (r: u64)
    ensures
        r as int == mean_usage(v@),
{
    let n = v.len();
    if n == 0 {
        return 0;
    }
    let mut sum: u128 = 0;
    let mut i: usize = 0;
    while i < n
        invariant
            n == v@.len(),
            i <= n,
            sum as int == seq_sum(v@.subrange(0, i as int)),
        decreases n - i,
    {
        proof {
            lemma_sum_bound(v@.subrange(0, i as int));
            assert(v@.subrange(0, i + 1).drop_last() =~= v@.subrange(0, i as int));
            assert(i * (u64::MAX as int) <= 0x1_0000_0000_0000_0000 * (u64::MAX as int)) by (nonlinear_arith)
                requires i <= usize::MAX, usize::MAX <= u64::MAX;
        }
        sum = sum + v[i] as u128;
        i = i + 1;
    }
    assert(v@.subrange(0, n as int) =~= v@);
    proof {
        lemma_sum_bound(v@);
        assert(seq_sum(v@) / (n as int) <= u64::MAX) by (nonlinear_arith)
            requires seq_sum(v@) <= n * (u64::MAX as int), n >= 1, seq_sum(v@) >= 0;
    }
    (sum / n as u128) as u64
}

/// `part` as a share of `total` in units of `1 / scale`.
pub fn share(part: u64, total: u64, scale: u64) -> (r: u64)
    ensures
        r as int == share_of(part as int, total as int, scale as int),
{
    if total == 0 {
        return 0;
    }
    assert(part * scale <= u64::MAX * u64::MAX) by (nonlinear_arith)
        requires part <= u64::MAX, scale <= u64::MAX;
    let q: u128 = (part as u128 * scale as u128) / total as u128;
    if q > u64::MAX as u128 {
        u64::MAX
    } else {
        q as u64
    }
}

impl SystemInfo {
    /// The fallback metrics source: moves every per-core usage, the memory
    /// in use, the network rates and each process's CPU and memory by a
    /// random bounded step. Whatever is drawn, every value stays within its
    /// range and nothing else changes.
    pub fn simulate_step(&mut self)
        ensures
            final(self).cpu_usage_per_core@.len() == old(self).cpu_usage_per_core@.len(),
            forall|k: int|
                0 <= k < final(self).cpu_usage_per_core@.len() ==> moved_within(
                    old(self).cpu_usage_per_core@[k] as int,
                    #[trigger] final(self).cpu_usage_per_core@[k] as int,
                    -9,
                    9,
                    100,
                ),
            moved_within(
                old(self).memory_used as int,
                final(self).memory_used as int,
                -49,
                49,
                old(self).memory_total as int,
            ),
            moved_within(old(self).total_rx as int, final(self).total_rx as int, -299, 99, MAX_SIM_RX as int),
            moved_within(old(self).total_tx as int, final(self).total_tx as int, -149, 49, MAX_SIM_TX as int),
            simulated_from(old(self).processes@, final(self).processes@),
            *final(self) == (SystemInfo {
                cpu_usage_per_core: final(self).cpu_usage_per_core,
                memory_used: final(self).memory_used,
                total_rx: final(self).total_rx,
                total_tx: final(self).total_tx,
                processes: final(self).processes,
                ..*old(self)
            }),
    {
        let n = self.cpu_usage_per_core.len();
        let mut i: usize = 0;
        while i < n
            invariant
                n == self.cpu_usage_per_core@.len(),
                i <= n,
                forall|k: int|
                    0 <= k < i ==> moved_within(
                        old(self).cpu_usage_per_core@[k] as int,
                        #[trigger] self.cpu_usage_per_core@[k] as int,
                        -9,
                        9,
                        100,
                    ),
                forall|k: int|
                    i <= k < n ==> #[trigger] self.cpu_usage_per_core@[k] == old(self).cpu_usage_per_core@[k],
                *self == (SystemInfo { cpu_usage_per_core: self.cpu_usage_per_core, ..*old(self) }),
            decreases n - i,
        {
            let change = rand::random::<u64>() % 10;
            let up = rand::random::<bool>();
            let v = walk(self.cpu_usage_per_core[i], change, up, 100);
            self.cpu_usage_per_core.set(i, v);
            i = i + 1;
        }
        let change = rand::random::<u64>() % 50;
        let up = rand::random::<bool>();
        self.memory_used = walk(self.memory_used, change, up, self.memory_total);
        let rx_draw = rand::random::<i64>();
        let tx_draw = rand::random::<i64>();
        proof {
            lemma_trunc_rem_range(rx_draw as int, 200);
            lemma_trunc_rem_range(tx_draw as int, 100);
        }
        self.total_rx = drift(self.total_rx, rx_draw, 200, 100, MAX_SIM_RX);
        self.total_tx = drift(self.total_tx, tx_draw, 100, 50, MAX_SIM_TX);
        let ghost mid = *self;
        let ghost before = self.processes@;
        let m = self.processes.len();
        let mut j: usize = 0;
        while j < m
            invariant
                m == self.processes@.len(),
                before.len() == m,
                j <= m,
                forall|k: int|
                    0 <= k < j ==> {
                        let p = #[trigger] self.processes@[k];
                        &&& moved_within(
                            before[k].cpu_usage as int,
                            p.cpu_usage as int,
                            -499,
                            499,
                            MAX_PROCESS_CPU as int,
                        )
                        &&& moved_within(
                            before[k].memory_usage as int,
                            p.memory_usage as int,
                            -9,
                            9,
                            MAX_PROCESS_MEMORY as int,
                        )
                        &&& p == (ProcessInfo {
                            cpu_usage: p.cpu_usage,
                            memory_usage: p.memory_usage,
                            ..before[k]
                        })
                    },
                forall|k: int| j <= k < m ==> #[trigger] self.processes@[k] == before[k],
                *self == (SystemInfo { processes: self.processes, ..mid }),
            decreases m - j,
        {
            let cpu_change = rand::random::<u64>() % 500;
            let cpu_up = rand::random::<bool>();
            let mem_change = rand::random::<u64>() % 10;
            let mem_up = rand::random::<bool>();
            let p = &mut self.processes[j];
            p.cpu_usage = walk(p.cpu_usage, cpu_change, cpu_up, MAX_PROCESS_CPU);
            p.memory_usage = walk(p.memory_usage, mem_change, mem_up, MAX_PROCESS_MEMORY);
            j = j + 1;
        }
    }
}

impl SystemInfo {
    /// Takes the current values in as one sample: the aggregate CPU usage
    /// becomes the mean of the per-core usages, each process's memory share
    /// is derived from the live memory total, and the CPU, memory, receive
    /// and send figures enter their history windows, each evicting its
    /// oldest sample.
    pub fn record_sample(&mut self)
        requires
            old(self).wf(),
        ensures
            final(self).wf(),
            final(self).cpu_total_usage == mean_usage(old(self).cpu_usage_per_core@),
            final(self).cpu_history@ == slide(old(self).cpu_history@, final(self).cpu_total_usage),
            final(self).memory_history@ == slide(
                old(self).memory_history@,
                share_of(old(self).memory_used as int, old(self).memory_total as int, 100) as u64,
            ),
            final(self).net_rx_history@ == slide(old(self).net_rx_history@, old(self).total_rx),
            final(self).net_tx_history@ == slide(old(self).net_tx_history@, old(self).total_tx),
            final(self).processes@ == with_memory_shares(old(self).processes@, old(self).memory_total),
            *final(self) == (SystemInfo {
                cpu_total_usage: final(self).cpu_total_usage,
                cpu_history: final(self).cpu_history,
                memory_history: final(self).memory_history,
                net_rx_history: final(self).net_rx_history,
                net_tx_history: final(self).net_tx_history,
                processes: final(self).processes,
                ..*old(self)
            }),
    {
        self.cpu_total_usage = mean_of(&self.cpu_usage_per_core);
        let cpu = self.cpu_total_usage;
        push_sample(&mut self.cpu_history, cpu);
        let mem = share(self.memory_used, self.memory_total, 100);
        push_sample(&mut self.memory_history, mem);
        let rx = self.total_rx;
        push_sample(&mut self.net_rx_history, rx);
        let tx = self.total_tx;
        push_sample(&mut self.net_tx_history, tx);
        let ghost mid = *self;
        let total = self.memory_total;
        let m = self.processes.len();
        let mut j: usize = 0;
        while j < m
            invariant
                m == self.processes@.len(),
                mid.processes@.len() == m,
                j <= m,
                total == mid.memory_total,
                forall|k: int|
                    0 <= k < j ==> #[trigger] self.processes@[k] == (ProcessInfo {
                        memory_percent: share_of(
                            mid.processes@[k].memory_usage as int,
                            total as int,
                            10000,
                        ) as u64,
                        ..mid.processes@[k]
                    }),
                forall|k: int| j <= k < m ==> #[trigger] self.processes@[k] == mid.processes@[k],
                *self == (SystemInfo { processes: self.processes, ..mid }),
            decreases m - j,
        {
            let p = &mut self.processes[j];
            p.memory_percent = share(p.memory_usage, total, 10000);
            j = j + 1;
        }
        assert(self.processes@ =~= with_memory_shares(mid.processes@, total));
    }
}

/// Relies on rand::Rng::gen_range on the thread-local generator: a value
/// in `[low, high)`; it panics on an empty range, which `requires` rules out.
#[verifier::external_body]
fn random_in(low: u64, high: u64) -> (r: u64)
    requires
        low < high,
    ensures
        low <= r < high,
{
    rand::thread_rng().gen_range(low..high)
}

/// A simulated pair of network rates in KB/s: receive in `[100, 2000)`,
/// send in `[50, 1000)`.
pub fn simulate_network_data() -> (r: (u64, u64))
    ensures
        100 <= r.0 < 2000,
        50 <= r.1 < 1000,
{
    let rx = random_in(100, 2000);
    let tx = random_in(50, 1000);
    (rx, tx)
}

/// A simulated pair of disk rates in MB/s: read in `[10, 200)`, write in
/// `[5, 100)`.
pub fn simulate_disk_io() -> (r: (u64, u64))
    ensures
        10 <= r.0 < 200,
        5 <= r.1 < 100,
{
    let read = random_in(10, 200);
    let write = random_in(5, 100);
    (read, write)
}

} // verus!
