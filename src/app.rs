use vstd::prelude::*;
use vstd::view::View as _;
use crate::history::slide;
use crate::process_table::{is_stable_sort, sort_processes};
use crate::selection::{clamp_selection, sat_sub, scroll_step, selection_ok, ScrollOp};
use crate::simulate::{
    mean_usage, moved_within, share_of, simulated_from, with_memory_shares, MAX_SIM_RX, MAX_SIM_TX,
};
use crate::sys_info::{ProcessInfo, ProcessSort, SystemInfo};
use crate::view::{next_view, View};

verus! {

/// Shortest refresh interval, in microseconds.
pub const MIN_UPDATE_INTERVAL: u64 = 250_000;

/// Longest refresh interval, in microseconds.
pub const MAX_UPDATE_INTERVAL: u64 = 10_000_000;

/// Refresh interval at start, in microseconds.
pub const DEFAULT_UPDATE_INTERVAL: u64 = 1_000_000;

/// Rows that a page moves the offset of a screen without a selection.
pub const SCROLL_PAGE: usize = 10;

/// Process rows visible at once at start.
pub const DEFAULT_VISIBLE_ROWS: usize = 20;

/// The dashboard's whole state: the current screen, the metrics, the
/// process table's order and selection, the overlays and the refresh clock.
/// Times are microsecond readings of one monotonic clock.
pub struct App {
    pub current_view: View,
    pub metrics: SystemInfo,
    /// First visible row of the screens without a selection.
    pub scroll_offset: usize,
    /// First visible row of the process table.
    pub process_scroll_offset: usize,
    pub selected_process: usize,
    pub show_help: bool,
    pub paused: bool,
    /// Microseconds between two metrics ticks.
    pub update_interval: u64,
    /// Clock reading of the last metrics tick.
    pub last_update: u64,
    pub process_sort: ProcessSort,
    /// Highest first when set, lowest first otherwise.
    pub sort_reverse: bool,
    pub show_full_command: bool,
    pub show_tree_view: bool,
    pub show_proc_details: bool,
    pub proc_aggregated: bool,
    /// Process rows visible at once.
    pub max_processes: usize,
}

/// Offset of a screen without a selection after one movement.
pub open spec fn plain_scroll(off: int, op: ScrollOp) -> int {
    match op {
        ScrollOp::Down => if off < usize::MAX {
            off + 1
        } else {
            off
        },
        ScrollOp::Up => sat_sub(off, 1),
        ScrollOp::PageDown => if off + SCROLL_PAGE <= usize::MAX {
            off + SCROLL_PAGE
        } else {
            usize::MAX as int
        },
        ScrollOp::PageUp => sat_sub(off, SCROLL_PAGE as int),
        ScrollOp::Top => 0,
        ScrollOp::Bottom => off,
    }
}

/// Column and direction after the column `key` is chosen: choosing the
/// current column again flips the direction; a new column starts highest
/// first for CPU and memory and lowest first otherwise.
pub open spec fn next_sort(cur: ProcessSort, reverse: bool, key: ProcessSort) -> (ProcessSort, bool) {
    if cur == key {
        (key, !reverse)
    } else {
        (key, key == ProcessSort::Cpu || key == ProcessSort::Memory)
    }
}

/// The interval after slowing the refresh down: doubled, at most the
/// longest interval.
pub open spec fn longer_interval(i: int) -> int {
    if 2 * i > MAX_UPDATE_INTERVAL {
        MAX_UPDATE_INTERVAL as int
    } else {
        2 * i
    }
}

/// The interval after speeding the refresh up: halved, at least the
/// shortest interval.
pub open spec fn shorter_interval(i: int) -> int {
    if i / 2 < MIN_UPDATE_INTERVAL {
        MIN_UPDATE_INTERVAL as int
    } else {
        i / 2
    }
}

/// `i` after `n` slow-downs.
pub open spec fn longer_n(i: int, n: nat) -> int
    decreases n,
{
    if n == 0 {
        i
    } else {
        longer_interval(longer_n(i, (n - 1) as nat))
    }
}

/// `i` after `n` speed-ups.
pub open spec fn shorter_n(i: int, n: nat) -> int
    decreases n,
{
    if n == 0 {
        i
    } else {
        shorter_interval(shorter_n(i, (n - 1) as nat))
    }
}

fn clamped(len: usize, rows: usize, sel: usize, off: usize) -> (r: (usize, usize))
    requires
        rows >= 1,
    ensures
        (r.0 as int, r.1 as int) == clamp_selection(len as int, rows as int, sel as int, off as int),
{
    if len == 0 {
        return (0, 0);
    }
    let s = if sel < len - 1 {
        sel
    } else {
        len - 1
    };
    let cap: usize = if len > rows {
        len - rows
    } else {
        0
    };
    let mut o = off;
    if s < o {
        o = s;
    }
    if cap < o {
        o = cap;
    }
    if s + 1 > rows && o < s + 1 - rows {
        o = s + 1 - rows;
    }
    (s, o)
}

impl App {
    /// The state's invariant: full history windows, a viewport of at least
    /// one row with the selection inside it, and a refresh interval within
    /// its bounds.
    pub open spec fn wf(&self) -> bool {
        &&& self.wf_but_selection()
        &&& selection_ok(
            self.metrics.processes@.len() as int,
            self.max_processes as int,
            self.selected_process as int,
            self.process_scroll_offset as int,
        )
    }

    /// The invariant without its selection part, which a new process list
    /// can break until the selection is clamped.
    pub open spec fn wf_but_selection(&self) -> bool {
        &&& self.metrics.wf()
        &&& self.max_processes >= 1
        &&& MIN_UPDATE_INTERVAL <= self.update_interval <= MAX_UPDATE_INTERVAL
    }

    /// The state after one movement: on the process screen it moves the
    /// selection and the table's window; elsewhere the screen's offset.
    pub open spec fn scrolled(self, op: ScrollOp) -> App {
        if self.current_view == View::Process {
            let r = scroll_step(
                self.metrics.processes@.len() as int,
                self.max_processes as int,
                self.selected_process as int,
                self.process_scroll_offset as int,
                op,
            );
            App { selected_process: r.0 as usize, process_scroll_offset: r.1 as usize, ..self }
        } else {
            App { scroll_offset: plain_scroll(self.scroll_offset as int, op) as usize, ..self }
        }
    }

    /// The state with the selection back at the top and the detail overlay
    /// closed.
    pub open spec fn with_selection_reset(self) -> App {
        App { selected_process: 0, process_scroll_offset: 0, show_proc_details: false, ..self }
    }

    /// A metrics tick is due at clock reading `now`: not paused, and a full
    /// interval has passed since the last tick.
    pub open spec fn tick_due(self, now: u64) -> bool {
        !self.paused && now >= self.last_update && now - self.last_update >= self.update_interval
    }

    fn process_step(&self, op: ScrollOp) -> (r: (usize, usize))
        requires
            self.wf(),
        ensures
            r.0 as int == scroll_step(
                self.metrics.processes@.len() as int,
                self.max_processes as int,
                self.selected_process as int,
                self.process_scroll_offset as int,
                op,
            ).0,
            r.1 as int == scroll_step(
                self.metrics.processes@.len() as int,
                self.max_processes as int,
                self.selected_process as int,
                self.process_scroll_offset as int,
                op,
            ).1,
    {
        let len = self.metrics.processes.len();
        let rows = self.max_processes;
        let sel = self.selected_process;
        let off = self.process_scroll_offset;
        if len == 0 {
            return (0, 0);
        }
        let cap: usize = if len > rows {
            len - rows
        } else {
            0
        };
        match op {
            ScrollOp::Down => {
                if sel < len - 1 {
                    if sel + 1 - off >= rows {
                        (sel + 1, off + 1)
                    } else {
                        (sel + 1, off)
                    }
                } else {
                    (sel, off)
                }
            },
            ScrollOp::Up => {
                if sel > 0 {
                    if sel - 1 < off {
                        (sel - 1, off - 1)
                    } else {
                        (sel - 1, off)
                    }
                } else {
                    (sel, off)
                }
            },
            ScrollOp::PageDown => {
                let s = if rows >= len - 1 - sel {
                    len - 1
                } else {
                    sel + rows
                };
                let o = if rows >= cap - off {
                    cap
                } else {
                    off + rows
                };
                (s, o)
            },
            ScrollOp::PageUp => {
                let s = if sel > rows {
                    sel - rows
                } else {
                    0
                };
                let o = if off > rows {
                    off - rows
                } else {
                    0
                };
                (s, o)
            },
            ScrollOp::Top => (0, 0),
            ScrollOp::Bottom => (len - 1, cap),
        }
    }

    fn scroll(&mut self, op: ScrollOp)
        requires
            old(self).wf(),
        ensures
            *final(self) == old(self).scrolled(op),
            final(self).wf(),
    {
        proof {
            crate::selection::lemma_scroll_step_keeps_bounds(
                self.metrics.processes@.len() as int,
                self.max_processes as int,
                self.selected_process as int,
                self.process_scroll_offset as int,
                op,
            );
        }
        if self.current_view == View::Process {
            let r = self.process_step(op);
            self.selected_process = r.0;
            self.process_scroll_offset = r.1;
        } else {
            let off = self.scroll_offset;
            self.scroll_offset = match op {
                ScrollOp::Down => off.saturating_add(1),
                ScrollOp::Up => off.saturating_sub(1),
                ScrollOp::PageDown => off.saturating_add(SCROLL_PAGE),
                ScrollOp::PageUp => off.saturating_sub(SCROLL_PAGE),
                ScrollOp::Top => 0,
                ScrollOp::Bottom => off,
            };
        }
    }

    /// Moves the selection one row down (or the screen's offset one row).
    pub fn scroll_down(&mut self)
        requires
            old(self).wf(),
        ensures
            *final(self) == old(self).scrolled(ScrollOp::Down),
            final(self).wf(),
    {
        self.scroll(ScrollOp::Down)
    }

    /// Moves the selection one row up (or the screen's offset one row).
    pub fn scroll_up(&mut self)
        requires
            old(self).wf(),
        ensures
            *final(self) == old(self).scrolled(ScrollOp::Up),
            final(self).wf(),
    {
        self.scroll(ScrollOp::Up)
    }

    /// Moves the selection one page down (or the screen's offset by a page).
    pub fn scroll_page_down(&mut self)
        requires
            old(self).wf(),
        ensures
            *final(self) == old(self).scrolled(ScrollOp::PageDown),
            final(self).wf(),
    {
        self.scroll(ScrollOp::PageDown)
    }

    /// Moves the selection one page up (or the screen's offset by a page).
    pub fn scroll_page_up(&mut self)
        requires
            old(self).wf(),
        ensures
            *final(self) == old(self).scrolled(ScrollOp::PageUp),
            final(self).wf(),
    {
        self.scroll(ScrollOp::PageUp)
    }

    /// Moves the selection to the first process (or the screen to its top).
    pub fn scroll_top(&mut self)
        requires
            old(self).wf(),
        ensures
            *final(self) == old(self).scrolled(ScrollOp::Top),
            final(self).wf(),
    {
        self.scroll(ScrollOp::Top)
    }

    /// Moves the selection to the last process; other screens stay put.
    pub fn scroll_bottom(&mut self)
        requires
            old(self).wf(),
        ensures
            *final(self) == old(self).scrolled(ScrollOp::Bottom),
            final(self).wf(),
    {
        self.scroll(ScrollOp::Bottom)
    }

    /// Puts the selection back on the first process and closes the detail
    /// overlay.
    pub fn reset_selection(&mut self)
        requires
            old(self).wf(),
        ensures
            *final(self) == old(self).with_selection_reset(),
            final(self).wf(),
    {
        self.selected_process = 0;
        self.process_scroll_offset = 0;
        self.show_proc_details = false;
    }

    /// Moves to the next screen in the cycle and resets the selection.
    pub fn cycle_view(&mut self)
        requires
            old(self).wf(),
        ensures
            *final(self) == (App { current_view: next_view(old(self).current_view), ..*old(self) }).with_selection_reset(),
            final(self).wf(),
    {
        self.current_view = self.current_view.next();
        self.reset_selection();
    }

    /// Moves to the given screen and resets the selection.
    pub fn select_view(&mut self, view: View)
        requires
            old(self).wf(),
        ensures
            *final(self) == (App { current_view: view, ..*old(self) }).with_selection_reset(),
            final(self).wf(),
    {
        self.current_view = view;
        self.reset_selection();
    }

    /// Pauses or resumes the metrics ticks.
    pub fn toggle_pause(&mut self)
        ensures
            *final(self) == (App { paused: !old(self).paused, ..*old(self) }),
    {
        self.paused = !self.paused;
    }

    /// Shows or hides the help overlay.
    pub fn toggle_help(&mut self)
        ensures
            *final(self) == (App { show_help: !old(self).show_help, ..*old(self) }),
    {
        self.show_help = !self.show_help;
    }

    /// Opens or closes the selected process's detail overlay.
    pub fn toggle_process_details(&mut self)
        ensures
            *final(self) == (App { show_proc_details: !old(self).show_proc_details, ..*old(self) }),
    {
        self.show_proc_details = !self.show_proc_details;
    }

    /// Shows full command lines or short commands.
    pub fn toggle_full_command(&mut self)
        ensures
            *final(self) == (App { show_full_command: !old(self).show_full_command, ..*old(self) }),
    {
        self.show_full_command = !self.show_full_command;
    }

    /// Switches the process tree layout on or off.
    pub fn toggle_tree_view(&mut self)
        ensures
            *final(self) == (App { show_tree_view: !old(self).show_tree_view, ..*old(self) }),
    {
        self.show_tree_view = !self.show_tree_view;
    }

    /// Switches aggregation of processes on or off.
    pub fn toggle_proc_aggregation(&mut self)
        ensures
            *final(self) == (App { proc_aggregated: !old(self).proc_aggregated, ..*old(self) }),
    {
        self.proc_aggregated = !self.proc_aggregated;
    }

    /// Doubles the refresh interval, up to the longest interval.
    pub fn increase_update_delay(&mut self)
        requires
            old(self).wf(),
        ensures
            *final(self) == (App {
                update_interval: longer_interval(old(self).update_interval as int) as u64,
                ..*old(self)
            }),
            final(self).wf(),
    {
        self.update_interval = if self.update_interval > MAX_UPDATE_INTERVAL / 2 {
            MAX_UPDATE_INTERVAL
        } else {
            self.update_interval * 2
        };
    }

    /// Halves the refresh interval, down to the shortest interval.
    pub fn decrease_update_delay(&mut self)
        requires
            old(self).wf(),
        ensures
            *final(self) == (App {
                update_interval: shorter_interval(old(self).update_interval as int) as u64,
                ..*old(self)
            }),
            final(self).wf(),
    {
        self.update_interval = if self.update_interval / 2 < MIN_UPDATE_INTERVAL {
            MIN_UPDATE_INTERVAL
        } else {
            self.update_interval / 2
        };
    }

    /// Orders the process list stably by the current column and direction.
    pub fn sort_processes(&mut self)
        requires
            old(self).wf(),
        ensures
            is_stable_sort(
                old(self).metrics.processes@,
                final(self).metrics.processes@,
                old(self).process_sort,
                old(self).sort_reverse,
            ),
            *final(self) == (App {
                metrics: SystemInfo { processes: final(self).metrics.processes, ..old(self).metrics },
                ..*old(self)
            }),
            final(self).wf(),
    {
        let sort = self.process_sort;
        let reverse = self.sort_reverse;
        sort_processes(&mut self.metrics.processes, sort, reverse);
    }

    /// Chooses the column to order processes by: the same column again
    /// flips the direction, a new one takes its default direction. The list
    /// is re-sorted, the selection reset and the detail overlay closed.
    pub fn change_sort_column(&mut self, sort: ProcessSort)
        requires
            old(self).wf(),
        ensures
            (final(self).process_sort, final(self).sort_reverse) == next_sort(
                old(self).process_sort,
                old(self).sort_reverse,
                sort,
            ),
            is_stable_sort(
                old(self).metrics.processes@,
                final(self).metrics.processes@,
                final(self).process_sort,
                final(self).sort_reverse,
            ),
            *final(self) == (App {
                metrics: SystemInfo { processes: final(self).metrics.processes, ..old(self).metrics },
                process_sort: final(self).process_sort,
                sort_reverse: final(self).sort_reverse,
                ..*old(self)
            }).with_selection_reset(),
            final(self).wf(),
    {
        if self.process_sort == sort {
            self.sort_reverse = !self.sort_reverse;
        } else {
            self.process_sort = sort;
            self.sort_reverse = match sort {
                ProcessSort::Cpu | ProcessSort::Memory => true,
                _ => false,
            };
        }
        self.sort_processes();
        self.reset_selection();
    }

    fn clamp_selection(&mut self)
        requires
            old(self).wf_but_selection(),
        ensures
            (final(self).selected_process as int, final(self).process_scroll_offset as int)
                == clamp_selection(
                old(self).metrics.processes@.len() as int,
                old(self).max_processes as int,
                old(self).selected_process as int,
                old(self).process_scroll_offset as int,
            ),
            *final(self) == (App {
                selected_process: final(self).selected_process,
                process_scroll_offset: final(self).process_scroll_offset,
                ..*old(self)
            }),
            final(self).wf(),
    {
        proof {
            crate::selection::lemma_clamp_selection_ok(
                self.metrics.processes@.len() as int,
                self.max_processes as int,
                self.selected_process as int,
                self.process_scroll_offset as int,
            );
        }
        let r = clamped(
            self.metrics.processes.len(),
            self.max_processes,
            self.selected_process,
            self.process_scroll_offset,
        );
        self.selected_process = r.0;
        self.process_scroll_offset = r.1;
    }

    /// Completes a metrics tick on the values now in `metrics`: records them
    /// as a sample, re-sorts the process list by the current column and
    /// brings the selection back into the list.
    pub fn absorb_sample(&mut self)
        requires
            old(self).wf_but_selection(),
        ensures
            final(self).wf(),
            final(self).metrics.cpu_total_usage == mean_usage(old(self).metrics.cpu_usage_per_core@),
            final(self).metrics.cpu_history@ == slide(
                old(self).metrics.cpu_history@,
                final(self).metrics.cpu_total_usage,
            ),
            final(self).metrics.memory_history@ == slide(
                old(self).metrics.memory_history@,
                share_of(
                    old(self).metrics.memory_used as int,
                    old(self).metrics.memory_total as int,
                    100,
                ) as u64,
            ),
            final(self).metrics.net_rx_history@ == slide(
                old(self).metrics.net_rx_history@,
                old(self).metrics.total_rx,
            ),
            final(self).metrics.net_tx_history@ == slide(
                old(self).metrics.net_tx_history@,
                old(self).metrics.total_tx,
            ),
            is_stable_sort(
                with_memory_shares(old(self).metrics.processes@, old(self).metrics.memory_total),
                final(self).metrics.processes@,
                old(self).process_sort,
                old(self).sort_reverse,
            ),
            (final(self).selected_process as int, final(self).process_scroll_offset as int)
                == clamp_selection(
                old(self).metrics.processes@.len() as int,
                old(self).max_processes as int,
                old(self).selected_process as int,
                old(self).process_scroll_offset as int,
            ),
            *final(self) == (App {
                metrics: SystemInfo {
                    cpu_total_usage: final(self).metrics.cpu_total_usage,
                    cpu_history: final(self).metrics.cpu_history,
                    memory_history: final(self).metrics.memory_history,
                    net_rx_history: final(self).metrics.net_rx_history,
                    net_tx_history: final(self).metrics.net_tx_history,
                    processes: final(self).metrics.processes,
                    ..old(self).metrics
                },
                selected_process: final(self).selected_process,
                process_scroll_offset: final(self).process_scroll_offset,
                ..*old(self)
            }),
    {
        self.metrics.record_sample();
        let sort = self.process_sort;
        let reverse = self.sort_reverse;
        sort_processes(&mut self.metrics.processes, sort, reverse);
        self.clamp_selection();
    }

    /// The metrics tick: when one is due at clock reading `now`, draws the
    /// next values from the fallback source, absorbs them as a sample and
    /// notes the time. When none is due (in particular while paused),
    /// nothing changes.
    pub fn update_metrics(&mut self, now: u64)
        requires
            old(self).wf(),
        ensures
            final(self).wf(),
            !old(self).tick_due(now) ==> *final(self) == *old(self),
            old(self).paused ==> *final(self) == *old(self),
            old(self).tick_due(now) ==> {
                let m = final(self).metrics;
                let o = old(self).metrics;
                &&& m.cpu_usage_per_core@.len() == o.cpu_usage_per_core@.len()
                &&& forall|k: int|
                    0 <= k < m.cpu_usage_per_core@.len() ==> moved_within(
                        o.cpu_usage_per_core@[k] as int,
                        #[trigger] m.cpu_usage_per_core@[k] as int,
                        -9,
                        9,
                        100,
                    )
                &&& moved_within(o.memory_used as int, m.memory_used as int, -49, 49, o.memory_total as int)
                &&& moved_within(o.total_rx as int, m.total_rx as int, -299, 99, MAX_SIM_RX as int)
                &&& moved_within(o.total_tx as int, m.total_tx as int, -149, 49, MAX_SIM_TX as int)
                &&& m.cpu_total_usage == mean_usage(m.cpu_usage_per_core@)
                &&& m.cpu_history@ == slide(o.cpu_history@, m.cpu_total_usage)
                &&& m.memory_history@ == slide(
                    o.memory_history@,
                    share_of(m.memory_used as int, m.memory_total as int, 100) as u64,
                )
                &&& m.net_rx_history@ == slide(o.net_rx_history@, m.total_rx)
                &&& m.net_tx_history@ == slide(o.net_tx_history@, m.total_tx)
                &&& exists|drawn: Seq<ProcessInfo>|
                    simulated_from(o.processes@, drawn) && is_stable_sort(
                        #[trigger] with_memory_shares(drawn, o.memory_total),
                        m.processes@,
                        old(self).process_sort,
                        old(self).sort_reverse,
                    )
                &&& m == (SystemInfo {
                    cpu_usage_per_core: m.cpu_usage_per_core,
                    cpu_total_usage: m.cpu_total_usage,
                    memory_used: m.memory_used,
                    total_rx: m.total_rx,
                    total_tx: m.total_tx,
                    processes: m.processes,
                    cpu_history: m.cpu_history,
                    memory_history: m.memory_history,
                    net_rx_history: m.net_rx_history,
                    net_tx_history: m.net_tx_history,
                    ..o
                })
                &&& *final(self) == (App { metrics: m, last_update: now, ..*old(self) })
            },
    {
        if self.paused || now < self.last_update || now - self.last_update < self.update_interval {
            return;
        }
        self.last_update = now;
        self.metrics.simulate_step();
        let ghost drawn = self.metrics.processes@;
        proof {
            crate::selection::lemma_clamp_selection_ok(
                drawn.len() as int,
                self.max_processes as int,
                self.selected_process as int,
                self.process_scroll_offset as int,
            );
        }
        self.absorb_sample();
        assert(simulated_from(old(self).metrics.processes@, drawn));
    }

    /// The metrics tick with a snapshot from a metrics source: when a tick
    /// is due at clock reading `now`, the snapshot replaces the metrics,
    /// except that the history windows carry over; it is then absorbed as a
    /// sample and the time noted. When none is due (in particular while
    /// paused), nothing changes.
    pub fn apply_snapshot(&mut self, now: u64, snapshot: SystemInfo)
        requires
            old(self).wf(),
        ensures
            final(self).wf(),
            !old(self).tick_due(now) ==> *final(self) == *old(self),
            old(self).tick_due(now) ==> {
                let m = final(self).metrics;
                &&& m.cpu_total_usage == mean_usage(snapshot.cpu_usage_per_core@)
                &&& m.cpu_history@ == slide(old(self).metrics.cpu_history@, m.cpu_total_usage)
                &&& m.memory_history@ == slide(
                    old(self).metrics.memory_history@,
                    share_of(snapshot.memory_used as int, snapshot.memory_total as int, 100) as u64,
                )
                &&& m.net_rx_history@ == slide(old(self).metrics.net_rx_history@, snapshot.total_rx)
                &&& m.net_tx_history@ == slide(old(self).metrics.net_tx_history@, snapshot.total_tx)
                &&& is_stable_sort(
                    with_memory_shares(snapshot.processes@, snapshot.memory_total),
                    m.processes@,
                    old(self).process_sort,
                    old(self).sort_reverse,
                )
                &&& (final(self).selected_process as int, final(self).process_scroll_offset as int)
                    == clamp_selection(
                    snapshot.processes@.len() as int,
                    old(self).max_processes as int,
                    old(self).selected_process as int,
                    old(self).process_scroll_offset as int,
                )
                &&& m == (SystemInfo {
                    cpu_total_usage: m.cpu_total_usage,
                    cpu_history: m.cpu_history,
                    memory_history: m.memory_history,
                    net_rx_history: m.net_rx_history,
                    net_tx_history: m.net_tx_history,
                    processes: m.processes,
                    ..snapshot
                })
                &&& *final(self) == (App {
                    metrics: m,
                    last_update: now,
                    selected_process: final(self).selected_process,
                    process_scroll_offset: final(self).process_scroll_offset,
                    ..*old(self)
                })
            },
    {
        if self.paused || now < self.last_update || now - self.last_update < self.update_interval {
            return;
        }
        self.last_update = now;
        let mut next = snapshot;
        std::mem::swap(&mut next.cpu_history, &mut self.metrics.cpu_history);
        std::mem::swap(&mut next.memory_history, &mut self.metrics.memory_history);
        std::mem::swap(&mut next.net_rx_history, &mut self.metrics.net_rx_history);
        std::mem::swap(&mut next.net_tx_history, &mut self.metrics.net_tx_history);
        self.metrics = next;
        self.absorb_sample();
    }

    /// While paused, moves the tick clock along to `now`, so that resuming
    /// waits a full interval before the next tick.
    pub fn hold_clock_while_paused(&mut self, now: u64)
        ensures
            *final(self) == (if old(self).paused {
                App { last_update: now, ..*old(self) }
            } else {
                *old(self)
            }),
    {
        if self.paused {
            self.last_update = now;
        }
    }
}

impl Default for App {
    /// The starting state: system screen, sample metrics, processes ordered
    /// by CPU highest first, one-second refresh, twenty visible rows.
    fn default() -> (r: App)
        ensures
            r.wf(),
            r.current_view == View::System,
            r.process_sort == ProcessSort::Cpu,
            r.sort_reverse,
            !r.paused,
            r.update_interval == DEFAULT_UPDATE_INTERVAL,
            r.max_processes == DEFAULT_VISIBLE_ROWS,
            r.selected_process == 0 && r.process_scroll_offset == 0 && r.scroll_offset == 0,
            r.last_update == 0,
    {
        App {
            current_view: View::System,
            metrics: SystemInfo::default(),
            scroll_offset: 0,
            process_scroll_offset: 0,
            selected_process: 0,
            show_help: false,
            paused: false,
            update_interval: DEFAULT_UPDATE_INTERVAL,
            last_update: 0,
            process_sort: ProcessSort::Cpu,
            sort_reverse: true,
            show_full_command: false,
            show_tree_view: false,
            show_proc_details: false,
            proc_aggregated: false,
            max_processes: DEFAULT_VISIBLE_ROWS,
        }
    }
}

/// Choosing the same column twice in a row flips the direction that the
/// first choice set, and keeps the column.
pub proof fn lemma_sort_toggle(cur: ProcessSort, reverse: bool, key: ProcessSort)
    ensures
        ({
            let first = next_sort(cur, reverse, key);
            let second = next_sort(first.0, first.1, key);
            second.0 == key && second.1 == !first.1
        }),
{
}

/// Slowing the refresh down any number of times never goes past the longest
/// interval, speeding it up never below the shortest, five slow-downs from
/// one second reach the ten-second bound, and speeding up from one second
/// gives half a second once and the shortest interval every time after.
pub proof fn lemma_interval_bounds(i: int, n: nat)
    requires
        MIN_UPDATE_INTERVAL <= i <= MAX_UPDATE_INTERVAL,
    ensures
        MIN_UPDATE_INTERVAL <= longer_n(i, n) <= MAX_UPDATE_INTERVAL,
        MIN_UPDATE_INTERVAL <= shorter_n(i, n) <= MAX_UPDATE_INTERVAL,
        longer_n(DEFAULT_UPDATE_INTERVAL as int, 5) == MAX_UPDATE_INTERVAL,
        shorter_n(DEFAULT_UPDATE_INTERVAL as int, n) == if n == 0 {
            DEFAULT_UPDATE_INTERVAL as int
        } else if n == 1 {
            500_000
        } else {
            MIN_UPDATE_INTERVAL as int
        },
    decreases n,
{
    if n > 0 {
        lemma_interval_bounds(i, (n - 1) as nat);
    }
    reveal_with_fuel(longer_n, 6);
    reveal_with_fuel(shorter_n, 3);
}

} // verus!
