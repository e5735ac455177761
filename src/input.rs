use vstd::prelude::*;
use vstd::view::View as _;
use crate::app::{longer_interval, next_sort, shorter_interval, App};
use crate::process_table::is_stable_sort;
use crate::selection::ScrollOp;
use crate::sys_info::{ProcessSort, SystemInfo};
use crate::view::{next_view, View};

verus! {

/// A key press, as the input source reports it.
#[derive(Debug, Clone, Copy, PartialEq, Eq, Structural)]
pub enum Key {
    Char(char),
    Esc,
    Tab,
    Up,
    Down,
    PageUp,
    PageDown,
    Home,
    End,
    Enter,
    F(u8),
    Other,
}

/// What a key asks the dashboard to do.
#[derive(Debug, Clone, Copy, PartialEq, Eq, Structural)]
pub enum Command {
    Quit,
    ShowView(View),
    CycleView,
    Scroll(ScrollOp),
    SlowDown,
    SpeedUp,
    TogglePause,
    ResetSelection,
    ToggleDetails,
    ToggleFullCommand,
    SortBy(ProcessSort),
    ToggleHelp,
    ToggleTree,
    ToggleAggregation,
}

/// The key bindings. Keys without a binding do nothing.
pub open spec fn key_command(key: Key) -> Option<Command> {
    match key {
        Key::Esc => Some(Command::Quit),
        Key::Tab => Some(Command::CycleView),
        Key::Down => Some(Command::Scroll(ScrollOp::Down)),
        Key::Up => Some(Command::Scroll(ScrollOp::Up)),
        Key::PageDown => Some(Command::Scroll(ScrollOp::PageDown)),
        Key::PageUp => Some(Command::Scroll(ScrollOp::PageUp)),
        Key::Home => Some(Command::Scroll(ScrollOp::Top)),
        Key::End => Some(Command::Scroll(ScrollOp::Bottom)),
        Key::Enter => Some(Command::ToggleDetails),
        Key::F(n) => if n == 1 {
            Some(Command::ToggleHelp)
        } else if n == 5 {
            Some(Command::ToggleTree)
        } else if n == 6 {
            Some(Command::ToggleAggregation)
        } else {
            None
        },
        Key::Char(c) => if c == 'q' {
            Some(Command::Quit)
        } else if c == '1' {
            Some(Command::ShowView(View::System))
        } else if c == '2' {
            Some(Command::ShowView(View::Process))
        } else if c == '3' {
            Some(Command::ShowView(View::Resources))
        } else if c == '4' {
            Some(Command::ShowView(View::Network))
        } else if c == '5' {
            Some(Command::ShowView(View::Disks))
        } else if c == '6' {
            Some(Command::ShowView(View::Options))
        } else if c == 'j' {
            Some(Command::Scroll(ScrollOp::Down))
        } else if c == 'k' {
            Some(Command::Scroll(ScrollOp::Up))
        } else if c == 'J' {
            Some(Command::Scroll(ScrollOp::PageDown))
        } else if c == 'K' {
            Some(Command::Scroll(ScrollOp::PageUp))
        } else if c == '+' {
            Some(Command::SlowDown)
        } else if c == '-' {
            Some(Command::SpeedUp)
        } else if c == ' ' {
            Some(Command::TogglePause)
        } else if c == 'r' {
            Some(Command::ResetSelection)
        } else if c == 'f' {
            Some(Command::ToggleFullCommand)
        } else if c == 'c' {
            Some(Command::SortBy(ProcessSort::Cpu))
        } else if c == 'm' {
            Some(Command::SortBy(ProcessSort::Memory))
        } else if c == 'p' {
            Some(Command::SortBy(ProcessSort::Pid))
        } else if c == 'n' {
            Some(Command::SortBy(ProcessSort::Name))
        } else {
            None
        },
        Key::Other => None,
    }
}

/// The command bound to a key, if any.
pub fn command_for_key(key: Key) -> (r: Option<Command>)
    ensures
        r == key_command(key),
{
    match key {
        Key::Esc => Some(Command::Quit),
        Key::Tab => Some(Command::CycleView),
        Key::Down => Some(Command::Scroll(ScrollOp::Down)),
        Key::Up => Some(Command::Scroll(ScrollOp::Up)),
        Key::PageDown => Some(Command::Scroll(ScrollOp::PageDown)),
        Key::PageUp => Some(Command::Scroll(ScrollOp::PageUp)),
        Key::Home => Some(Command::Scroll(ScrollOp::Top)),
        Key::End => Some(Command::Scroll(ScrollOp::Bottom)),
        Key::Enter => Some(Command::ToggleDetails),
        Key::F(n) => if n == 1 {
            Some(Command::ToggleHelp)
        } else if n == 5 {
            Some(Command::ToggleTree)
        } else if n == 6 {
            Some(Command::ToggleAggregation)
        } else {
            None
        },
        Key::Char(c) => match c {
            'q' => Some(Command::Quit),
            '1' => Some(Command::ShowView(View::System)),
            '2' => Some(Command::ShowView(View::Process)),
            '3' => Some(Command::ShowView(View::Resources)),
            '4' => Some(Command::ShowView(View::Network)),
            '5' => Some(Command::ShowView(View::Disks)),
            '6' => Some(Command::ShowView(View::Options)),
            'j' => Some(Command::Scroll(ScrollOp::Down)),
            'k' => Some(Command::Scroll(ScrollOp::Up)),
            'J' => Some(Command::Scroll(ScrollOp::PageDown)),
            'K' => Some(Command::Scroll(ScrollOp::PageUp)),
            '+' => Some(Command::SlowDown),
            '-' => Some(Command::SpeedUp),
            ' ' => Some(Command::TogglePause),
            'r' => Some(Command::ResetSelection),
            'f' => Some(Command::ToggleFullCommand),
            'c' => Some(Command::SortBy(ProcessSort::Cpu)),
            'm' => Some(Command::SortBy(ProcessSort::Memory)),
            'p' => Some(Command::SortBy(ProcessSort::Pid)),
            'n' => Some(Command::SortBy(ProcessSort::Name)),
            _ => None,
        },
        Key::Other => None,
    }
}

/// `after` is the state that carrying out `cmd` leaves from `before`.
pub open spec fn command_done(before: App, cmd: Command, after: App) -> bool {
    match cmd {
        Command::Quit => after == before,
        Command::ShowView(v) => after == (App { current_view: v, ..before }).with_selection_reset(),
        Command::CycleView => after == (App {
            current_view: next_view(before.current_view),
            ..before
        }).with_selection_reset(),
        Command::Scroll(op) => after == before.scrolled(op),
        Command::SlowDown => after == (App {
            update_interval: longer_interval(before.update_interval as int) as u64,
            ..before
        }),
        Command::SpeedUp => after == (App {
            update_interval: shorter_interval(before.update_interval as int) as u64,
            ..before
        }),
        Command::TogglePause => after == (App { paused: !before.paused, ..before }),
        Command::ResetSelection => after == before.with_selection_reset(),
        Command::ToggleDetails => after == (App {
            show_proc_details: !before.show_proc_details,
            ..before
        }),
        Command::ToggleFullCommand => after == (App {
            show_full_command: !before.show_full_command,
            ..before
        }),
        Command::SortBy(key) => {
            &&& (after.process_sort, after.sort_reverse) == next_sort(
                before.process_sort,
                before.sort_reverse,
                key,
            )
            &&& is_stable_sort(
                before.metrics.processes@,
                after.metrics.processes@,
                after.process_sort,
                after.sort_reverse,
            )
            &&& after == (App {
                metrics: SystemInfo { processes: after.metrics.processes, ..before.metrics },
                process_sort: after.process_sort,
                sort_reverse: after.sort_reverse,
                ..before
            }).with_selection_reset()
        },
        Command::ToggleHelp => after == (App { show_help: !before.show_help, ..before }),
        Command::ToggleTree => after == (App { show_tree_view: !before.show_tree_view, ..before }),
        Command::ToggleAggregation => after == (App {
            proc_aggregated: !before.proc_aggregated,
            ..before
        }),
    }
}

impl App {
    /// Carries out a command. Returns whether the dashboard should quit;
    /// quitting leaves the state as it is.
    pub fn handle_command(&mut self, cmd: Command) -> (quit: bool)
        requires
            old(self).wf(),
        ensures
            final(self).wf(),
            quit == (cmd == Command::Quit),
            command_done(*old(self), cmd, *final(self)),
    {
        match cmd {
            Command::Quit => {
                return true;
            },
            Command::ShowView(v) => self.select_view(v),
            Command::CycleView => self.cycle_view(),
            Command::Scroll(op) => match op {
                ScrollOp::Down => self.scroll_down(),
                ScrollOp::Up => self.scroll_up(),
                ScrollOp::PageDown => self.scroll_page_down(),
                ScrollOp::PageUp => self.scroll_page_up(),
                ScrollOp::Top => self.scroll_top(),
                ScrollOp::Bottom => self.scroll_bottom(),
            },
            Command::SlowDown => self.increase_update_delay(),
            Command::SpeedUp => self.decrease_update_delay(),
            Command::TogglePause => self.toggle_pause(),
            Command::ResetSelection => self.reset_selection(),
            Command::ToggleDetails => self.toggle_process_details(),
            Command::ToggleFullCommand => self.toggle_full_command(),
            Command::SortBy(key) => self.change_sort_column(key),
            Command::ToggleHelp => self.toggle_help(),
            Command::ToggleTree => self.toggle_tree_view(),
            Command::ToggleAggregation => self.toggle_proc_aggregation(),
        }
        false
    }

    /// Handles one key press: carries out its command, if it has one.
    /// Returns whether the dashboard should quit.
    pub fn handle_key(&mut self, key: Key) -> (quit: bool)
        requires
            old(self).wf(),
        ensures
            final(self).wf(),
            quit == (key_command(key) == Some(Command::Quit)),
            key_command(key) matches Some(cmd) ==> command_done(*old(self), cmd, *final(self)),
            key_command(key) is None ==> *final(self) == *old(self),
    {
        match command_for_key(key) {
            Some(cmd) => self.handle_command(cmd),
            None => false,
        }
    }
}

} // verus!
