use sysmon::app::{App, MAX_UPDATE_INTERVAL, MIN_UPDATE_INTERVAL};
use sysmon::input::{command_for_key, Command, Key};
use sysmon::levels::{memory_level, process_cpu_level, temperature_level, usage_level, Level};
use sysmon::process_table::{compare_processes, sort_processes};
use sysmon::selection::ScrollOp;
use sysmon::simulate::{drift, share, simulate_disk_io, simulate_network_data, walk};
use sysmon::sys_info::{ProcessInfo, ProcessSort, ProcessState, SystemInfo, CPU_HISTORY_LEN, NET_HISTORY_LEN};
use sysmon::view::{view_to_str, View};

fn process(pid: u32, name: &str, user: &str, cpu: u64, memory: u64) -> ProcessInfo {
    ProcessInfo {
        pid,
        ppid: 1,
        name: name.to_string(),
        command: format!("/usr/bin/{}", name),
        full_command: format!("/usr/bin/{} --flag", name),
        user: user.to_string(),
        cpu_usage: cpu,
        memory_usage: memory,
        memory_percent: 0,
        state: ProcessState::Sleeping,
        priority: 20,
        nice: 0,
        threads: 1,
        start_time: "00:00:00".to_string(),
        uptime: 0,
        read_speed: 0,
        write_speed: 0,
    }
}

fn app_with(n: u32, rows: usize) -> App {
    let mut app = App::default();
    app.metrics.processes = (0..n).map(|i| process(i + 1, "p", "u", 0, 0)).collect();
    app.max_processes = rows;
    app.current_view = View::Process;
    app
}

fn pids(app: &App) -> Vec<u32> {
    app.metrics.processes.iter().map(|p| p.pid).collect()
}

#[test]
fn sort_toggle_scenario() {
    let mut app = App::default();
    assert_eq!(app.process_sort, ProcessSort::Cpu);
    assert!(app.sort_reverse);
    app.change_sort_column(ProcessSort::Pid);
    assert_eq!(app.process_sort, ProcessSort::Pid);
    assert!(!app.sort_reverse);
    app.change_sort_column(ProcessSort::Pid);
    assert_eq!(app.process_sort, ProcessSort::Pid);
    assert!(app.sort_reverse);
}

#[test]
fn choosing_cpu_twice_flips_direction() {
    let mut app = App::default();
    app.change_sort_column(ProcessSort::Name);
    assert!(!app.sort_reverse);
    app.change_sort_column(ProcessSort::Cpu);
    assert!(app.sort_reverse);
    app.change_sort_column(ProcessSort::Cpu);
    assert!(!app.sort_reverse);
    app.change_sort_column(ProcessSort::Memory);
    assert!(app.sort_reverse);
}

#[test]
fn change_sort_resets_selection_and_overlay() {
    let mut app = app_with(30, 5);
    app.scroll_page_down();
    app.show_proc_details = true;
    app.change_sort_column(ProcessSort::Pid);
    assert_eq!(app.selected_process, 0);
    assert_eq!(app.process_scroll_offset, 0);
    assert!(!app.show_proc_details);
}

#[test]
fn sample_processes_sorted_by_each_column() {
    let mut app = App::default();
    app.change_sort_column(ProcessSort::Pid);
    assert_eq!(pids(&app), vec![1, 1234, 2345, 3456, 4567, 5678, 6789, 7890, 8901, 9012]);
    app.change_sort_column(ProcessSort::Pid);
    assert_eq!(pids(&app), vec![9012, 8901, 7890, 6789, 5678, 4567, 3456, 2345, 1234, 1]);
    app.change_sort_column(ProcessSort::Cpu);
    assert_eq!(app.metrics.processes[0].name, "firefox");
    assert_eq!(app.metrics.processes[9].name, "nginx");
    app.change_sort_column(ProcessSort::Name);
    let names: Vec<&str> = app.metrics.processes.iter().map(|p| p.name.as_str()).collect();
    assert_eq!(
        names,
        vec!["NetworkManager", "code", "docker", "firefox", "gnome-shell", "nginx", "postgres", "python3", "redis", "systemd"]
    );
}

#[test]
fn equal_cpu_values_keep_input_order() {
    let mut v = vec![
        process(1, "a", "u", 500, 0),
        process(2, "b", "u", 900, 0),
        process(3, "c", "u", 500, 0),
        process(4, "d", "u", 100, 0),
        process(5, "e", "u", 500, 0),
    ];
    sort_processes(&mut v, ProcessSort::Cpu, true);
    assert_eq!(v.iter().map(|p| p.pid).collect::<Vec<_>>(), vec![2, 1, 3, 5, 4]);
    sort_processes(&mut v, ProcessSort::Cpu, false);
    assert_eq!(v.iter().map(|p| p.pid).collect::<Vec<_>>(), vec![4, 1, 3, 5, 2]);
}

#[test]
fn equal_users_keep_input_order() {
    let mut v = vec![
        process(1, "a", "root", 0, 0),
        process(2, "b", "alice", 0, 0),
        process(3, "c", "root", 0, 0),
        process(4, "d", "alice", 0, 0),
    ];
    sort_processes(&mut v, ProcessSort::User, false);
    assert_eq!(v.iter().map(|p| p.pid).collect::<Vec<_>>(), vec![2, 4, 1, 3]);
}

#[test]
fn compare_names_bytewise() {
    let a = process(1, "abc", "u", 0, 0);
    let b = process(2, "abd", "u", 0, 0);
    let c = process(3, "ab", "u", 0, 0);
    assert_eq!(compare_processes(&a, &b, ProcessSort::Name), -1);
    assert_eq!(compare_processes(&b, &a, ProcessSort::Name), 1);
    assert_eq!(compare_processes(&c, &a, ProcessSort::Name), -1);
    assert_eq!(compare_processes(&a, &a, ProcessSort::Name), 0);
    assert_eq!(compare_processes(&a, &b, ProcessSort::User), 0);
}

#[test]
fn interval_bounds_scenario() {
    let mut app = App::default();
    assert_eq!(app.update_interval, 1_000_000);
    for _ in 0..5 {
        app.increase_update_delay();
    }
    assert_eq!(app.update_interval, MAX_UPDATE_INTERVAL);
    assert_eq!(app.update_interval, 10_000_000);
    let mut app = App::default();
    for _ in 0..20 {
        app.decrease_update_delay();
        assert!(app.update_interval >= MIN_UPDATE_INTERVAL);
    }
    assert_eq!(app.update_interval, 250_000);
}

#[test]
fn interval_halving_keeps_fractions_of_milliseconds() {
    let mut app = App::default();
    app.update_interval = 625_000;
    app.decrease_update_delay();
    assert_eq!(app.update_interval, 312_500);
    app.increase_update_delay();
    assert_eq!(app.update_interval, 625_000);
}

#[test]
fn view_cycle_scenario() {
    let mut app = App::default();
    let mut seen = Vec::new();
    for _ in 0..6 {
        app.cycle_view();
        seen.push(app.current_view);
    }
    assert_eq!(
        seen,
        vec![View::Process, View::Resources, View::Network, View::Disks, View::Options, View::System]
    );
    assert_eq!(view_to_str(View::Resources), "Resources");
}

#[test]
fn view_change_resets_selection() {
    let mut app = app_with(30, 5);
    app.scroll_down();
    app.scroll_down();
    app.show_proc_details = true;
    app.select_view(View::Disks);
    assert_eq!(app.current_view, View::Disks);
    assert_eq!(app.selected_process, 0);
    assert!(!app.show_proc_details);
}

#[test]
fn pause_gate_scenario() {
    let mut app = App::default();
    app.toggle_pause();
    let before = app.metrics.clone();
    for k in 1..50u64 {
        app.update_metrics(k * 10_000_000);
    }
    assert_eq!(app.metrics.cpu_history, before.cpu_history);
    assert_eq!(app.metrics.memory_history, before.memory_history);
    assert_eq!(app.metrics.net_rx_history, before.net_rx_history);
    assert_eq!(app.metrics.net_tx_history, before.net_tx_history);
    assert_eq!(app.metrics.cpu_usage_per_core, before.cpu_usage_per_core);
    assert_eq!(app.metrics.memory_used, before.memory_used);
    assert_eq!(app.last_update, 0);
    app.hold_clock_while_paused(77);
    assert_eq!(app.last_update, 77);
}

#[test]
fn tick_waits_for_interval() {
    let mut app = App::default();
    app.update_metrics(999_999);
    assert_eq!(app.last_update, 0);
    assert_eq!(app.metrics.cpu_history[11], 40);
    app.update_metrics(1_000_000);
    assert_eq!(app.last_update, 1_000_000);
}

#[test]
fn history_invariant_scenario() {
    let mut app = App::default();
    for k in 1..40u64 {
        app.update_metrics(k * 1_000_000);
        let m = &app.metrics;
        assert_eq!(m.cpu_history.len(), CPU_HISTORY_LEN);
        assert_eq!(m.memory_history.len(), CPU_HISTORY_LEN);
        assert_eq!(m.net_rx_history.len(), NET_HISTORY_LEN);
        assert_eq!(m.net_tx_history.len(), NET_HISTORY_LEN);
        assert_eq!(*m.cpu_history.last().unwrap(), m.cpu_total_usage);
        assert_eq!(*m.net_rx_history.last().unwrap(), m.total_rx);
        assert_eq!(*m.net_tx_history.last().unwrap(), m.total_tx);
        assert_eq!(*m.memory_history.last().unwrap(), m.memory_used * 100 / m.memory_total);
        let sum: u64 = m.cpu_usage_per_core.iter().sum();
        assert_eq!(m.cpu_total_usage, sum / m.cpu_usage_per_core.len() as u64);
        assert!(m.cpu_usage_per_core.iter().all(|&c| c <= 100));
        assert!(m.total_rx <= 5000 && m.total_tx <= 2500);
        assert!(m.memory_used <= m.memory_total);
    }
}

#[test]
fn absorb_sample_records_and_sorts() {
    let mut app = App::default();
    app.metrics.cpu_usage_per_core = vec![10, 20, 31];
    app.metrics.memory_used = 4096;
    app.metrics.total_rx = 7;
    app.metrics.total_tx = 8;
    app.absorb_sample();
    let m = &app.metrics;
    assert_eq!(m.cpu_total_usage, 20);
    assert_eq!(m.cpu_history[11], 20);
    assert_eq!(m.cpu_history[0], 50);
    assert_eq!(m.memory_history[11], 25);
    assert_eq!(m.net_rx_history[8], 7);
    assert_eq!(m.net_tx_history[8], 8);
    assert_eq!(m.processes[0].name, "firefox");
    // 1240 MB of 16384 MB is 7.56%.
    assert_eq!(m.processes[0].memory_percent, 756);
}

#[test]
fn selection_bounds_scenario() {
    let ops = [
        ScrollOp::Down,
        ScrollOp::PageDown,
        ScrollOp::Down,
        ScrollOp::Bottom,
        ScrollOp::Up,
        ScrollOp::PageUp,
        ScrollOp::PageDown,
        ScrollOp::PageDown,
        ScrollOp::Top,
        ScrollOp::Up,
        ScrollOp::Down,
    ];
    for &(len, rows) in &[(0u32, 3usize), (1, 3), (3, 5), (10, 3), (25, 7)] {
        let mut app = app_with(len, rows);
        for step in 0..200usize {
            match ops[(step * 7 + len as usize) % ops.len()] {
                ScrollOp::Down => app.scroll_down(),
                ScrollOp::Up => app.scroll_up(),
                ScrollOp::PageDown => app.scroll_page_down(),
                ScrollOp::PageUp => app.scroll_page_up(),
                ScrollOp::Top => app.scroll_top(),
                ScrollOp::Bottom => app.scroll_bottom(),
            }
            let l = len as usize;
            let sel = app.selected_process;
            let off = app.process_scroll_offset;
            if l == 0 {
                assert_eq!((sel, off), (0, 0));
            } else {
                assert!(sel < l);
                assert!(off <= l.saturating_sub(rows));
                assert!(off <= sel && sel < off + rows);
            }
        }
    }
}

#[test]
fn scrolling_moves_window_one_row() {
    let mut app = app_with(10, 3);
    app.scroll_down();
    app.scroll_down();
    assert_eq!((app.selected_process, app.process_scroll_offset), (2, 0));
    app.scroll_down();
    assert_eq!((app.selected_process, app.process_scroll_offset), (3, 1));
    app.scroll_bottom();
    assert_eq!((app.selected_process, app.process_scroll_offset), (9, 7));
    app.scroll_page_up();
    assert_eq!((app.selected_process, app.process_scroll_offset), (6, 4));
    app.scroll_up();
    app.scroll_up();
    app.scroll_up();
    assert_eq!((app.selected_process, app.process_scroll_offset), (3, 3));
    app.scroll_page_down();
    assert_eq!((app.selected_process, app.process_scroll_offset), (6, 6));
}

#[test]
fn other_screens_scroll_their_offset() {
    let mut app = App::default();
    app.scroll_down();
    app.scroll_page_down();
    assert_eq!(app.scroll_offset, 11);
    app.scroll_up();
    assert_eq!(app.scroll_offset, 10);
    app.scroll_bottom();
    assert_eq!(app.scroll_offset, 10);
    app.scroll_page_up();
    app.scroll_page_up();
    assert_eq!(app.scroll_offset, 0);
    assert_eq!(app.selected_process, 0);
}

#[test]
fn shrinking_process_list_clamps_selection() {
    let mut app = app_with(30, 5);
    app.scroll_bottom();
    assert_eq!((app.selected_process, app.process_scroll_offset), (29, 25));
    app.metrics.processes.truncate(8);
    app.selected_process = 7;
    app.process_scroll_offset = 3;
    app.absorb_sample();
    assert_eq!((app.selected_process, app.process_scroll_offset), (7, 3));
    let mut empty = app_with(0, 5);
    empty.absorb_sample();
    assert_eq!((empty.selected_process, empty.process_scroll_offset), (0, 0));
}

#[test]
fn keys_map_to_commands() {
    assert_eq!(command_for_key(Key::Char('q')), Some(Command::Quit));
    assert_eq!(command_for_key(Key::Esc), Some(Command::Quit));
    assert_eq!(command_for_key(Key::Char('6')), Some(Command::ShowView(View::Options)));
    assert_eq!(command_for_key(Key::Tab), Some(Command::CycleView));
    assert_eq!(command_for_key(Key::Char('J')), Some(Command::Scroll(ScrollOp::PageDown)));
    assert_eq!(command_for_key(Key::Char('p')), Some(Command::SortBy(ProcessSort::Pid)));
    assert_eq!(command_for_key(Key::F(5)), Some(Command::ToggleTree));
    assert_eq!(command_for_key(Key::F(2)), None);
    assert_eq!(command_for_key(Key::Char('x')), None);
    assert_eq!(command_for_key(Key::Other), None);
}

#[test]
fn handle_key_drives_the_state() {
    let mut app = App::default();
    assert!(!app.handle_key(Key::Char('2')));
    assert_eq!(app.current_view, View::Process);
    assert!(!app.handle_key(Key::Down));
    assert_eq!(app.selected_process, 1);
    assert!(!app.handle_key(Key::Char(' ')));
    assert!(app.paused);
    assert!(!app.handle_key(Key::Char('+')));
    assert_eq!(app.update_interval, 2_000_000);
    assert!(!app.handle_key(Key::Char('z')));
    assert!(app.handle_key(Key::Char('q')));
}

#[test]
fn random_steps_stay_in_range() {
    assert_eq!(walk(98, 5, true, 100), 100);
    assert_eq!(walk(3, 5, false, 100), 0);
    assert_eq!(walk(50, 5, false, 100), 45);
    assert_eq!(walk(150, 5, false, 100), 100);
    assert_eq!(drift(1000, 250, 200, 100, 5000), 950);
    assert_eq!(drift(1000, -250, 200, 100, 5000), 850);
    assert_eq!(drift(50, i64::MIN, 200, 100, 5000), 0);
    assert_eq!(drift(4990, 199, 200, 100, 5000), 5000);
}

#[test]
fn simulated_rates_are_in_range_and_vary() {
    let mut rx_seen = std::collections::BTreeSet::new();
    for _ in 0..100 {
        let (rx, tx) = simulate_network_data();
        assert!((100..2000).contains(&rx) && (50..1000).contains(&tx));
        let (read, write) = simulate_disk_io();
        assert!((10..200).contains(&read) && (5..100).contains(&write));
        rx_seen.insert(rx);
    }
    assert!(rx_seen.len() > 1);
}

#[test]
fn simulation_moves_values() {
    let mut info = SystemInfo::default();
    let mut changed = false;
    for _ in 0..20 {
        let before = info.cpu_usage_per_core.clone();
        info.simulate_step();
        changed |= before != info.cpu_usage_per_core;
    }
    assert!(changed);
}

#[test]
fn levels_follow_thresholds() {
    assert_eq!(usage_level(70), Level::Normal);
    assert_eq!(usage_level(71), Level::Elevated);
    assert_eq!(usage_level(86), Level::Critical);
    assert_eq!(memory_level(90), Level::Elevated);
    assert_eq!(memory_level(91), Level::Critical);
    assert_eq!(process_cpu_level(2501), Level::Elevated);
    assert_eq!(temperature_level(655), Level::Normal);
    assert_eq!(temperature_level(801), Level::Critical);
}

#[test]
fn process_state_codes() {
    assert_eq!(ProcessState::Tracing.as_str(), "t");
    assert_eq!(ProcessState::Waiting.code(), 'D');
}

#[test]
fn snapshot_replaces_metrics_and_keeps_history() {
    let mut app = app_with(30, 5);
    app.scroll_bottom();
    let mut snap = SystemInfo::default();
    snap.hostname = "box".to_string();
    snap.cpu_usage_per_core = vec![90, 70];
    snap.memory_total = 1000;
    snap.memory_used = 333;
    snap.total_rx = 11;
    snap.total_tx = 22;
    snap.cpu_history = vec![];
    snap.processes = vec![process(7, "x", "u", 100, 10), process(8, "y", "u", 300, 20)];
    app.apply_snapshot(500_000, snap.clone());
    assert_eq!(app.metrics.hostname, "localhost");
    app.apply_snapshot(1_000_000, snap);
    let m = &app.metrics;
    assert_eq!(m.hostname, "box");
    assert_eq!(m.cpu_total_usage, 80);
    assert_eq!(m.cpu_history.len(), CPU_HISTORY_LEN);
    assert_eq!(m.cpu_history[11], 80);
    assert_eq!(m.cpu_history[0], 50);
    assert_eq!(m.memory_history[11], 33);
    assert_eq!(m.net_rx_history[8], 11);
    assert_eq!(m.net_tx_history[8], 22);
    assert_eq!(pids(&app), vec![8, 7]);
    assert_eq!(m.processes[0].memory_percent, 200);
    assert_eq!((app.selected_process, app.process_scroll_offset), (1, 0));
    assert_eq!(app.last_update, 1_000_000);
}

#[test]
fn sample_snapshot_contents() {
    let procs = sysmon::sys_info::generate_sample_processes();
    assert_eq!(procs.len(), 10);
    assert_eq!(procs[1].name, "NetworkManager");
    assert_eq!(procs[1].command, "/usr/bin/networkmanager");
    assert_eq!(procs[1].full_command, "/usr/bin/networkmanager --some-flag");
    assert_eq!(procs[3].threads, 8);
    assert_eq!(procs[3].uptime, 10800);
    assert_eq!(procs[3].memory_percent, 756);
    let disk = sysmon::sys_info::DiskInfo::default();
    assert_eq!(disk.name, "N/A");
    assert_eq!(disk.mount_point, "/");
    let info = SystemInfo::default();
    assert_eq!(info.cpu_history.len(), CPU_HISTORY_LEN);
    assert_eq!(info.net_rx_history.len(), NET_HISTORY_LEN);
    assert_eq!(info.memory_available, 8192);
    assert_eq!(info.memory_free, 4096);
}

#[test]
fn share_and_drift_take_any_scale() {
    assert_eq!(share(3, 4, 10_000_000), 7_500_000);
    assert_eq!(share(u64::MAX, 1, u64::MAX), u64::MAX);
    assert_eq!(share(5, 0, 100), 0);
    assert_eq!(drift(10, 7, i64::MAX, -5, 100), 22);
    assert_eq!(drift(10, -7, 3, 0, 100), 9);
}

#[test]
fn simulation_steps_are_bounded() {
    let mut info = SystemInfo::default();
    for _ in 0..50 {
        let before = info.clone();
        info.simulate_step();
        for (a, b) in before.cpu_usage_per_core.iter().zip(&info.cpu_usage_per_core) {
            assert!(a.abs_diff(*b) <= 9 && *b <= 100);
        }
        assert!(before.memory_used.abs_diff(info.memory_used) <= 49);
        let rx = info.total_rx as i64 - before.total_rx as i64;
        assert!((-299..=99).contains(&rx));
        let tx = info.total_tx as i64 - before.total_tx as i64;
        assert!((-149..=49).contains(&tx));
        for (p, q) in before.processes.iter().zip(&info.processes) {
            assert!(p.cpu_usage.abs_diff(q.cpu_usage) <= 499);
            assert!(p.memory_usage.abs_diff(q.memory_usage) <= 9);
            assert_eq!(p.pid, q.pid);
        }
    }
}
