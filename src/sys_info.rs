use vstd::prelude::*;

verus! {

/// Number of samples kept for the CPU and memory charts.
pub const CPU_HISTORY_LEN: usize = 12;

/// Number of samples kept for the network charts.
pub const NET_HISTORY_LEN: usize = 9;

/// One mounted disk.
#[derive(Debug, Clone)]
pub struct DiskInfo {
    pub name: String,
    pub mount_point: String,
    /// Capacity in GB.
    pub total: u64,
    /// GB in use.
    pub used: u64,
    /// GB free.
    pub free: u64,
    /// Percentage in use.
    pub usage: u64,
    /// MB/s.
    pub read_speed: u64,
    /// MB/s.
    pub write_speed: u64,
    pub device_type: String,
}

/// One network interface.
#[derive(Debug, Clone)]
pub struct NetworkInterface {
    pub name: String,
    pub rx_bytes: u64,
    pub tx_bytes: u64,
    /// KB/s.
    pub rx_speed: u64,
    /// KB/s.
    pub tx_speed: u64,
    pub ip_address: String,
    pub mac_address: String,
    pub status: String,
}

/// Scheduler state of a process.
#[derive(Debug, Clone, Copy, PartialEq, Eq, Structural)]
pub enum ProcessState {
    Running,
    Sleeping,
    Waiting,
    Zombie,
    Stopped,
    Tracing,
    Dead,
    Wakekill,
    Waking,
    Parked,
    Idle,
}

/// The one-letter code that `ps` shows for a state.
pub open spec fn state_code(s: ProcessState) -> char {
    match s {
        ProcessState::Running => 'R',
        ProcessState::Sleeping => 'S',
        ProcessState::Waiting => 'D',
        ProcessState::Zombie => 'Z',
        ProcessState::Stopped => 'T',
        ProcessState::Tracing => 't',
        ProcessState::Dead => 'X',
        ProcessState::Wakekill => 'K',
        ProcessState::Waking => 'W',
        ProcessState::Parked => 'P',
        ProcessState::Idle => 'I',
    }
}

impl ProcessState {
    /// The state's one-letter code.
    pub fn code(self) -> (r: char)
        ensures
            r == state_code(self),
    {
        match self {
            ProcessState::Running => 'R',
            ProcessState::Sleeping => 'S',
            ProcessState::Waiting => 'D',
            ProcessState::Zombie => 'Z',
            ProcessState::Stopped => 'T',
            ProcessState::Tracing => 't',
            ProcessState::Dead => 'X',
            ProcessState::Wakekill => 'K',
            ProcessState::Waking => 'W',
            ProcessState::Parked => 'P',
            ProcessState::Idle => 'I',
        }
    }

    /// The state's one-letter code as text.
    pub fn as_str(self) -> (r: &'static str)
        ensures
            r@ == seq![state_code(self)],
    {
        proof {
            reveal_strlit("R");
            reveal_strlit("S");
            reveal_strlit("D");
            reveal_strlit("Z");
            reveal_strlit("T");
            reveal_strlit("t");
            reveal_strlit("X");
            reveal_strlit("K");
            reveal_strlit("W");
            reveal_strlit("P");
            reveal_strlit("I");
        }
        match self {
            ProcessState::Running => "R",
            ProcessState::Sleeping => "S",
            ProcessState::Waiting => "D",
            ProcessState::Zombie => "Z",
            ProcessState::Stopped => "T",
            ProcessState::Tracing => "t",
            ProcessState::Dead => "X",
            ProcessState::Wakekill => "K",
            ProcessState::Waking => "W",
            ProcessState::Parked => "P",
            ProcessState::Idle => "I",
        }
    }
}

/// One process as the metrics source reports it.
#[derive(Debug, Clone)]
pub struct ProcessInfo {
    pub pid: u32,
    pub ppid: u32,
    pub name: String,
    pub command: String,
    pub full_command: String,
    pub user: String,
    /// CPU usage in hundredths of a percent (0 to 10000).
    pub cpu_usage: u64,
    /// Resident memory in MB.
    pub memory_usage: u64,
    /// Share of total memory in hundredths of a percent.
    pub memory_percent: u64,
    pub state: ProcessState,
    pub priority: i32,
    pub nice: i32,
    pub threads: u32,
    pub start_time: String,
    /// Seconds since the process started.
    pub uptime: u64,
    /// KB/s.
    pub read_speed: u64,
    /// KB/s.
    pub write_speed: u64,
}

/// Load averages in hundredths.
#[derive(Debug, Clone, Copy)]
pub struct LoadAverage {
    pub one: u64,
    pub five: u64,
    pub fifteen: u64,
}

/// The columns that the process table can be ordered by.
#[derive(Debug, Clone, Copy, PartialEq, Eq, Structural)]
pub enum ProcessSort {
    Pid,
    Name,
    Cpu,
    Memory,
    User,
    Time,
    Threads,
    State,
}

/// One complete set of system metrics, with the rolling history windows
/// that feed the charts.
#[derive(Debug, Clone)]
pub struct SystemInfo {
    pub hostname: String,
    pub kernel_version: String,
    pub os_name: String,
    /// Seconds since boot.
    pub uptime: u64,
    pub cpu_count: usize,
    /// Per-core usage in percent, one entry per logical core.
    pub cpu_usage_per_core: Vec<u64>,
    /// Mean of the per-core usages, truncated.
    pub cpu_total_usage: u64,
    /// MHz.
    pub cpu_frequency: u64,
    /// Tenths of a degree Celsius.
    pub cpu_temperature: i64,
    pub cpu_model: String,
    /// MB.
    pub memory_total: u64,
    pub memory_used: u64,
    pub memory_free: u64,
    pub memory_available: u64,
    pub memory_cached: u64,
    pub memory_buffers: u64,
    pub swap_total: u64,
    pub swap_used: u64,
    pub swap_free: u64,
    pub disks: Vec<DiskInfo>,
    pub network_interfaces: Vec<NetworkInterface>,
    /// KB/s over all interfaces.
    pub total_rx: u64,
    /// KB/s over all interfaces.
    pub total_tx: u64,
    pub processes: Vec<ProcessInfo>,
    pub process_count: usize,
    pub thread_count: usize,
    pub cpu_history: Vec<u64>,
    pub memory_history: Vec<u64>,
    pub net_rx_history: Vec<u64>,
    pub net_tx_history: Vec<u64>,
    pub load_average: LoadAverage,
}

impl SystemInfo {
    /// Each history window holds exactly its configured number of samples.
    pub open spec fn wf(&self) -> bool {
        &&& self.cpu_history@.len() == CPU_HISTORY_LEN
        &&& self.memory_history@.len() == CPU_HISTORY_LEN
        &&& self.net_rx_history@.len() == NET_HISTORY_LEN
        &&& self.net_tx_history@.len() == NET_HISTORY_LEN
    }
}

impl Default for DiskInfo {
    fn default() -> (r: DiskInfo)
        ensures
            r.name@ == "N/A"@,
            r.mount_point@ == "/"@,
            r.total == 0 && r.used == 0 && r.free == 0 && r.usage == 0,
            r.read_speed == 0 && r.write_speed == 0,
            r.device_type@ == ""@,
    {
        DiskInfo {
            name: String::from_str("N/A"),
            mount_point: String::from_str("/"),
            total: 0,
            used: 0,
            free: 0,
            usage: 0,
            read_speed: 0,
            write_speed: 0,
            device_type: String::from_str(""),
        }
    }
}

/// Memory total of the sample machine, in MB.
pub const SAMPLE_MEMORY_TOTAL: u64 = 16384;

/// A process of the sample snapshot: `index` is its place in the list,
/// `binary` the program's file name.
fn sample_process(
    index: u32,
    name: &str,
    binary: &str,
    pid: u32,
    ppid: u32,
    user: &str,
    cpu_usage: u64,
    memory_usage: u64,
    state: ProcessState,
) -> (r: ProcessInfo)
    requires
        index < 100,
        memory_usage <= SAMPLE_MEMORY_TOTAL,
    ensures
        r.pid == pid,
        r.name@ == name@,
        r.user@ == user@,
        r.cpu_usage == cpu_usage,
        r.memory_usage == memory_usage,
        r.state == state,
        r.threads == (index + 1) * 2,
        r.uptime == 3600 * index,
{
    let mut command = String::from_str("/usr/bin/");
    command.append(binary);
    let mut full_command = String::from_str("/usr/bin/");
    full_command.append(binary);
    full_command.append(" --some-flag");
    ProcessInfo {
        pid,
        ppid,
        name: String::from_str(name),
        command,
        full_command,
        user: String::from_str(user),
        cpu_usage,
        memory_usage,
        memory_percent: memory_usage * 10000 / SAMPLE_MEMORY_TOTAL,
        state,
        priority: 20,
        nice: 0,
        threads: (index + 1) * 2,
        start_time: String::from_str("10:30:15"),
        uptime: 3600 * index as u64,
        read_speed: (index as u64 * 10) % 100,
        write_speed: (index as u64 * 5) % 50,
    }
}

/// The ten processes of the sample snapshot, in their listed order.
pub fn generate_sample_processes() -> (r: Vec<ProcessInfo>)
    ensures
        r@.len() == 10,
        r@.map_values(|p: ProcessInfo| p.pid) == seq![
            1u32,
            1234,
            2345,
            3456,
            4567,
            5678,
            6789,
            7890,
            8901,
            9012,
        ],
        r@.map_values(|p: ProcessInfo| p.cpu_usage) == seq![
            150u64,
            230,
            1250,
            2480,
            1820,
            350,
            780,
            120,
            250,
            1530,
        ],
        r@.map_values(|p: ProcessInfo| p.memory_usage) == seq![
            200u64,
            45,
            356,
            1240,
            890,
            345,
            456,
            89,
            123,
            234,
        ],
        forall|k: int| 0 <= k < 10 ==> (#[trigger] r@[k]).threads == 2 * (k + 1) && r@[k].uptime == 3600 * k,
{
    let mut v: Vec<ProcessInfo> = Vec::new();
    v.push(sample_process(0, "systemd", "systemd", 1, 0, "root", 150, 200, ProcessState::Sleeping));
    v.push(
        sample_process(
            1,
            "NetworkManager",
            "networkmanager",
            1234,
            1,
            "root",
            230,
            45,
            ProcessState::Sleeping,
        ),
    );
    v.push(
        sample_process(2, "gnome-shell", "gnome-shell", 2345, 1, "user", 1250, 356, ProcessState::Running),
    );
    v.push(sample_process(3, "firefox", "firefox", 3456, 2345, "user", 2480, 1240, ProcessState::Running));
    v.push(sample_process(4, "code", "code", 4567, 2345, "user", 1820, 890, ProcessState::Running));
    v.push(sample_process(5, "docker", "docker", 5678, 1, "root", 350, 345, ProcessState::Sleeping));
    v.push(
        sample_process(6, "postgres", "postgres", 6789, 1, "postgres", 780, 456, ProcessState::Sleeping),
    );
    v.push(sample_process(7, "nginx", "nginx", 7890, 1, "www-data", 120, 89, ProcessState::Sleeping));
    v.push(sample_process(8, "redis", "redis", 8901, 1, "redis", 250, 123, ProcessState::Sleeping));
    v.push(sample_process(9, "python3", "python3", 9012, 3456, "user", 1530, 234, ProcessState::Running));
    assert(v@.map_values(|p: ProcessInfo| p.pid) =~= seq![
        1u32,
        1234,
        2345,
        3456,
        4567,
        5678,
        6789,
        7890,
        8901,
        9012,
    ]);
    assert(v@.map_values(|p: ProcessInfo| p.cpu_usage) =~= seq![
        150u64,
        230,
        1250,
        2480,
        1820,
        350,
        780,
        120,
        250,
        1530,
    ]);
    assert(v@.map_values(|p: ProcessInfo| p.memory_usage) =~= seq![
        200u64,
        45,
        356,
        1240,
        890,
        345,
        456,
        89,
        123,
        234,
    ]);
    v
}

impl Default for SystemInfo {
    /// The sample snapshot that the dashboard starts from.
    fn default() -> (r: SystemInfo)
        ensures
            r.wf(),
            r.cpu_usage_per_core@.len() == 8,
            r.memory_total == SAMPLE_MEMORY_TOTAL,
            r.memory_used == 8192,
            r.processes@.len() == 10,
            r.disks@.len() == 2,
            r.network_interfaces@.len() == 1,
            r.cpu_usage_per_core@ == seq![20u64, 25, 30, 35, 40, 45, 50, 55],
            r.cpu_total_usage == 45,
            r.cpu_history@ == seq![45u64, 50, 55, 60, 65, 70, 65, 60, 55, 50, 45, 40],
            r.memory_history@ == seq![50u64, 52, 54, 56, 58, 60, 62, 64, 66, 68, 70, 72],
            r.net_rx_history@ == seq![800u64, 850, 900, 950, 1000, 1050, 1100, 1150, 1200],
            r.net_tx_history@ == seq![300u64, 325, 350, 375, 400, 425, 450, 475, 500],
            r.total_rx == 1200 && r.total_tx == 450,
    {
        let memory_total: u64 = SAMPLE_MEMORY_TOTAL;
        let memory_used: u64 = 8192;
        let memory_available: u64 = memory_total - memory_used;
        SystemInfo {
            hostname: String::from_str("localhost"),
            kernel_version: String::from_str("5.15.0"),
            os_name: String::from_str("Linux"),
            uptime: 86400 + 3600,
            cpu_count: 8,
            cpu_usage_per_core: vec![20, 25, 30, 35, 40, 45, 50, 55],
            cpu_total_usage: 45,
            cpu_frequency: 3600,
            cpu_temperature: 655,
            cpu_model: String::from_str("Intel Core i7-12700K"),
            memory_total,
            memory_used,
            memory_free: memory_available / 2,
            memory_available,
            memory_cached: 2048,
            memory_buffers: 512,
            swap_total: 8192,
            swap_used: 1024,
            swap_free: 8192 - 1024,
            disks: vec![
                DiskInfo {
                    name: String::from_str("nvme0n1"),
                    mount_point: String::from_str("/"),
                    total: 512,
                    used: 256,
                    free: 256,
                    usage: 50,
                    read_speed: 120,
                    write_speed: 45,
                    device_type: String::from_str("NVMe"),
                },
                DiskInfo {
                    name: String::from_str("sda"),
                    mount_point: String::from_str("/home"),
                    total: 1024,
                    used: 512,
                    free: 512,
                    usage: 50,
                    read_speed: 45,
                    write_speed: 23,
                    device_type: String::from_str("SSD"),
                },
            ],
            network_interfaces: vec![
                NetworkInterface {
                    name: String::from_str("eth0"),
                    rx_bytes: 1024 * 1024 * 1024,
                    tx_bytes: 512 * 1024 * 1024,
                    rx_speed: 1200,
                    tx_speed: 450,
                    ip_address: String::from_str("192.168.1.100"),
                    mac_address: String::from_str("00:11:22:33:44:55"),
                    status: String::from_str("up"),
                },
            ],
            total_rx: 1200,
            total_tx: 450,
            processes: generate_sample_processes(),
            process_count: 150,
            thread_count: 1200,
            cpu_history: vec![45, 50, 55, 60, 65, 70, 65, 60, 55, 50, 45, 40],
            memory_history: vec![50, 52, 54, 56, 58, 60, 62, 64, 66, 68, 70, 72],
            net_rx_history: vec![800, 850, 900, 950, 1000, 1050, 1100, 1150, 1200],
            net_tx_history: vec![300, 325, 350, 375, 400, 425, 450, 475, 500],
            load_average: LoadAverage { one: 125, five: 185, fifteen: 215 },
        }
    }
}

} // verus!
