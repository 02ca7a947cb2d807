use sazgar::gpu::{collect_gpus, GpuMemory, GpuReading, GpuUtilization};
use sazgar::host::{
    collect_cores, collect_cpus, format_uptime, get_byte_order, unknown_if_absent, CpuReading,
    OsInfo, OsReading, SwapInfo, VersionInfo, SystemInfo, SystemReading, UptimeInfo,
};
use sazgar::network::{collect_ports, find_name, PortInfo, ProcessName, Protocol, SocketEntry};
use sazgar::procs::{
    collect_environment, collect_fds, name_matches_lowered, pid_selected, ComponentInfo, EnvVar,
    FdInfo,
};
use sazgar::registry::Relation;
use sazgar::services::{parse_containers, parse_launchd_jobs, parse_systemd_units};
use sazgar::storage::{collect_disks, is_virtual_filesystem, is_virtual_lowered, DiskInfo};
use sazgar::table::{Real, Record, Value};
use sazgar::units::SizeUnit;

fn disk(mount: &str, fs: &str) -> DiskInfo {
    DiskInfo {
        name: "d".to_string(),
        mount_point: mount.to_string(),
        file_system: fs.to_string(),
        total_bytes: 1000,
        available_bytes: 250,
        is_removable: false,
        kind: "HDD".to_string(),
        unit: SizeUnit::KB,
    }
}

#[test]
fn virtual_filesystems_are_recognised() {
    assert!(is_virtual_filesystem("/proc", "ext4"));
    assert!(is_virtual_filesystem("/sys/fs/cgroup", "cgroup2"));
    assert!(is_virtual_filesystem("/dev/shm", "ext4"));
    assert!(is_virtual_filesystem("/home", "TMPFS"));
    assert!(is_virtual_filesystem("/var/lib/docker", "Overlay"));
    assert!(is_virtual_filesystem("/mnt", "squashfs"));
    assert!(!is_virtual_filesystem("/", "ext4"));
    assert!(!is_virtual_filesystem("/home", "btrfs"));
    assert!(!is_virtual_filesystem("", ""));
    assert!(is_virtual_lowered("/", "devtmpfs"));
    assert!(!is_virtual_lowered("/", "TMPFS"));
}

#[test]
fn collect_disks_drops_virtual_ones_in_order() {
    let all = vec![disk("/", "ext4"), disk("/proc", "proc"), disk("/boot", "vfat"), disk("/run", "tmpfs")];
    let kept = collect_disks(&all);
    let mounts: Vec<&str> = kept.iter().map(|d| d.mount_point.as_str()).collect();
    assert_eq!(mounts, vec!["/", "/boot"]);
    let row = kept[0].row();
    assert_eq!(row[3], Value::Text("KB".to_string()));
    assert_eq!(row[4], Value::Double(Real::Ratio(1000, 1000)));
    assert_eq!(row[6], Value::Double(Real::Ratio(750, 1000)));
    assert_eq!(row[7], Value::Float(Real::Percent(750, 1000)));
}

#[test]
fn docker_listing_is_parsed() {
    let text = "abc|web|nginx:1|Up 2 hours|running|2024-01-01\r\nshort|line\n\ndef|db|postgres|Exited (0)|exited|2024-01-02|extra\n";
    let cs = parse_containers(text);
    assert_eq!(cs.len(), 2);
    assert_eq!(cs[0].id, "abc");
    assert_eq!(cs[0].created, "2024-01-01");
    assert_eq!(cs[1].name, "db");
    assert_eq!(cs[1].status, "Exited (0)");
    assert_eq!(cs[1].created, "2024-01-02");
    assert!(parse_containers("").is_empty());
}

#[test]
fn systemd_listing_is_parsed() {
    let text = "UNIT LOAD ACTIVE SUB DESCRIPTION\ncron.service loaded active running Regular background program processing daemon\nbad line\nx.service.service  loaded inactive dead\n";
    let s = parse_systemd_units(text);
    assert_eq!(s.len(), 2);
    assert_eq!(s[0].name, "cron");
    assert_eq!(s[0].status, "running");
    assert_eq!(s[0].description, "Regular background program processing daemon");
    assert_eq!(s[1].name, "x");
    assert_eq!(s[1].status, "dead");
    assert_eq!(s[1].description, "");
    assert!(parse_systemd_units("cron.service loaded active running x").is_empty());
}

#[test]
fn launchd_listing_is_parsed() {
    let text = "PID\tStatus\tLabel\n-\t0\tcom.apple.a\n412\t0\tcom.apple.b\nonly two\n";
    let s = parse_launchd_jobs(text);
    assert_eq!(s.len(), 2);
    assert_eq!(s[0].name, "com.apple.a");
    assert_eq!(s[0].status, "inactive");
    assert_eq!(s[1].status, "running");
    assert_eq!(s[1].description, "");
}

#[test]
fn environment_filter_ignores_case() {
    let vars = vec![
        EnvVar { name: "PATH".to_string(), value: "/bin".to_string() },
        EnvVar { name: "HOME".to_string(), value: "/root".to_string() },
        EnvVar { name: "my_path_extra".to_string(), value: "x".to_string() },
    ];
    let all = collect_environment(&vars, &None);
    assert_eq!(all.len(), 3);
    let some = collect_environment(&vars, &Some("Path".to_string()));
    let names: Vec<&str> = some.iter().map(|v| v.name.as_str()).collect();
    assert_eq!(names, vec!["PATH", "my_path_extra"]);
    assert!(collect_environment(&vars, &Some("zzz".to_string())).is_empty());
    assert!(name_matches_lowered("my_path", "path"));
    assert!(!name_matches_lowered("my_path", "PATH"));
}

#[test]
fn fds_filter_by_pid() {
    let all = vec![
        FdInfo { pid: 1, process_name: "init".to_string(), fd_count: 10 },
        FdInfo { pid: 2, process_name: "sh".to_string(), fd_count: 3 },
    ];
    assert_eq!(collect_fds(&all, None).len(), 2);
    let one = collect_fds(&all, Some(2));
    assert_eq!(one.len(), 1);
    assert_eq!(one[0].process_name, "sh");
    assert!(collect_fds(&all, Some(9)).is_empty());
    assert!(pid_selected(None, 5));
    assert!(!pid_selected(Some(4), 5));
    assert_eq!(one[0].row(), vec![Value::Int(2), Value::Text("sh".to_string()), Value::Int(3)]);
}

fn socket(p: Protocol, port: u16, pids: Vec<u32>) -> SocketEntry {
    SocketEntry {
        protocol: p,
        local_address: "127.0.0.1".to_string(),
        local_port: port,
        remote_address: "10.0.0.1".to_string(),
        remote_port: 443,
        state: "Established".to_string(),
        pids,
    }
}

#[test]
fn ports_are_filtered_and_named() {
    let sockets = vec![socket(Protocol::Tcp, 80, vec![7, 8]), socket(Protocol::Udp, 53, vec![]), socket(Protocol::Tcp, 22, vec![99])];
    let names = vec![
        ProcessName { pid: 7, name: "nginx".to_string() },
        ProcessName { pid: 8, name: "other".to_string() },
    ];
    let all = collect_ports(&sockets, &None, &names);
    assert_eq!(all.len(), 3);
    assert_eq!(all[0].pid, Some(7));
    assert_eq!(all[0].process_name, Some("nginx".to_string()));
    assert_eq!(all[1].pid, None);
    assert_eq!(all[2].process_name, None);
    let tcp = collect_ports(&sockets, &Some("TCP".to_string()), &names);
    assert_eq!(tcp.len(), 2);
    let udp = collect_ports(&sockets, &Some("UDP".to_string()), &names);
    assert_eq!(udp.len(), 1);
    assert!(collect_ports(&sockets, &Some("tcp".to_string()), &names).is_empty());
    let row = udp[0].row();
    assert_eq!(row[0], Value::Text("UDP".to_string()));
    assert_eq!(row[3], Value::Text(String::new()));
    assert_eq!(row[4], Value::Int(0));
    assert_eq!(row[5], Value::Text(String::new()));
    assert_eq!(row[6], Value::Int(0));
    let row = all[0].row();
    assert_eq!(row[4], Value::Int(443));
    assert_eq!(row[5], Value::Text("Established".to_string()));
    assert_eq!(row[7], Value::Text("nginx".to_string()));
    assert_eq!(find_name(&names, 8), Some("other".to_string()));
    assert_eq!(find_name(&names, 1), None);
}

#[test]
fn gpu_readings_get_defaults_and_units() {
    let readings = vec![
        GpuReading {
            index: 0,
            name: Some("Tesla".to_string()),
            memory: Some(GpuMemory { total: 16_000_000_000, used: 2_500_000, free: 15_997_500_000 }),
            temperature_celsius: Some(55),
            power_milliwatts: Some(70_999),
            utilization: Some(GpuUtilization { gpu: 40, memory: 12 }),
        },
        GpuReading {
            index: 1,
            name: None,
            memory: None,
            temperature_celsius: None,
            power_milliwatts: None,
            utilization: None,
        },
    ];
    let g = collect_gpus(&Some("550.1".to_string()), &readings);
    assert_eq!(g[0].memory_total_mb, 16_000);
    assert_eq!(g[0].memory_used_mb, 2);
    assert_eq!(g[0].power_usage_watts, Some(70));
    assert_eq!(g[0].driver_version, "550.1");
    assert_eq!(g[1].name, "Unknown GPU");
    assert_eq!(g[1].memory_free_mb, 0);
    let row = g[1].row();
    assert_eq!(row[6], Value::Int(0));
    assert_eq!(row[9], Value::Int(0));
    let g = collect_gpus(&None, &readings);
    assert_eq!(g[0].driver_version, "unknown");
}

#[test]
fn uptime_is_formatted() {
    assert_eq!(format_uptime(0), "0d 0h 0m 0s");
    assert_eq!(format_uptime(90061), "1d 1h 1m 1s");
    assert_eq!(format_uptime(3599), "0d 0h 59m 59s");
    let row = UptimeInfo { uptime_seconds: 7200, boot_time: 1_700_000_000 }.row();
    assert_eq!(row[0], Value::BigInt(7200));
    assert_eq!(row[2], Value::Double(Real::Ratio(7200, 3600)));
    assert_eq!(row[4], Value::Text("0d 2h 0m 0s".to_string()));
    assert_eq!(row[5], Value::BigInt(1_700_000_000));
}

#[test]
fn host_records_default_unknown_fields() {
    let os = OsInfo::from_reading(&OsReading {
        os_name: None,
        os_version: Some("12".to_string()),
        kernel_version: None,
        hostname: Some("box".to_string()),
        architecture: None,
        distribution_id: "debian".to_string(),
        uptime_seconds: 5,
        boot_time: 6,
        process_count: 7,
    });
    assert_eq!(os.os_name, "Unknown");
    assert_eq!(os.os_version, "12");
    assert_eq!(os.row()[8], Value::UBigInt(7));
    let sys = SystemInfo::from_reading(&SystemReading {
        os_name: Some("Linux".to_string()),
        os_version: None,
        hostname: None,
        architecture: Some("x86_64".to_string()),
        cpu_count: 8,
        physical_core_count: None,
        cpu_brand: None,
        global_cpu_usage_bits: 0,
        total_memory: 0,
        used_memory: 0,
        available_memory: 0,
        uptime_seconds: 1,
        process_count: 2,
    });
    assert_eq!(sys.physical_core_count, 0);
    assert_eq!(sys.cpu_brand, "Unknown");
    assert_eq!(sys.row()[11], Value::Float(Real::Percent(0, 1)));
    assert_eq!(unknown_if_absent(&None), "Unknown");
}

#[test]
fn processors_are_numbered_in_order() {
    let readings = vec![
        CpuReading { name: "cpu0".to_string(), usage_bits: 1.5f32.to_bits(), frequency_mhz: 3000, brand: "B".to_string(), vendor_id: "V".to_string() },
        CpuReading { name: "cpu1".to_string(), usage_bits: 0, frequency_mhz: 2000, brand: "B".to_string(), vendor_id: "V".to_string() },
    ];
    let order = get_byte_order();
    assert!(order == "Little Endian" || order == "Big Endian");
    assert_eq!(order == "Little Endian", 1u32.to_ne_bytes() == 1u32.to_le_bytes());
    let cpus = collect_cpus(&readings, order);
    assert_eq!(cpus[1].core_id, 1);
    assert_eq!(cpus[0].row()[2], Value::Float(Real::Reading(1.5f32.to_bits() as u64)));
    assert_eq!(cpus[1].row()[6], Value::Text(order.to_string()));
    let cores = collect_cores(&readings);
    assert_eq!(cores[1].row()[0], Value::Int(1));
    assert_eq!(cores[0].row()[2], Value::BigInt(3000));
}

#[test]
fn swap_and_sensor_rows() {
    let s = SwapInfo { unit: SizeUnit::MiB, total_swap: 2_097_152, used_swap: 1_048_576, free_swap: 1_048_576 };
    let row = s.row();
    assert_eq!(row[0], Value::Double(Real::Ratio(2_097_152, 1_048_576)));
    assert_eq!(row[3], Value::Double(Real::Percent(1_048_576, 2_097_152)));
    assert_eq!(row[4], Value::Text("MiB".to_string()));
    let c = ComponentInfo { label: "core".to_string(), temperature_bits: 40.0f32.to_bits(), max_bits: 80.0f32.to_bits(), critical_bits: None };
    assert_eq!(c.row()[3], Value::Float(Real::Reading(0)));
}

#[test]
fn relations_have_names_and_parameters() {
    let all = Relation::all();
    assert_eq!(all.len(), 20);
    assert_eq!(all[0].name(), "sazgar_cpu");
    assert_eq!(Relation::CpuCores.name(), "sazgar_cpu_cores");
    assert!(Relation::Memory.takes_unit());
    assert!(!Relation::Swap.takes_unit());
    assert_eq!(Relation::Fds.positional_parameter(), Some(sazgar::table::ColumnType::Integer));
    assert_eq!(Relation::Cpu.positional_parameter(), None);
    let _ = PortInfo::schema();
    assert_eq!(VersionInfo::current().version, "0.3.0");
}
