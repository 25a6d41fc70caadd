use system_monitor::reading::{
    BootTimeReading, IpAddress, LoadReading, MemInfoEntry, MemoryReading, NetworkInterface,
    Readings, UptimeReading,
};
use system_monitor::remote_pc::{format_report, get_time_stamp, RemotePC};

fn all_failed() -> Readings {
    Readings {
        networks: None,
        memory: None,
        load: None,
        uptime: None,
        boot_time: None,
        temperature: None,
    }
}

fn all_succeeded() -> Readings {
    Readings {
        networks: Some(vec![NetworkInterface {
            name: "eth0".to_string(),
            addrs: vec![IpAddress::V4([192, 168, 1, 5])],
        }]),
        memory: Some(MemoryReading {
            total: 4_000_000_000,
            free: 1_000_000_000,
            meminfo: vec![
                MemInfoEntry { key: "Active".to_string(), bytes: 500_000_000 },
                MemInfoEntry { key: "Active(anon)".to_string(), bytes: 250_000_000 },
                MemInfoEntry { key: "Cached".to_string(), bytes: 750_000_000 },
            ],
        }),
        load: Some(LoadReading {
            user: "10".to_string(),
            nice: "0".to_string(),
            system: "5".to_string(),
            interrupt: "0".to_string(),
            idle: "85".to_string(),
        }),
        uptime: Some(UptimeReading { secs: 3600, nanos: 0 }),
        boot_time: Some(BootTimeReading { unix_nanos: 1_704_063_600_000_000_000 }),
        temperature: Some("45.2".to_string()),
    }
}

fn assert_fields_are_sentinels(pc: &RemotePC) {
    assert_eq!(pc.network(), "-1");
    assert_eq!(pc.memory(), "-1");
    assert_eq!(pc.load(), "-1");
    assert_eq!(pc.temp(), "-1");
    assert_eq!(pc.up_time(), "-1");
    assert_eq!(pc.boot_time(), "-1");
}

#[test]
fn new_snapshot_holds_name_and_sentinels() {
    let pc = RemotePC::with_time_stamp("PMD RasPi", "2024-01-01_00:00:00".to_string());
    assert_eq!(pc.name(), "PMD RasPi");
    assert_eq!(pc.time(), "2024-01-01_00:00:00");
    assert_fields_are_sentinels(&pc);
}

#[test]
fn new_snapshot_is_stamped_with_current_time() {
    let pc = RemotePC::new("PMD RasPi");
    assert_eq!(pc.name(), "PMD RasPi");
    assert_fields_are_sentinels(&pc);
    let stamp: Vec<char> = pc.time().chars().collect();
    assert_eq!(stamp.len(), 19);
    assert_eq!(stamp[4], '-');
    assert_eq!(stamp[7], '-');
    assert_eq!(stamp[10], '_');
    assert_eq!(stamp[13], ':');
    assert_eq!(stamp[16], ':');
}

#[test]
fn time_stamp_has_date_and_time_of_day() {
    let stamp: Vec<char> = get_time_stamp().chars().collect();
    assert_eq!(stamp.len(), 19);
    for (i, c) in stamp.iter().enumerate() {
        match i {
            4 | 7 => assert_eq!(*c, '-'),
            10 => assert_eq!(*c, '_'),
            13 | 16 => assert_eq!(*c, ':'),
            _ => assert!(c.is_ascii_digit()),
        }
    }
}

#[test]
fn all_probes_failed_leaves_every_sentinel() {
    let mut pc = RemotePC::with_time_stamp("host", "2024-01-01_00:00:00".to_string());
    pc.get_all(all_failed());
    assert_eq!(pc.name(), "host");
    assert_eq!(pc.time(), "2024-01-01_00:00:00");
    assert_fields_are_sentinels(&pc);
}

#[test]
fn all_probes_succeeded_fills_every_field() {
    let mut pc = RemotePC::with_time_stamp("host", "2024-01-01_00:00:00".to_string());
    pc.get_all(all_succeeded());
    assert_eq!(pc.name(), "host");
    assert_eq!(pc.time(), "2024-01-01_00:00:00");
    assert_eq!(pc.network(), "{\n\t\teth0 : IPv4 : 192.168.1.5, IPv6 : -1\n\t}");
    assert_eq!(
        pc.memory(),
        "{\n\t\t Ram : 3.0 GB used / 4.0 GB\n\t\t Active : 500.0 MB\n\t\t Active(anon) : 250.0 MB\n\t\t Cached : 750.0 MB\n\t}"
    );
    assert_eq!(pc.load(), "10% user, 0% nice, 5% system, 0% intr, 85% idle ");
    assert_eq!(pc.temp(), "45.2");
    assert_eq!(pc.up_time(), "3600s");
    assert_eq!(pc.boot_time(), "2023-12-31 23:00:00.0 +00:00:00");
}

#[test]
fn snapshot_built_in_one_go() {
    let built =
        RemotePC::build_snapshot("host", "2024-01-01_00:00:00".to_string(), all_succeeded());
    let mut stepwise = RemotePC::with_time_stamp("host", "2024-01-01_00:00:00".to_string());
    stepwise.get_all(all_succeeded());
    assert_eq!(built.report(), stepwise.report());
    assert_eq!(built.up_time(), "3600s");
    let failed = RemotePC::build_snapshot("host", "t".to_string(), all_failed());
    assert_eq!(failed.name(), "host");
    assert_eq!(failed.time(), "t");
    assert_fields_are_sentinels(&failed);
}

#[test]
fn one_failed_probe_does_not_touch_the_others() {
    let mut readings = all_succeeded();
    readings.temperature = None;
    readings.uptime = None;
    let mut pc = RemotePC::with_time_stamp("host", "t".to_string());
    pc.get_all(readings);
    assert_eq!(pc.temp(), "-1");
    assert_eq!(pc.up_time(), "-1");
    assert_eq!(pc.boot_time(), "2023-12-31 23:00:00.0 +00:00:00");
    assert_eq!(pc.load(), "10% user, 0% nice, 5% system, 0% intr, 85% idle ");
    assert_eq!(pc.network(), "{\n\t\teth0 : IPv4 : 192.168.1.5, IPv6 : -1\n\t}");
}

#[test]
fn every_combination_of_outcomes_fills_every_field() {
    for mask in 0u32..64 {
        let mut readings = all_succeeded();
        if mask & 1 != 0 {
            readings.networks = None;
        }
        if mask & 2 != 0 {
            readings.memory = None;
        }
        if mask & 4 != 0 {
            readings.load = None;
        }
        if mask & 8 != 0 {
            readings.uptime = None;
        }
        if mask & 16 != 0 {
            readings.boot_time = None;
        }
        if mask & 32 != 0 {
            readings.temperature = None;
        }
        let mut pc = RemotePC::with_time_stamp("host", "t".to_string());
        pc.get_all(readings);
        assert_eq!(pc.network() == "-1", mask & 1 != 0);
        assert_eq!(pc.memory() == "-1", mask & 2 != 0);
        assert_eq!(pc.load() == "-1", mask & 4 != 0);
        assert_eq!(pc.up_time() == "-1", mask & 8 != 0);
        assert_eq!(pc.boot_time() == "-1", mask & 16 != 0);
        assert_eq!(pc.temp() == "-1", mask & 32 != 0);
        assert!(!pc.network().is_empty());
        assert!(!pc.memory().is_empty());
        assert!(!pc.load().is_empty());
        assert!(!pc.up_time().is_empty());
        assert!(!pc.boot_time().is_empty());
        assert!(!pc.temp().is_empty());
    }
}

#[test]
fn single_setters_change_one_field_each() {
    let mut pc = RemotePC::with_time_stamp("host", "t".to_string());
    pc.get_temperature(Some("38".to_string()));
    assert_eq!(pc.temp(), "38");
    assert_eq!(pc.load(), "-1");
    pc.get_cpu_load(all_succeeded().load);
    assert_eq!(pc.load(), "10% user, 0% nice, 5% system, 0% intr, 85% idle ");
    assert_eq!(pc.temp(), "38");
    pc.get_up_time(None, Some(BootTimeReading { unix_nanos: 0 }));
    assert_eq!(pc.up_time(), "-1");
    assert_eq!(pc.boot_time(), "1970-01-01 0:00:00.0 +00:00:00");
    pc.get_up_time(Some(UptimeReading { secs: 5, nanos: 0 }), None);
    assert_eq!(pc.up_time(), "5s");
    assert_eq!(pc.boot_time(), "-1");
    pc.get_network_details(Some(Vec::new()));
    assert_eq!(pc.network(), "");
    pc.get_memory_details(None);
    assert_eq!(pc.memory(), "-1");
    pc.get_temperature(None);
    assert_eq!(pc.temp(), "-1");
    assert_eq!(pc.name(), "host");
    assert_eq!(pc.time(), "t");
}

#[test]
fn report_of_given_fields() {
    let text = format_report(
        "2024-01-01_00:00:00",
        "PMD RasPi",
        "eth0 : IPv4 : 192.168.1.5, IPv6 : -1",
        "{...}",
        "10% user, 0% nice, ...",
        "45.2",
        "3600s",
        "2023-12-31_23:00:00",
    );
    let expected = "System Details - 2024-01-01_00:00:00\n\
-----------------------------------\n\
Name: PMD RasPi\n\
Networks : eth0 : IPv4 : 192.168.1.5, IPv6 : -1\n\
Memory-Details : {...}\n\
CPU-Load : 10% user, 0% nice, ...\n\
CPU-Temp : 45.2°C\n\
Up-Time : 3600s\n\
On-Time : 2023-12-31_23:00:00\n\
-----------------------------------";
    assert_eq!(text, expected);
    assert!(text.contains("CPU-Temp : 45.2°C"));
}

#[test]
fn report_of_blank_snapshot() {
    let pc = RemotePC::with_time_stamp("host", "2024-01-01_00:00:00".to_string());
    assert_eq!(
        pc.report(),
        "System Details - 2024-01-01_00:00:00\n-----------------------------------\nName: host\nNetworks : -1\nMemory-Details : -1\nCPU-Load : -1\nCPU-Temp : -1°C\nUp-Time : -1\nOn-Time : -1\n-----------------------------------"
    );
}

#[test]
fn report_of_filled_snapshot() {
    let mut pc = RemotePC::with_time_stamp("PMD RasPi", "2024-01-01_00:00:00".to_string());
    pc.get_all(all_succeeded());
    assert_eq!(
        pc.report(),
        "System Details - 2024-01-01_00:00:00\n-----------------------------------\nName: PMD RasPi\nNetworks : {\n\t\teth0 : IPv4 : 192.168.1.5, IPv6 : -1\n\t}\nMemory-Details : {\n\t\t Ram : 3.0 GB used / 4.0 GB\n\t\t Active : 500.0 MB\n\t\t Active(anon) : 250.0 MB\n\t\t Cached : 750.0 MB\n\t}\nCPU-Load : 10% user, 0% nice, 5% system, 0% intr, 85% idle \nCPU-Temp : 45.2°C\nUp-Time : 3600s\nOn-Time : 2023-12-31 23:00:00.0 +00:00:00\n-----------------------------------"
    );
}

#[test]
fn report_twice_is_the_same_text() {
    let mut pc = RemotePC::with_time_stamp("host", "2024-01-01_00:00:00".to_string());
    pc.get_all(all_succeeded());
    let first = pc.report();
    let second = pc.report();
    assert_eq!(first.as_bytes(), second.as_bytes());
}

#[test]
fn labels_keep_their_order_whatever_the_fields_hold() {
    let labels = [
        "System Details - ",
        "\nName: ",
        "\nNetworks : ",
        "\nMemory-Details : ",
        "\nCPU-Load : ",
        "\nCPU-Temp : ",
        "\nUp-Time : ",
        "\nOn-Time : ",
    ];
    let mut blank = RemotePC::with_time_stamp("a", "t".to_string());
    blank.get_all(all_failed());
    let mut filled = RemotePC::with_time_stamp("another host", "2024-01-01_00:00:00".to_string());
    filled.get_all(all_succeeded());
    for report in [blank.report(), filled.report()] {
        let mut from = 0;
        for label in labels {
            let at = report[from..].find(label);
            assert!(at.is_some());
            from += at.unwrap() + label.len();
        }
        assert!(report.starts_with("System Details - "));
        assert!(report.ends_with("\n-----------------------------------"));
    }
}
