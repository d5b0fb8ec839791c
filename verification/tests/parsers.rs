use hw::aida64::AIDA64Sensor;
use hw::desktop::{attr_is_hidden, dot_hidden, keep_by_attr, name_excluded, INVALID_FILE_ATTRIBUTES};
use hw::drive::{
    devcon_parse_driver_class, devcon_parse_driver_nodes, devcon_parse_driver_status,
    filter_drives, is_filter, process_filters, DriveInfo, DriveNodeInfo, DriveStatusType,
};
use hw::local::ActiveLocalType;
use hw::opts::{classify_task, Opts, OptsApi};
use hw::sensor::{HardwareType, SensorType};

fn aida(ty: &str, label: &str) -> AIDA64Sensor {
    AIDA64Sensor {
        ID: "SID".to_string(),
        Value: "0".to_string(),
        Label: label.to_string(),
        Type: ty.to_string(),
    }
}

#[test]
fn status_listing_parses_devices_and_states() {
    let output = "USB\\VID_046D&PID_C31C\\5&2D2E1F0\n    Name: USB Input Device\n    Driver is running\nPCI\\VEN_8086&DEV_1916\n    Name: Display Adapter\n    Device is disabled\n2 matching device(s) found\n";
    let drives = devcon_parse_driver_status(output);
    assert_eq!(drives.len(), 2);
    assert_eq!(drives[0].id, "USB\\VID_046D&PID_C31C\\5&2D2E1F0");
    assert_eq!(drives[0].driver_descript, "USB Input Device");
    assert_eq!(drives[0].status, DriveStatusType::Runing);
    assert_eq!(drives[1].id, "PCI\\VEN_8086&DEV_1916");
    assert_eq!(drives[1].driver_descript, "Display Adapter");
    assert_eq!(drives[1].status, DriveStatusType::Disabled);
}

#[test]
fn status_listing_covers_every_state_phrase() {
    let output = "A\n    Device is currently stopped\nB\n    Device is hidden\nC\n    Device has a problem\nD\n";
    let drives = devcon_parse_driver_status(output);
    assert_eq!(drives.len(), 4);
    assert_eq!(drives[0].status, DriveStatusType::Stopped);
    assert_eq!(drives[1].status, DriveStatusType::Hidden);
    assert_eq!(drives[2].status, DriveStatusType::Error);
    assert_eq!(drives[3].status, DriveStatusType::NoneStatus);
    assert_eq!(drives[3].driver_descript, "");
}

#[test]
fn status_listing_of_empty_text_is_empty() {
    assert_eq!(devcon_parse_driver_status("").len(), 0);
    assert_eq!(devcon_parse_driver_status("\n\n").len(), 0);
    assert_eq!(
        devcon_parse_driver_status("5 matching device(s) found").len(),
        0
    );
}

#[test]
fn status_detail_lines_without_device_are_ignored() {
    let drives = devcon_parse_driver_status("    Name: Orphan Line\n    Driver is running\n");
    assert_eq!(drives.len(), 0);
}

#[test]
fn class_listing_trims_keys_and_values() {
    let output = "Net  : Network adapters\nUSB: Universal Serial Bus devices\nno colon here is skipped? not: really\nplain line\n";
    let drives = devcon_parse_driver_class(output);
    assert_eq!(drives.len(), 3);
    assert_eq!(drives[0].id, "Net");
    assert_eq!(drives[0].driver_descript, "Network adapters");
    assert_eq!(drives[0].status, DriveStatusType::NoneStatus);
    assert_eq!(drives[1].id, "USB");
    assert_eq!(drives[1].driver_descript, "Universal Serial Bus devices");
    assert_eq!(drives[2].id, "no colon here is skipped? not");
    assert_eq!(drives[2].driver_descript, "really");
}

#[test]
fn driver_nodes_fill_fields_and_detect_signature() {
    let info = DriveInfo {
        id: "PCI\\VEN_8086".to_string(),
        driver_descript: "Display Adapter".to_string(),
        status: DriveStatusType::Runing,
    };
    let node_data = "PCI\\VEN_8086\n    Name: Intel Display\n    Driver node #0\n        Inf file is C:\\Windows\\INF\\oem1.inf\n        Inf section is iGfx\n        Manufacturer name is Intel\n        Provider name is Intel Corporation\n        Driver date is 11/4/2020\n        Driver version is 27.20.100.9030\n        Driver node rank is 16711684\n        Driver node flags are 00142044 digitally signed\n";
    let nodes = devcon_parse_driver_nodes(info, node_data);
    assert_eq!(nodes.len(), 1);
    let n = &nodes[0];
    assert_eq!(n.id, "PCI\\VEN_8086");
    assert_eq!(n.driver_descript, "Display Adapter");
    assert_eq!(n.status, DriveStatusType::Runing);
    assert_eq!(n.name, "Intel Display");
    assert_eq!(n.drive_node, "0");
    assert_eq!(n.inf_file, "C:\\Windows\\INF\\oem1.inf");
    assert_eq!(n.inf_section, "iGfx");
    assert_eq!(n.manufacturer_name, "Intel");
    assert_eq!(n.provider_name, "Intel Corporation");
    assert_eq!(n.driver_date, "11/4/2020");
    assert_eq!(n.driver_version, "27.20.100.9030");
    assert_eq!(n.driver_node_rank, "16711684");
    assert_eq!(n.driver_node_flags, "00142044 digitally signed");
    assert!(n.signed);
}

#[test]
fn driver_nodes_without_flags_line_emit_nothing() {
    let info = DriveInfo {
        id: "X".to_string(),
        driver_descript: String::new(),
        status: DriveStatusType::NoneStatus,
    };
    let nodes = devcon_parse_driver_nodes(info, "    Name: Incomplete\n");
    assert_eq!(nodes.len(), 0);
}

#[test]
fn driver_nodes_unsigned_flags() {
    let info = DriveInfo {
        id: "Y".to_string(),
        driver_descript: String::new(),
        status: DriveStatusType::NoneStatus,
    };
    let nodes =
        devcon_parse_driver_nodes(info, "    Driver node #2\n    Driver node flags are 00000000\n");
    assert_eq!(nodes.len(), 1);
    assert_eq!(nodes[0].drive_node, "2");
    assert_eq!(nodes[0].driver_node_flags, "00000000");
    assert!(!nodes[0].signed);
}

#[test]
fn node_seeded_from_info_carries_identity() {
    let info = DriveInfo {
        id: "ID1".to_string(),
        driver_descript: "Desc".to_string(),
        status: DriveStatusType::Stopped,
    };
    let node = DriveNodeInfo::from_info(info);
    assert_eq!(node.id, "ID1");
    assert_eq!(node.driver_descript, "Desc");
    assert_eq!(node.status, DriveStatusType::Stopped);
    assert_eq!(node.name, "");
    assert!(!node.signed);
}

#[test]
fn filters_with_selector_prefix_are_peeled() {
    let mut filters = vec!["=net".to_string(), "foo".to_string()];
    assert_eq!(process_filters(&mut filters), "=net");
    assert_eq!(filters, vec!["foo".to_string()]);

    let mut at = vec!["@PCI\\VEN".to_string()];
    assert_eq!(process_filters(&mut at), "@PCI\\VEN");
    assert!(at.is_empty());

    let mut plain = vec!["foo".to_string()];
    assert_eq!(process_filters(&mut plain), "*");
    assert_eq!(plain, vec!["foo".to_string()]);

    let mut empty: Vec<String> = vec![];
    assert_eq!(process_filters(&mut empty), "*");
    assert!(empty.is_empty());
}

#[test]
fn pattern_filter_matches_lines() {
    assert!(is_filter("abc", &vec!["abc".to_string()]));
    assert!(!is_filter("abc", &vec!["xyz".to_string()]));
    assert!(is_filter("anything", &vec![]));
    assert!(is_filter("first\nsecond", &vec!["second".to_string()]));
    assert!(is_filter("test line", &vec!["*line*".to_string()]));
    assert!(!is_filter(
        "abc",
        &vec!["abc".to_string(), "xyz".to_string()]
    ));
}

#[test]
fn drive_filtering_keeps_matching_records() {
    let drives = vec![
        DriveInfo {
            id: "USB\\VID_1".to_string(),
            driver_descript: "Keyboard".to_string(),
            status: DriveStatusType::Runing,
        },
        DriveInfo {
            id: "PCI\\VEN_2".to_string(),
            driver_descript: "Display".to_string(),
            status: DriveStatusType::NoneStatus,
        },
    ];
    let kept = filter_drives(drives.clone(), &vec!["*USB*".to_string()]);
    assert_eq!(kept.len(), 1);
    assert_eq!(kept[0].id, "USB\\VID_1");

    let all = filter_drives(drives.clone(), &vec![]);
    assert_eq!(all.len(), 2);

    let by_desc = filter_drives(drives, &vec!["Display".to_string()]);
    assert_eq!(by_desc.len(), 1);
    assert_eq!(by_desc[0].driver_descript, "Display");
}

#[test]
fn aida_tag_letters_classify_sensors() {
    assert_eq!(
        aida("TCPU", "CPU").parse_sensor_type(),
        SensorType::Temperature
    );
    assert_eq!(aida("VCORE", "x").parse_sensor_type(), SensorType::Voltage);
    assert_eq!(aida("PPKG", "x").parse_sensor_type(), SensorType::Power);
    assert_eq!(aida("FCPU", "x").parse_sensor_type(), SensorType::Fan);
    assert_eq!(aida("C1", "x").parse_sensor_type(), SensorType::Control);
    assert_eq!(aida("D1", "x").parse_sensor_type(), SensorType::Data);
    assert_eq!(aida("", "x").parse_sensor_type(), SensorType::Data);
    assert_eq!(aida("X1", "x").parse_sensor_type(), SensorType::Data);
}

#[test]
fn aida_system_entries_classify_by_label() {
    assert_eq!(
        aida("SCPUCLK", "CPU Clock").parse_sensor_type(),
        SensorType::ClockAverage
    );
    assert_eq!(
        aida("SCC1", "CPU Core #1 Clock").parse_sensor_type(),
        SensorType::Clock
    );
    assert_eq!(
        aida("SFSB", "CPU FSB").parse_sensor_type(),
        SensorType::FSB
    );
    assert_eq!(
        aida("SMUL", "CPU Multiplier").parse_sensor_type(),
        SensorType::Multiplexer
    );
    assert_eq!(
        aida("SCPUUTI", "CPU Utilization").parse_sensor_type(),
        SensorType::Load
    );
    assert_eq!(
        aida("SDL", "Download Rate").parse_sensor_type(),
        SensorType::DataRate
    );
    assert_eq!(
        aida("SUS", "Used Space").parse_sensor_type(),
        SensorType::Data
    );
    assert_eq!(
        aida("SDA", "Disk 1 Activity").parse_sensor_type(),
        SensorType::Load
    );
    assert_eq!(
        aida("SBL", "Battery Level").parse_sensor_type(),
        SensorType::Level
    );
}

#[test]
fn aida_labels_classify_hardware() {
    assert_eq!(
        aida("S", "CPU Package").parse_hardware_type(),
        HardwareType::CPU
    );
    assert_eq!(
        aida("S", "GPU NVIDIA RTX").parse_hardware_type(),
        HardwareType::GpuNvidia
    );
    assert_eq!(
        aida("S", "GPU AMD Radeon").parse_hardware_type(),
        HardwareType::GpuAti
    );
    assert_eq!(
        aida("S", "Graphics Chip").parse_hardware_type(),
        HardwareType::ALL
    );
    assert_eq!(
        aida("S", "Memory DIMM1").parse_hardware_type(),
        HardwareType::RAM
    );
    assert_eq!(
        aida("S", "Motherboard").parse_hardware_type(),
        HardwareType::Mainboard
    );
    assert_eq!(
        aida("S", "Disk C:").parse_hardware_type(),
        HardwareType::HDD
    );
    assert_eq!(aida("S", "Other").parse_hardware_type(), HardwareType::ALL);
}

#[test]
fn sensor_units_match_types() {
    assert_eq!(SensorType::Clock.unit(), "MHz");
    assert_eq!(SensorType::Load.unit(), "%");
    assert_eq!(SensorType::Temperature.unit(), "°C");
    assert_eq!(SensorType::Fan.unit(), "RPM");
    assert_eq!(SensorType::Voltage.unit(), "V");
    assert_eq!(SensorType::SmallData.unit(), "SB");
}

#[test]
fn task_words_select_modes() {
    let check = classify_task("check");
    assert!(check.is_check && !check.is_print && !check.is_data);
    let print = classify_task("print");
    assert!(print.is_print && !print.is_check);
    let data = classify_task("data");
    assert!(data.is_data);
    let other = classify_task("mount-tree");
    assert!(!other.is_check && !other.is_print && !other.is_data);
}

#[test]
fn default_options_use_first_provider() {
    let op = Opts::default();
    assert_eq!(op.api, OptsApi::OHM);
    assert_eq!(op.task, "");
    assert!(!op.full);
    assert!(op.filter.is_empty() && op.args.is_empty() && op.command.is_empty());
}

#[test]
fn desktop_entry_decisions() {
    assert!(keep_by_attr(0x20, None));
    assert!(keep_by_attr(0x22, Some(0x2)));
    assert!(!keep_by_attr(0x20, Some(0x2)));
    assert!(!keep_by_attr(INVALID_FILE_ATTRIBUTES, Some(0x2)));
    assert!(attr_is_hidden(0x2));
    assert!(attr_is_hidden(0x22));
    assert!(!attr_is_hidden(0x20));
    assert!(dot_hidden(".bashrc"));
    assert!(!dot_hidden("notes.txt"));
    let filters = vec!["desktop.ini".to_string()];
    assert!(name_excluded("desktop.ini", &filters));
    assert!(!name_excluded("other.txt", &filters));
    assert!(!name_excluded("desktop.ini", &vec![]));
}

#[test]
fn activation_cache_file_name() {
    let store = ActiveLocalType::Temp("office".to_string());
    assert_eq!(store.cache_file_name(), "os-key-office");
}

#[test]
fn crlf_and_trailing_lines_parse_alike() {
    let unix = devcon_parse_driver_status("A\n    Driver is running\n");
    let dos = devcon_parse_driver_status("A\r\n    Driver is running\r\n");
    let bare = devcon_parse_driver_status("A\n    Driver is running");
    assert_eq!(unix.len(), 1);
    assert_eq!(dos.len(), 1);
    assert_eq!(bare.len(), 1);
    assert_eq!(unix[0].id, dos[0].id);
    assert_eq!(unix[0].status, dos[0].status);
    assert_eq!(bare[0].status, DriveStatusType::Runing);
}

#[test]
fn type_names_round_trip() {
    assert_eq!(HardwareType::from_name("CPU"), Some(HardwareType::CPU));
    assert_eq!(HardwareType::from_name("RAM"), Some(HardwareType::RAM));
    assert_eq!(HardwareType::from_name("cpu"), None);
    assert_eq!(HardwareType::from_name(""), None);
    assert_eq!(SensorType::from_name("Load"), Some(SensorType::Load));
    assert_eq!(
        SensorType::from_name("ClockAverage"),
        Some(SensorType::ClockAverage)
    );
    assert_eq!(SensorType::from_name("Bogus"), None);
}

#[test]
fn all_expands_the_catch_all() {
    let hws = HardwareType::ALL.all();
    assert_eq!(hws.len(), 10);
    assert!(!hws.contains(&HardwareType::ALL));
    assert!(hws.contains(&HardwareType::CPU));
    assert_eq!(HardwareType::CPU.all(), vec![HardwareType::CPU]);

    let sts = SensorType::ALL.all();
    assert_eq!(sts.len(), 19);
    assert!(!sts.contains(&SensorType::ALL));
    assert!(sts.contains(&SensorType::Clock));
    assert_eq!(SensorType::Fan.all(), vec![SensorType::Fan]);
}

#[test]
fn drive_status_check_counts_failures() {
    let mk = |status| DriveInfo {
        id: "X".to_string(),
        driver_descript: String::new(),
        status,
    };
    let list = vec![
        mk(DriveStatusType::Runing),
        mk(DriveStatusType::Error),
        mk(DriveStatusType::NoneStatus),
        mk(DriveStatusType::Disabled),
        mk(DriveStatusType::Stopped),
        mk(DriveStatusType::Hidden),
    ];
    assert_eq!(hw::drive::count_drive_status(&list), (3, 3));
    assert_eq!(hw::drive::count_drive_status(&vec![]), (0, 0));
    assert_eq!(
        hw::drive::count_drive_status(&vec![mk(DriveStatusType::Runing)]),
        (1, 0)
    );
}
