//! Response formatting: status, wifi, clients, and the failure texts.

use router_bot::{
    clients_response, format_client_info, format_clients_output, format_error, format_load,
    format_memory, format_router_status, format_speed, format_status, format_uptime,
    format_wifi_clients, format_wifi_status, format_wireless_status, help_response, ping_response,
    status_response, wifi_mode, wifi_response, BoardInfo, ClientRate, ClientTraffic,
    HostapdClients, MemoryInfo, RadioConfig, RadioInfo, ReleaseInfo, RouterError, RouterStatus,
    StorageInfo, SwapInfo, SystemInfo, WifiClient, WifiInterface, WifiInterfaceConfig, WifiMode,
    WirelessStatus,
};

const MB: u64 = 1024 * 1024;

fn memory(total_mb: u64, available_mb: u64) -> MemoryInfo {
    MemoryInfo {
        total: total_mb * MB,
        free: available_mb * MB,
        shared: 0,
        buffered: 0,
        available: available_mb * MB,
        cached: 0,
    }
}

fn system(uptime: u64, load: [u32; 3], mem: MemoryInfo) -> SystemInfo {
    SystemInfo {
        localtime: 1700000000,
        uptime,
        load,
        memory: mem,
        root: StorageInfo { total: 100, free: 50, used: 50, avail: 50 },
        tmp: StorageInfo { total: 100, free: 100, used: 0, avail: 100 },
        swap: SwapInfo { total: 0, free: 0 },
    }
}

fn board() -> BoardInfo {
    BoardInfo {
        kernel: "5.15.0".to_string(),
        hostname: "gateway".to_string(),
        system: "ARMv8".to_string(),
        model: "Test Router One".to_string(),
        board_name: "test,router-one".to_string(),
        rootfs_type: "squashfs".to_string(),
        release: ReleaseInfo {
            distribution: "OpenWrt".to_string(),
            version: "23.05.2".to_string(),
            revision: "r23630".to_string(),
            target: "test/generic".to_string(),
            description: "OpenWrt 23.05.2".to_string(),
            builddate: "2023-11-14".to_string(),
        },
    }
}

fn client(signal: i32, tx_bps: u64, he: bool, vht: bool, ht: bool) -> WifiClient {
    WifiClient {
        auth: true,
        assoc: true,
        authorized: true,
        signal,
        ht,
        vht,
        he,
        bytes: ClientTraffic { rx: 1000, tx: 2000 },
        rate: ClientRate { rx: tx_bps, tx: tx_bps },
    }
}

fn interface(ifname: &str, ssid: &str) -> WifiInterface {
    WifiInterface {
        section: format!("{ifname}_section"),
        ifname: ifname.to_string(),
        config: WifiInterfaceConfig {
            ssid: ssid.to_string(),
            encryption: "psk2".to_string(),
        },
        stations: vec![],
    }
}

fn radio(band: &str, channel: &str, up: bool, interfaces: Vec<WifiInterface>) -> RadioInfo {
    RadioInfo {
        up,
        disabled: false,
        config: RadioConfig {
            band: band.to_string(),
            channel: channel.to_string(),
            htmode: "HE40".to_string(),
        },
        interfaces,
    }
}

fn spawn_error() -> RouterError {
    RouterError::Spawn {
        cmd: "ubus".to_string(),
        message: "No such file or directory (os error 2)".to_string(),
    }
}

#[test]
fn ping_is_fixed_and_repeatable() {
    assert_eq!(ping_response(), "pong");
    assert_eq!(ping_response(), ping_response());
}

#[test]
fn help_is_fixed_and_repeatable() {
    assert_eq!(
        help_response(),
        "Available commands:\n/ping\n/status\n/wifi\n/clients\n/help"
    );
    assert_eq!(help_response(), help_response());
}

#[test]
fn uptime_shows_days_hours_minutes() {
    assert_eq!(format_uptime(90061), "1d 1h 1m");
    assert_eq!(format_uptime(86400), "1d 0h 0m");
    assert_eq!(format_uptime(2 * 86400 + 3 * 3600 + 4 * 60 + 59), "2d 3h 4m");
}

#[test]
fn uptime_below_a_day_shows_hours_minutes() {
    assert_eq!(format_uptime(3725), "1h 2m");
    assert_eq!(format_uptime(86399), "23h 59m");
    assert_eq!(format_uptime(3600), "1h 0m");
}

#[test]
fn uptime_below_an_hour_shows_minutes_only() {
    assert_eq!(format_uptime(0), "0m");
    assert_eq!(format_uptime(59), "0m");
    assert_eq!(format_uptime(60), "1m");
    assert_eq!(format_uptime(3599), "59m");
}

#[test]
fn speed_rounds_to_whole_megabits() {
    assert_eq!(format_speed(0), "0 Mbps");
    assert_eq!(format_speed(866_700_000), "867 Mbps");
    assert_eq!(format_speed(1_499_999), "1 Mbps");
    assert_eq!(format_speed(1_500_000), "2 Mbps");
}

#[test]
fn memory_line_shows_megabytes_and_percent() {
    assert_eq!(format_memory(&memory(512, 256)), "RAM: 256 / 512 MB (50%)");
    assert_eq!(format_memory(&memory(1024, 768)), "RAM: 256 / 1024 MB (25%)");
}

#[test]
fn load_line_shows_hundredths() {
    assert_eq!(format_load(&[15, 100, 223]), "0.15 1.00 2.23");
    assert_eq!(format_load(&[0, 5, 99]), "0.00 0.05 0.99");
}

#[test]
fn status_report_carries_hostname_and_uptime() {
    let status = RouterStatus {
        system: system(90061, [15, 100, 223], memory(512, 256)),
        board: board(),
    };
    let text = format_router_status(&status);
    assert_eq!(
        text,
        "[gateway]\nOpenWrt | 23.05.2\nTest Router One\n\nUptime: 1d 1h 1m\nRAM: 256 / 512 MB (50%)\nLoad: 0.15 1.00 2.23"
    );
    assert!(text.contains("gateway"));
    assert!(text.contains("1d 1h 1m"));
}

#[test]
fn status_response_formats_success_and_failure() {
    let status = RouterStatus {
        system: system(125, [1, 2, 3], memory(256, 128)),
        board: board(),
    };
    let ok = status_response(&Ok(status));
    assert!(ok.starts_with("[gateway]"));
    assert!(ok.contains("Uptime: 2m"));
    let err = status_response(&Err(spawn_error()));
    assert_eq!(
        err,
        "Error: unable to execute command ubus: No such file or directory (os error 2)"
    );
    assert_eq!(format_status(&Err(spawn_error())), err);
}

#[test]
fn error_texts_name_each_failure() {
    assert_eq!(
        format_error(&spawn_error()),
        "Error: unable to execute command ubus: No such file or directory (os error 2)"
    );
    let exit = RouterError::NonZeroExit {
        cmd: "ubus".to_string(),
        code: -1,
        stderr: "Failed to connect".to_string(),
    };
    assert_eq!(
        format_error(&exit),
        "Error: the command ubus ended with code -1: Failed to connect"
    );
    let json = RouterError::Json {
        cmd: "ubus".to_string(),
        message: "expected value at line 1 column 1".to_string(),
    };
    assert_eq!(
        format_error(&json),
        "Error: unable to parse JSON from ubus: expected value at line 1 column 1"
    );
}

#[test]
fn wifi_report_lists_each_interface() {
    let wireless = WirelessStatus(vec![
        (
            "radio0".to_string(),
            radio("2g", "6", true, vec![interface("wlan0", "Home")]),
        ),
        (
            "radio1".to_string(),
            radio("5g", "36", false, vec![interface("wlan1", "Home5")]),
        ),
    ]);
    let text = format_wireless_status(&wireless);
    assert_eq!(
        text,
        "WiFi Status\n[ON] Home (2g)\n    Radio: radio0 | Channel: 6\n[OFF] Home5 (5g)\n    Radio: radio1 | Channel: 36"
    );
}

#[test]
fn wifi_handler_turns_failure_into_text() {
    let err = RouterError::Spawn {
        cmd: "ubus".to_string(),
        message: "transport is down".to_string(),
    };
    assert_eq!(
        wifi_response(&Err(err)),
        "Error: unable to execute command ubus: transport is down"
    );
    let wireless = WirelessStatus(vec![(
        "radio0".to_string(),
        radio("2g", "6", true, vec![interface("wlan0", "Home")]),
    )]);
    assert_eq!(
        wifi_response(&Ok(wireless)),
        "WiFi Status\n[ON] Home (2g)\n    Radio: radio0 | Channel: 6"
    );
    assert_eq!(
        format_wifi_status(&Err(RouterError::Spawn {
            cmd: "ubus".to_string(),
            message: "transport is down".to_string(),
        })),
        "Error: unable to execute command ubus: transport is down"
    );
}

#[test]
fn clients_handler_turns_failure_into_text() {
    let err = RouterError::Spawn {
        cmd: "ubus".to_string(),
        message: "transport is down".to_string(),
    };
    assert_eq!(
        clients_response(&Err(err), &vec![]),
        "Error: unable to execute command ubus: transport is down"
    );
}

#[test]
fn clients_without_stations_show_the_no_devices_text() {
    let wireless = WirelessStatus(vec![(
        "radio0".to_string(),
        radio("2g", "6", true, vec![interface("wlan0", "Home")]),
    )]);
    let results = vec![Ok(HostapdClients { freq: 2437, clients: vec![] })];
    assert_eq!(
        clients_response(&Ok(wireless), &results),
        "Connected devices\n\nNo connected devices"
    );
}

#[test]
fn clients_with_stations_show_total_and_lines() {
    let wireless = WirelessStatus(vec![(
        "radio0".to_string(),
        radio("2g", "6", true, vec![interface("wlan0", "Home")]),
    )]);
    let results = vec![Ok(HostapdClients {
        freq: 2437,
        clients: vec![
            ("aa:bb:cc:dd:ee:ff".to_string(), client(-52, 866_700_000, true, false, false)),
            ("11:22:33:44:55:66".to_string(), client(-70, 144_400_000, false, false, true)),
        ],
    })];
    assert_eq!(
        clients_response(&Ok(wireless), &results),
        "Connected devices\nTotal: 2\nHome (2g) - 2 devices\n  aa:bb:cc:dd:ee:ff\n    867 Mbps | WiFi 6 | -52dBm\n  11:22:33:44:55:66\n    144 Mbps | WiFi 4 | -70dBm"
    );
}

#[test]
fn failed_interface_query_drops_its_block() {
    let wireless = WirelessStatus(vec![(
        "radio0".to_string(),
        radio(
            "2g",
            "6",
            true,
            vec![interface("wlan0", "Home"), interface("wlan1", "Guest")],
        ),
    )]);
    let results = vec![
        Err(RouterError::Spawn {
            cmd: "ubus".to_string(),
            message: "gone".to_string(),
        }),
        Ok(HostapdClients {
            freq: 2437,
            clients: vec![(
                "aa:bb:cc:dd:ee:ff".to_string(),
                client(-52, 866_700_000, true, false, false),
            )],
        }),
    ];
    assert_eq!(
        format_wifi_clients(&Ok(wireless), &results),
        "Connected devices\nTotal: 1\nGuest (2g) - 1 devices\n  aa:bb:cc:dd:ee:ff\n    867 Mbps | WiFi 6 | -52dBm"
    );
}

#[test]
fn client_line_shows_speed_mode_signal() {
    let c = client(-48, 144_400_000, false, true, true);
    assert_eq!(
        format_client_info("aa:bb:cc:dd:ee:ff", &c),
        "\n  aa:bb:cc:dd:ee:ff\n    144 Mbps | WiFi 5 | -48dBm"
    );
}

#[test]
fn clients_output_assembles_header_total_and_lines() {
    assert_eq!(
        format_clients_output(vec![], 0),
        "Connected devices\n\nNo connected devices"
    );
    assert_eq!(
        format_clients_output(vec!["\nline".to_string()], 3),
        "Connected devices\nTotal: 3\nline"
    );
}

#[test]
fn wifi_modes_follow_capability_bits() {
    assert_eq!(WifiMode::from_client(&client(-50, 0, true, true, true)), WifiMode::Wifi6);
    assert_eq!(WifiMode::from_client(&client(-50, 0, false, true, true)), WifiMode::Wifi5);
    assert_eq!(WifiMode::from_client(&client(-50, 0, false, false, true)), WifiMode::Wifi4);
    assert_eq!(WifiMode::from_client(&client(-50, 0, false, false, false)), WifiMode::Legacy);
    assert_eq!(WifiMode::Wifi6.as_str(), "WiFi 6");
    assert_eq!(wifi_mode(&client(-50, 0, false, false, false)), "Legacy");
}
