//! The router handle's exit-status reading, and the identifier types.

use router_bot::{
    collect_clients_info, collect_interface_clients, interface_count, ChatId, HostapdClients,
    MessageId, OpenWrtRouter, RadioConfig, RadioInfo, RouterError, UserId, WifiInterface,
    WifiInterfaceConfig, WirelessStatus,
};

fn iface(ifname: &str, ssid: &str) -> WifiInterface {
    WifiInterface {
        section: "s".to_string(),
        ifname: ifname.to_string(),
        config: WifiInterfaceConfig {
            ssid: ssid.to_string(),
            encryption: "psk2".to_string(),
        },
        stations: vec![],
    }
}

fn radio(band: &str, interfaces: Vec<WifiInterface>) -> RadioInfo {
    RadioInfo {
        up: true,
        disabled: false,
        config: RadioConfig {
            band: band.to_string(),
            channel: "6".to_string(),
            htmode: "HE40".to_string(),
        },
        interfaces,
    }
}

#[test]
fn success_exit_passes() {
    let router = OpenWrtRouter::new();
    assert!(router.check_success(true, Some(0), String::new()).is_ok());
}

#[test]
fn failed_exit_carries_code_and_stderr() {
    let router = OpenWrtRouter::new();
    let err = router
        .check_success(false, Some(2), "Command failed".to_string())
        .unwrap_err();
    match err {
        RouterError::NonZeroExit { cmd, code, stderr } => {
            assert_eq!(cmd, "ubus");
            assert_eq!(code, 2);
            assert_eq!(stderr, "Command failed");
        },
        other => panic!("unexpected error: {other:?}"),
    }
}

#[test]
fn exit_without_a_code_reads_as_minus_one() {
    let router = OpenWrtRouter::new();
    let err = router.check_success(false, None, String::new()).unwrap_err();
    match err {
        RouterError::NonZeroExit { code, .. } => assert_eq!(code, -1),
        other => panic!("unexpected error: {other:?}"),
    }
}

#[test]
fn identifier_types_keep_their_values() {
    assert_eq!(ChatId::new("12345".to_string()).0, "12345");
    assert_eq!(MessageId::new("67".to_string()).0, "67");
    assert_eq!(UserId::new(9).0, 9);
}

#[test]
fn interface_count_spans_all_radios() {
    let wireless = WirelessStatus(vec![
        ("radio0".to_string(), radio("2g", vec![iface("wlan0", "A"), iface("wlan1", "B")])),
        ("radio1".to_string(), radio("5g", vec![iface("wlan2", "C")])),
    ]);
    assert_eq!(interface_count(&wireless), 3);
}

#[test]
fn interface_block_is_none_for_failures_and_empties() {
    let i = iface("wlan0", "Home");
    let failed: Result<HostapdClients, RouterError> = Err(RouterError::Json {
        cmd: "ubus".to_string(),
        message: "bad".to_string(),
    });
    assert!(collect_interface_clients(&i, "2g", &failed).is_none());
    let empty: Result<HostapdClients, RouterError> =
        Ok(HostapdClients { freq: 2437, clients: vec![] });
    assert!(collect_interface_clients(&i, "2g", &empty).is_none());
}

#[test]
fn collect_clients_info_counts_across_interfaces() {
    let wireless = WirelessStatus(vec![(
        "radio0".to_string(),
        radio("2g", vec![iface("wlan0", "A"), iface("wlan1", "B")]),
    )]);
    let results: Vec<Result<HostapdClients, RouterError>> = vec![
        Ok(HostapdClients { freq: 2437, clients: vec![] }),
        Ok(HostapdClients { freq: 2437, clients: vec![] }),
    ];
    let (lines, total) = collect_clients_info(&wireless, &results);
    assert_eq!(total, 0);
    assert!(lines.is_empty());
}
