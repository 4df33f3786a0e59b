use freewili_updater::bootloader::{
    confirm_entry, entry_status, serial_toggle_verdict, toggle_plan, EntryStatus, PollObservation,
    TogglePlan, ToggleVerdict,
};
use freewili_updater::types::{DeviceType, Error, UsbDeviceType, UsbEndpoint};

fn serial_main(port: &str) -> UsbEndpoint {
    UsbEndpoint { kind: UsbDeviceType::SerialMain, port: Some(port.to_string()), path: None }
}

fn serial_display(port: &str) -> UsbEndpoint {
    UsbEndpoint { kind: UsbDeviceType::SerialDisplay, port: Some(port.to_string()), path: None }
}

fn mass_storage(path: Option<&str>) -> UsbEndpoint {
    UsbEndpoint {
        kind: UsbDeviceType::MassStorage,
        port: None,
        path: path.map(|p| p.to_string()),
    }
}

#[test]
fn toggle_verdict_judges_error_shapes() {
    assert_eq!(serial_toggle_verdict(true, None, false), ToggleVerdict::Proceed);
    assert_eq!(serial_toggle_verdict(true, Some(5), true), ToggleVerdict::Proceed);
    assert_eq!(
        serial_toggle_verdict(false, Some(31), false),
        ToggleVerdict::ProceedTransitioning
    );
    assert_eq!(
        serial_toggle_verdict(false, Some(31), true),
        ToggleVerdict::ProceedTransitioning
    );
    assert_eq!(serial_toggle_verdict(false, Some(5), true), ToggleVerdict::Proceed);
    assert_eq!(serial_toggle_verdict(false, Some(5), false), ToggleVerdict::Fail);
    assert_eq!(serial_toggle_verdict(false, None, false), ToggleVerdict::Fail);
    assert_eq!(serial_toggle_verdict(false, None, true), ToggleVerdict::Fail);
}

#[test]
fn toggle_plan_for_each_kind() {
    assert!(matches!(
        toggle_plan(DeviceType::Unknown, None, None),
        TogglePlan::Unsupported
    ));
    assert!(matches!(
        toggle_plan(DeviceType::Uf2, None, None),
        TogglePlan::AlreadyInBootloader
    ));
    let main = serial_main("COM3");
    let display = serial_display("COM4");
    match toggle_plan(DeviceType::Freewili, Some(&main), Some(&display)) {
        TogglePlan::Toggle(ports) => assert_eq!(ports, vec!["COM3".to_string(), "COM4".to_string()]),
        other => panic!("unexpected plan: {:?}", plan_name(&other)),
    }
    match toggle_plan(DeviceType::Defcon2024Badge, Some(&main), None) {
        TogglePlan::Toggle(ports) => assert_eq!(ports, vec!["COM3".to_string()]),
        other => panic!("unexpected plan: {:?}", plan_name(&other)),
    }
    assert!(matches!(
        toggle_plan(DeviceType::Freewili, Some(&main), None),
        TogglePlan::EndpointUnavailable
    ));
    assert!(matches!(
        toggle_plan(DeviceType::Winky, None, None),
        TogglePlan::EndpointUnavailable
    ));
    // a channel already in mass-storage mode yields no port to toggle
    let ms = mass_storage(Some("/mnt/a"));
    match toggle_plan(DeviceType::Defcon2025FwBadge, Some(&ms), None) {
        TogglePlan::Toggle(ports) => assert!(ports.is_empty()),
        other => panic!("unexpected plan: {:?}", plan_name(&other)),
    }
}

fn plan_name(p: &TogglePlan) -> &'static str {
    match p {
        TogglePlan::Toggle(_) => "Toggle",
        TogglePlan::AlreadyInBootloader => "AlreadyInBootloader",
        TogglePlan::Unsupported => "Unsupported",
        TogglePlan::EndpointUnavailable => "EndpointUnavailable",
    }
}

#[test]
fn entry_status_judges_channel_states() {
    let ready_main = mass_storage(Some("/mnt/m"));
    let ready_display = mass_storage(Some("/mnt/d"));
    let unmounted = mass_storage(None);
    let serial = serial_main("COM3");
    assert_eq!(
        entry_status(DeviceType::Freewili, Some(&ready_main), Some(&ready_display)),
        EntryStatus::Ready
    );
    assert_eq!(
        entry_status(DeviceType::Freewili, Some(&ready_main), Some(&unmounted)),
        EntryStatus::NotSettled
    );
    assert_eq!(
        entry_status(DeviceType::Freewili, Some(&serial), Some(&ready_display)),
        EntryStatus::NotReady
    );
    assert_eq!(
        entry_status(DeviceType::Freewili, Some(&ready_main), None),
        EntryStatus::NotReady
    );
    assert_eq!(
        entry_status(DeviceType::Defcon2024Badge, Some(&ready_main), None),
        EntryStatus::Ready
    );
    assert_eq!(
        entry_status(DeviceType::Winky, Some(&unmounted), None),
        EntryStatus::NotSettled
    );
    assert_eq!(entry_status(DeviceType::Winky, None, None), EntryStatus::NotReady);
    // the already-in-bootloader kind has no required channel
    assert_eq!(entry_status(DeviceType::Uf2, None, None), EntryStatus::Ready);
}

#[test]
fn entry_confirmed_after_some_poll_cycles() {
    // the channels reach mass-storage mode only at the fourth cycle
    let mut polls: Vec<PollObservation> = Vec::new();
    for _ in 0..3 {
        polls.push(PollObservation { main: Some(serial_main("COM3")), display: None });
    }
    polls.push(PollObservation { main: Some(mass_storage(Some("/mnt/m"))), display: None });
    let r = confirm_entry(DeviceType::Defcon2024Badge, &polls, 100, 10, 6000);
    match r {
        Ok(elapsed) => {
            assert_eq!(elapsed, 3 * 100 + 6000);
            assert!(elapsed >= 6000);
        }
        Err(e) => panic!("expected entry, got {}", e.message()),
    }
}

#[test]
fn entry_times_out_after_the_poll_budget() {
    let polls: Vec<PollObservation> =
        vec![PollObservation { main: Some(serial_main("COM3")), display: None }];
    let r = confirm_entry(DeviceType::Defcon2024Badge, &polls, 100, 4, 6000);
    match r {
        Err(Error::Critical(m)) => {
            assert_eq!(m, "Timeout waiting for device to enter UF2 mode");
        }
        other => panic!("expected timeout, got {:?}", other.is_ok()),
    }
}

#[test]
fn error_messages_carry_their_kind_prefix() {
    assert_eq!(
        Error::Critical("boom".to_string()).message(),
        "Critical Error: boom"
    );
    assert_eq!(Error::UF2("gap".to_string()).message(), "UF2 Error: gap");
    assert_eq!(Error::Flash("disk".to_string()).message(), "Flash Error: disk");
}
