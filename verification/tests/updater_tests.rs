use freewili_updater::catalog::Catalog;
use freewili_updater::types::{DeviceInfo, DeviceType, UpdateMessage, UsbDeviceType, UsbEndpoint};
use freewili_updater::updater::{
    Action, Event, FreeWiliUpdater, ToggleOutcome, UpdateConfig,
};

fn compressed(data: &[u8]) -> Vec<u8> {
    lz4::block::compress(data, None, true).expect("compression failed")
}

const MAIN_FW: [u8; 5] = [1, 2, 3, 4, 5];
const DISPLAY_FW: [u8; 3] = [9, 9, 9];
const DC24_FW: [u8; 6] = [7, 7, 7, 7, 7, 7];

fn catalog() -> Catalog {
    Catalog::try_new(
        &compressed(&MAIN_FW),
        &compressed(&DISPLAY_FW),
        &compressed(&DC24_FW),
        &compressed(&[8u8; 2]),
    )
    .expect("catalog should decompress")
}

fn config() -> UpdateConfig {
    UpdateConfig {
        locate_interval_ms: 1,
        locate_ceiling: 3,
        poll_interval_ms: 1,
        poll_ceiling: 5,
        settle_ms: 10,
        chunk_size: 4,
        windows_host: false,
    }
}

fn serial_endpoint(kind: UsbDeviceType, port: &str) -> UsbEndpoint {
    UsbEndpoint { kind, port: Some(port.to_string()), path: None }
}

fn mounted_endpoint(path: &str) -> UsbEndpoint {
    UsbEndpoint { kind: UsbDeviceType::MassStorage, port: None, path: Some(path.to_string()) }
}

fn freewili_serial(id: u64) -> DeviceInfo {
    DeviceInfo {
        unique_id: id,
        device_type: DeviceType::Freewili,
        main: Some(serial_endpoint(UsbDeviceType::SerialMain, "COM3")),
        display: Some(serial_endpoint(UsbDeviceType::SerialDisplay, "COM4")),
    }
}

fn freewili_mounted(id: u64) -> DeviceInfo {
    DeviceInfo {
        unique_id: id,
        device_type: DeviceType::Freewili,
        main: Some(mounted_endpoint("/mnt/main")),
        display: Some(mounted_endpoint("/mnt/disp")),
    }
}

/// A record of one file the simulated world was asked to write.
#[derive(Debug, PartialEq)]
struct WriteRecord {
    path: String,
    payload: Vec<u8>,
    spans: Vec<(usize, usize)>,
}

/// Drives a session against a simulated world until it finishes, returning
/// every message emitted and the files written in order.
fn drive(
    updater: &mut FreeWiliUpdater,
    mut world: impl FnMut(&Action, usize) -> Event,
) -> (Vec<UpdateMessage>, Vec<WriteRecord>) {
    let mut msgs: Vec<UpdateMessage> = Vec::new();
    let mut writes: Vec<WriteRecord> = Vec::new();
    let mut toggles: usize = 0;
    let (first, mut action) = {
        let r = updater.step(Event::Start);
        (r.0, r.1)
    };
    msgs.extend(first);
    for _ in 0..10_000 {
        match &action {
            Action::Finished => break,
            Action::CreateFile { path, payload } => {
                writes.push(WriteRecord {
                    path: path.clone(),
                    payload: payload.clone(),
                    spans: Vec::new(),
                });
            }
            Action::WriteChunk { start, end } => {
                writes.last_mut().expect("chunk before file").spans.push((*start, *end));
            }
            Action::ToggleSerial(_) => toggles += 1,
            _ => {}
        }
        let ev = world(&action, toggles);
        let (more, next) = {
            let r = updater.step(ev);
            (r.0, r.1)
        };
        msgs.extend(more);
        action = next;
    }
    assert!(matches!(action, Action::Finished), "session did not finish");
    (msgs, writes)
}

fn terminal_messages(msgs: &[UpdateMessage]) -> Vec<&UpdateMessage> {
    msgs.iter()
        .filter(|m| matches!(m, UpdateMessage::Error(_) | UpdateMessage::Complete(_)))
        .collect()
}

#[test]
fn dual_channel_update_succeeds_end_to_end() {
    let mut updater =
        FreeWiliUpdater::new(42, DeviceType::Freewili, None, catalog(), config());
    let (msgs, writes) = drive(&mut updater, |action, toggles| match action {
        Action::Enumerate => {
            if toggles < 2 {
                Event::Snapshot(Some(vec![freewili_serial(42)]))
            } else {
                Event::Snapshot(Some(vec![freewili_mounted(42)]))
            }
        }
        Action::Sleep(_) => Event::Slept,
        Action::ToggleSerial(_) => Event::Toggled(ToggleOutcome::Opened),
        Action::CreateFile { .. } => Event::FileCreated(None),
        Action::WriteChunk { .. } => Event::ChunkWritten(None),
        Action::Finished => unreachable!(),
    });
    assert!(updater.is_complete());

    // the event stream: indeterminate marker first, details, percentages,
    // exactly one terminal Complete with a positive duration, no Error
    assert!(matches!(msgs[0], UpdateMessage::Progress(-1)));
    assert!(matches!(msgs[1], UpdateMessage::ProgressDetail(ref s) if s == "Entering UF2 mode..."));
    let terminals = terminal_messages(&msgs);
    assert_eq!(terminals.len(), 1);
    match msgs.last().unwrap() {
        UpdateMessage::Complete(d) => assert!(*d > 0),
        other => panic!("expected Complete, got {:?}", other),
    }
    assert!(msgs.iter().any(|m| matches!(m, UpdateMessage::Progress(100))));
    assert!(!msgs.iter().any(|m| matches!(m, UpdateMessage::Error(_))));

    // each file's percentages never decrease and end at 100: one chunk for
    // the display image, two for the main image
    let percents: Vec<i16> = msgs
        .iter()
        .filter_map(|m| match m {
            UpdateMessage::Progress(p) if *p >= 0 => Some(*p),
            _ => None,
        })
        .collect();
    assert_eq!(percents, vec![0, 100, 0, 50, 100]);

    // the display image is written, fully and in order, before the main one
    assert_eq!(writes.len(), 2);
    assert_eq!(writes[0].path, "/mnt/disp");
    assert_eq!(writes[0].payload, DISPLAY_FW.to_vec());
    assert_eq!(writes[0].spans, vec![(0, 3)]);
    assert_eq!(writes[1].path, "/mnt/main");
    assert_eq!(writes[1].payload, MAIN_FW.to_vec());
    assert_eq!(writes[1].spans, vec![(0, 4), (4, 5)]);
}

#[test]
fn missing_firmware_ends_with_error_after_full_progress() {
    // a kind with no catalog entry: the terminal event is an Error, still
    // preceded by the saturating 100% marker, and no Complete is emitted
    let mut updater = FreeWiliUpdater::new(7, DeviceType::Winky, None, catalog(), config());
    let device = DeviceInfo {
        unique_id: 7,
        device_type: DeviceType::Winky,
        main: Some(mounted_endpoint("/mnt/w")),
        display: None,
    };
    let (msgs, writes) = drive(&mut updater, move |action, _| match action {
        Action::Enumerate => Event::Snapshot(Some(vec![DeviceInfo {
            unique_id: 7,
            device_type: device.device_type,
            main: device.main.clone(),
            display: None,
        }])),
        Action::Sleep(_) => Event::Slept,
        Action::ToggleSerial(_) => Event::Toggled(ToggleOutcome::Opened),
        Action::CreateFile { .. } => Event::FileCreated(None),
        Action::WriteChunk { .. } => Event::ChunkWritten(None),
        Action::Finished => unreachable!(),
    });
    assert!(!updater.is_complete());
    assert!(writes.is_empty());
    let terminals = terminal_messages(&msgs);
    assert_eq!(terminals.len(), 1);
    match msgs.last().unwrap() {
        UpdateMessage::Error(m) => assert!(m.contains("No firmware"), "message: {}", m),
        other => panic!("expected Error, got {:?}", other),
    }
    assert!(matches!(
        msgs[msgs.len() - 2],
        UpdateMessage::Progress(100)
    ));
    assert!(!msgs.iter().any(|m| matches!(m, UpdateMessage::Complete(_))));
}

#[test]
fn never_located_device_ends_with_a_single_critical_error() {
    let mut updater =
        FreeWiliUpdater::new(42, DeviceType::Freewili, None, catalog(), config());
    let (msgs, _) = drive(&mut updater, |action, _| match action {
        Action::Enumerate => Event::Snapshot(None),
        Action::Sleep(_) => Event::Slept,
        _ => unreachable!(),
    });
    assert!(!updater.is_complete());
    let terminals = terminal_messages(&msgs);
    assert_eq!(terminals.len(), 1);
    match msgs.last().unwrap() {
        UpdateMessage::Error(m) => {
            assert_eq!(m, "Critical Error: Failed to find FreeWiliDevice");
        }
        other => panic!("expected Error, got {:?}", other),
    }
    assert!(!msgs.iter().any(|m| matches!(m, UpdateMessage::Progress(100))));
}

#[test]
fn entry_poll_budget_exhaustion_is_a_critical_timeout() {
    // the device toggles but never reaches mass-storage mode
    let mut updater =
        FreeWiliUpdater::new(42, DeviceType::Freewili, None, catalog(), config());
    let (msgs, _) = drive(&mut updater, |action, _| match action {
        Action::Enumerate => Event::Snapshot(Some(vec![freewili_serial(42)])),
        Action::Sleep(_) => Event::Slept,
        Action::ToggleSerial(_) => Event::Toggled(ToggleOutcome::Opened),
        _ => unreachable!(),
    });
    match msgs.last().unwrap() {
        UpdateMessage::Error(m) => {
            assert_eq!(
                m,
                "Critical Error: Timeout waiting for device to enter UF2 mode"
            );
        }
        other => panic!("expected Error, got {:?}", other),
    }
}

#[test]
fn unexpected_serial_error_fails_the_update() {
    let mut updater =
        FreeWiliUpdater::new(42, DeviceType::Freewili, None, catalog(), config());
    let (msgs, _) = drive(&mut updater, |action, _| match action {
        Action::Enumerate => Event::Snapshot(Some(vec![freewili_serial(42)])),
        Action::Sleep(_) => Event::Slept,
        Action::ToggleSerial(_) => Event::Toggled(ToggleOutcome::OpenFailed {
            broken_pipe: false,
            raw_os_error: None,
        }),
        _ => unreachable!(),
    });
    match msgs.last().unwrap() {
        UpdateMessage::Error(m) => {
            assert!(m.starts_with("Critical Error: Failed to open port"), "message: {}", m);
        }
        other => panic!("expected Error, got {:?}", other),
    }
}

#[test]
fn expected_serial_errors_are_absorbed() {
    // a broken pipe on the first port and the transitioning code on the
    // second are both absorbed; the update still completes
    let mut updater =
        FreeWiliUpdater::new(42, DeviceType::Freewili, None, catalog(), config());
    let (msgs, writes) = drive(&mut updater, |action, toggles| match action {
        Action::Enumerate => {
            if toggles < 2 {
                Event::Snapshot(Some(vec![freewili_serial(42)]))
            } else {
                Event::Snapshot(Some(vec![freewili_mounted(42)]))
            }
        }
        Action::Sleep(_) => Event::Slept,
        Action::ToggleSerial(_) => {
            if toggles == 1 {
                Event::Toggled(ToggleOutcome::OpenFailed {
                    broken_pipe: true,
                    raw_os_error: None,
                })
            } else {
                Event::Toggled(ToggleOutcome::OpenFailed {
                    broken_pipe: false,
                    raw_os_error: Some(31),
                })
            }
        }
        Action::CreateFile { .. } => Event::FileCreated(None),
        Action::WriteChunk { .. } => Event::ChunkWritten(None),
        Action::Finished => unreachable!(),
    });
    assert!(updater.is_complete());
    assert_eq!(writes.len(), 2);
    assert!(matches!(msgs.last().unwrap(), UpdateMessage::Complete(_)));
}

#[test]
fn write_failure_is_a_terminal_flash_error() {
    let mut updater =
        FreeWiliUpdater::new(42, DeviceType::Freewili, None, catalog(), config());
    let (msgs, _) = drive(&mut updater, |action, toggles| match action {
        Action::Enumerate => {
            if toggles < 2 {
                Event::Snapshot(Some(vec![freewili_serial(42)]))
            } else {
                Event::Snapshot(Some(vec![freewili_mounted(42)]))
            }
        }
        Action::Sleep(_) => Event::Slept,
        Action::ToggleSerial(_) => Event::Toggled(ToggleOutcome::Opened),
        Action::CreateFile { .. } => Event::FileCreated(None),
        Action::WriteChunk { .. } => {
            Event::ChunkWritten(Some("device disappeared".to_string()))
        }
        Action::Finished => unreachable!(),
    });
    match msgs.last().unwrap() {
        UpdateMessage::Error(m) => {
            assert_eq!(
                m,
                "Flash Error: Failed to write UF2 file chunk: device disappeared"
            );
        }
        other => panic!("expected Error, got {:?}", other),
    }
}

#[test]
fn hint_selects_the_payload_for_the_ambiguous_kind() {
    // the device reports the generic bootloader kind; the hint picks the
    // badge payload, which shows up in the file the world is asked to write
    let mut updater = FreeWiliUpdater::new(
        5,
        DeviceType::Uf2,
        Some(DeviceType::Defcon2024Badge),
        catalog(),
        config(),
    );
    let device = DeviceInfo {
        unique_id: 5,
        device_type: DeviceType::Uf2,
        main: Some(mounted_endpoint("/mnt/badge")),
        display: None,
    };
    let (msgs, writes) = drive(&mut updater, move |action, _| match action {
        Action::Enumerate => Event::Snapshot(Some(vec![DeviceInfo {
            unique_id: 5,
            device_type: device.device_type,
            main: device.main.clone(),
            display: None,
        }])),
        Action::Sleep(_) => Event::Slept,
        Action::CreateFile { .. } => Event::FileCreated(None),
        Action::WriteChunk { .. } => Event::ChunkWritten(None),
        _ => unreachable!(),
    });
    assert!(updater.is_complete());
    assert_eq!(writes.len(), 1);
    assert_eq!(writes[0].path, "/mnt/badge");
    assert_eq!(writes[0].payload, DC24_FW.to_vec());
    assert_eq!(writes[0].spans, vec![(0, 4), (4, 6)]);
    assert!(matches!(msgs.last().unwrap(), UpdateMessage::Complete(_)));
}

#[test]
fn recorded_update_run_matches_the_stepped_run() {
    // the same single-channel success, replayed through the recorded-run
    // driver; events the session is not waiting for are ignored
    let mut updater =
        FreeWiliUpdater::new(9, DeviceType::Defcon2024Badge, None, catalog(), config());
    let serial_dev = || DeviceInfo {
        unique_id: 9,
        device_type: DeviceType::Defcon2024Badge,
        main: Some(serial_endpoint(UsbDeviceType::SerialMain, "COM9")),
        display: None,
    };
    let mounted_dev = || DeviceInfo {
        unique_id: 9,
        device_type: DeviceType::Defcon2024Badge,
        main: Some(mounted_endpoint("/mnt/b")),
        display: None,
    };
    let events = vec![
        Event::Slept, // ignored: the session is waiting for a snapshot
        Event::Snapshot(Some(vec![serial_dev()])),
        Event::Toggled(ToggleOutcome::Opened),
        Event::Snapshot(Some(vec![mounted_dev()])),
        Event::Slept,
        Event::Snapshot(Some(vec![mounted_dev()])),
        Event::FileCreated(None),
        Event::ChunkWritten(None),
        Event::ChunkWritten(None),
    ];
    let msgs = updater.update(events);
    assert!(updater.is_complete());
    assert_eq!(updater.elapsed(), 10);
    let terminals = terminal_messages(&msgs);
    assert_eq!(terminals.len(), 1);
    match msgs.last().unwrap() {
        UpdateMessage::Complete(d) => assert_eq!(*d, 10),
        other => panic!("expected Complete, got {:?}", other),
    }
    assert!(msgs.iter().any(|m| matches!(m, UpdateMessage::Progress(100))));
}

#[test]
fn empty_payload_still_reaches_the_saturating_endpoint() {
    // a zero-byte image: the file is created, no chunk is written, and the
    // write still reports exactly 100%
    let empty_catalog = Catalog::try_new(
        &compressed(&MAIN_FW),
        &compressed(&DISPLAY_FW),
        &compressed(&DC24_FW),
        &compressed(&[]),
    )
    .expect("catalog should decompress");
    let mut updater = FreeWiliUpdater::new(
        11,
        DeviceType::Defcon2025FwBadge,
        None,
        empty_catalog,
        config(),
    );
    let (msgs, writes) = drive(&mut updater, |action, _| match action {
        Action::Enumerate => Event::Snapshot(Some(vec![DeviceInfo {
            unique_id: 11,
            device_type: DeviceType::Defcon2025FwBadge,
            main: Some(mounted_endpoint("/mnt/e")),
            display: None,
        }])),
        Action::Sleep(_) => Event::Slept,
        Action::CreateFile { .. } => Event::FileCreated(None),
        _ => unreachable!(),
    });
    assert!(updater.is_complete());
    assert_eq!(writes.len(), 1);
    assert!(writes[0].payload.is_empty());
    assert!(writes[0].spans.is_empty());
    assert!(msgs.iter().any(|m| matches!(m, UpdateMessage::Progress(100))));
    assert!(matches!(msgs.last().unwrap(), UpdateMessage::Complete(_)));
}

#[test]
fn unmounted_volume_delays_entry_until_it_settles() {
    // the channels reach mass-storage mode with missing paths first; the
    // driver reports the wait and keeps polling instead of declaring entry
    let unmounted = || DeviceInfo {
        unique_id: 42,
        device_type: DeviceType::Freewili,
        main: Some(UsbEndpoint {
            kind: UsbDeviceType::MassStorage,
            port: None,
            path: None,
        }),
        display: Some(UsbEndpoint {
            kind: UsbDeviceType::MassStorage,
            port: None,
            path: None,
        }),
    };
    let mut updater =
        FreeWiliUpdater::new(42, DeviceType::Freewili, None, catalog(), config());
    let mut polls = 0usize;
    let (msgs, writes) = drive(&mut updater, move |action, toggles| match action {
        Action::Enumerate => {
            if toggles < 2 {
                Event::Snapshot(Some(vec![freewili_serial(42)]))
            } else {
                polls += 1;
                if polls <= 2 {
                    Event::Snapshot(Some(vec![unmounted()]))
                } else {
                    Event::Snapshot(Some(vec![freewili_mounted(42)]))
                }
            }
        }
        Action::Sleep(_) => Event::Slept,
        Action::ToggleSerial(_) => Event::Toggled(ToggleOutcome::Opened),
        Action::CreateFile { .. } => Event::FileCreated(None),
        Action::WriteChunk { .. } => Event::ChunkWritten(None),
        Action::Finished => unreachable!(),
    });
    assert!(updater.is_complete());
    assert_eq!(writes.len(), 2);
    let waits = msgs
        .iter()
        .filter(|m| {
            matches!(m, UpdateMessage::ProgressDetail(s)
                if s == "Device entered UF2 mode but paths are missing. Is it mounted?")
        })
        .count();
    assert_eq!(waits, 2);
}

#[test]
fn unsupported_kind_fails_before_any_toggle() {
    let mut updater =
        FreeWiliUpdater::new(3, DeviceType::Unknown, None, catalog(), config());
    let (msgs, writes) = drive(&mut updater, |action, _| match action {
        Action::Enumerate => Event::Snapshot(Some(vec![DeviceInfo {
            unique_id: 3,
            device_type: DeviceType::Unknown,
            main: None,
            display: None,
        }])),
        _ => unreachable!(),
    });
    assert!(writes.is_empty());
    match msgs.last().unwrap() {
        UpdateMessage::Error(m) => {
            assert_eq!(m, "Critical Error: Device does not support UF2 mode");
        }
        other => panic!("expected Error, got {:?}", other),
    }
}

#[test]
fn missing_mount_path_is_a_flash_error() {
    // entry succeeds but the display volume's path vanishes before writing
    let mut updater =
        FreeWiliUpdater::new(42, DeviceType::Freewili, None, catalog(), config());
    let mut enumerations = 0usize;
    let (msgs, _) = drive(&mut updater, move |action, toggles| match action {
        Action::Enumerate => {
            enumerations += 1;
            if toggles < 2 {
                Event::Snapshot(Some(vec![freewili_serial(42)]))
            } else if enumerations == 2 {
                Event::Snapshot(Some(vec![freewili_mounted(42)]))
            } else {
                // the flash-stage snapshot reports the display unmounted
                Event::Snapshot(Some(vec![DeviceInfo {
                    unique_id: 42,
                    device_type: DeviceType::Freewili,
                    main: Some(mounted_endpoint("/mnt/main")),
                    display: Some(UsbEndpoint {
                        kind: UsbDeviceType::MassStorage,
                        port: None,
                        path: None,
                    }),
                }]))
            }
        }
        Action::Sleep(_) => Event::Slept,
        Action::ToggleSerial(_) => Event::Toggled(ToggleOutcome::Opened),
        Action::CreateFile { .. } => Event::FileCreated(None),
        Action::WriteChunk { .. } => Event::ChunkWritten(None),
        Action::Finished => unreachable!(),
    });
    match msgs.last().unwrap() {
        UpdateMessage::Error(m) => {
            assert_eq!(m, "Flash Error: Display device path not found");
        }
        other => panic!("expected Error, got {:?}", other),
    }
}
