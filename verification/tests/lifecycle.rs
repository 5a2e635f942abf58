use lxi_lifecycle::CardLocation;
use lxi_lifecycle::CleanupWarning;
use lxi_lifecycle::Command;
use lxi_lifecycle::DriverEvent;
use lxi_lifecycle::Endpoint;
use lxi_lifecycle::Orchestrator;
use lxi_lifecycle::PicmlxError;
use lxi_lifecycle::PiplxError;
use lxi_lifecycle::RunError;

fn endpoint() -> Endpoint {
    Endpoint { address: "10.0.0.5".to_string(), port: 1024, timeout_ms: 3000 }
}

fn location() -> CardLocation {
    CardLocation { bus: 3, slot: 5 }
}

fn identity_buffer(text: &[u8]) -> Vec<u8> {
    let mut buf = text.to_vec();
    buf.resize(256, 0);
    buf
}

#[test]
fn full_run_reports_identity() {
    let mut orch = Orchestrator::new(0, endpoint(), location());
    assert_eq!(
        orch.connect_command(),
        Command::Connect { board: 0, port: 1024, timeout_ms: 3000 }
    );
    assert_eq!(orch.endpoint_address(), "10.0.0.5");

    let c = orch.step(DriverEvent::ConnectDone { code: 0, sid: 0x1234 });
    assert_eq!(c, Command::OpenCard { sid: 0x1234, bus: 3, slot: 5 });

    let c = orch.step(DriverEvent::OpenDone { code: 0, card_num: 2 });
    assert_eq!(c, Command::Identify { sid: 0x1234, card_num: 2 });

    let c = orch.step(DriverEvent::IdentifyDone {
        code: 0,
        buffer: identity_buffer(b"40-160-001,1000000,1.01"),
    });
    assert_eq!(c, Command::CloseCard { sid: 0x1234, card_num: 2 });

    let c = orch.step(DriverEvent::CloseDone { code: 0 });
    assert_eq!(c, Command::Disconnect { sid: 0x1234 });

    let c = orch.step(DriverEvent::DisconnectDone { code: 0 });
    assert_eq!(c, Command::Finished);

    assert!(orch.is_complete());
    let report = orch.into_report();
    assert_eq!(report.outcome, Ok(()));
    let card_id = report.card_id.expect("identify succeeded");
    assert!(!card_id.is_empty());
    assert!(card_id.len() <= 256);
    assert_eq!(card_id, b"40-160-001,1000000,1.01".to_vec());
    assert!(report.warnings.is_empty());
}

#[test]
fn full_run_releases_in_reverse_order_exactly_once() {
    let mut orch = Orchestrator::new(0, endpoint(), location());
    let mut commands = vec![orch.connect_command()];
    commands.push(orch.step(DriverEvent::ConnectDone { code: 0, sid: 77 }));
    commands.push(orch.step(DriverEvent::OpenDone { code: 0, card_num: 4 }));
    commands.push(orch.step(DriverEvent::IdentifyDone {
        code: 0,
        buffer: identity_buffer(b"40-160-001"),
    }));
    commands.push(orch.step(DriverEvent::CloseDone { code: 0 }));
    commands.push(orch.step(DriverEvent::DisconnectDone { code: 0 }));

    assert_eq!(
        commands,
        vec![
            Command::Connect { board: 0, port: 1024, timeout_ms: 3000 },
            Command::OpenCard { sid: 77, bus: 3, slot: 5 },
            Command::Identify { sid: 77, card_num: 4 },
            Command::CloseCard { sid: 77, card_num: 4 },
            Command::Disconnect { sid: 77 },
            Command::Finished,
        ]
    );

    let disconnects = commands
        .iter()
        .filter(|c| matches!(c, Command::Disconnect { .. }))
        .count();
    assert_eq!(disconnects, 1);
    let closes = commands
        .iter()
        .filter(|c| matches!(c, Command::CloseCard { .. }))
        .count();
    assert_eq!(closes, 1);
    let close_at = commands
        .iter()
        .position(|c| matches!(c, Command::CloseCard { .. }))
        .unwrap();
    let disconnect_at = commands
        .iter()
        .position(|c| matches!(c, Command::Disconnect { .. }))
        .unwrap();
    assert!(close_at < disconnect_at);
}

#[test]
fn connect_failure_is_terminal() {
    let mut orch = Orchestrator::new(0, endpoint(), location());
    let c = orch.step(DriverEvent::ConnectDone { code: 5, sid: 0 });
    assert_eq!(c, Command::Finished);
    assert!(orch.is_complete());

    // The machine waits for no further result: nothing is opened, closed or
    // disconnected after a failed connect.
    assert!(!orch.accepts(&DriverEvent::OpenDone { code: 0, card_num: 1 }));
    assert!(!orch.accepts(&DriverEvent::CloseDone { code: 0 }));
    assert!(!orch.accepts(&DriverEvent::DisconnectDone { code: 0 }));

    let report = orch.into_report();
    assert_eq!(report.outcome, Err(RunError::Connect(PicmlxError { err_num: 5 })));
    assert_eq!(report.card_id, None);
    assert!(report.warnings.is_empty());
}

#[test]
fn open_failure_still_disconnects() {
    let mut orch = Orchestrator::new(0, endpoint(), location());
    let c = orch.step(DriverEvent::ConnectDone { code: 0, sid: 900 });
    assert_eq!(c, Command::OpenCard { sid: 900, bus: 3, slot: 5 });

    let c = orch.step(DriverEvent::OpenDone { code: 12, card_num: 0 });
    assert_eq!(c, Command::Disconnect { sid: 900 });

    let c = orch.step(DriverEvent::DisconnectDone { code: 0 });
    assert_eq!(c, Command::Finished);

    let report = orch.into_report();
    assert_eq!(report.outcome, Err(RunError::OpenCard(PiplxError { err_num: 12 })));
    assert_eq!(report.card_id, None);
    assert!(report.warnings.is_empty());
}

#[test]
fn disconnect_failure_after_open_failure_is_only_a_warning() {
    let mut orch = Orchestrator::new(0, endpoint(), location());
    orch.step(DriverEvent::ConnectDone { code: 0, sid: 900 });
    let c = orch.step(DriverEvent::OpenDone { code: 12, card_num: 0 });
    assert_eq!(c, Command::Disconnect { sid: 900 });

    let c = orch.step(DriverEvent::DisconnectDone { code: 3 });
    assert_eq!(c, Command::Finished);

    // The open-card failure stays the primary outcome; the disconnect
    // failure is reported only as a warning.
    let report = orch.into_report();
    assert_eq!(report.outcome, Err(RunError::OpenCard(PiplxError { err_num: 12 })));
    assert_eq!(
        report.warnings,
        vec![CleanupWarning::Disconnect(PicmlxError { err_num: 3 })]
    );
}

#[test]
fn close_failure_still_disconnects_and_run_succeeds() {
    let mut orch = Orchestrator::new(0, endpoint(), location());
    orch.step(DriverEvent::ConnectDone { code: 0, sid: 31 });
    orch.step(DriverEvent::OpenDone { code: 0, card_num: 6 });
    let c = orch.step(DriverEvent::IdentifyDone {
        code: 0,
        buffer: identity_buffer(b"40-160-001"),
    });
    assert_eq!(c, Command::CloseCard { sid: 31, card_num: 6 });

    let c = orch.step(DriverEvent::CloseDone { code: 7 });
    assert_eq!(c, Command::Disconnect { sid: 31 });

    let c = orch.step(DriverEvent::DisconnectDone { code: 0 });
    assert_eq!(c, Command::Finished);

    let report = orch.into_report();
    assert_eq!(report.outcome, Ok(()));
    assert_eq!(report.card_id, Some(b"40-160-001".to_vec()));
    assert_eq!(
        report.warnings,
        vec![CleanupWarning::CloseCard(PiplxError { err_num: 7 })]
    );
}

#[test]
fn identify_failure_is_not_fatal_and_card_is_still_closed() {
    let mut orch = Orchestrator::new(0, endpoint(), location());
    orch.step(DriverEvent::ConnectDone { code: 0, sid: 31 });
    orch.step(DriverEvent::OpenDone { code: 0, card_num: 6 });

    let c = orch.step(DriverEvent::IdentifyDone { code: 20, buffer: vec![0u8; 256] });
    assert_eq!(c, Command::CloseCard { sid: 31, card_num: 6 });

    let c = orch.step(DriverEvent::CloseDone { code: 0 });
    assert_eq!(c, Command::Disconnect { sid: 31 });
    orch.step(DriverEvent::DisconnectDone { code: 0 });

    let report = orch.into_report();
    assert_eq!(report.outcome, Ok(()));
    assert_eq!(report.card_id, None);
    assert_eq!(
        report.warnings,
        vec![CleanupWarning::Identify(PiplxError { err_num: 20 })]
    );
}

#[test]
fn no_second_release_is_attempted() {
    let mut orch = Orchestrator::new(0, endpoint(), location());
    orch.step(DriverEvent::ConnectDone { code: 0, sid: 1 });
    orch.step(DriverEvent::OpenDone { code: 0, card_num: 1 });
    orch.step(DriverEvent::IdentifyDone { code: 0, buffer: identity_buffer(b"id") });
    orch.step(DriverEvent::CloseDone { code: 7 });
    let c = orch.step(DriverEvent::DisconnectDone { code: 8 });
    assert_eq!(c, Command::Finished);

    // Even after failed releases the machine is done: it accepts no further
    // result and so never retries a close or a disconnect.
    assert!(orch.is_complete());
    assert!(!orch.accepts(&DriverEvent::CloseDone { code: 0 }));
    assert!(!orch.accepts(&DriverEvent::DisconnectDone { code: 0 }));
}
