use rusty_battery::device::battery::{Reading, Status};
use rusty_battery::error;
use rusty_battery::event::Stage;
use rusty_battery::notify::{notify, validate_input};
use rusty_battery::platform::{Output, Request};

fn batteries() -> Result<Vec<Result<Reading, String>>, String> {
    Ok(vec![Ok(Reading {
        charge: 85,
        status: Status::Charging,
        model: Some("BAT0".into()),
        serial_number: Some(" SN1 ".into()),
    })])
}

#[test]
fn test_notify_notifications_disabled_kde_disabled() {
    let (result, _) = notify(
        0,
        None,
        0,
        "test summary".into(),
        "test body".into(),
        None,
        true,
        batteries(),
    );

    assert!(result.is_err());
    result.map(|_| ()).unwrap_or_else(|e| {
        assert!(matches!(
            e,
            error::Error::Notification(error::Notification::Config { .. })
        ));
    });
}

#[test]
fn test_validate_validate_input_desktop_enabled_kde_disabled() {
    let result = validate_input(0, None, 0, "test summary", "test body", None, false);

    assert!(result.is_ok());
}

#[test]
fn test_validate_validate_input_desktop_enabled_kde_empty() {
    let result = validate_input(
        0,
        None,
        0,
        "test summary",
        "test body",
        Some(&vec![]),
        false,
    );

    assert!(result.is_ok());
}

#[test]
fn test_validate_validate_input_desktop_enabled_kde_populated() {
    let result = validate_input(
        0,
        None,
        0,
        "test summary",
        "test body",
        Some(&vec!["a".into(), "5".into()]),
        false,
    );

    assert!(result.is_ok());
}

#[test]
fn test_validate_validate_input_desktop_disabled_kde_disabled() {
    let result = validate_input(0, None, 0, "test summary", "test body", None, true);

    assert!(result.is_err());
    result.unwrap_or_else(|e| {
        assert!(matches!(
            e,
            error::Error::Notification(error::Notification::Config { .. }),
        ));
    });
}

#[test]
fn test_validate_validate_input_desktop_disabled_kde_empty() {
    let result = validate_input(
        0,
        None,
        0,
        "test summary",
        "test body",
        Some(&vec![]),
        true,
    );

    assert!(result.is_ok());
}

#[test]
fn test_validate_validate_input_desktop_disabled_kde_populated() {
    let result = validate_input(
        0,
        None,
        0,
        "test summary",
        "test body",
        Some(&vec!["a".into(), "5".into()]),
        true,
    );

    assert!(result.is_ok());
}

#[test]
fn test_validate_input_names_what_is_wrong() {
    assert_eq!(
        validate_input(80, None, 30, "", "", None, true),
        Err(error::Error::Notification(error::Notification::Config {
            kind: "both desktop and KDE connect can't be disabled".into()
        }))
    );
    assert_eq!(
        validate_input(101, None, 30, "", "", None, false),
        Err(error::Error::Notification(error::Notification::Config {
            kind: "threshold not in range 0-100".into()
        }))
    );
    assert_eq!(validate_input(100, None, 30, "", "", None, false), Ok(()));
}

#[test]
fn test_notify_starts_the_loop() {
    let (result, warnings) = notify(
        80,
        Some("BAT0"),
        30,
        "Charge limit on $MODEL".into(),
        "Battery at $CHARGE_STATE%, threshold $THRESHOLD%".into(),
        Some((
            vec!["Phone".into()],
            Ok(Output {
                stdout: b"id1 Tablet\nid2 Phone\n".to_vec(),
                stderr: Vec::new(),
            }),
            Ok(Output {
                stdout: b"id1 Tablet\n".to_vec(),
                stderr: Vec::new(),
            }),
        )),
        false,
        batteries(),
    );

    let (event_loop, request) = result.unwrap();
    assert_eq!(
        warnings,
        vec!["device/kde_connect: not found: name = Phone".to_string()]
    );
    match request {
        Request::Show(alert) => {
            assert_eq!(alert.summary, "Charge limit on BAT0");
            assert_eq!(alert.body, "Battery at 85%, threshold 80%");
        }
        other => panic!("{other:?}"),
    }
    assert_eq!(event_loop.stage(), Stage::Notifying);
    assert_eq!(event_loop.battery().serial_number, "SN1");
}

#[test]
fn test_notify_without_the_battery() {
    let (result, warnings) = notify(
        80,
        Some("BAT1"),
        30,
        "s".into(),
        "b".into(),
        None,
        false,
        batteries(),
    );

    assert_eq!(
        result.err(),
        Some(error::Error::Battery(error::Battery::NotFound {
            model: error::Model(Some("BAT1".into()))
        }))
    );
    assert!(warnings.is_empty());
}

#[test]
fn test_notify_without_the_power_supply() {
    let (result, _) = notify(
        80,
        None,
        30,
        "s".into(),
        "b".into(),
        None,
        false,
        Err("not supported".into()),
    );

    assert_eq!(
        result.err(),
        Some(error::Error::Battery(error::Battery::Routine(
            "not supported".into()
        )))
    );
}

#[test]
fn test_notify_without_the_remote_command() {
    let (result, _) = notify(
        80,
        None,
        30,
        "s".into(),
        "b".into(),
        Some((
            Vec::new(),
            Err("No such file or directory".into()),
            Err("No such file or directory".into()),
        )),
        true,
        batteries(),
    );

    assert_eq!(
        result.err(),
        Some(error::Error::KDEConnect(error::KDEConnect::Cli(
            "No such file or directory".into()
        )))
    );
}

#[test]
fn test_notify_with_a_name_that_no_device_has() {
    let listing = Ok(Output {
        stdout: b"id1 Tablet\n".to_vec(),
        stderr: Vec::new(),
    });
    let (result, warnings) = notify(
        80,
        None,
        30,
        "s".into(),
        "b".into(),
        Some((vec!["phone".into()], listing.clone(), listing)),
        false,
        batteries(),
    );

    assert_eq!(
        result.err(),
        Some(error::Error::KDEConnect(error::KDEConnect::Device(
            error::KDEConnectDevice::NotFound {
                name: "phone".into()
            }
        )))
    );
    assert!(warnings.is_empty());
}
