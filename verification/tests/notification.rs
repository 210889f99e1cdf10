use rusty_battery::common::Describe;
use rusty_battery::device::battery::State;
use rusty_battery::device::Battery;
use rusty_battery::error;
use rusty_battery::notification::desktop::create_notification;
use rusty_battery::notification::operation;
use rusty_battery::notification::{
    DesktopNotifier, KDEConnectNotifier, Message, Notifier, PlatformNotifier,
};
use rusty_battery::platform::{Alert, Answer, Output, Request, Timeout, Urgency};

fn battery(percentage: u8) -> Battery {
    Battery {
        percentage,
        state: State::Charging,
        model: "BAT0".into(),
        serial_number: "SN1".into(),
    }
}

fn message(percentage: u8) -> Message {
    Message::new(
        "Charge at $CHARGE_STATE%".into(),
        "Unplug $MODEL".into(),
        80,
        &battery(percentage),
        30,
    )
}

fn texts(items: &[&str]) -> Vec<String> {
    items.iter().map(|item| item.to_string()).collect()
}

fn listing(stdout: &str) -> Result<Output, String> {
    Ok(Output {
        stdout: stdout.as_bytes().to_vec(),
        stderr: Vec::new(),
    })
}

fn silence() -> Result<Output, String> {
    listing("")
}

fn known() -> Result<Output, String> {
    listing("id1 Phone\nid2 Tablet\nid3 Watch\nid4 a\nid5 b\n")
}

fn ping(id: &str, text: &str) -> Request {
    Request::Execute {
        args: texts(&["--device", id, "--ping-msg", &format!("\"{text}\"")]),
    }
}

fn available() -> Request {
    Request::Execute {
        args: texts(&["--list-available", "--id-name-only"]),
    }
}

#[test]
fn test_notifier_empty_handle() {
    let notifier = DesktopNotifier::new();

    assert!(notifier.id().is_none());
}

#[test]
fn test_notifier_display_none_handle() {
    let notifier = DesktopNotifier::new();

    let result = notifier.describe();

    assert_eq!(result, "Desktop Notifier: handle = None");
}

#[test]
fn test_notifier_display_handle() {
    let mut notifier = DesktopNotifier::new();
    let _ = notifier.resume(Answer::Shown(Ok(42)));

    assert_eq!(notifier.describe(), "Desktop Notifier: handle = 42");
}

#[test]
fn test_create_notification() {
    let summary = "test-summary";
    let body = "test-body";

    let notification = create_notification(summary, body);

    assert_eq!(notification.appname, "rusty-battery");
    assert_eq!(notification.summary, summary);
    assert_eq!(notification.body, body);
    assert_eq!(notification.icon, "battery");
    assert_eq!(notification.timeout, Timeout::Never);
    assert_eq!(notification.urgency, Urgency::Critical);
}

#[test]
fn test_desktop_notify_twice_shows_once_and_updates_once() {
    let mut notifier = DesktopNotifier::new();

    let first = notifier.notify(&message(85));
    assert_eq!(
        first,
        Some(Request::Show(Alert {
            appname: "rusty-battery".into(),
            summary: "Charge at 85%".into(),
            body: "Unplug BAT0".into(),
            icon: "battery".into(),
            timeout: Timeout::Never,
            urgency: Urgency::Critical,
        }))
    );
    assert_eq!(notifier.resume(Answer::Shown(Ok(7))), (Ok(None), Vec::new()));
    assert_eq!(notifier.id(), Some(7));

    let second = notifier.notify(&message(90));
    assert_eq!(
        second,
        Some(Request::Update {
            id: 7,
            summary: "Charge at 90%".into(),
            body: "Unplug BAT0".into(),
        })
    );
    assert_eq!(notifier.resume(Answer::Updated(Ok(()))), (Ok(None), Vec::new()));
    assert_eq!(notifier.id(), Some(7));
}

#[test]
fn test_desktop_failed_show_is_tried_again() {
    let mut notifier = DesktopNotifier::new();

    assert!(matches!(notifier.show(&message(85)), Request::Show(_)));
    assert_eq!(
        notifier.resume(Answer::Shown(Err("no server".into()))),
        (Err(error::Notification::Desktop("no server".into())), Vec::new())
    );
    assert_eq!(notifier.id(), None);
    assert!(matches!(notifier.show(&message(85)), Request::Show(_)));
}

#[test]
fn test_desktop_failed_update_keeps_the_alert() {
    let mut notifier = DesktopNotifier::new();
    let _ = notifier.resume(Answer::Shown(Ok(7)));

    assert_eq!(
        notifier.resume(Answer::Updated(Err("no server".into()))),
        (Err(error::Notification::Desktop("no server".into())), Vec::new())
    );
    assert_eq!(notifier.id(), Some(7));
}

#[test]
fn test_desktop_second_handle_does_not_replace_the_first() {
    let mut notifier = DesktopNotifier::new();
    let _ = notifier.resume(Answer::Shown(Ok(7)));
    let _ = notifier.resume(Answer::Shown(Ok(8)));

    assert_eq!(notifier.id(), Some(7));
}

#[test]
fn test_desktop_remove_without_alert_does_nothing() {
    let mut notifier = DesktopNotifier::new();

    assert_eq!(notifier.close(), None);
    assert_eq!(notifier.remove(), None);
    assert_eq!(notifier.id(), None);
}

#[test]
fn test_desktop_remove_closes_once() {
    let mut notifier = DesktopNotifier::new();
    let _ = notifier.resume(Answer::Shown(Ok(7)));

    assert_eq!(notifier.remove(), Some(Request::Close { id: 7 }));
    assert_eq!(notifier.id(), None);
    assert_eq!(notifier.resume(Answer::Closed), (Ok(None), Vec::new()));
    assert_eq!(notifier.remove(), None);
}

#[test]
fn test_remote_new_without_names_pings_all() {
    let (notifier, warnings) = KDEConnectNotifier::new(Vec::new(), known(), listing("id1 Phone\n"));

    assert!(warnings.is_empty());
    assert_eq!(
        notifier.unwrap().describe(),
        "KDE Connect Notifier: device_names = All"
    );
}

#[test]
fn test_remote_new_keeps_each_name_once() {
    let (notifier, warnings) = KDEConnectNotifier::new(
        texts(&["Phone", "Tablet", "Phone"]),
        known(),
        listing("id1 Phone\n"),
    );

    assert_eq!(
        warnings,
        texts(&["device/kde_connect: not found: name = Tablet"])
    );
    assert_eq!(
        notifier.unwrap().describe(),
        "KDE Connect Notifier: device_names = [Phone, Tablet]"
    );
}

#[test]
fn test_remote_new_fails_without_the_command() {
    let (notifier, warnings) =
        KDEConnectNotifier::new(
            Vec::new(),
            Err("No such file or directory".into()),
            Err("No such file or directory".into()),
        );

    assert_eq!(
        notifier.err(),
        Some(error::KDEConnect::Cli("No such file or directory".into()))
    );
    assert!(warnings.is_empty());
}

#[test]
fn test_remote_new_fails_on_a_line_without_device() {
    let (notifier, _) = KDEConnectNotifier::new(Vec::new(), known(), listing("id1\n"));

    assert_eq!(
        notifier.err(),
        Some(error::KDEConnect::Device(error::KDEConnectDevice::Name))
    );
}

#[test]
fn test_remote_find_available() {
    let (notifier, _) = KDEConnectNotifier::new(texts(&["Tablet", "Watch"]), known(), silence());
    let notifier = notifier.unwrap();

    let (targets, warnings) = notifier.find_available(Ok(Output {
        stdout: b"id1 Phone\nid2 Tablet\n".to_vec(),
        stderr: b"slow\n".to_vec(),
    }));

    let targets = targets.unwrap();
    assert_eq!(targets.len(), 1);
    assert_eq!(targets[0].id(), "id2");
    assert_eq!(
        warnings,
        texts(&[
            "kdeconnect/cli: stderr = slow",
            "device/kde_connect: not found: name = Watch",
        ])
    );
}

#[test]
fn test_remote_notify_pings_every_device_in_turn() {
    let (notifier, _) = KDEConnectNotifier::new(Vec::new(), silence(), silence());
    let mut notifier = notifier.unwrap();
    let text = "Charge at 85%\n\nUnplug BAT0";

    assert_eq!(notifier.notify(&message(85)), Some(available()));
    assert_eq!(
        notifier.resume(Answer::Executed(listing("id1 Phone\nid2 Tablet\n"))),
        (Ok(Some(ping("id1", text))), Vec::new())
    );
    assert_eq!(
        notifier.resume(Answer::Executed(silence())),
        (Ok(Some(ping("id2", text))), Vec::new())
    );
    assert_eq!(
        notifier.resume(Answer::Executed(silence())),
        (Ok(None), Vec::new())
    );
    assert_eq!(
        notifier.resume(Answer::Executed(silence())),
        (Ok(None), Vec::new())
    );
}

#[test]
fn test_remote_notify_asks_for_the_devices_each_time() {
    let (notifier, _) = KDEConnectNotifier::new(texts(&["Phone"]), known(), listing("id1 Phone\n"));
    let mut notifier = notifier.unwrap();

    assert_eq!(notifier.notify(&message(85)), Some(available()));
    assert_eq!(
        notifier.resume(Answer::Executed(silence())),
        (
            Ok(None),
            texts(&["device/kde_connect: not found: name = Phone"])
        )
    );
    assert_eq!(notifier.notify(&message(86)), Some(available()));
    assert_eq!(
        notifier.resume(Answer::Executed(listing("id9 Phone\n"))),
        (
            Ok(Some(ping("id9", "Charge at 86%\n\nUnplug BAT0"))),
            Vec::new()
        )
    );
}

#[test]
fn test_remote_failed_ping_ends_the_sending() {
    let (notifier, _) = KDEConnectNotifier::new(Vec::new(), silence(), silence());
    let mut notifier = notifier.unwrap();
    let _ = notifier.notify(&message(85));
    let _ = notifier.resume(Answer::Executed(listing("id1 Phone\nid2 Tablet\n")));

    assert_eq!(
        notifier.resume(Answer::Executed(Err("killed".into()))),
        (Err(error::KDEConnect::Cli("killed".into())), Vec::new())
    );
    assert_eq!(
        notifier.resume(Answer::Executed(silence())),
        (Ok(None), Vec::new())
    );
}

#[test]
fn test_remote_ping_that_complains_goes_on() {
    let (notifier, _) = KDEConnectNotifier::new(Vec::new(), silence(), silence());
    let mut notifier = notifier.unwrap();
    let _ = notifier.notify(&message(85));
    let _ = notifier.resume(Answer::Executed(listing("id1 Phone\nid2 Tablet\n")));

    let (next, warnings) = notifier.resume(Answer::Executed(Ok(Output {
        stdout: Vec::new(),
        stderr: b"device not reachable".to_vec(),
    })));

    assert_eq!(next, Ok(Some(ping("id2", "Charge at 85%\n\nUnplug BAT0"))));
    assert_eq!(
        warnings,
        texts(&["kdeconnect/cli: stderr = device not reachable"])
    );
}

#[test]
fn test_remote_failed_listing() {
    let (notifier, _) = KDEConnectNotifier::new(Vec::new(), silence(), silence());
    let mut notifier = notifier.unwrap();
    let _ = notifier.notify(&message(85));

    assert_eq!(
        notifier.resume(Answer::Executed(Err("gone".into()))),
        (Err(error::KDEConnect::Cli("gone".into())), Vec::new())
    );
}

#[test]
fn test_remote_answer_of_another_kind_ends_the_sending() {
    let (notifier, _) = KDEConnectNotifier::new(Vec::new(), silence(), silence());
    let mut notifier = notifier.unwrap();
    let _ = notifier.notify(&message(85));

    assert_eq!(notifier.resume(Answer::Closed), (Ok(None), Vec::new()));
    assert_eq!(
        notifier.resume(Answer::Executed(listing("id1 Phone\n"))),
        (Ok(None), Vec::new())
    );
}

#[test]
fn test_remote_remove_is_nothing() {
    let (notifier, _) = KDEConnectNotifier::new(Vec::new(), silence(), silence());
    let mut notifier = notifier.unwrap();

    assert_eq!(notifier.remove(), None);
}

#[test]
fn test_operation_on_a_notifier_that_is_switched_off() {
    let mut off: Option<DesktopNotifier> = None;

    assert_eq!(operation::notify(&mut off, &message(85)), None);
    assert_eq!(operation::remove(&mut off), None);
    assert_eq!(
        operation::operation(&mut off, operation::Operation::Notify, &message(85)),
        None
    );
    assert_eq!(operation::resume(&mut off, Answer::Closed), (None, Vec::new()));
    assert!(off.is_none());
}

#[test]
fn test_operation_on_a_notifier_that_is_switched_on() {
    let mut on = Some(DesktopNotifier::new());

    assert!(matches!(
        operation::operation(&mut on, operation::Operation::Notify, &message(85)),
        Some(Request::Show(_))
    ));
    assert_eq!(operation::resume(&mut on, Answer::Shown(Ok(3))), (None, Vec::new()));
    assert_eq!(
        operation::operation(&mut on, operation::Operation::Remove, &message(85)),
        Some(Request::Close { id: 3 })
    );
}

#[test]
fn test_operation_resume_turns_an_error_into_a_warning() {
    let mut on = Some(DesktopNotifier::new());

    assert_eq!(
        operation::resume(&mut on, Answer::Shown(Err("no server".into()))),
        (None, texts(&["notification: desktop: no server"]))
    );
}

#[test]
fn test_dispatcher_display() {
    let (notifier, _) = Notifier::new(80, None, false);
    assert_eq!(
        notifier.unwrap().describe(),
        "Notifier: Desktop = Desktop Notifier: handle = None, KDE Connect = None"
    );

    let (notifier, _) = Notifier::new(80, Some((texts(&["a", "b"]), known(), silence())), true);
    assert_eq!(
        notifier.unwrap().describe(),
        "Notifier: Desktop = None, KDE Connect = KDE Connect Notifier: device_names = [a, b]"
    );
}

#[test]
fn test_dispatcher_new() {
    let (notifier, warnings) = Notifier::new(80, None, false);
    let notifier = notifier.unwrap();

    assert_eq!(notifier.threshold, 80);
    assert_eq!(notifier.threshold(), 80);
    assert!(notifier.is_idle());
    assert!(warnings.is_empty());
}

#[test]
fn test_dispatcher_new_fails_with_the_remote_devices() {
    let (notifier, warnings) = Notifier::new(
        80,
        Some((Vec::new(), Err("gone".into()), Err("gone".into()))),
        false,
    );

    assert_eq!(
        notifier.err(),
        Some(error::Error::KDEConnect(error::KDEConnect::Cli("gone".into())))
    );
    assert!(warnings.is_empty());
}

#[test]
fn test_dispatcher_notifies_the_desktop_before_the_remote_devices() {
    let (notifier, _) = Notifier::new(80, Some((Vec::new(), silence(), silence())), false);
    let mut notifier = notifier.unwrap();
    let shown = message(85);

    assert!(matches!(notifier.notify(&shown), Some(Request::Show(_))));
    assert!(!notifier.is_idle());
    assert_eq!(
        notifier.resume(Answer::Shown(Ok(7)), &shown),
        (Some(available()), Vec::new())
    );
    assert_eq!(
        notifier.resume(Answer::Executed(listing("id1 Phone\n")), &shown),
        (
            Some(ping("id1", "Charge at 85%\n\nUnplug BAT0")),
            Vec::new()
        )
    );
    assert_eq!(
        notifier.resume(Answer::Executed(silence()), &shown),
        (None, Vec::new())
    );
    assert!(notifier.is_idle());
    assert_eq!(notifier.resume(Answer::Closed, &shown), (None, Vec::new()));
}

#[test]
fn test_dispatcher_goes_on_after_a_failure() {
    let (notifier, _) = Notifier::new(80, Some((Vec::new(), silence(), silence())), false);
    let mut notifier = notifier.unwrap();
    let shown = message(85);
    let _ = notifier.notify(&shown);

    assert_eq!(
        notifier.resume(Answer::Shown(Err("no server".into())), &shown),
        (
            Some(available()),
            texts(&["notification: desktop: no server"])
        )
    );
    assert_eq!(
        notifier.resume(Answer::Executed(Err("gone".into())), &shown),
        (
            None,
            texts(&["notification: CLI is not installed: gone"])
        )
    );
    assert!(notifier.is_idle());
}

#[test]
fn test_dispatcher_never_asks_a_platform_that_is_switched_off() {
    let (notifier, _) = Notifier::new(80, Some((Vec::new(), silence(), silence())), true);
    let mut notifier = notifier.unwrap();
    let shown = message(85);

    assert_eq!(notifier.notify(&shown), Some(available()));
    assert_eq!(
        notifier.resume(Answer::Executed(silence()), &shown),
        (None, Vec::new())
    );
    assert_eq!(notifier.remove(), None);

    let (notifier, _) = Notifier::new(80, None, false);
    let mut notifier = notifier.unwrap();

    assert!(matches!(notifier.notify(&shown), Some(Request::Show(_))));
    assert_eq!(
        notifier.resume(Answer::Shown(Ok(1)), &shown),
        (None, Vec::new())
    );
}

#[test]
fn test_dispatcher_remove() {
    let (notifier, _) = Notifier::new(80, Some((Vec::new(), silence(), silence())), false);
    let mut notifier = notifier.unwrap();
    let shown = message(85);

    assert_eq!(notifier.remove(), None);
    assert!(notifier.is_idle());

    let _ = notifier.notify(&shown);
    let _ = notifier.resume(Answer::Shown(Ok(7)), &shown);
    let _ = notifier.resume(Answer::Executed(silence()), &shown);

    assert_eq!(notifier.remove(), Some(Request::Close { id: 7 }));
    assert_eq!(notifier.resume(Answer::Closed, &shown), (None, Vec::new()));
    assert_eq!(notifier.remove(), None);
}

#[test]
fn test_remote_new_fails_on_a_name_that_no_device_has() {
    let (notifier, warnings) = KDEConnectNotifier::new(
        texts(&["Tablet", "phone", "Laptop"]),
        known(),
        listing("id1 Phone\nid2 Tablet\n"),
    );

    assert_eq!(
        notifier.err(),
        Some(error::KDEConnect::Device(
            error::KDEConnectDevice::NotFound {
                name: "phone".into()
            }
        ))
    );
    assert!(warnings.is_empty());
}

#[test]
fn test_remote_new_warns_of_a_known_device_that_cannot_be_reached() {
    let (notifier, warnings) =
        KDEConnectNotifier::new(texts(&["Phone"]), known(), listing("id2 Tablet\n"));

    assert!(notifier.is_ok());
    assert_eq!(
        warnings,
        texts(&["device/kde_connect: not found: name = Phone"])
    );
}

#[test]
fn test_remote_new_fails_where_the_known_devices_cannot_be_listed() {
    let (notifier, _) = KDEConnectNotifier::new(
        texts(&["Phone"]),
        Err("gone".into()),
        listing("id1 Phone\n"),
    );
    assert_eq!(
        notifier.err(),
        Some(error::KDEConnect::Cli("gone".into()))
    );

    let (notifier, _) =
        KDEConnectNotifier::new(texts(&["Phone"]), listing("id1\n"), listing("id1 Phone\n"));
    assert_eq!(
        notifier.err(),
        Some(error::KDEConnect::Device(error::KDEConnectDevice::Name))
    );
}

#[test]
fn test_remote_new_without_names_asks_nothing_of_the_known_devices() {
    let (notifier, warnings) =
        KDEConnectNotifier::new(Vec::new(), Err("gone".into()), listing("id1 Phone\n"));

    assert!(notifier.is_ok());
    assert!(warnings.is_empty());
}

#[test]
fn test_remote_new_warns_of_both_listings() {
    let (notifier, warnings) = KDEConnectNotifier::new(
        texts(&["Phone"]),
        Ok(Output {
            stdout: b"id1 Phone\n".to_vec(),
            stderr: b"first".to_vec(),
        }),
        Ok(Output {
            stdout: Vec::new(),
            stderr: b"second".to_vec(),
        }),
    );

    assert!(notifier.is_ok());
    assert_eq!(
        warnings,
        texts(&[
            "kdeconnect/cli: stderr = first",
            "kdeconnect/cli: stderr = second",
            "device/kde_connect: not found: name = Phone",
        ])
    );
}

#[test]
fn test_remote_require() {
    let (notifier, _) = KDEConnectNotifier::new(texts(&["Phone"]), known(), silence());
    let notifier = notifier.unwrap();

    assert_eq!(notifier.require(known()), (Ok(()), Vec::new()));
    assert_eq!(
        notifier.require(listing("id2 Tablet\n")),
        (
            Err(error::KDEConnect::Device(
                error::KDEConnectDevice::NotFound {
                    name: "Phone".into()
                }
            )),
            Vec::new()
        )
    );
}

#[test]
fn test_dispatcher_new_fails_on_a_name_that_no_device_has() {
    let (notifier, _) = Notifier::new(80, Some((texts(&["phone"]), known(), known())), false);

    assert_eq!(
        notifier.err(),
        Some(error::Error::KDEConnect(error::KDEConnect::Device(
            error::KDEConnectDevice::NotFound {
                name: "phone".into()
            }
        )))
    );
}
