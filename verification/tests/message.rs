use rusty_battery::device::battery::State;
use rusty_battery::device::Battery;
use rusty_battery::notification::Message;

fn battery(percentage: u8, model: &str) -> Battery {
    Battery {
        percentage,
        state: State::Charging,
        model: model.into(),
        serial_number: "SN1".into(),
    }
}

#[test]
fn test_message_renders_charge_and_threshold() {
    let mut message = Message::new(
        "Charge limit".into(),
        "Battery at $CHARGE_STATE%, threshold $THRESHOLD%".into(),
        80,
        &battery(85, "BAT0"),
        30,
    );

    assert_eq!(message.summary, "Charge limit");
    assert_eq!(message.body, "Battery at 85%, threshold 80%");

    message.update(&battery(90, "BAT0"));

    assert_eq!(message.summary, "Charge limit");
    assert_eq!(message.body, "Battery at 90%, threshold 80%");
    assert_eq!(message.summary(), "Charge limit");
    assert_eq!(message.body(), "Battery at 90%, threshold 80%");
}

#[test]
fn test_message_fills_in_model_and_interval() {
    let message = Message::new(
        "$MODEL at $CHARGE_STATE".into(),
        "every $REFRESH_SECS s, $MODEL, $THRESHOLD$THRESHOLD".into(),
        100,
        &battery(0, "X1"),
        18446744073709551615,
    );

    assert_eq!(message.summary, "X1 at 0");
    assert_eq!(message.body, "every 18446744073709551615 s, X1, 100100");
}

#[test]
fn test_message_later_model_does_not_change_the_text() {
    let mut message = Message::new(
        "$MODEL".into(),
        "$CHARGE_STATE".into(),
        80,
        &battery(1, "first"),
        30,
    );

    message.update(&battery(255, "second"));

    assert_eq!(message.summary, "first");
    assert_eq!(message.body, "255");
}

#[test]
fn test_message_fills_in_the_threshold_before_the_model() {
    let message = Message::new(
        "$MODEL".into(),
        "".into(),
        80,
        &battery(50, "$REFRESH_SECS and $THRESHOLD and $CHARGE_STATE"),
        30,
    );

    assert_eq!(message.summary, "30 and $THRESHOLD and 50");
    assert_eq!(message.body, "");
}

#[test]
fn test_message_without_placeholders() {
    let mut message = Message::new("a $ b".into(), "$charge_state".into(), 80, &battery(1, "m"), 3);

    message.update(&battery(2, "m"));

    assert_eq!(message.summary, "a $ b");
    assert_eq!(message.body, "$charge_state");
}
