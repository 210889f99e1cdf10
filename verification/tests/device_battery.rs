use rusty_battery::common::Describe;
use rusty_battery::device::battery::fetch::{model, percentage, serial_number, state};
use rusty_battery::device::battery::{all, find, one, place, print, Reading, State, Status};
use rusty_battery::device::{Battery, Type};
use rusty_battery::error;

fn reading(charge: u8, status: Status, name: Option<&str>, serial: Option<&str>) -> Reading {
    Reading {
        charge,
        status,
        model: name.map(String::from),
        serial_number: serial.map(String::from),
    }
}

#[test]
fn battery_test_battery_state_charging_display() {
    let state = State::Charging;

    let display = state.describe();

    assert_eq!(display, "Charging");
}

#[test]
fn battery_test_battery_state_discharging_display() {
    let state = State::Discharging;

    let display = state.describe();

    assert_eq!(display, "Discharging");
}

#[test]
fn battery_test_battery_state_unknown_display() {
    let state = State::Unknown;

    let display = state.describe();

    assert_eq!(display, "Unknown");
}

#[test]
fn test_type_battery_display() {
    let state = Type::Battery;

    let display = state.describe();

    assert_eq!(display, "Battery");
}

#[test]
fn test_type_kdeconnect_display() {
    let state = Type::KDEConnect;

    let display = state.describe();

    assert_eq!(display, "KDE Connect");
}

#[test]
fn test_type_print_heads_and_numbers() {
    let lines = Type::KDEConnect.print(&vec!["one".to_string(), "two".to_string()]);

    assert_eq!(
        lines,
        vec![
            "".to_string(),
            "KDE Connect Devices".to_string(),
            "".to_string(),
            "1. one".to_string(),
            "2. two".to_string(),
        ]
    );
    assert_eq!(
        Type::Battery.print(&Vec::new()),
        vec!["".to_string(), "Battery Devices".to_string(), "".to_string()]
    );
}

#[test]
fn test_fetch_state_counts_full_as_charging() {
    assert_eq!(state(&reading(0, Status::Charging, None, None)), State::Charging);
    assert_eq!(state(&reading(0, Status::Full, None, None)), State::Charging);
    assert_eq!(
        state(&reading(0, Status::Discharging, None, None)),
        State::Discharging
    );
    assert_eq!(state(&reading(0, Status::Empty, None, None)), State::Discharging);
    assert_eq!(state(&reading(0, Status::Unknown, None, None)), State::Unknown);
}

#[test]
fn test_fetch_percentage_model_serial_number() {
    let device = reading(42, Status::Charging, Some("BAT0"), Some("  SN 1\t\n"));

    assert_eq!(percentage(&device), 42);
    assert_eq!(model(&device), Ok("BAT0".to_string()));
    assert_eq!(serial_number(&device), Ok("SN 1".to_string()));
}

#[test]
fn test_fetch_what_a_reading_lacks() {
    let device = reading(42, Status::Charging, None, None);

    assert_eq!(model(&device), Err(error::BatteryDevice::Model));
    assert_eq!(serial_number(&device), Err(error::BatteryDevice::SerialNumber));
}

#[test]
fn test_battery_try_from() {
    let device = reading(99, Status::Full, Some("BAT0"), Some(" 123 "));

    assert_eq!(
        Battery::try_from(&device),
        Ok(Battery {
            percentage: 99,
            state: State::Charging,
            model: "BAT0".into(),
            serial_number: "123".into(),
        })
    );
    assert_eq!(
        Battery::try_from(&reading(1, Status::Full, None, None)),
        Err(error::Battery::Device(error::BatteryDevice::Model))
    );
    assert_eq!(
        Battery::try_from(&reading(1, Status::Full, Some("BAT0"), None)),
        Err(error::Battery::Device(error::BatteryDevice::SerialNumber))
    );
}

#[test]
fn test_find_takes_first_of_the_model() {
    let batteries = vec![
        Ok(reading(10, Status::Charging, None, Some("a"))),
        Ok(reading(20, Status::Charging, Some("BAT1"), Some("b"))),
        Ok(reading(30, Status::Charging, Some("BAT0"), Some("c"))),
        Ok(reading(40, Status::Charging, Some("BAT0"), Some("d"))),
    ];

    assert_eq!(
        find("BAT0", &batteries),
        Ok(reading(30, Status::Charging, Some("BAT0"), Some("c")))
    );
}

#[test]
fn test_find_nothing() {
    let batteries = vec![Ok(reading(10, Status::Charging, Some("BAT1"), Some("a")))];

    assert_eq!(
        find("BAT", &batteries),
        Err(error::Battery::NotFound {
            model: error::Model(Some("BAT".into()))
        })
    );
    assert_eq!(
        find("BAT", &Vec::new()),
        Err(error::Battery::NotFound {
            model: error::Model(Some("BAT".into()))
        })
    );
}

#[test]
fn test_find_stops_at_a_failure_before_the_model() {
    let failed_first = vec![
        Err("unreadable".to_string()),
        Ok(reading(30, Status::Charging, Some("BAT0"), Some("c"))),
    ];
    let failed_later = vec![
        Ok(reading(30, Status::Charging, Some("BAT0"), Some("c"))),
        Err("unreadable".to_string()),
    ];

    assert_eq!(
        find("BAT0", &failed_first),
        Err(error::Battery::Routine("unreadable".into()))
    );
    assert_eq!(
        find("BAT0", &failed_later),
        Ok(reading(30, Status::Charging, Some("BAT0"), Some("c")))
    );
}

#[test]
fn test_one() {
    let single = reading(30, Status::Charging, Some("BAT0"), Some("c"));

    assert_eq!(one(&vec![Ok(single.clone())]), Ok(single.clone()));
    assert_eq!(
        one(&Vec::new()),
        Err(error::Battery::NotFound {
            model: error::Model(None)
        })
    );
    assert_eq!(
        one(&vec![Ok(single.clone()), Ok(single.clone())]),
        Err(error::Battery::NotFound {
            model: error::Model(None)
        })
    );
    assert_eq!(
        one(&vec![Ok(single), Err("x".to_string())]),
        Err(error::Battery::NotFound {
            model: error::Model(None)
        })
    );
    assert_eq!(
        one(&vec![Err("x".to_string())]),
        Err(error::Battery::Routine("x".into()))
    );
}

#[test]
fn test_battery_new() {
    let batteries = vec![
        Ok(reading(20, Status::Charging, Some("BAT1"), Some("b"))),
        Ok(reading(30, Status::Discharging, Some("BAT0"), Some("c"))),
    ];

    assert_eq!(
        Battery::new("BAT0", &batteries),
        Ok(Battery {
            percentage: 30,
            state: State::Discharging,
            model: "BAT0".into(),
            serial_number: "c".into(),
        })
    );
    assert_eq!(
        Battery::new("BAT2", &batteries),
        Err(error::Battery::NotFound {
            model: error::Model(Some("BAT2".into()))
        })
    );
    assert_eq!(
        Battery::new(
            "BAT0",
            &vec![Ok(reading(30, Status::Charging, Some("BAT0"), None))]
        ),
        Err(error::Battery::Device(error::BatteryDevice::SerialNumber))
    );
}

#[test]
fn test_battery_from_model() {
    let only = Ok(vec![Ok(reading(30, Status::Charging, Some("BAT0"), Some("c")))]);
    let two = Ok(vec![
        Ok(reading(30, Status::Charging, Some("BAT0"), Some("c"))),
        Ok(reading(40, Status::Charging, Some("BAT1"), Some("d"))),
    ]);

    assert_eq!(Battery::from_model(None, &only).map(|b| b.model), Ok("BAT0".to_string()));
    assert_eq!(
        Battery::from_model(None, &two),
        Err(error::Battery::NotFound {
            model: error::Model(None)
        })
    );
    assert_eq!(
        Battery::from_model(Some("BAT1"), &two).map(|b| b.percentage),
        Ok(40)
    );
    assert_eq!(
        Battery::from_model(Some("BAT1"), &Err("no power supply".to_string())),
        Err(error::Battery::Routine("no power supply".into()))
    );
}

#[test]
fn test_battery_refresh() {
    let mut battery = Battery {
        percentage: 30,
        state: State::Discharging,
        model: "BAT0".into(),
        serial_number: "c".into(),
    };

    let result = battery.refresh(Ok(reading(31, Status::Charging, Some("other"), None)));

    assert_eq!(result, Ok(()));
    assert_eq!(
        battery,
        Battery {
            percentage: 31,
            state: State::Charging,
            model: "BAT0".into(),
            serial_number: "c".into(),
        }
    );

    let failed = battery.refresh(Err("gone".to_string()));

    assert_eq!(failed, Err(error::Battery::Routine("gone".into())));
    assert_eq!(battery.percentage, 31);
    assert_eq!(battery.state, State::Charging);
}

#[test]
fn test_battery_display() {
    let battery = Battery {
        percentage: 7,
        state: State::Unknown,
        model: "BAT0".into(),
        serial_number: "SN1".into(),
    };

    assert_eq!(
        battery.describe(),
        "Battery Device SN1: percentage = 7%, state = Unknown, model = \"BAT0\""
    );
}

#[test]
fn test_all_and_print() {
    let batteries = vec![
        Ok(reading(20, Status::Charging, Some("BAT1"), Some("b"))),
        Ok(reading(30, Status::Discharging, Some("BAT0"), Some("c"))),
    ];

    assert_eq!(all(&batteries).map(|found| found.len()), Ok(2));
    assert_eq!(
        print(&batteries),
        Ok(vec![
            "1. Battery Device b: percentage = 20%, state = Charging, model = \"BAT1\""
                .to_string(),
            "2. Battery Device c: percentage = 30%, state = Discharging, model = \"BAT0\""
                .to_string(),
        ])
    );
    assert_eq!(all(&Vec::new()), Ok(Vec::new()));
}

#[test]
fn test_all_ends_at_the_first_item_that_gives_no_battery() {
    let batteries = vec![
        Ok(reading(20, Status::Charging, Some("BAT1"), Some("b"))),
        Ok(reading(30, Status::Discharging, None, Some("c"))),
        Err("unreadable".to_string()),
    ];

    assert_eq!(
        all(&batteries),
        Err(error::Battery::Device(error::BatteryDevice::Model))
    );
    assert_eq!(
        print(&vec![Err("unreadable".to_string())]),
        Err(error::Battery::Routine("unreadable".into()))
    );
}

#[test]
fn test_reading_copy() {
    let device = reading(42, Status::Empty, Some("BAT0"), None);

    assert_eq!(device.copy(), device);
}

#[test]
fn test_place_of_the_watched_battery() {
    let batteries = vec![
        Ok(reading(20, Status::Charging, Some("BAT1"), Some("b"))),
        Ok(reading(30, Status::Discharging, Some("BAT0"), Some("c"))),
        Err("unreadable".to_string()),
        Ok(reading(40, Status::Discharging, Some("BAT2"), Some("d"))),
    ];

    assert_eq!(place(Some("BAT0"), &batteries), Some(1));
    assert_eq!(place(Some("BAT2"), &batteries), None);
    assert_eq!(place(Some("BAT3"), &batteries), None);
    assert_eq!(place(None, &batteries), None);
    assert_eq!(place(None, &batteries[..1].to_vec()), Some(0));
    assert_eq!(place(None, &vec![Err("unreadable".to_string())]), None);
    assert_eq!(place(None, &Vec::new()), None);
}
