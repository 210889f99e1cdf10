use std::collections::HashSet;
use std::iter::FromIterator;

use rusty_battery::common::{
    format_option, format_string_set, holds, print_slice, slice_to_string, unique, vec_to_set,
    warn_on_err, Describe,
};
use rusty_battery::error;

#[test]
fn test_vec_to_set() {
    let v = vec![1, 2, 3];

    let result = vec_to_set(v);

    assert_eq!(HashSet::from_iter([1, 2, 3]), result);
}

#[test]
fn test_vec_to_set_empty() {
    let v = vec![];

    let result: HashSet<u8> = vec_to_set(v);

    assert_eq!(HashSet::with_capacity(0), result);
}

#[test]
fn test_vec_to_set_repeated_items() {
    let result = vec_to_set(vec![7u64, 7, 9, 7]);

    assert_eq!(result.len(), 2);
    assert!(result.contains(&7));
    assert!(result.contains(&9));
}

#[test]
fn test_warn_on_err_ok() {
    let r: Result<(), error::Error> = Ok(());

    let (result, warning) = warn_on_err("test/common", r);

    assert_eq!(Some(()), result);
    assert_eq!(None, warning);
}

#[test]
fn test_warn_on_err_err() {
    let r: Result<(), error::Error> = Err(error::Error::Battery(error::Battery::NotFound {
        model: error::Model(Some("test".into())),
    }));

    let (result, warning) = warn_on_err("test/common", r);

    assert_eq!(None, result);
    assert_eq!(
        Some("test/common: Battery: device not found: model = \"test\"".to_string()),
        warning
    );
}

#[test]
fn test_format_option_none() {
    let option: Option<&str> = None;

    let result = format_option(option);

    assert_eq!("None", result);
}

#[test]
fn test_format_option_some() {
    let option: Option<&str> = Some("123");

    let result = format_option(option);

    assert_eq!("123", result);
}

#[test]
fn test_format_option_number() {
    assert_eq!("4294967295", format_option(Some(u32::MAX)));
    assert_eq!("0", format_option(Some(0u32)));
    assert_eq!("None", format_option::<u32>(None));
}

#[test]
fn test_format_string_set() {
    let set: Vec<String> = unique(vec!["1".into(), "2".into()]);

    let result = format_string_set(&set);

    // a set has no order of its own, so either of the two is right
    assert!(["1, 2".to_string(), "2, 1".to_string()].contains(&result));
}

#[test]
fn test_format_string_set_empty() {
    let set: Vec<String> = Vec::new();

    let result = format_string_set(&set);

    assert_eq!(result, "");
}

#[test]
fn test_format_string_set_one_and_three() {
    assert_eq!(format_string_set(&vec!["phone".to_string()]), "phone");
    assert_eq!(
        format_string_set(&vec!["a".to_string(), "b".to_string(), "c".to_string()]),
        "a, b, c"
    );
}

#[test]
fn test_slice_to_string() {
    let slice = [240, 159, 146, 150];

    let result = slice_to_string(&slice);

    assert_eq!("\u{1f496}", result);
}

#[test]
fn test_slice_to_string_empty() {
    let slice = [];

    let result = slice_to_string(&slice);

    assert_eq!("", result);
}

#[test]
fn test_slice_to_string_invalid_bytes() {
    let result = slice_to_string(&[b'a', 0xff, b'b']);

    assert_eq!("a\u{fffd}b", result);
}

#[test]
fn test_unique_keeps_first_occurrences() {
    let names = vec![
        "b".to_string(),
        "a".to_string(),
        "b".to_string(),
        "c".to_string(),
        "a".to_string(),
    ];

    assert_eq!(
        unique(names),
        vec!["b".to_string(), "a".to_string(), "c".to_string()]
    );
    assert_eq!(unique(Vec::new()), Vec::<String>::new());
}

#[test]
fn test_holds() {
    let names = vec!["phone".to_string(), "tablet".to_string()];

    assert!(holds(&names, "tablet"));
    assert!(!holds(&names, "table"));
    assert!(!holds(&Vec::new(), ""));
}

#[test]
fn test_print_slice_numbers_from_one() {
    let lines = print_slice(&vec!["x".to_string(), "y".to_string()]);

    assert_eq!(lines, vec!["1. x".to_string(), "2. y".to_string()]);
    assert!(print_slice(&Vec::new()).is_empty());
}

#[test]
fn test_describe_text_and_number() {
    assert_eq!("abc".describe(), "abc");
    assert_eq!(String::from("abc").describe(), "abc");
    assert_eq!(120u32.describe(), "120");
}
