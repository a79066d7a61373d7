use std::collections::HashMap;
use std::time::Duration;
use utilz_rs::bool_utils::{BoolUtils, EqUtils, IfOrdUtils, IfUtils};
use utilz_rs::option_utils::OptionUtils;
use utilz_rs::str_utils::StrUtils;
use utilz_rs::{
    format_hms, BitwiseUtils, ClampUtils, ConvertUtils, DurationUtils, IdentityUtils, MapUtils,
    ResultUtils, VecUtils,
};

#[test]
fn bool_not_and_toggle() {
    assert!(!true.not());
    assert!(false.not());
    let mut b = true;
    b.toggle();
    assert!(!b);
    b.toggle();
    assert!(b);
}

#[test]
fn bool_then_val_and_closures() {
    assert_eq!(true.then_val(3), Some(3));
    assert_eq!(false.then_val(3), None);
    assert_eq!(true.if_true(|| "yes"), Some("yes"));
    assert_eq!(false.if_true(|| "yes"), None);
    assert_eq!(false.if_false(|| 7), Some(7));
    assert_eq!(true.if_false(|| 7), None);
}

#[test]
fn closure_runs_only_when_condition_holds() {
    let mut ran = false;
    let r = false.if_true(|| {
        ran = true;
        1
    });
    assert_eq!(r, None);
    assert!(!ran);
}

#[test]
fn equality_helpers() {
    assert!(5.eq_to(&5));
    assert!(!5.eq_to(&6));
    assert!(5.not_eq_to(&6));
    assert!(!"a".not_eq_to(&"a"));
    assert_eq!(4.if_eq(&4, || "same"), Some("same"));
    assert_eq!(4.if_eq(&5, || "same"), None);
    assert_eq!(4.if_not_eq(&5, || "diff"), Some("diff"));
    assert_eq!(4.if_not_eq(&4, || "diff"), None);
}

#[test]
fn ordering_helpers() {
    assert_eq!(5.if_gt(&3, || 1), Some(1));
    assert_eq!(3.if_gt(&3, || 1), None);
    assert_eq!(2.if_lt(&3, || 1), Some(1));
    assert_eq!(3.if_lt(&3, || 1), None);
    assert_eq!(3.if_gte(&3, || 1), Some(1));
    assert_eq!(2.if_gte(&3, || 1), None);
    assert_eq!(3.if_lte(&3, || 1), Some(1));
    assert_eq!(4.if_lte(&3, || 1), None);
}

#[test]
fn between_is_exclusive_or_inclusive() {
    assert_eq!(5.if_between(&1, &10, || "in"), Some("in"));
    assert_eq!(1.if_between(&1, &10, || "in"), None);
    assert_eq!(10.if_between(&1, &10, || "in"), None);
    assert_eq!(1.if_between_inclusive(&1, &10, || "in"), Some("in"));
    assert_eq!(10.if_between_inclusive(&1, &10, || "in"), Some("in"));
    assert_eq!(11.if_between_inclusive(&1, &10, || "in"), None);
    assert_eq!(2.5f64.if_between(&f64::NAN, &3.0, || "in"), None);
}

#[test]
fn option_helpers() {
    assert_eq!(Some(2).or_default_with(9), 2);
    assert_eq!(None.or_default_with(9), 9);
    let mut seen = 0;
    let back = Some(4).if_some(|v| seen = *v);
    assert_eq!(back, Some(4));
    assert_eq!(seen, 4);
    let back: Option<i32> = None.if_some(|_| seen = 100);
    assert_eq!(back, None);
    assert_eq!(seen, 4);
    let mut none_ran = false;
    None::<i32>.if_none(|| none_ran = true);
    assert!(none_ran);
    let mut some_ran = false;
    Some(1).if_none(|| some_ran = true);
    assert!(!some_ran);
}

#[test]
fn vec_push_if() {
    let mut v = vec![1];
    v.push_if(2, true);
    v.push_if(3, false);
    v.push_if_with(true, || 4);
    v.push_if_with(false, || 5);
    assert_eq!(v, vec![1, 2, 4]);
}

#[test]
fn map_get_or_and_insert_if() {
    let mut m: HashMap<u32, &str> = HashMap::new();
    m.insert_if(1, "one", true);
    m.insert_if(2, "two", false);
    assert_eq!(m.len(), 1);
    assert_eq!(*m.get_or(&1, &"none"), "one");
    assert_eq!(*m.get_or(&2, &"none"), "none");
    m.insert_if(1, "uno", true);
    assert_eq!(*m.get_or(&1, &"none"), "uno");
}

#[test]
fn result_side_effects() {
    let mut seen = String::new();
    let ok: Result<i32, String> = Ok(3);
    let back = ok.if_ok(|v| seen = format!("ok {}", v)).if_err(|e| seen = e.clone());
    assert_eq!(back, Ok(3));
    assert_eq!(seen, "ok 3");
    let err: Result<i32, String> = Err("bad".to_string());
    let back = err.if_ok(|_| seen = "wrong".to_string()).if_err(|e| seen = e.clone());
    assert_eq!(back, Err("bad".to_string()));
    assert_eq!(seen, "bad");
}

#[test]
fn duration_pretty() {
    assert_eq!(Duration::from_secs(3666).pretty(), "1h 1m 6s");
    assert_eq!(Duration::from_secs(4805).pretty(), "1h 20m 5s");
    assert_eq!(Duration::from_millis(999).pretty(), "0h 0m 0s");
    assert_eq!(Duration::from_secs(90061).pretty(), "25h 1m 1s");
}

#[test]
fn hms_formatting() {
    assert_eq!(format_hms(0), "0h 0m 0s");
    assert_eq!(format_hms(59), "0h 0m 59s");
    assert_eq!(format_hms(3600), "1h 0m 0s");
    assert_eq!(format_hms(u64::MAX), "5124095576030431h 0m 15s");
}

#[test]
fn tap_hands_value_back() {
    let mut seen = 0;
    let v = 42.tap(|x| seen = *x);
    assert_eq!(v, 42);
    assert_eq!(seen, 42);
}

#[test]
fn clamp_to_range() {
    assert_eq!(5.clamp_to(1, 10), 5);
    assert_eq!((-3).clamp_to(1, 10), 1);
    assert_eq!(30.clamp_to(1, 10), 10);
    assert_eq!(5.clamp_to(10, 1), 1);
    assert_eq!(i32::MIN.clamp_to(i32::MIN, i32::MAX), i32::MIN);
}

#[test]
fn xor_of_u32() {
    assert_eq!(0b1100u32.xor(0b1010), 0b0110);
    assert_eq!(u32::MAX.xor(u32::MAX), 0);
}

#[test]
fn conversions() {
    assert_eq!(300i32.to::<u8>(), None);
    assert_eq!(200i32.to::<u8>(), Some(200u8));
    assert_eq!((-1i64).to_or::<u32>(7), 7);
    assert_eq!(12i64.to_or::<u32>(7), 12);
    assert!(300i32.to_result::<u8>().is_err());
    assert_eq!(5u8.to_result::<i64>(), Ok(5i64));
}

#[test]
fn contains_all_and_any() {
    let name = "hello world";
    assert!(name.contains_all(&["hello", "world"]));
    assert!(!name.contains_all(&["hello", "there"]));
    assert!(name.contains_all(&[]));
    assert!(name.contains_any(&["there", "world"]));
    assert!(!name.contains_any(&["there", "here!"]));
    assert!(!name.contains_any(&[]));
    assert!("ä€x".contains_all(&["€", "ä€", ""]));
}

#[test]
fn title_case() {
    assert_eq!("hello".to_title_case(), "Hello");
    assert_eq!("".to_title_case(), "");
    assert_eq!("Already".to_title_case(), "Already");
    assert_eq!("ärger".to_title_case(), "Ärger");
    assert_eq!("ß".to_title_case(), "SS");
    assert_eq!("1abc".to_title_case(), "1abc");
}

#[test]
fn title_case_from_given_upper() {
    assert_eq!(utilz_rs::str_utils::title_case_with("X", "abc"), "Xbc");
    assert_eq!(utilz_rs::str_utils::title_case_with("SS", "ßa"), "SSa");
    assert_eq!(utilz_rs::str_utils::title_case_with("X", ""), "");
}

#[test]
fn decimal_text_appended() {
    let mut s = String::from("n=");
    utilz_rs::decimal::push_decimal(&mut s, 1203);
    assert_eq!(s, "n=1203");
    let mut z = String::new();
    utilz_rs::decimal::push_decimal(&mut z, 0);
    assert_eq!(z, "0");
}
