use todo_api::clock::now_millis;
use todo_api::u64_to_dec_string;

#[test]
fn renders_single_digits() {
    assert_eq!(u64_to_dec_string(0), "0");
    assert_eq!(u64_to_dec_string(7), "7");
    assert_eq!(u64_to_dec_string(9), "9");
}

#[test]
fn renders_multi_digit_numbers() {
    assert_eq!(u64_to_dec_string(10), "10");
    assert_eq!(u64_to_dec_string(105), "105");
    assert_eq!(u64_to_dec_string(1234567890), "1234567890");
}

#[test]
fn renders_the_largest_counter_value() {
    assert_eq!(u64_to_dec_string(u64::MAX), "18446744073709551615");
}

#[test]
fn clock_is_after_the_epoch() {
    let a = now_millis();
    let b = now_millis();
    assert!(a > 0);
    assert!(b >= a);
}
