use runcirrus::u64_to_string;

#[test]
fn small_numbers_render_as_one_digit() {
    assert_eq!(u64_to_string(0), "0");
    assert_eq!(u64_to_string(7), "7");
}

#[test]
fn larger_numbers_render_in_decimal() {
    assert_eq!(u64_to_string(10), "10");
    assert_eq!(u64_to_string(128), "128");
    assert_eq!(u64_to_string(40960), "40960");
    assert_eq!(u64_to_string(u64::MAX), "18446744073709551615");
}
