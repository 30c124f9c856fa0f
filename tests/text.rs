use netguard::text::{decimal_string, dotted_quad_string};

#[test]
fn renders_decimal() {
    assert_eq!(decimal_string(0), "0");
    assert_eq!(decimal_string(7), "7");
    assert_eq!(decimal_string(3389), "3389");
    assert_eq!(decimal_string(18446744073709551615), "18446744073709551615");
}

#[test]
fn renders_dotted_quad() {
    assert_eq!(dotted_quad_string(0, 0, 0, 0), "0.0.0.0");
    assert_eq!(dotted_quad_string(255, 10, 100, 1), "255.10.100.1");
}
