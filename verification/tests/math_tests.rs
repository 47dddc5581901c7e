use wininfra::hello;
use wininfra::math::{gcd, GcdParameters};
use wininfra::operations;

#[test]
fn math_test_gcd() {
    assert_eq!(gcd(14, 15), 1);
    assert_eq!(gcd(2 * 3 * 5 * 11 * 17, 3 * 7 * 11 * 13 * 19), 3 * 11);
}

#[test]
fn gcd_test_gcd() {
    assert_eq!(hello::gcd(14, 15), 1);
    assert_eq!(hello::gcd(2 * 3 * 5 * 11 * 17, 3 * 7 * 11 * 13 * 19), 3 * 11);
}

#[test]
fn gcd_edge_cases() {
    assert_eq!(gcd(0, 0), 0);
    assert_eq!(gcd(0, 7), 7);
    assert_eq!(gcd(7, 0), 7);
    assert_eq!(gcd(12, 18), 6);
    assert_eq!(gcd(u64::MAX, u64::MAX), u64::MAX);
    assert_eq!(hello::gcd(1, 1), 1);
    assert_eq!(hello::gcd(18, 12), 6);
    assert_eq!(operations::gcd(48, 36), 12);
    assert_eq!(operations::gcd(17, 5), 1);
}

#[test]
fn gcd_is_symmetric_on_samples() {
    for (a, b) in [(14u64, 15u64), (100, 75), (9, 27), (1, 99)] {
        assert_eq!(gcd(a, b), gcd(b, a));
        assert_eq!(hello::gcd(a, b), hello::gcd(b, a));
        assert_eq!(a % gcd(a, b), 0);
        assert_eq!(b % gcd(a, b), 0);
    }
}

#[test]
fn gcd_parameters_hold_values() {
    let p = GcdParameters { n: 21, m: 14 };
    assert_eq!(gcd(p.n, p.m), 7);
}

#[test]
fn calculator_command_line_reports() {
    assert_eq!(
        operations::cli_report(&vec![]),
        "No command-line numbers provided; submit values via the /gcd form instead."
    );
    assert_eq!(
        operations::cli_report(&vec![42]),
        "Only one number (42) provided; add another to compute a GCD on the CLI."
    );
    assert_eq!(
        operations::cli_report(&vec![12, 18, 8]),
        "The greatest common divisor of the numbers of [12, 18, 8] is 2"
    );
    assert_eq!(operations::gcd_of_numbers(&vec![7]), 7);
    assert_eq!(operations::gcd_of_numbers(&vec![2 * 3 * 5, 3 * 5 * 7, 5 * 11]), 5);
}

#[test]
fn calculator_form_replies() {
    let r = operations::gcd_form_reply(&operations::GcdParameters { n: 0, m: 5 });
    assert!(!r.ok);
    assert_eq!(r.body, "Error: Computing the GCD with zero is boring.");
    let r = operations::gcd_form_reply(&operations::GcdParameters { n: 14, m: 21 });
    assert!(r.ok);
    assert_eq!(r.body, "The greatest common divisor of the numbers 14 and 21 is <b>7</b>");
    assert!(operations::gcd_form_page().contains("<form action=\"/gcd\" method=\"post\">"));
}
