use fibonacci::decimal::u32_to_string;
use fibonacci::fib::{fibonacci, fibonacci_checked};
use fibonacci::text::{calculate_age, format_fibonacci};

#[test]
fn base_cases() {
    assert_eq!(fibonacci(0), 0);
    assert_eq!(fibonacci(1), 1);
}

#[test]
fn recurrence_holds_at_concrete_indices() {
    for n in 2u32..=20 {
        assert_eq!(fibonacci(n), fibonacci(n - 1) + fibonacci(n - 2));
    }
}

#[test]
fn monotonic_at_concrete_indices() {
    for n in 1u32..=47 {
        assert!(fibonacci(n) >= fibonacci(n - 1));
    }
}

#[test]
fn known_values() {
    assert_eq!(fibonacci(5), 5);
    assert_eq!(fibonacci(10), 55);
}

#[test]
fn repeated_calls_agree() {
    let first = fibonacci(30);
    let second = fibonacci(30);
    assert_eq!(first, second);
    assert_eq!(fibonacci_checked(30), fibonacci_checked(30));
}

#[test]
fn overflow_boundary() {
    assert_eq!(fibonacci(47), 2971215073);
    assert_eq!(fibonacci_checked(47), Some(2971215073));
    assert_eq!(fibonacci_checked(48), None);
    assert_eq!(fibonacci_checked(u32::MAX), None);
}

#[test]
fn checked_agrees_with_plain() {
    for n in 0u32..=47 {
        assert_eq!(fibonacci_checked(n), Some(fibonacci(n)));
    }
}

#[test]
fn fibonacci_response_text() {
    assert_eq!(format_fibonacci(10), "Fibonacci (10) = 55");
    assert_eq!(format_fibonacci(0), "Fibonacci (0) = 0");
    assert_eq!(format_fibonacci(47), "Fibonacci (47) = 2971215073");
}

#[test]
fn decimal_text() {
    assert_eq!(u32_to_string(0), "0");
    assert_eq!(u32_to_string(7), "7");
    assert_eq!(u32_to_string(10), "10");
    assert_eq!(u32_to_string(1000), "1000");
    assert_eq!(u32_to_string(4294967295), "4294967295");
}

#[test]
fn age_of_past_year() {
    assert_eq!(calculate_age(2000), Ok(String::from("You are 25 years old")));
    assert_eq!(calculate_age(2025), Ok(String::from("You are 0 years old")));
}

#[test]
fn age_of_future_year() {
    assert_eq!(
        calculate_age(2026),
        Err(String::from("Birth year cant be in the future"))
    );
    assert_eq!(
        calculate_age(u16::MAX),
        Err(String::from("Birth year cant be in the future"))
    );
}
