use lxc_run::cmd::Command;
use std::num::IntErrorKind;

use lxc_run::cmd::Outcome;
use lxc_run::error::{Error, TimeoutFault};
use lxc_run::timeout::{parse_timeout, WAIT_FOREVER};

#[test]
fn missing_timeout_waits_forever() {
    assert_eq!(WAIT_FOREVER, -1);
    assert_eq!(parse_timeout(None), Ok(-1));
}

#[test]
fn plain_numbers_are_read() {
    assert_eq!(parse_timeout(Some("0")), Ok(0));
    assert_eq!(parse_timeout(Some("1")), Ok(1));
    assert_eq!(parse_timeout(Some("42")), Ok(42));
    assert_eq!(parse_timeout(Some("300")), Ok(300));
    assert_eq!(parse_timeout(Some("1234567890")), Ok(1234567890));
}

#[test]
fn signs_are_read() {
    assert_eq!(parse_timeout(Some("-1")), Ok(-1));
    assert_eq!(parse_timeout(Some("+5")), Ok(5));
    assert_eq!(parse_timeout(Some("-0")), Ok(0));
    assert_eq!(parse_timeout(Some("+0")), Ok(0));
    assert_eq!(parse_timeout(Some("-30")), Ok(-30));
}

#[test]
fn leading_zeros_count_for_nothing() {
    assert_eq!(parse_timeout(Some("007")), Ok(7));
    assert_eq!(parse_timeout(Some("-007")), Ok(-7));
    assert_eq!(parse_timeout(Some("00000000000000000000000012")), Ok(12));
    assert_eq!(parse_timeout(Some("0000000000002147483647")), Ok(i32::MAX));
}

#[test]
fn the_ends_of_the_range_are_read() {
    assert_eq!(parse_timeout(Some("2147483647")), Ok(i32::MAX));
    assert_eq!(parse_timeout(Some("+2147483647")), Ok(i32::MAX));
    assert_eq!(parse_timeout(Some("-2147483648")), Ok(i32::MIN));
    assert_eq!(parse_timeout(Some("-2147483647")), Ok(-2147483647));
}

#[test]
fn numbers_too_large_are_refused() {
    for text in [
        "2147483648",
        "+2147483648",
        "4294967296",
        "9999999999",
        "99999999999999999999999999999999",
        "0000000000002147483648",
        "21474836470",
    ] {
        assert_eq!(
            parse_timeout(Some(text)),
            Err(Error::InvalidTimeout(TimeoutFault::PosOverflow)),
            "{:?}",
            text
        );
    }
}

#[test]
fn numbers_too_small_are_refused() {
    for text in [
        "-2147483649",
        "-9999999999",
        "-99999999999999999999999999999999",
        "-21474836480",
    ] {
        assert_eq!(
            parse_timeout(Some(text)),
            Err(Error::InvalidTimeout(TimeoutFault::NegOverflow)),
            "{:?}",
            text
        );
    }
}

#[test]
fn an_empty_timeout_is_refused_as_empty() {
    assert_eq!(
        parse_timeout(Some("")),
        Err(Error::InvalidTimeout(TimeoutFault::Empty))
    );
}

#[test]
fn anything_but_a_number_is_refused() {
    for text in [
        "+", "-", "--1", "+-1", "-+1", "1-", "1+", " 1", "1 ", "1 2", "1_000", "0x10", "1e3",
        "1.5", "ten", "abc", "\u{0663}", "1\0", "\t5", "5\n", "2147483647x", "-2147483648x",
    ] {
        assert_eq!(
            parse_timeout(Some(text)),
            Err(Error::InvalidTimeout(TimeoutFault::InvalidDigit)),
            "{:?}",
            text
        );
    }
}

#[test]
fn the_first_fault_from_the_left_decides() {
    let digit = Err(Error::InvalidTimeout(TimeoutFault::InvalidDigit));
    let large = Err(Error::InvalidTimeout(TimeoutFault::PosOverflow));
    let small = Err(Error::InvalidTimeout(TimeoutFault::NegOverflow));
    assert_eq!(parse_timeout(Some("x9999999999")), digit);
    assert_eq!(parse_timeout(Some("999x9999999")), digit);
    assert_eq!(parse_timeout(Some("2147483647x")), digit);
    assert_eq!(parse_timeout(Some("2147483648x")), large);
    assert_eq!(parse_timeout(Some("9999999999x")), large);
    assert_eq!(parse_timeout(Some("-2147483648x")), digit);
    assert_eq!(parse_timeout(Some("-2147483649x")), small);
    assert_eq!(parse_timeout(Some("-9999999999x")), small);
}

/// What the standard library makes of `text` as an `i32`, in the terms of
/// this crate.
fn std_reading(text: &str) -> Result<i32, Error> {
    text.parse::<i32>().map_err(|e| {
        Error::InvalidTimeout(match e.kind() {
            IntErrorKind::Empty => TimeoutFault::Empty,
            IntErrorKind::InvalidDigit => TimeoutFault::InvalidDigit,
            IntErrorKind::PosOverflow => TimeoutFault::PosOverflow,
            IntErrorKind::NegOverflow => TimeoutFault::NegOverflow,
            other => panic!("{:?}", other),
        })
    })
}

const SAMPLES: &[&str] = &[
    "", "0", "-0", "+0", "1", "-1", "+1", "10", "0010", "2147483647", "2147483648",
    "-2147483648", "-2147483649", "+", "-", "++1", "1+", " 1", "1 ", "a", "1a", "a1",
    "1_0", "12345678901234567890", "-12345678901234567890", "\u{0663}", "\u{ff11}", "0x1", "1.0",
    "+2147483647", "+2147483648", "000", "-000", "21474836470", "214748364", "-214748364",
    "abc", "soon", "2147483647x", "2147483648x", "-2147483648x", "-2147483649x",
    "99999999999x", "x99999999999", "-99999999999-", "1234567x", "12345678x", "-",
];

#[test]
fn timeouts_are_read_as_the_standard_library_reads_them() {
    for &text in SAMPLES {
        assert_eq!(parse_timeout(Some(text)), std_reading(text), "{:?}", text);
    }
}

#[test]
fn a_refused_timeout_is_reported_as_the_standard_library_reports_it() {
    for &text in SAMPLES {
        if let Err(std_error) = text.parse::<i32>() {
            let expected = format!("Invalid timeout: {:?}", std_error);
            let error = parse_timeout(Some(text)).unwrap_err();
            assert_eq!(error.message(), expected, "{:?}", text);
            assert!(error.message().starts_with("Invalid timeout: "));
            assert_eq!(
                Outcome::Failed(error).report(),
                Some(format!("error: {}", expected))
            );
        }
    }
}

#[test]
fn the_message_of_a_refused_timeout_names_the_reason() {
    let message = |text: &str| Command::stop(false, Some(text)).unwrap_err().message();
    assert_eq!(message(""), "Invalid timeout: ParseIntError { kind: Empty }");
    assert_eq!(message("abc"), "Invalid timeout: ParseIntError { kind: InvalidDigit }");
    assert_eq!(message("2147483648"), "Invalid timeout: ParseIntError { kind: PosOverflow }");
    assert_eq!(message("-2147483649"), "Invalid timeout: ParseIntError { kind: NegOverflow }");
}

#[test]
fn every_fault_has_its_description() {
    assert_eq!(TimeoutFault::Empty.describe(), "ParseIntError { kind: Empty }");
    assert_eq!(TimeoutFault::InvalidDigit.describe(), "ParseIntError { kind: InvalidDigit }");
    assert_eq!(TimeoutFault::PosOverflow.describe(), "ParseIntError { kind: PosOverflow }");
    assert_eq!(TimeoutFault::NegOverflow.describe(), "ParseIntError { kind: NegOverflow }");
}

#[test]
fn every_small_number_reads_back() {
    for n in -1500..1500i32 {
        assert_eq!(parse_timeout(Some(&n.to_string())), Ok(n));
    }
    for n in [i32::MIN, i32::MIN + 1, i32::MAX - 1, i32::MAX, 1 << 30, -(1 << 30)] {
        assert_eq!(parse_timeout(Some(&n.to_string())), Ok(n));
    }
}

#[test]
fn stop_reads_its_timeout() {
    assert_eq!(
        Command::stop(false, Some("30")),
        Ok(Command::Stop { force: false, timeout: 30 })
    );
    assert_eq!(
        Command::stop(false, None),
        Ok(Command::Stop { force: false, timeout: -1 })
    );
    assert_eq!(
        Command::stop(true, Some("-5")),
        Ok(Command::Stop { force: true, timeout: -5 })
    );
}

#[test]
fn stop_refuses_a_bad_timeout_even_when_forced() {
    let digit = Error::InvalidTimeout(TimeoutFault::InvalidDigit);
    assert_eq!(Command::stop(false, Some("soon")), Err(digit));
    assert_eq!(Command::stop(true, Some("soon")), Err(digit));
    assert_eq!(Command::stop(false, Some("abc")), Err(digit));
    assert_eq!(
        Command::stop(true, Some("")),
        Err(Error::InvalidTimeout(TimeoutFault::Empty))
    );
    assert_eq!(
        Command::stop(true, Some("2147483648")),
        Err(Error::InvalidTimeout(TimeoutFault::PosOverflow))
    );
    assert_eq!(
        Command::stop(true, Some("2147483647")),
        Ok(Command::Stop { force: true, timeout: i32::MAX })
    );
    assert_eq!(
        Command::stop(true, Some("-2147483648")),
        Ok(Command::Stop { force: true, timeout: i32::MIN })
    );
}

#[test]
fn start_never_daemonizes() {
    assert_eq!(Command::start(), Command::Start { daemonize: false });
}

#[test]
fn exec_keeps_its_command_line() {
    let argv = vec!["echo".to_string(), "hello".to_string()];
    assert_eq!(Command::exec(argv.clone()), Command::Exec { argv });
}
