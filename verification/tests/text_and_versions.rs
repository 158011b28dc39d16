use scadm_core::commands::stop::parse_pid;
use scadm_core::error::Error;
use scadm_core::github::{list_tags_url, tarball_url};
use scadm_core::numtext::{parse_i32, push_decimal};
use scadm_core::version::{ReleaseVersion, VersionRequirement};

fn decimal_of(n: u64) -> String {
    let mut s = String::new();
    push_decimal(&mut s, n);
    s
}

#[test]
fn decimal_rendering_of_small_and_large_numbers() {
    assert_eq!(decimal_of(0), "0");
    assert_eq!(decimal_of(7), "7");
    assert_eq!(decimal_of(10), "10");
    assert_eq!(decimal_of(4294967295), "4294967295");
    assert_eq!(decimal_of(u64::MAX), "18446744073709551615");
    let mut s = String::from("pid-");
    push_decimal(&mut s, 305);
    assert_eq!(s, "pid-305");
}

#[test]
fn pid_text_is_parsed_like_std() {
    assert!(matches!(parse_pid("1234"), Ok(1234)));
    assert!(matches!(parse_pid("-5"), Ok(-5)));
    assert!(matches!(parse_pid("+7"), Ok(7)));
    assert!(matches!(parse_pid("007"), Ok(7)));
    assert!(matches!(parse_pid("2147483647"), Ok(2147483647)));
    assert!(matches!(parse_pid("-2147483648"), Ok(-2147483648)));
    assert!(matches!(parse_pid("2147483648"), Err(Error::Parsing)));
    assert!(matches!(parse_pid(""), Err(Error::Parsing)));
    assert!(matches!(parse_pid("-"), Err(Error::Parsing)));
    assert!(matches!(parse_pid("+"), Err(Error::Parsing)));
    assert!(matches!(parse_pid(" 12"), Err(Error::Parsing)));
    assert!(matches!(parse_pid("12a"), Err(Error::Parsing)));
}

#[test]
fn pid_file_with_trailing_newline_is_read() {
    // The PID file holds the id followed by a newline.
    assert!(matches!(parse_pid("4711\n"), Ok(4711)));
    assert!(matches!(parse_pid("-3\n"), Ok(-3)));
    assert!(matches!(parse_pid("4711\n\n"), Err(Error::Parsing)));
    assert!(matches!(parse_pid("\n"), Err(Error::Parsing)));
    assert!(matches!(parse_pid("4711 \n"), Err(Error::Parsing)));
}

#[test]
fn decimal_rendering_parses_back() {
    for n in [0u64, 1, 9, 10, 99, 12345, 2147483647] {
        let text = decimal_of(n);
        assert!(matches!(parse_pid(&text), Ok(v) if v as u64 == n));
    }
}

#[test]
fn release_versions_parse_and_render() {
    let v = ReleaseVersion::parse("1.2.3").unwrap();
    assert_eq!(v.as_str(), "1.2.3");
    assert!(ReleaseVersion::parse("1.2").is_none());
    assert!(ReleaseVersion::parse("1.0.01").is_none());
    assert!(ReleaseVersion::parse("").is_none());
    assert!(ReleaseVersion::parse("1.2.3-alpha.1+build").is_some());
    assert_eq!(ReleaseVersion::new(0, 0, 0).as_str(), "0.0.0");
    assert_eq!(ReleaseVersion::new(12, 3, 45).as_str(), "12.3.45");
}

#[test]
fn requirements_parse_and_match() {
    let req = VersionRequirement::parse("^1.2").unwrap();
    assert_eq!(req.as_str(), "^1.2");
    assert!(req.matches(&ReleaseVersion::parse("1.4.0").unwrap()));
    assert!(req.matches(&ReleaseVersion::parse("1.2.0").unwrap()));
    assert!(!req.matches(&ReleaseVersion::parse("2.0.0").unwrap()));
    assert!(!req.matches(&ReleaseVersion::parse("1.1.9").unwrap()));
    assert!(!req.matches(&ReleaseVersion::new(0, 0, 0)));
    assert!(VersionRequirement::parse("bogus").is_none());
    assert!(VersionRequirement::parse(">=1.0 <2.0").is_none());
    let exact = VersionRequirement::parse("=0.0.0").unwrap();
    assert!(exact.matches(&ReleaseVersion::new(0, 0, 0)));
    let copy = req.clone();
    assert_eq!(copy.as_str(), "^1.2");
    assert!(copy.matches(&ReleaseVersion::parse("1.9.9").unwrap()));
}

#[test]
fn github_addresses() {
    assert_eq!(
        list_tags_url("schueler-connect", "backend"),
        "https://api.github.com/repos/schueler-connect/backend/git/refs/tags"
    );
    assert_eq!(
        tarball_url("schueler-connect", "backend", "tags/v1.2.3"),
        "https://api.github.com/repos/schueler-connect/backend/tarball/tags/v1.2.3"
    );
}

#[test]
fn errors_carry_their_message() {
    assert!(matches!(Error::with_message("boom"), Error::WithMessage(m) if m == "boom"));
}

#[test]
fn errors_from_text() {
    assert!(matches!(Error::from("boom"), Error::WithMessage(m) if m == "boom"));
    let e: Error = "kaputt".into();
    assert!(matches!(e, Error::WithMessage(m) if m == "kaputt"));
}

#[test]
fn written_pid_file_reads_back() {
    for n in [0u64, 7, 4711, 2147483647] {
        let mut text = decimal_of(n);
        text.push('\n');
        assert!(matches!(parse_pid(&text), Ok(v) if v as u64 == n));
    }
}

#[test]
fn version_texts_parse_again() {
    let v = ReleaseVersion::new(3, 0, 12);
    assert!(ReleaseVersion::parse(v.as_str()).is_some());
    let req = VersionRequirement::parse("~2.1").unwrap();
    let again = VersionRequirement::parse(req.as_str()).unwrap();
    assert_eq!(again.as_str(), "~2.1");
}

#[test]
fn decimal_i32_reading_agrees_with_std() {
    for text in [
        "0", "42", "-42", "+42", "0042", "-0", "2147483647", "2147483648", "-2147483648",
        "-2147483649", "99999999999999999999", "", "+", "-", "--1", "+-1", "1 ", " 1", "1_0",
        "٣", "12x", "x12",
    ] {
        assert_eq!(parse_i32(text), text.parse::<i32>().ok(), "text {:?}", text);
    }
}
