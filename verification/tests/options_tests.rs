use seven_clock::colour::Colour;
use seven_clock::error::Error;
use seven_clock::options::{parse_args, Options};
use seven_clock::timefmt::TimeFormat;

fn args(list: &[&str]) -> Vec<String> {
    list.iter().map(|s| s.to_string()).collect()
}

#[test]
fn no_arguments_give_the_defaults() {
    let o = parse_args(&args(&[])).unwrap();
    assert!(!o.twenty_four_hour);
    assert!(!o.show_seconds);
    assert!(o.colour.is_none());
}

#[test]
fn each_flag_sets_its_field() {
    let o = parse_args(&args(&["-24"])).unwrap();
    assert!(o.twenty_four_hour && !o.show_seconds);
    let o = parse_args(&args(&["--seconds"])).unwrap();
    assert!(!o.twenty_four_hour && o.show_seconds);
    let o = parse_args(&args(&["-24", "--seconds", "-c", "red"])).unwrap();
    assert!(o.twenty_four_hour && o.show_seconds);
    assert_eq!(o.colour, Some(Colour::Red));
}

#[test]
fn all_colour_spellings_take_the_next_argument() {
    for flag in ["-c", "--color", "--colour"] {
        let o = parse_args(&args(&[flag, "#102030"])).unwrap();
        assert_eq!(o.colour, Some(Colour::Rgb(16, 32, 48)));
    }
}

#[test]
fn colour_flag_without_argument_is_a_usage_error() {
    match parse_args(&args(&["-c"])) {
        Err(Error::Usage(m)) => assert_eq!(m, "--colour requires an argument"),
        _ => panic!("expected a usage error"),
    }
}

#[test]
fn bad_colour_argument_is_a_configuration_error() {
    match parse_args(&args(&["-c", "#ZZZZZZ"])) {
        Err(Error::Config(m)) => assert_eq!(m, "invalid colour: '#ZZZZZZ'"),
        _ => panic!("expected a configuration error"),
    }
}

#[test]
fn unknown_flag_is_a_usage_error() {
    match parse_args(&args(&["--bogus"])) {
        Err(Error::Usage(m)) => assert_eq!(m, "unknown option: '--bogus'"),
        _ => panic!("expected a usage error"),
    }
}

#[test]
fn help_ends_parsing_at_once() {
    assert!(matches!(parse_args(&args(&["-h"])), Err(Error::Help)));
    assert!(matches!(parse_args(&args(&["--help"])), Err(Error::Help)));
    assert!(matches!(parse_args(&args(&["-24", "--help", "--bogus"])), Err(Error::Help)));
}

#[test]
fn format_follows_the_two_booleans() {
    let mut o = Options::default();
    assert_eq!(o.format(), TimeFormat::TwelveHm);
    o.show_seconds = true;
    assert_eq!(o.format(), TimeFormat::TwelveHms);
    o.twenty_four_hour = true;
    assert_eq!(o.format(), TimeFormat::TwentyFourHms);
    o.show_seconds = false;
    assert_eq!(o.format(), TimeFormat::TwentyFourHm);
}

#[test]
fn poll_interval_halves_when_seconds_are_shown() {
    let mut o = Options::default();
    assert_eq!(o.poll_interval_millis(), 1000);
    o.show_seconds = true;
    assert_eq!(o.poll_interval_millis(), 500);
}

#[test]
fn exit_codes_distinguish_the_error_kinds() {
    assert_eq!(Error::Help.exit_code(), 0);
    assert_eq!(Error::Usage("x".to_string()).exit_code(), 2);
    assert_eq!(Error::Config("x".to_string()).exit_code(), 2);
    assert_eq!(Error::Terminal("x".to_string()).exit_code(), 1);
    assert_eq!(Error::Clock("x".to_string()).exit_code(), 1);
}

#[test]
fn describe_names_the_error_kind() {
    assert_eq!(Error::Usage("bad".to_string()).describe(), "usage error: bad");
    assert_eq!(Error::Config("bad".to_string()).describe(), "error: bad");
    assert_eq!(Error::Terminal("bad".to_string()).describe(), "terminal error: bad");
    assert_eq!(Error::Clock("bad".to_string()).describe(), "clock error: bad");
    assert_eq!(Error::Usage("m".to_string()).message(), "m");
}

#[test]
fn version_string_names_the_crate() {
    assert_eq!(seven_clock::version_string(), "seven_clock version 0.1.0");
}

#[test]
fn usage_text_lists_every_flag() {
    let text = seven_clock::usage_text();
    assert!(text.starts_with("seven_clock version 0.1.0\n"));
    for flag in ["-h, --help", "-24", "-c, --color, --colour COLOUR", "--seconds"] {
        assert!(text.contains(flag));
    }
}
