use barcode_scanner::args::{parse_port, CmdArgs, Program};
use barcode_scanner::error::Failure;

fn strings(v: &[&str]) -> Vec<String> {
    v.iter().map(|s| s.to_string()).collect()
}

#[test]
fn host_and_port_default_when_left_out() {
    let a = CmdArgs::build(&strings(&["secret", "ST1"])).unwrap();
    assert_eq!(a.password, "secret");
    assert_eq!(a.postazione, "ST1");
    assert_eq!(a.host, "127.0.0.1");
    assert_eq!(a.port, 4316);
}

#[test]
fn port_defaults_when_only_host_given() {
    let a = CmdArgs::build(&strings(&["secret", "ST1", "badges.example.org"])).unwrap();
    assert_eq!(a.host, "badges.example.org");
    assert_eq!(a.port, 4316);
}

#[test]
fn all_four_arguments_are_taken() {
    let a = CmdArgs::build(&strings(&["pw", "7", "10.0.0.2", "8443", "extra"])).unwrap();
    assert_eq!(a.password, "pw");
    assert_eq!(a.postazione, "7");
    assert_eq!(a.host, "10.0.0.2");
    assert_eq!(a.port, 8443);
}

#[test]
fn missing_password_or_station_is_a_usage_error() {
    assert_eq!(CmdArgs::build(&strings(&[])).unwrap_err(), Failure::MissingArgument);
    assert_eq!(CmdArgs::build(&strings(&["pw"])).unwrap_err(), Failure::MissingArgument);
}

#[test]
fn malformed_port_is_refused() {
    assert_eq!(CmdArgs::build(&strings(&["pw", "7", "h", "http"])).unwrap_err(), Failure::BadPort);
    assert_eq!(CmdArgs::build(&strings(&["pw", "7", "h", "65536"])).unwrap_err(), Failure::BadPort);
}

#[test]
fn port_parsing_follows_unsigned_decimal_rules() {
    assert_eq!(parse_port("0"), Ok(0));
    assert_eq!(parse_port("65535"), Ok(65535));
    assert_eq!(parse_port("+80"), Ok(80));
    assert_eq!(parse_port("007"), Ok(7));
    assert_eq!(parse_port(""), Err(Failure::BadPort));
    assert_eq!(parse_port("+"), Err(Failure::BadPort));
    assert_eq!(parse_port("-1"), Err(Failure::BadPort));
    assert_eq!(parse_port("12a"), Err(Failure::BadPort));
    assert_eq!(parse_port(" 80"), Err(Failure::BadPort));
    assert_eq!(parse_port("99999999999"), Err(Failure::BadPort));
    assert_eq!(parse_port("65536"), Err(Failure::BadPort));
}

#[test]
fn program_name_comes_from_first_argument() {
    let p = Program::new(&strings(&["scanner", "pw"]));
    assert_eq!(p.usage(), "usage: scanner PASSWORD POSTAZIONE HOST PORT");
    assert!(p.get_args().is_none());
    let q = Program::new(&strings(&[]));
    assert_eq!(q.usage(), "usage: barcode_scanner PASSWORD POSTAZIONE HOST PORT");
}

#[test]
fn set_args_stores_what_was_read() {
    let mut p = Program::new(&strings(&["scanner"]));
    assert_eq!(p.set_args(&strings(&["pw", "3"])), Ok(()));
    let a = p.get_args().as_ref().unwrap();
    assert_eq!(a.password, "pw");
    assert_eq!(a.postazione, "3");
    assert_eq!(a.host, "127.0.0.1");
    assert_eq!(a.port, 4316);
}

#[test]
fn set_args_failure_leaves_no_arguments() {
    let mut p = Program::new(&strings(&["scanner"]));
    assert_eq!(p.set_args(&strings(&["pw"])), Err(Failure::MissingArgument));
    assert!(p.get_args().is_none());
}

#[test]
fn failure_reports_and_exits_with_status_one() {
    let p = Program::new(&strings(&["scanner"]));
    assert_eq!(p.fail(), 1);
    assert_eq!(p.print_err("No scanner found"), "scanner: error: No scanner found");
    let (line, status) = p.print_fail("boom");
    assert_eq!(line, "scanner: error: boom");
    assert_eq!(status, 1);
}
