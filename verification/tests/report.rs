use uart_echo::clock::get_sysclk;
use uart_echo::report::startup_report;

#[test]
fn startup_line_of_the_target_configuration() {
    assert_eq!(startup_report(84), "sysclk=84MHz.\r\n");
}

#[test]
fn startup_line_from_the_pll_fields() {
    let mhz = get_sysclk(4, 168, 1).unwrap();
    assert_eq!(startup_report(mhz), "sysclk=84MHz.\r\n");
    assert_eq!(startup_report(mhz).as_bytes(), b"sysclk=84MHz.\r\n");
}

#[test]
fn startup_line_ends_with_carriage_return_and_line_feed() {
    let line = startup_report(16);
    assert!(line.ends_with("MHz.\r\n"));
    assert!(line.starts_with("sysclk="));
    assert_eq!(line.len(), "sysclk=".len() + 2 + "MHz.\r\n".len());
}

#[test]
fn zero_is_one_digit() {
    assert_eq!(startup_report(0), "sysclk=0MHz.\r\n");
}

#[test]
fn single_digits() {
    assert_eq!(startup_report(1), "sysclk=1MHz.\r\n");
    assert_eq!(startup_report(9), "sysclk=9MHz.\r\n");
}

#[test]
fn digits_come_most_significant_first() {
    assert_eq!(startup_report(10), "sysclk=10MHz.\r\n");
    assert_eq!(startup_report(100), "sysclk=100MHz.\r\n");
    assert_eq!(startup_report(168), "sysclk=168MHz.\r\n");
    assert_eq!(startup_report(2044), "sysclk=2044MHz.\r\n");
    assert_eq!(startup_report(10203), "sysclk=10203MHz.\r\n");
    assert_eq!(startup_report(65535), "sysclk=65535MHz.\r\n");
}

#[test]
fn every_frequency_is_written_in_decimal() {
    for mhz in 0u16..=u16::MAX {
        assert_eq!(startup_report(mhz), format!("sysclk={}MHz.\r\n", mhz));
    }
}
