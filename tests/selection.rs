use serial_monitor::baud::{
    baud_from_entry, baud_menu, select_baud, speed_from_entry, BAUD_MENU_LEN, DEFAULT_BAUD_ENTRY,
    FALLBACK_BAUD,
};
use serial_monitor::line::port_settings;
use serial_monitor::port::{port_menu_default, select_port, DEFAULT_PORT_ENTRY};

fn names(list: &[&str]) -> Vec<String> {
    list.iter().map(|s| s.to_string()).collect()
}

#[test]
fn select_port_yields_each_listed_identifier() {
    let ports = names(&["/dev/ttyUSB0", "/dev/ttyACM0", "/dev/ttyS1"]);
    for i in 0..ports.len() {
        assert_eq!(select_port(&ports, i), ports[i]);
    }
}

#[test]
fn select_port_single_device() {
    let ports = names(&["COM3"]);
    assert_eq!(select_port(&ports, 0), "COM3");
}

#[test]
fn port_menu_starts_on_first_entry() {
    let ports = names(&["/dev/ttyUSB0", "/dev/ttyUSB1"]);
    assert_eq!(port_menu_default(&ports), Some(0));
    assert_eq!(DEFAULT_PORT_ENTRY, 0);
}

#[test]
fn port_menu_refused_without_ports() {
    assert_eq!(port_menu_default(&Vec::new()), None);
}

#[test]
fn baud_menu_lists_eight_rates() {
    let menu = baud_menu();
    assert_eq!(menu.len(), BAUD_MENU_LEN);
    assert_eq!(
        menu,
        vec!["9600", "19200", "38400", "57600", "115200", "230400", "460800", "921600"]
    );
}

#[test]
fn each_baud_entry_yields_its_value() {
    let expected = [9600usize, 19200, 38400, 57600, 115200, 230400, 460800, 921600];
    for i in 0..BAUD_MENU_LEN {
        assert_eq!(select_baud(i).speed(), expected[i]);
    }
}

#[test]
fn default_baud_entry_is_115200() {
    assert_eq!(DEFAULT_BAUD_ENTRY, 4);
    assert_eq!(baud_menu()[DEFAULT_BAUD_ENTRY], "115200");
    assert_eq!(select_baud(DEFAULT_BAUD_ENTRY), serial::BaudRate::Baud115200);
    assert_eq!(select_baud(DEFAULT_BAUD_ENTRY).speed(), 115200);
}

#[test]
fn standard_and_other_baud_variants() {
    assert_eq!(select_baud(0), serial::BaudRate::Baud9600);
    assert_eq!(select_baud(3), serial::BaudRate::Baud57600);
    assert_eq!(select_baud(7), serial::BaudRate::BaudOther(921600));
}

#[test]
fn entry_text_parses_as_number() {
    assert_eq!(speed_from_entry("19200"), 19200);
    assert_eq!(speed_from_entry("+300"), 300);
    assert_eq!(speed_from_entry("0"), 0);
    assert_eq!(speed_from_entry("4294967295"), 4294967295);
}

#[test]
fn unreadable_entry_falls_back_to_115200() {
    assert_eq!(FALLBACK_BAUD, 115200);
    assert_eq!(speed_from_entry(""), 115200);
    assert_eq!(speed_from_entry("fast"), 115200);
    assert_eq!(speed_from_entry("-9600"), 115200);
    assert_eq!(speed_from_entry("4294967296"), 115200);
    assert_eq!(baud_from_entry("12x"), serial::BaudRate::Baud115200);
}

#[test]
fn nonstandard_entry_keeps_its_speed() {
    assert_eq!(baud_from_entry("250000"), serial::BaudRate::BaudOther(250000));
    assert_eq!(baud_from_entry("2400"), serial::BaudRate::Baud2400);
}

#[test]
fn settings_use_fixed_framing() {
    let s = port_settings(serial::BaudRate::Baud38400);
    assert_eq!(s.baud_rate, serial::BaudRate::Baud38400);
    assert_eq!(s.char_size, serial::Bits8);
    assert_eq!(s.parity, serial::ParityNone);
    assert_eq!(s.stop_bits, serial::Stop1);
    assert_eq!(s.flow_control, serial::FlowNone);
}
