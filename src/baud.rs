use vstd::prelude::*;
use crate::decimal::{numeral_value, parse_u32, u32_of_text};
use crate::line::{baud_rate_for, speed_of};

verus! {

/// Number of entries in the baud-rate menu.
pub const BAUD_MENU_LEN: usize = 8;

/// Position of the entry that the baud-rate menu starts on ("115200").
pub const DEFAULT_BAUD_ENTRY: usize = 4;

/// Speed used when a menu entry cannot be read as a number.
pub const FALLBACK_BAUD: u32 = 115200;

/// The speed that entry `i` of the baud-rate menu reads as.
pub open spec fn menu_speed(i: int) -> u32 {
    if i == 0 {
        9600
    } else if i == 1 {
        19200
    } else if i == 2 {
        38400
    } else if i == 3 {
        57600
    } else if i == 4 {
        115200
    } else if i == 5 {
        230400
    } else if i == 6 {
        460800
    } else {
        921600
    }
}

/// The speed that the text of a menu entry stands for, or the fallback.
pub open spec fn speed_of_entry(text: Seq<char>) -> u32 {
    match u32_of_text(text) {
        Some(v) => v,
        None => FALLBACK_BAUD,
    }
}

/// The texts of the baud-rate menu, slowest first.
pub fn baud_menu() -> (r: Vec<&'static str>)
    ensures
        r@.len() == BAUD_MENU_LEN,
        forall|i: int| 0 <= i < BAUD_MENU_LEN ==> u32_of_text(#[trigger] r@[i]@) == Some(menu_speed(i)),
{
    proof {
        reveal_strlit("9600");
        reveal_strlit("19200");
        reveal_strlit("38400");
        reveal_strlit("57600");
        reveal_strlit("115200");
        reveal_strlit("230400");
        reveal_strlit("460800");
        reveal_strlit("921600");
        reveal_with_fuel(numeral_value, 7);
    }
    let r = vec!["9600", "19200", "38400", "57600", "115200", "230400", "460800", "921600"];
    r
}

/// The speed that a chosen menu text selects: its value when it reads as a
/// `u32`, else the fallback speed.
pub fn speed_from_entry(text: &str) -> (r: u32)
    ensures
        r == speed_of_entry(text@),
{
    match parse_u32(text) {
        Some(v) => v,
        None => FALLBACK_BAUD,
    }
}

/// The baud rate that a chosen menu text selects.
pub fn baud_from_entry(text: &str) -> (r: serial::BaudRate)
    ensures
        r == baud_rate_for(speed_of_entry(text@) as usize),
        speed_of(r) == speed_of_entry(text@),
{
    let speed = speed_from_entry(text);
    serial::BaudRate::from_speed(speed as usize)
}

/// The baud rate selected by entry `choice` of the baud-rate menu.
pub fn select_baud(choice: usize) -> (r: serial::BaudRate)
    requires
        choice < BAUD_MENU_LEN,
    ensures
        r == baud_rate_for(menu_speed(choice as int) as usize),
        speed_of(r) == menu_speed(choice as int),
{
    let items = baud_menu();
    baud_from_entry(items[choice])
}

} // verus!
