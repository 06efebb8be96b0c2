//! The texts that the interface computes: numbers in decimal, the uptime
//! clock and the titles of the list and the search line.

use vstd::prelude::*;
use vstd::string::StringExecFns;
use crate::config::AccentColor;
use crate::text::{char_string, push_char};

verus! {

/// The character of a decimal digit.
pub open spec fn digit_char_spec(d: nat) -> char {
    if d == 0 { '0' }
    else if d == 1 { '1' }
    else if d == 2 { '2' }
    else if d == 3 { '3' }
    else if d == 4 { '4' }
    else if d == 5 { '5' }
    else if d == 6 { '6' }
    else if d == 7 { '7' }
    else if d == 8 { '8' }
    else { '9' }
}

/// `n` written in decimal, without leading zeros.
pub open spec fn decimal_spec(n: nat) -> Seq<char>
    decreases n,
{
    if n < 10 {
        seq![digit_char_spec(n)]
    } else {
        decimal_spec(n / 10).push(digit_char_spec(n % 10))
    }
}

/// `n` in decimal, padded with a zero to at least two digits.
pub open spec fn two_digits_spec(n: nat) -> Seq<char> {
    if n < 10 { seq!['0'] + decimal_spec(n) } else { decimal_spec(n) }
}

/// The uptime clock for `secs` seconds: hours, minutes and seconds, each at
/// least two digits, between spaces.
pub open spec fn uptime_title_spec(secs: nat) -> Seq<char> {
    " "@ + two_digits_spec(secs / 3600) + ":"@ + two_digits_spec((secs % 3600) / 60) + ":"@
        + two_digits_spec(secs % 60) + " "@
}

/// The title of the list: how many userproxies it shows, and out of how many
/// while a query filters them.
pub open spec fn list_title_spec(shown: nat, total: nat, query_empty: bool) -> Seq<char> {
    " /plu/ral Userproxies ("@ + (if query_empty {
        decimal_spec(shown)
    } else {
        decimal_spec(shown) + "/"@ + decimal_spec(total)
    }) + ") "@
}

fn digit_char(d: u64) -> (res: char)
    requires
        d < 10,
    ensures
        res == digit_char_spec(d as nat),
{
    match d {
        0 => '0',
        1 => '1',
        2 => '2',
        3 => '3',
        4 => '4',
        5 => '5',
        6 => '6',
        7 => '7',
        8 => '8',
        _ => '9',
    }
}

/// `n` written in decimal.
pub fn decimal(n: u64) -> (res: String)
    ensures
        res@ == decimal_spec(n as nat),
    decreases n,
{
    if n < 10 {
        char_string(digit_char(n))
    } else {
        let mut s = decimal(n / 10);
        push_char(&mut s, digit_char(n % 10));
        s
    }
}

/// `n` in decimal, padded with a zero to at least two digits.
pub fn two_digits(n: u64) -> (res: String)
    ensures
        res@ == two_digits_spec(n as nat),
{
    if n < 10 {
        let mut s = char_string('0');
        s.append(decimal(n).as_str());
        s
    } else {
        decimal(n)
    }
}

/// The uptime clock for `secs` seconds, as `" HH:MM:SS "`.
pub fn uptime_title(secs: u64) -> (res: String)
    ensures
        res@ == uptime_title_spec(secs as nat),
{
    let mut s = String::from_str(" ");
    s.append(two_digits(secs / 3600).as_str());
    s.append(":");
    s.append(two_digits((secs % 3600) / 60).as_str());
    s.append(":");
    s.append(two_digits(secs % 60).as_str());
    s.append(" ");
    s
}

/// The title of the list: `" /plu/ral Userproxies (shown) "`, or
/// `" /plu/ral Userproxies (shown/total) "` while a query filters.
pub fn list_title(shown: usize, total: usize, query_empty: bool) -> (res: String)
    ensures
        res@ == list_title_spec(shown as nat, total as nat, query_empty),
{
    let mut s = String::from_str(" /plu/ral Userproxies (");
    s.append(decimal(shown as u64).as_str());
    if !query_empty {
        s.append("/");
        s.append(decimal(total as u64).as_str());
    }
    s.append(") ");
    s
}

/// The note on the search line that a newer version is out, or nothing.
pub fn update_title(version: &Option<String>) -> (res: String)
    ensures
        res@ == match version {
            Some(v) => " Update Available: "@ + v@ + " "@,
            None => Seq::<char>::empty(),
        },
{
    match version {
        Some(v) => {
            let mut s = String::from_str(" Update Available: ");
            s.append(v.as_str());
            s.append(" ");
            s
        },
        None => String::new(),
    }
}

/// The name of a colour as the interface shows it: the colour's name, or its
/// components, as in `Rgb(1, 2, 3)` and `Indexed(5)`.
pub open spec fn accent_name_spec(c: AccentColor) -> Seq<char> {
    match c {
        AccentColor::Reset => "Reset"@,
        AccentColor::Black => "Black"@,
        AccentColor::Red => "Red"@,
        AccentColor::Green => "Green"@,
        AccentColor::Yellow => "Yellow"@,
        AccentColor::Blue => "Blue"@,
        AccentColor::Magenta => "Magenta"@,
        AccentColor::Cyan => "Cyan"@,
        AccentColor::Gray => "Gray"@,
        AccentColor::DarkGray => "DarkGray"@,
        AccentColor::LightRed => "LightRed"@,
        AccentColor::LightGreen => "LightGreen"@,
        AccentColor::LightYellow => "LightYellow"@,
        AccentColor::LightBlue => "LightBlue"@,
        AccentColor::LightMagenta => "LightMagenta"@,
        AccentColor::LightCyan => "LightCyan"@,
        AccentColor::White => "White"@,
        AccentColor::Rgb(r, g, b) => "Rgb("@ + decimal_spec(r as nat) + ", "@ + decimal_spec(g as nat) + ", "@
            + decimal_spec(b as nat) + ")"@,
        AccentColor::Indexed(i) => "Indexed("@ + decimal_spec(i as nat) + ")"@,
    }
}

/// The name of a colour as the interface shows it.
pub fn accent_name(c: AccentColor) -> (res: String)
    ensures
        res@ == accent_name_spec(c),
{
    match c {
        AccentColor::Reset => String::from_str("Reset"),
        AccentColor::Black => String::from_str("Black"),
        AccentColor::Red => String::from_str("Red"),
        AccentColor::Green => String::from_str("Green"),
        AccentColor::Yellow => String::from_str("Yellow"),
        AccentColor::Blue => String::from_str("Blue"),
        AccentColor::Magenta => String::from_str("Magenta"),
        AccentColor::Cyan => String::from_str("Cyan"),
        AccentColor::Gray => String::from_str("Gray"),
        AccentColor::DarkGray => String::from_str("DarkGray"),
        AccentColor::LightRed => String::from_str("LightRed"),
        AccentColor::LightGreen => String::from_str("LightGreen"),
        AccentColor::LightYellow => String::from_str("LightYellow"),
        AccentColor::LightBlue => String::from_str("LightBlue"),
        AccentColor::LightMagenta => String::from_str("LightMagenta"),
        AccentColor::LightCyan => String::from_str("LightCyan"),
        AccentColor::White => String::from_str("White"),
        AccentColor::Rgb(r, g, b) => {
            let mut s = String::from_str("Rgb(");
            s.append(decimal(r as u64).as_str());
            s.append(", ");
            s.append(decimal(g as u64).as_str());
            s.append(", ");
            s.append(decimal(b as u64).as_str());
            s.append(")");
            s
        },
        AccentColor::Indexed(i) => {
            let mut s = String::from_str("Indexed(");
            s.append(decimal(i as u64).as_str());
            s.append(")");
            s
        },
    }
}

/// The title in the middle of the list's top border: the accent colour's name
/// while it is shown, else a note while an update runs, else nothing.
pub open spec fn middle_title_spec(show_accent_color: bool, update_in_progress: bool, c: AccentColor) -> Seq<char> {
    if show_accent_color {
        " Accent Color Set: "@ + accent_name_spec(c) + " "@
    } else if update_in_progress {
        " Update in Progress "@
    } else {
        Seq::empty()
    }
}

/// The title in the middle of the list's top border.
pub fn middle_title(show_accent_color: bool, update_in_progress: bool, c: AccentColor) -> (res: String)
    ensures
        res@ == middle_title_spec(show_accent_color, update_in_progress, c),
        show_accent_color ==> res@ == " Accent Color Set: "@ + accent_name_spec(c) + " "@,
        !show_accent_color && update_in_progress ==> res@ == " Update in Progress "@,
        !show_accent_color && !update_in_progress ==> res@.len() == 0,
{
    if show_accent_color {
        let mut s = String::from_str(" Accent Color Set: ");
        s.append(accent_name(c).as_str());
        s.append(" ");
        s
    } else if update_in_progress {
        String::from_str(" Update in Progress ")
    } else {
        String::new()
    }
}

/// While the accent colour is shown, the middle title names it, whether or not
/// an update runs; otherwise it notes a running update, or is empty.
pub proof fn lemma_middle_title_shows_accent(show_accent_color: bool, update_in_progress: bool, c: AccentColor)
    ensures
        show_accent_color ==> middle_title_spec(show_accent_color, update_in_progress, c)
            == " Accent Color Set: "@ + accent_name_spec(c) + " "@,
        !show_accent_color && update_in_progress ==> middle_title_spec(show_accent_color, update_in_progress, c)
            == " Update in Progress "@,
        !show_accent_color && !update_in_progress ==> middle_title_spec(show_accent_color, update_in_progress, c).len() == 0,
{
}

} // verus!
