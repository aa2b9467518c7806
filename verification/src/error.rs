use vstd::prelude::*;
use vstd::string::StringExecFns;

verus! {

use crate::window::Level;

/// What went wrong in one of the OS window calls.
#[allow(non_camel_case_types)]
#[derive(Debug, PartialEq, Eq, Structural)]
pub enum WinApiError {
    /// The OS refused to move the window to the given coordinates and size at
    /// the given level.
    FailedToSetWindowPos(i32, i32, i32, i32, Level),
    /// The OS could not report the window's screen rectangle.
    FailedToGetWindowPos,
    /// The OS refused the layered extended style on the window.
    FailedToSetExtendedWinStyle,
    /// The OS refused the layered-window color attributes.
    CouldntSetBgColor,
    /// The OS refused to clear the window's style word.
    FailedToSetGWL_Style,
}

/// The digit character for a value below ten.
pub open spec fn spec_digit(d: int) -> char {
    if d == 0 {
        '0'
    } else if d == 1 {
        '1'
    } else if d == 2 {
        '2'
    } else if d == 3 {
        '3'
    } else if d == 4 {
        '4'
    } else if d == 5 {
        '5'
    } else if d == 6 {
        '6'
    } else if d == 7 {
        '7'
    } else if d == 8 {
        '8'
    } else {
        '9'
    }
}

/// The decimal digits of a non-negative number, most significant first, with
/// no leading zero except for the number zero itself.
pub open spec fn spec_udec(n: int) -> Seq<char>
    decreases n,
{
    if n < 10 {
        seq![spec_digit(n)]
    } else {
        spec_udec(n / 10).push(spec_digit(n % 10))
    }
}

/// The decimal rendering of a signed number: a minus sign and the digits of
/// the magnitude for a negative number, the digits alone otherwise.
pub open spec fn spec_idec(n: int) -> Seq<char> {
    if n < 0 {
        seq!['-'] + spec_udec(-n)
    } else {
        spec_udec(n)
    }
}

/// The name of a level, as its debug formatting prints it.
pub open spec fn spec_level_name(l: Level) -> Seq<char> {
    match l {
        Level::TopMost => "TopMost"@,
        Level::Top => "Top"@,
        Level::Normal => "Normal"@,
        Level::Bottom => "Bottom"@,
    }
}

/// The description of an error, character for character.
pub open spec fn spec_message(e: WinApiError) -> Seq<char> {
    match e {
        WinApiError::FailedToSetWindowPos(x, y, cx, cy, l) => "Failed to write window pos ("@
            + spec_idec(x as int) + ","@ + spec_idec(y as int) + ") with size "@ + spec_idec(
            cx as int,
        ) + "x"@ + spec_idec(cy as int) + " on level "@ + spec_level_name(l),
        WinApiError::FailedToGetWindowPos => "Failed to get window position"@,
        WinApiError::FailedToSetExtendedWinStyle => "Failed to set window style"@,
        WinApiError::CouldntSetBgColor => "Failed to set Bg Color"@,
        WinApiError::FailedToSetGWL_Style => "failed to set GWL_Style"@,
    }
}

/// The one-character string that holds the digit for a value below ten.
fn digit_str(d: u32) -> (r: &'static str)
    requires
        d < 10,
    ensures
        r@ == seq![spec_digit(d as int)],
{
    let r: &'static str = match d {
        0 => "0",
        1 => "1",
        2 => "2",
        3 => "3",
        4 => "4",
        5 => "5",
        6 => "6",
        7 => "7",
        8 => "8",
        _ => "9",
    };
    proof {
        reveal_strlit("0");
        reveal_strlit("1");
        reveal_strlit("2");
        reveal_strlit("3");
        reveal_strlit("4");
        reveal_strlit("5");
        reveal_strlit("6");
        reveal_strlit("7");
        reveal_strlit("8");
        reveal_strlit("9");
        assert(r@ =~= seq![spec_digit(d as int)]);
    }
    r
}

/// Appends the decimal digits of a non-negative number to a string.
fn push_udec(s: &mut String, n: u32)
    ensures
        final(s)@ == old(s)@ + spec_udec(n as int),
    decreases n,
{
    if n < 10 {
        s.append(digit_str(n));
        proof {
            assert(s@ =~= old(s)@ + spec_udec(n as int));
        }
    } else {
        push_udec(s, n / 10);
        s.append(digit_str(n % 10));
        proof {
            assert(s@ =~= old(s)@ + spec_udec(n as int));
        }
    }
}

/// Appends the decimal rendering of a signed number to a string, minus sign
/// included.
fn push_idec(s: &mut String, n: i32)
    ensures
        final(s)@ == old(s)@ + spec_idec(n as int),
{
    if n < 0 {
        s.append("-");
        let m: u32 = (-(n as i64)) as u32;
        push_udec(s, m);
        proof {
            reveal_strlit("-");
            assert(s@ =~= old(s)@ + spec_idec(n as int));
        }
    } else {
        push_udec(s, n as u32);
    }
}

/// The name of a level, as its debug formatting prints it.
fn level_name(l: Level) -> (r: &'static str)
    ensures
        r@ == spec_level_name(l),
{
    match l {
        Level::TopMost => "TopMost",
        Level::Top => "Top",
        Level::Normal => "Normal",
        Level::Bottom => "Bottom",
    }
}

impl WinApiError {
    /// The description of this error, as its display formatting prints it.
    pub fn message(&self) -> (r: String)
        ensures
            r@ == spec_message(*self),
    {
        match self {
            WinApiError::FailedToSetWindowPos(x, y, cx, cy, l) => {
                let mut s = String::from_str("Failed to write window pos (");
                push_idec(&mut s, *x);
                s.append(",");
                push_idec(&mut s, *y);
                s.append(") with size ");
                push_idec(&mut s, *cx);
                s.append("x");
                push_idec(&mut s, *cy);
                s.append(" on level ");
                s.append(level_name(*l));
                proof {
                    assert(s@ =~= spec_message(*self));
                }
                s
            },
            WinApiError::FailedToGetWindowPos => String::from_str(
                "Failed to get window position",
            ),
            WinApiError::FailedToSetExtendedWinStyle => String::from_str(
                "Failed to set window style",
            ),
            WinApiError::CouldntSetBgColor => String::from_str("Failed to set Bg Color"),
            WinApiError::FailedToSetGWL_Style => String::from_str("failed to set GWL_Style"),
        }
    }
}

} // verus!
