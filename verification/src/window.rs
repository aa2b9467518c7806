use vstd::prelude::*;
use vstd::string::StrSliceExecFns;

verus! {

/// A place in the Z order that a window can be put at.
#[derive(Debug, Copy, Clone, PartialEq, Eq, Structural)]
pub enum Level {
    /// This window will *always* remain at the top, unless otherwise specified.
    TopMost,
    /// Put to top of Z order.
    Top,
    /// Top of all non-topmost or top windows.
    Normal,
    /// Bottom of Z order.
    Bottom,
}

/// The sentinel handle value that the OS window-placement call reads as the
/// "insert after" slot for each level: -1 for the topmost slot, 0 for the top
/// of the Z order, -2 for the non-topmost slot, and 1 for the bottom.
pub open spec fn spec_insert_after(l: Level) -> int {
    match l {
        Level::TopMost => -1,
        Level::Top => 0,
        Level::Normal => -2,
        Level::Bottom => 1,
    }
}

impl Level {
    /// The sentinel value for this level, to be turned into the opaque handle
    /// that the OS window-placement call takes.
    pub fn insert_after(self) -> (c: isize)
        ensures
            c as int == spec_insert_after(self),
    {
        match self {
            Level::TopMost => -1,
            Level::Top => 0,
            Level::Normal => -2,
            Level::Bottom => 1,
        }
    }
}

/// Represents a Window Position: the top-left corner at `(x, y)` on screen,
/// `cx` wide and `cy` tall.
#[derive(Debug, Copy, Clone, PartialEq, Eq, Structural)]
pub struct WindowPos {
    pub x: i32,
    pub y: i32,
    pub cx: i32,
    pub cy: i32,
}

impl WindowPos {
    /// Reads a position out of a screen rectangle given by its edges, as the
    /// OS rectangle query hands them back: the width is `right - left` and the
    /// height is `bottom - top`.
    pub fn from_rect(left: i32, top: i32, right: i32, bottom: i32) -> (p: WindowPos)
        requires
            i32::MIN <= right - left <= i32::MAX,
            i32::MIN <= bottom - top <= i32::MAX,
        ensures
            p.x == left,
            p.y == top,
            p.cx == right - left,
            p.cy == bottom - top,
    {
        WindowPos { x: left, y: top, cx: right - left, cy: bottom - top }
    }
}

/// The UTF-16 code units that encode one character: a single unit for a
/// character below 0x10000, and a surrogate pair for the rest, made of a high
/// surrogate at 0xD800 and a low surrogate at 0xDC00.
pub open spec fn spec_utf16_units(c: char) -> Seq<u16> {
    if (c as u32) < 0x10000 {
        seq![(c as u32) as u16]
    } else {
        seq![
            (0xD800 + ((c as u32) - 0x10000) / 0x400) as u16,
            (0xDC00 + ((c as u32) - 0x10000) % 0x400) as u16,
        ]
    }
}

/// The UTF-16 encoding of a string: the code units of its characters, in
/// order.
pub open spec fn spec_utf16(s: Seq<char>) -> Seq<u16>
    decreases s.len(),
{
    if s.len() == 0 {
        Seq::<u16>::empty()
    } else {
        spec_utf16(s.drop_last()) + spec_utf16_units(s.last())
    }
}

/// Encodes a string the way the wide-character OS calls want it: as UTF-16
/// code units followed by a terminating zero unit.
pub fn win32_string(value: &str) -> (r: Vec<u16>)
    ensures
        r@ == spec_utf16(value@).push(0u16),
{
    let len = value.unicode_len();
    let mut out: Vec<u16> = Vec::new();
    let mut i: usize = 0;
    while i < len
        invariant
            i <= len,
            len == value@.len(),
            out@ == spec_utf16(value@.subrange(0, i as int)),
        decreases len - i,
    {
        let c = value.get_char(i);
        let u: u32 = c as u32;
        if u < 0x10000 {
            out.push(u as u16);
        } else {
            let v: u32 = u - 0x10000;
            out.push((0xD800 + v / 0x400) as u16);
            out.push((0xDC00 + v % 0x400) as u16);
        }
        proof {
            let prefix = value@.subrange(0, i + 1);
            assert(prefix.drop_last() =~= value@.subrange(0, i as int));
            assert(prefix.last() == value@[i as int]);
            assert(out@ =~= spec_utf16(prefix));
        }
        i += 1;
    }
    proof {
        assert(value@.subrange(0, len as int) =~= value@);
    }
    out.push(0u16);
    out
}

} // verus!
