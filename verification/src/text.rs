//! Verified text shown in the monitor list: decimal rendering of numbers,
//! device-name cleaning, and the resolution / position labels.

use vstd::prelude::*;

verus! {

/// The character for a single decimal digit.
pub open spec fn digit_char(d: int) -> char
    recommends
        0 <= d < 10,
{
    if d == 0 {
        '0'
    } else if d == 1 {
        '1'
    } else if d == 2 {
        '2'
    } else if d == 3 {
        '3'
    } else if d == 4 {
        '4'
    } else if d == 5 {
        '5'
    } else if d == 6 {
        '6'
    } else if d == 7 {
        '7'
    } else if d == 8 {
        '8'
    } else {
        '9'
    }
}

/// The decimal rendering of a non-negative number, most significant digit
/// first and without leading zeros (except for the number 0 itself).
pub open spec fn decimal_of(n: int) -> Seq<char>
    recommends
        n >= 0,
    decreases n,
{
    if n < 10 {
        seq![digit_char(n)]
    } else {
        decimal_of(n / 10).push(digit_char(n % 10))
    }
}

/// The decimal rendering of a signed number: a minus sign before the
/// rendering of the magnitude.
pub open spec fn signed_decimal_of(v: int) -> Seq<char> {
    if v >= 0 {
        decimal_of(v)
    } else {
        seq!['-'] + decimal_of(-v)
    }
}

/// The one-character string for a single decimal digit.
fn digit_str(d: u64) -> (s: &'static str)
    requires
        d < 10,
    ensures
        s@ == seq![digit_char(d as int)],
{
    proof {
        reveal_strlit("0");
        reveal_strlit("1");
        reveal_strlit("2");
        reveal_strlit("3");
        reveal_strlit("4");
        reveal_strlit("5");
        reveal_strlit("6");
        reveal_strlit("7");
        reveal_strlit("8");
        reveal_strlit("9");
    }
    let s = if d == 0 {
        "0"
    } else if d == 1 {
        "1"
    } else if d == 2 {
        "2"
    } else if d == 3 {
        "3"
    } else if d == 4 {
        "4"
    } else if d == 5 {
        "5"
    } else if d == 6 {
        "6"
    } else if d == 7 {
        "7"
    } else if d == 8 {
        "8"
    } else {
        "9"
    };
    proof {
        assert(s@ =~= seq![digit_char(d as int)]);
    }
    s
}

/// Render a non-negative number in decimal.
pub fn decimal_string(n: u64) -> (s: String)
    ensures
        s@ == decimal_of(n as int),
    decreases n,
{
    if n < 10 {
        String::from_str(digit_str(n))
    } else {
        let mut s = decimal_string(n / 10);
        s.append(digit_str(n % 10));
        proof {
            assert(s@ =~= decimal_of((n / 10) as int).push(digit_char((n % 10) as int)));
        }
        s
    }
}

/// Render a signed number in decimal.
pub fn signed_decimal_string(v: i32) -> (s: String)
    ensures
        s@ == signed_decimal_of(v as int),
{
    if v >= 0 {
        decimal_string(v as u64)
    } else {
        let magnitude: u64 = (-(v as i64)) as u64;
        let mut s = String::from_str("-");
        let digits = decimal_string(magnitude);
        s.append(digits.as_str());
        proof {
            reveal_strlit("-");
            assert("-"@ =~= seq!['-']);
        }
        s
    }
}

/// The four-character device tag (`\\.\`) that the window system prefixes
/// device names with, as it stands at position `i` of a name.
pub open spec fn is_tag_at(s: Seq<char>, i: int) -> bool {
    &&& i + 4 <= s.len()
    &&& s[i] == '\\'
    &&& s[i + 1] == '\\'
    &&& s[i + 2] == '.'
    &&& s[i + 3] == '\\'
}

/// The name with every occurrence of the device tag removed, scanning left
/// to right.
pub open spec fn strip_device_tags(s: Seq<char>) -> Seq<char>
    decreases s.len(),
{
    if s.len() == 0 {
        Seq::empty()
    } else if is_tag_at(s, 0) {
        strip_device_tags(s.skip(4))
    } else {
        seq![s[0]] + strip_device_tags(s.skip(1))
    }
}

/// Remove every occurrence of the device tag (`\\.\`) from a device name.
pub fn clean_device_name(name: &str) -> (r: String)
    ensures
        r@ == strip_device_tags(name@),
{
    let len = name.unicode_len();
    let mut out = String::new();
    let mut i: usize = 0;
    proof {
        assert(name@.skip(0) =~= name@);
        assert(out@ + strip_device_tags(name@) =~= strip_device_tags(name@));
    }
    while i < len
        invariant
            len == name@.len(),
            i <= len,
            out@ + strip_device_tags(name@.skip(i as int)) == strip_device_tags(name@),
        decreases len - i,
    {
        let ghost tail = name@.skip(i as int);
        if len - i >= 4 && name.get_char(i) == '\\' && name.get_char(i + 1) == '\\'
            && name.get_char(i + 2) == '.' && name.get_char(i + 3) == '\\' {
            proof {
                assert(is_tag_at(tail, 0));
                assert(tail.skip(4) =~= name@.skip(i as int + 4));
            }
            i = i + 4;
        } else {
            let piece = name.substring_char(i, i + 1);
            out.append(piece);
            proof {
                assert(!is_tag_at(tail, 0));
                assert(tail[0] == name@[i as int]);
                assert(tail.skip(1) =~= name@.skip(i as int + 1));
                assert(piece@ =~= seq![tail[0]]);
                assert(out@ + strip_device_tags(name@.skip(i as int + 1))
                    =~= strip_device_tags(name@));
            }
            i = i + 1;
        }
    }
    proof {
        assert(name@.skip(len as int) =~= Seq::<char>::empty());
        assert(out@ =~= strip_device_tags(name@));
    }
    out
}

/// The name a monitor row shows, given the device name and the monitor's
/// 0-based position in the list: a numbered placeholder for a monitor
/// without a name, otherwise the cleaned name followed by the number in
/// parentheses.
pub open spec fn display_name_of(name: Seq<char>, index: int) -> Seq<char> {
    if name.len() == 0 {
        "Monitor "@ + decimal_of(index + 1)
    } else {
        strip_device_tags(name) + " ("@ + decimal_of(index + 1) + ")"@
    }
}

/// Build the display name for the monitor at the given 0-based index.
pub fn display_name(name: &str, index: usize) -> (r: String)
    requires
        index < usize::MAX,
    ensures
        r@ == display_name_of(name@, index as int),
{
    let number = decimal_string(index as u64 + 1);
    if name.unicode_len() == 0 {
        let mut s = String::from_str("Monitor ");
        s.append(number.as_str());
        proof {
            reveal_strlit("Monitor ");
        }
        s
    } else {
        let mut s = clean_device_name(name);
        s.append(" (");
        s.append(number.as_str());
        s.append(")");
        proof {
            reveal_strlit(" (");
            reveal_strlit(")");
            assert(s@ =~= display_name_of(name@, index as int));
        }
        s
    }
}

/// The resolution label of a monitor row, e.g. `1920x1080`.
pub fn resolution_string(width: i32, height: i32) -> (r: String)
    ensures
        r@ == signed_decimal_of(width as int) + "x"@ + signed_decimal_of(height as int),
{
    let mut s = signed_decimal_string(width);
    s.append("x");
    let h = signed_decimal_string(height);
    s.append(h.as_str());
    proof {
        reveal_strlit("x");
    }
    s
}

/// The position label of a monitor row, e.g. `pos: (0, 0)`.
pub fn position_string(x: i32, y: i32) -> (r: String)
    ensures
        r@ == "pos: ("@ + signed_decimal_of(x as int) + ", "@ + signed_decimal_of(y as int)
            + ")"@,
{
    let mut s = String::from_str("pos: (");
    let xs = signed_decimal_string(x);
    s.append(xs.as_str());
    s.append(", ");
    let ys = signed_decimal_string(y);
    s.append(ys.as_str());
    s.append(")");
    proof {
        reveal_strlit("pos: (");
        reveal_strlit(", ");
        reveal_strlit(")");
    }
    s
}

/// A percentage label, e.g. `20%`.
pub fn percent_label(percent: u8) -> (r: String)
    ensures
        r@ == decimal_of(percent as int) + "%"@,
{
    let mut s = decimal_string(percent as u64);
    s.append("%");
    proof {
        reveal_strlit("%");
    }
    s
}

} // verus!
