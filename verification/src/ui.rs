//! The on-screen mob counter: a fixed prefix and a numeric value padded on
//! the left to a minimum width, rebuilt from the live `MobCount` each frame.
//!
//! Layout, colors and font sizes belong to the host; this module owns the
//! text itself, so what the screen shows is exactly the decimal rendering
//! proved here.

use crate::mob::MobCount;
use vstd::prelude::*;
use vstd::string::StrSliceExecFns;
use vstd::string::StringExecFns;

verus! {

/// The counter value is right-aligned in a field at least this many
/// characters wide.
pub const COUNTER_WIDTH: usize = 4;

/// The two sections of the mob counter label: the fixed caption and the
/// numeric value after it.
#[derive(Debug)]
pub struct MobCountText {
    /// The caption, fixed at construction.
    pub prefix: String,
    /// The rendered count, replaced on every update.
    pub value: String,
}

/// The decimal digit character for `d`.
pub open spec fn digit_char(d: int) -> char {
    if d == 0 {
        '0'
    } else if d == 1 {
        '1'
    } else if d == 2 {
        '2'
    } else if d == 3 {
        '3'
    } else if d == 4 {
        '4'
    } else if d == 5 {
        '5'
    } else if d == 6 {
        '6'
    } else if d == 7 {
        '7'
    } else if d == 8 {
        '8'
    } else {
        '9'
    }
}

/// The decimal rendering of `n`, most significant digit first, without
/// leading zeros (except for `n == 0` itself).
pub open spec fn dec_str(n: nat) -> Seq<char>
    decreases n,
{
    if n < 10 {
        seq![digit_char(n as int)]
    } else {
        dec_str(n / 10).push(digit_char((n % 10) as int))
    }
}

/// `k` space characters.
pub open spec fn spaces(k: nat) -> Seq<char> {
    Seq::new(k, |i: int| ' ')
}

/// What the counter shows for a count of `n`: its decimal rendering,
/// left-padded with spaces to `COUNTER_WIDTH` characters.
pub open spec fn counter_text(n: nat) -> Seq<char> {
    if dec_str(n).len() >= COUNTER_WIDTH {
        dec_str(n)
    } else {
        spaces((COUNTER_WIDTH - dec_str(n).len()) as nat) + dec_str(n)
    }
}

/// The one-character string for a decimal digit.
fn digit_str(d: u32) -> (r: &'static str)
    requires
        d < 10,
    ensures
        r@ =~= seq![digit_char(d as int)],
{
    proof {
        reveal_strlit("0");
        reveal_strlit("1");
        reveal_strlit("2");
        reveal_strlit("3");
        reveal_strlit("4");
        reveal_strlit("5");
        reveal_strlit("6");
        reveal_strlit("7");
        reveal_strlit("8");
        reveal_strlit("9");
    }
    if d == 0 {
        "0"
    } else if d == 1 {
        "1"
    } else if d == 2 {
        "2"
    } else if d == 3 {
        "3"
    } else if d == 4 {
        "4"
    } else if d == 5 {
        "5"
    } else if d == 6 {
        "6"
    } else if d == 7 {
        "7"
    } else if d == 8 {
        "8"
    } else {
        "9"
    }
}

/// Append the decimal rendering of `n` to `s`.
fn push_decimal(s: &mut String, n: u32)
    ensures
        final(s)@ == old(s)@ + dec_str(n as nat),
    decreases n,
{
    if n < 10 {
        s.append(digit_str(n));
        proof {
            assert(final(s)@ =~= old(s)@ + dec_str(n as nat));
        }
    } else {
        push_decimal(s, n / 10);
        s.append(digit_str(n % 10));
        proof {
            assert(final(s)@ =~= old(s)@ + dec_str(n as nat));
        }
    }
}

/// Render a mob count the way the label shows it: decimal, right-aligned in
/// a field of `COUNTER_WIDTH` characters.
pub fn format_mob_count(n: u32) -> (r: String)
    ensures
        r@ == counter_text(n as nat),
{
    let mut digits = String::new();
    push_decimal(&mut digits, n);
    proof {
        assert(digits@ =~= dec_str(n as nat));
    }
    let len = digits.as_str().unicode_len();
    let pad: usize = if len >= COUNTER_WIDTH {
        0
    } else {
        COUNTER_WIDTH - len
    };
    let mut out = String::new();
    let mut i: usize = 0;
    while i < pad
        invariant
            i <= pad,
            out@ =~= spaces(i as nat),
        decreases pad - i,
    {
        out.append(" ");
        proof {
            reveal_strlit(" ");
            assert(out@ =~= spaces((i + 1) as nat));
        }
        i = i + 1;
    }
    out.append(digits.as_str());
    proof {
        assert(out@ =~= counter_text(n as nat));
    }
    out
}

/// The counter label as first shown, before any count has been written:
/// the caption and a placeholder value.
pub fn setup() -> (r: MobCountText)
    ensures
        r.prefix@ == "Mobs: "@,
        r.value@ == " N/A"@,
{
    MobCountText { prefix: String::from_str("Mobs: "), value: String::from_str(" N/A") }
}

/// Rewrite the label's value from the live count; the caption is untouched.
pub fn update_mob_counter(text: &mut MobCountText, counter: &MobCount)
    ensures
        final(text).prefix == old(text).prefix,
        final(text).value@ == counter_text(counter.0 as nat),
{
    text.value = format_mob_count(counter.0);
}

} // verus!
