use crate::models::ListInfo;
use vstd::prelude::*;

verus! {

pub open spec fn digit_char(d: nat) -> char {
    if d == 0 {
        '0'
    } else if d == 1 {
        '1'
    } else if d == 2 {
        '2'
    } else if d == 3 {
        '3'
    } else if d == 4 {
        '4'
    } else if d == 5 {
        '5'
    } else if d == 6 {
        '6'
    } else if d == 7 {
        '7'
    } else if d == 8 {
        '8'
    } else {
        '9'
    }
}

/// The decimal digits of `n`, most significant first, without leading zeros.
pub open spec fn decimal(n: nat) -> Seq<char>
    decreases n,
{
    if n < 10 {
        seq![digit_char(n)]
    } else {
        decimal(n / 10).push(digit_char(n % 10))
    }
}

fn digit_str(d: u64) -> (r: &'static str)
    requires
        d < 10,
    ensures
        r@ == seq![digit_char(d as nat)],
{
    proof {
        reveal_strlit("0");
        reveal_strlit("1");
        reveal_strlit("2");
        reveal_strlit("3");
        reveal_strlit("4");
        reveal_strlit("5");
        reveal_strlit("6");
        reveal_strlit("7");
        reveal_strlit("8");
        reveal_strlit("9");
    }
    let r = if d == 0 {
        "0"
    } else if d == 1 {
        "1"
    } else if d == 2 {
        "2"
    } else if d == 3 {
        "3"
    } else if d == 4 {
        "4"
    } else if d == 5 {
        "5"
    } else if d == 6 {
        "6"
    } else if d == 7 {
        "7"
    } else if d == 8 {
        "8"
    } else {
        "9"
    };
    assert(r@ =~= seq![digit_char(d as nat)]);
    r
}

/// Writes `n` in decimal.
pub fn to_decimal(n: u64) -> (r: String)
    ensures
        r@ == decimal(n as nat),
    decreases n,
{
    if n < 10 {
        String::from_str(digit_str(n))
    } else {
        let mut s = to_decimal(n / 10);
        s.append(digit_str(n % 10));
        s
    }
}

/// A duration in seconds, as the largest nonzero unit and the ones below it.
pub open spec fn remaining_time_text(t: nat) -> Seq<char> {
    let hours = t / 3600;
    let minutes = (t % 3600) / 60;
    let seconds = t % 60;
    if hours > 0 {
        decimal(hours) + " Hours "@ + decimal(minutes) + " Minutes "@ + decimal(seconds)
            + " Seconds"@
    } else if minutes > 0 {
        decimal(minutes) + " Minutes "@ + decimal(seconds) + " Seconds"@
    } else {
        decimal(seconds) + " Seconds"@
    }
}

impl ListInfo {
    /// The time left on this rental, in words.
    pub fn formatted_remaining_time(&self) -> (r: String)
        ensures
            r@ == remaining_time_text(self.remaining_time as nat),
    {
        let t = self.remaining_time;
        let hours = t / 3600;
        let minutes = (t % 3600) / 60;
        let seconds = t % 60;
        if hours > 0 {
            let mut s = to_decimal(hours);
            s.append(" Hours ");
            s.append(to_decimal(minutes).as_str());
            s.append(" Minutes ");
            s.append(to_decimal(seconds).as_str());
            s.append(" Seconds");
            s
        } else if minutes > 0 {
            let mut s = to_decimal(minutes);
            s.append(" Minutes ");
            s.append(to_decimal(seconds).as_str());
            s.append(" Seconds");
            s
        } else {
            let mut s = to_decimal(seconds);
            s.append(" Seconds");
            s
        }
    }
}

} // verus!
