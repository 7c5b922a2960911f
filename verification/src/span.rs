use vstd::prelude::*;
use vstd::string::*;
use crate::corpus::App;
use crate::text::{decimal, decimal_string};

verus! {

/// Whole days in a span of `seconds`.
pub open spec fn span_days(seconds: nat) -> nat {
    seconds / 60 / 1440
}

/// Whole hours left in a span of `seconds` once the whole days are taken out.
pub open spec fn span_hours(seconds: nat) -> nat {
    (seconds / 60 / 60) % 24
}

/// Whole minutes left in a span of `seconds` once the whole hours are taken
/// out. Seconds beyond the last whole minute are dropped.
pub open spec fn span_minutes(seconds: nat) -> nat {
    (seconds / 60) % 60
}

/// The phrase for `d` days, `h` hours and `m` minutes: the units that are not
/// zero, largest first, each label in the plural whatever the number. Where
/// days and hours are both zero the minutes are shown even if zero.
pub open spec fn phrase(d: nat, h: nat, m: nat) -> Seq<char> {
    if d == 0 && h == 0 {
        decimal(m) + " Minutes"@
    } else if m == 0 && h == 0 {
        decimal(d) + " Days"@
    } else if m == 0 && d == 0 {
        decimal(h) + " Hours"@
    } else if h == 0 {
        decimal(d) + " Days and "@ + decimal(m) + " Minutes"@
    } else if m == 0 {
        decimal(d) + " Days and "@ + decimal(h) + " Hours"@
    } else if d == 0 {
        decimal(h) + " Hours and "@ + decimal(m) + " Minutes"@
    } else {
        decimal(d) + " Days "@ + decimal(h) + " Hours and "@ + decimal(m) + " Minutes"@
    }
}

/// The phrase for a span given in seconds.
pub open spec fn span_phrase(seconds: nat) -> Seq<char> {
    phrase(span_days(seconds), span_hours(seconds), span_minutes(seconds))
}

impl App {
    /// Renders a span of whole seconds as a short phrase of days, hours and
    /// minutes.
    pub fn format_duration(seconds: u64) -> (r: String)
        ensures
            r@ == span_phrase(seconds as nat),
    {
        let total: u64 = seconds / 60;
        let d: u64 = total / 1440;
        let h: u64 = (total / 60) % 24;
        let m: u64 = total % 60;
        if d == 0 && h == 0 {
            let mut r = decimal_string(m);
            r.append(" Minutes");
            r
        } else if m == 0 && h == 0 {
            let mut r = decimal_string(d);
            r.append(" Days");
            r
        } else if m == 0 && d == 0 {
            let mut r = decimal_string(h);
            r.append(" Hours");
            r
        } else if h == 0 {
            let mut r = decimal_string(d);
            r.append(" Days and ");
            r.append(decimal_string(m).as_str());
            r.append(" Minutes");
            r
        } else if m == 0 {
            let mut r = decimal_string(d);
            r.append(" Days and ");
            r.append(decimal_string(h).as_str());
            r.append(" Hours");
            r
        } else if d == 0 {
            let mut r = decimal_string(h);
            r.append(" Hours and ");
            r.append(decimal_string(m).as_str());
            r.append(" Minutes");
            r
        } else {
            let mut r = decimal_string(d);
            r.append(" Days ");
            r.append(decimal_string(h).as_str());
            r.append(" Hours and ");
            r.append(decimal_string(m).as_str());
            r.append(" Minutes");
            r
        }
    }
}

} // verus!
