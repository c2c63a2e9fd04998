//! Compact rendering of an accumulated number of seconds.
//!
//! The unit ladder is month (30 days), day, hour, minute, second, split off
//! by successive integer division. The label shows the two most significant
//! non-zero units, with two restrictions: once months are shown, only days
//! or hours may follow; once days are shown, only hours or minutes may
//! follow. Zero seconds render as the empty string.

use vstd::prelude::*;
use crate::text::{dec_str, push_decimal, push_char};

verus! {

pub const MONTH_SECONDS: u64 = 2592000;

pub const DAY_SECONDS: u64 = 86400;

pub const HOUR_SECONDS: u64 = 3600;

pub const MINUTE_SECONDS: u64 = 60;

pub open spec fn months_of(total: u64) -> nat {
    (total as nat) / (MONTH_SECONDS as nat)
}

pub open spec fn days_of(total: u64) -> nat {
    ((total as nat) % (MONTH_SECONDS as nat)) / (DAY_SECONDS as nat)
}

pub open spec fn hours_of(total: u64) -> nat {
    ((total as nat) % (DAY_SECONDS as nat)) / (HOUR_SECONDS as nat)
}

pub open spec fn minutes_of(total: u64) -> nat {
    ((total as nat) % (HOUR_SECONDS as nat)) / (MINUTE_SECONDS as nat)
}

pub open spec fn seconds_of(total: u64) -> nat {
    (total as nat) % (MINUTE_SECONDS as nat)
}

/// The exact text that `total` seconds render to.
pub open spec fn duration_text(total: u64) -> Seq<char> {
    let mo = months_of(total);
    let d = days_of(total);
    let h = hours_of(total);
    let m = minutes_of(total);
    let s = seconds_of(total);
    if total == 0 {
        Seq::<char>::empty()
    } else if mo > 0 {
        if d > 0 {
            dec_str(mo) + seq!['m', 'o', ' '] + dec_str(d) + seq!['d']
        } else if h > 0 {
            dec_str(mo) + seq!['m', 'o', ' '] + dec_str(h) + seq!['h']
        } else {
            dec_str(mo) + seq!['m', 'o']
        }
    } else if d > 0 {
        if h > 0 {
            dec_str(d) + seq!['d', ' '] + dec_str(h) + seq!['h']
        } else if m > 0 {
            dec_str(d) + seq!['d', ' '] + dec_str(m) + seq!['m']
        } else {
            dec_str(d) + seq!['d']
        }
    } else if h > 0 {
        if m > 0 {
            dec_str(h) + seq!['h', ' '] + dec_str(m) + seq!['m']
        } else if s > 0 {
            dec_str(h) + seq!['h', ' '] + dec_str(s) + seq!['s']
        } else {
            dec_str(h) + seq!['h']
        }
    } else if m > 0 {
        if s > 0 {
            dec_str(m) + seq!['m', ' '] + dec_str(s) + seq!['s']
        } else {
            dec_str(m) + seq!['m']
        }
    } else {
        dec_str(s) + seq!['s']
    }
}

/// Appends one "<count><unit>" group, e.g. `45` and `'s'` append `"45s"`.
fn push_group(out: &mut String, count: u64, unit: char)
    ensures
        final(out)@ == old(out)@ + dec_str(count as nat) + seq![unit],
{
    push_decimal(count, out);
    push_char(out, unit);
}

/// Renders `total` seconds exactly as [`duration_text`] describes.
pub fn format_seconds(total: u64) -> (r: String)
    ensures
        r@ == duration_text(total),
{
    let mut out = String::new();
    if total == 0 {
        return out;
    }
    let mo = total / MONTH_SECONDS;
    let d = (total % MONTH_SECONDS) / DAY_SECONDS;
    let h = (total % DAY_SECONDS) / HOUR_SECONDS;
    let m = (total % HOUR_SECONDS) / MINUTE_SECONDS;
    let s = total % MINUTE_SECONDS;
    if mo > 0 {
        push_group(&mut out, mo, 'm');
        push_char(&mut out, 'o');
        if d > 0 {
            push_char(&mut out, ' ');
            push_group(&mut out, d, 'd');
        } else if h > 0 {
            push_char(&mut out, ' ');
            push_group(&mut out, h, 'h');
        }
    } else if d > 0 {
        push_group(&mut out, d, 'd');
        if h > 0 {
            push_char(&mut out, ' ');
            push_group(&mut out, h, 'h');
        } else if m > 0 {
            push_char(&mut out, ' ');
            push_group(&mut out, m, 'm');
        }
    } else if h > 0 {
        push_group(&mut out, h, 'h');
        if m > 0 {
            push_char(&mut out, ' ');
            push_group(&mut out, m, 'm');
        } else if s > 0 {
            push_char(&mut out, ' ');
            push_group(&mut out, s, 's');
        }
    } else if m > 0 {
        push_group(&mut out, m, 'm');
        if s > 0 {
            push_char(&mut out, ' ');
            push_group(&mut out, s, 's');
        }
    } else {
        push_group(&mut out, s, 's');
    }
    proof {
        assert(out@ =~= duration_text(total));
    }
    out
}

} // verus!
