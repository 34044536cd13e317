//! The generation time that a report carries, held as plain numbers.
use vstd::prelude::*;
use chrono::{Datelike, Timelike};
use crate::text::{decimal, fine, lemma_decimal_fine, lemma_fine_concat, push_decimal};

verus! {

/// A moment in UTC, as calendar date and time of day.
#[derive(Clone, Copy, Debug, PartialEq, Eq, Structural)]
pub struct Timestamp {
    pub year: i32,
    pub month: u32,
    pub day: u32,
    pub hour: u32,
    pub minute: u32,
    pub second: u32,
}

impl Timestamp {
    /// Month in 1..=12, day in 1..=31, hour below 24, minute and second below 60.
    pub open spec fn wf(&self) -> bool {
        1 <= self.month <= 12 && 1 <= self.day <= 31 && self.hour < 24 && self.minute < 60
            && self.second < 60
    }
}

/// `n` in decimal, padded with zeros to two digits.
pub open spec fn pad2(n: nat) -> Seq<char> {
    if n < 10 {
        "0"@ + decimal(n)
    } else {
        decimal(n)
    }
}

/// `n` in decimal, padded with zeros to four digits.
pub open spec fn pad4(n: nat) -> Seq<char> {
    if n < 10 {
        "000"@ + decimal(n)
    } else if n < 100 {
        "00"@ + decimal(n)
    } else if n < 1000 {
        "0"@ + decimal(n)
    } else {
        decimal(n)
    }
}

/// The year as four digits; a year before 0 or after 9999 takes a sign.
pub open spec fn year_text(y: int) -> Seq<char> {
    if y < 0 {
        "-"@ + pad4((-y) as nat)
    } else if y > 9999 {
        "+"@ + decimal(y as nat)
    } else {
        pad4(y as nat)
    }
}

/// `t` written `YYYY-MM-DD HH:MM:SS UTC`.
pub open spec fn timestamp_text(t: Timestamp) -> Seq<char> {
    year_text(t.year as int) + "-"@ + pad2(t.month as nat) + "-"@ + pad2(t.day as nat) + " "@
        + pad2(t.hour as nat) + ":"@ + pad2(t.minute as nat) + ":"@ + pad2(t.second as nat)
        + " UTC"@
}

fn push_pad2(out: &mut String, n: u32)
    ensures
        final(out)@ == old(out)@ + pad2(n as nat),
{
    if n < 10 {
        out.append("0");
    }
    push_decimal(out, n as u64);
    assert(final(out)@ =~= old(out)@ + pad2(n as nat));
}

fn push_year(out: &mut String, y: i32)
    ensures
        final(out)@ == old(out)@ + year_text(y as int),
{
    let ghost start = out@;
    let n: u64 = if y < 0 {
        out.append("-");
        (-(y as i64)) as u64
    } else {
        if y > 9999 {
            out.append("+");
        }
        y as u64
    };
    if n <= 9999 {
        if n < 10 {
            out.append("000");
        } else if n < 100 {
            out.append("00");
        } else if n < 1000 {
            out.append("0");
        }
    }
    push_decimal(out, n);
    assert(out@ =~= start + year_text(y as int));
}

impl Timestamp {
    /// The timestamp as `YYYY-MM-DD HH:MM:SS UTC`.
    pub fn format(&self) -> (r: String)
        ensures
            r@ == timestamp_text(*self),
    {
        let mut out = String::new();
        push_year(&mut out, self.year);
        out.append("-");
        push_pad2(&mut out, self.month);
        out.append("-");
        push_pad2(&mut out, self.day);
        out.append(" ");
        push_pad2(&mut out, self.hour);
        out.append(":");
        push_pad2(&mut out, self.minute);
        out.append(":");
        push_pad2(&mut out, self.second);
        out.append(" UTC");
        assert(out@ =~= timestamp_text(*self));
        out
    }
}

/// Relies on `std::time::SystemTime::now`, chrono's conversion of it into a
/// `DateTime<Utc>` (which also handles a clock before 1970), and the `Datelike`
/// and `Timelike` accessors of that time: month 1 to 12, day 1 to 31, hour 0 to
/// 23, minute and second 0 to 59.
#[verifier::external_body]
pub(crate) fn utc_now() -> (t: Timestamp)
    ensures
        t.wf(),
{
    let now = chrono::DateTime::<chrono::Utc>::from(std::time::SystemTime::now());
    Timestamp {
        year: now.year(),
        month: now.month(),
        day: now.day(),
        hour: now.hour(),
        minute: now.minute(),
        second: now.second(),
    }
}

proof fn lemma_pad2_fine(n: nat)
    ensures
        fine(pad2(n), true, true),
{
    reveal_strlit("0");
    lemma_decimal_fine(n);
    lemma_fine_concat("0"@, decimal(n), true, true);
}

proof fn lemma_pad4_fine(n: nat)
    ensures
        fine(pad4(n), true, true),
{
    reveal_strlit("0");
    reveal_strlit("00");
    reveal_strlit("000");
    lemma_decimal_fine(n);
    lemma_fine_concat("0"@, decimal(n), true, true);
    lemma_fine_concat("00"@, decimal(n), true, true);
    lemma_fine_concat("000"@, decimal(n), true, true);
}

/// A timestamp's text is ASCII and free of `<`.
pub proof fn lemma_timestamp_fine(t: Timestamp)
    ensures
        fine(timestamp_text(t), true, true),
{
    reveal_strlit("-");
    reveal_strlit("+");
    reveal_strlit(" ");
    reveal_strlit(":");
    reveal_strlit(" UTC");
    let y = t.year as int;
    if y < 0 {
        lemma_pad4_fine((-y) as nat);
        lemma_fine_concat("-"@, pad4((-y) as nat), true, true);
    } else if y > 9999 {
        lemma_decimal_fine(y as nat);
        lemma_fine_concat("+"@, decimal(y as nat), true, true);
    } else {
        lemma_pad4_fine(y as nat);
    }
    lemma_pad2_fine(t.month as nat);
    lemma_pad2_fine(t.day as nat);
    lemma_pad2_fine(t.hour as nat);
    lemma_pad2_fine(t.minute as nat);
    lemma_pad2_fine(t.second as nat);
    assert(fine(timestamp_text(t), true, true)) by {
        broadcast use lemma_fine_concat;
    }
}

} // verus!
