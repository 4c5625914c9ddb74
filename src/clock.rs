//! Local wall-clock time with millisecond precision, and its text in the
//! form `YYYY-MM-DD HH:MM:SS.mmm`.

use chrono::{Datelike, Timelike};
use crate::text::{is_digit, lemma_decimal_len, lemma_zero_padded_digits, push_zero_padded, zero_padded};
use vstd::prelude::*;

verus! {

/// A local date and time, field by field.
///
/// `millisecond` may reach past 999 during a leap second, as the clock
/// reports it; the text shows it modulo 1000.
#[derive(Clone, Copy, Debug, PartialEq, Eq)]
pub struct LocalTime {
    pub year: i32,
    pub month: u32,
    pub day: u32,
    pub hour: u32,
    pub minute: u32,
    pub second: u32,
    pub millisecond: u32,
}

impl LocalTime {
    /// Every field lies in the range that a calendar clock gives it.
    pub open spec fn wf(&self) -> bool {
        &&& 1 <= self.month <= 12
        &&& 1 <= self.day <= 31
        &&& self.hour < 24
        &&& self.minute < 60
        &&& self.second < 60
        &&& self.millisecond < 2000
    }
}

/// The year: four digits with leading zeros from 0 to 9999, otherwise a
/// sign and at least four digits.
pub open spec fn year_text(y: int) -> Seq<char> {
    if 0 <= y <= 9999 {
        zero_padded(y as nat, 4)
    } else if y > 9999 {
        seq!['+'] + zero_padded(y as nat, 4)
    } else {
        seq!['-'] + zero_padded((-y) as nat, 4)
    }
}

/// `YYYY-MM-DD HH:MM:SS.mmm`.
pub open spec fn timestamp_text(t: LocalTime) -> Seq<char> {
    year_text(t.year as int) + seq!['-'] + zero_padded(t.month as nat, 2) + seq!['-']
        + zero_padded(t.day as nat, 2) + seq![' '] + zero_padded(t.hour as nat, 2) + seq![':']
        + zero_padded(t.minute as nat, 2) + seq![':'] + zero_padded(t.second as nat, 2)
        + seq!['.'] + zero_padded((t.millisecond % 1000) as nat, 3)
}

/// Relies on chrono's `Local::now`, read through `Datelike` and `Timelike`
/// (`year`, `month`, `day`, `hour`, `minute`, `second`) and
/// `timestamp_subsec_millis`: chrono keeps each of them in its calendar
/// range, and the sub-second part below two seconds (a leap second).
#[verifier::external_body]
pub(crate) fn local_now() -> (r: LocalTime)
    ensures
        r.wf(),
{
    let now = chrono::Local::now();
    LocalTime {
        year: now.year(),
        month: now.month(),
        day: now.day(),
        hour: now.hour(),
        minute: now.minute(),
        second: now.second(),
        millisecond: now.timestamp_subsec_millis(),
    }
}

/// The text of `t`, as the log shows it.
pub fn format_timestamp(t: &LocalTime) -> (r: String)
    ensures
        r@ == timestamp_text(*t),
{
    let mut s = String::new();
    if t.year < 0 {
        proof { reveal_strlit("-"); }
        s.append("-");
        let y: i64 = t.year as i64;
        push_zero_padded(&mut s, (-y) as u64, 4);
    } else if t.year > 9999 {
        proof { reveal_strlit("+"); }
        s.append("+");
        push_zero_padded(&mut s, t.year as u64, 4);
    } else {
        push_zero_padded(&mut s, t.year as u64, 4);
    }
    assert(s@ =~= year_text(t.year as int));
    proof {
        reveal_strlit("-");
        reveal_strlit(" ");
        reveal_strlit(":");
        reveal_strlit(".");
    }
    s.append("-");
    push_zero_padded(&mut s, t.month as u64, 2);
    s.append("-");
    push_zero_padded(&mut s, t.day as u64, 2);
    s.append(" ");
    push_zero_padded(&mut s, t.hour as u64, 2);
    s.append(":");
    push_zero_padded(&mut s, t.minute as u64, 2);
    s.append(":");
    push_zero_padded(&mut s, t.second as u64, 2);
    s.append(".");
    push_zero_padded(&mut s, (t.millisecond % 1000) as u64, 3);
    assert(s@ =~= timestamp_text(*t));
    s
}

/// The shape of `YYYY-MM-DD HH:MM:SS.mmm`: digits, with the separators in
/// their places.
pub open spec fn stamp_well_formed(s: Seq<char>) -> bool {
    &&& s.len() == 23
    &&& s[4] == '-' && s[7] == '-' && s[10] == ' '
    &&& s[13] == ':' && s[16] == ':' && s[19] == '.'
    &&& forall|i: int|
        0 <= i < 23 && i != 4 && i != 7 && i != 10 && i != 13 && i != 16 && i != 19 ==> is_digit(
            #[trigger] s[i],
        )
}

proof fn lemma_field(n: nat, width: nat)
    requires
        (width == 2 && n < 100) || (width == 3 && n < 1000) || (width == 4 && n < 10000),
    ensures
        zero_padded(n, width).len() == width,
        forall|i: int| 0 <= i < width ==> is_digit(#[trigger] zero_padded(n, width)[i]),
{
    lemma_decimal_len(n);
    lemma_zero_padded_digits(n, width);
}

/// The text of a calendar time from year 0 to 9999 is well formed.
pub proof fn lemma_timestamp_well_formed(t: LocalTime)
    requires
        t.wf(),
        0 <= t.year <= 9999,
    ensures
        stamp_well_formed(timestamp_text(t)),
{
    let y = zero_padded(t.year as nat, 4);
    let mo = zero_padded(t.month as nat, 2);
    let d = zero_padded(t.day as nat, 2);
    let h = zero_padded(t.hour as nat, 2);
    let mi = zero_padded(t.minute as nat, 2);
    let se = zero_padded(t.second as nat, 2);
    let ms = zero_padded((t.millisecond % 1000) as nat, 3);
    lemma_field(t.year as nat, 4);
    lemma_field(t.month as nat, 2);
    lemma_field(t.day as nat, 2);
    lemma_field(t.hour as nat, 2);
    lemma_field(t.minute as nat, 2);
    lemma_field(t.second as nat, 2);
    lemma_field((t.millisecond % 1000) as nat, 3);
    let s = timestamp_text(t);
    assert(s =~= y + seq!['-'] + mo + seq!['-'] + d + seq![' '] + h + seq![':'] + mi + seq![':']
        + se + seq!['.'] + ms);
    assert forall|i: int| 0 <= i < 23 && i != 4 && i != 7 && i != 10 && i != 13 && i != 16 && i
        != 19 implies is_digit(#[trigger] s[i]) by {
        if i < 4 {
            assert(s[i] == y[i]);
        } else if i < 7 {
            assert(s[i] == mo[i - 5]);
        } else if i < 10 {
            assert(s[i] == d[i - 8]);
        } else if i < 13 {
            assert(s[i] == h[i - 11]);
        } else if i < 16 {
            assert(s[i] == mi[i - 14]);
        } else if i < 19 {
            assert(s[i] == se[i - 17]);
        } else {
            assert(s[i] == ms[i - 20]);
        }
    }
    assert(s[4] == '-' && s[7] == '-' && s[10] == ' ' && s[13] == ':' && s[16] == ':' && s[19]
        == '.');
}

} // verus!
