//! The time-range encoder.
//!
//! Given a calendar date and its originating timezone offset, produce the
//! pair of timestamps denoting 00:00:00 and 23:00:00 local time on that date,
//! both expressed after conversion to the fixed reference offset (UTC+2) that
//! the remote service assumes. When the input offset differs from the
//! reference offset the two rendered timestamps may fall on neighbouring
//! calendar days; the round-trip law below shows no information is lost.

use vstd::prelude::*;

use crate::calendar::day_number;
use crate::calendar::days_before_month;
use crate::calendar::days_before_year;
use crate::calendar::days_in_month;
use crate::calendar::lemma_day_number_in_year;
use crate::calendar::lemma_day_number_injective;
use crate::calendar::lemma_days_before_month_mono;
use crate::calendar::lemma_days_before_year_mono;
use crate::calendar::lemma_next_date;
use crate::calendar::lemma_prev_date;
use crate::calendar::month_len;
use crate::calendar::next_date;
use crate::calendar::next_day;
use crate::calendar::prev_date;
use crate::calendar::prev_day;
use crate::calendar::valid_date;
use crate::rfc3339::format_rfc3339;
use crate::rfc3339::rfc3339_of_sod;

verus! {

/// A calendar date together with the timezone offset (in seconds east of
/// UTC) it is to be read in.
#[derive(Clone, Copy, Debug)]
pub struct ZonedDate {
    pub year: u32,
    pub month: u32,
    pub day: u32,
    pub offset_seconds: i32,
}

impl ZonedDate {
    /// A date this encoder accepts: a valid calendar date whose year leaves
    /// room for the day range to stay within four-digit years after
    /// conversion, with an offset of less than a day in either direction.
    pub open spec fn wf(self) -> bool {
        &&& valid_date(self.year as int, self.month as int, self.day as int)
        &&& 1 <= self.year <= 9998
        &&& -86400 < self.offset_seconds < 86400
    }

    /// Builds a date after checking it is one this encoder accepts.
    pub fn new(year: u32, month: u32, day: u32, offset_seconds: i32) -> (r: Option<ZonedDate>)
        ensures
            r is Some <==> (valid_date(year as int, month as int, day as int) && 1 <= year <= 9998
                && -86400 < offset_seconds < 86400),
            r matches Some(z) ==> z.wf() && z.year == year && z.month == month && z.day == day
                && z.offset_seconds == offset_seconds,
    {
        if 1 <= year && year <= 9998 && 1 <= month && month <= 12 && 1 <= day && day <= month_len(
            year,
            month,
        ) && -86400 < offset_seconds && offset_seconds < 86400 {
            Some(ZonedDate { year, month, day, offset_seconds })
        } else {
            None
        }
    }
}

/// The instant, in seconds on one linear time line, of the civil time
/// `(y, m, d)` plus `sod` seconds since midnight, read at offset `off`
/// seconds east of UTC.
pub open spec fn instant_seconds(y: int, m: int, d: int, sod: int, off: int) -> int {
    day_number(y, m, d) * 86400 + sod - off
}

/// Whether the civil time `c` (a date and seconds since midnight), read at
/// the reference offset UTC+2, denotes the same instant as `sod_local`
/// seconds since midnight of `date` read at `date`'s own offset.
pub open spec fn ref_civil_matches(date: ZonedDate, sod_local: int, c: (int, int, int, int)) -> bool {
    &&& valid_date(c.0, c.1, c.2)
    &&& 0 <= c.3 < 86400
    &&& instant_seconds(c.0, c.1, c.2, c.3, 7200) == instant_seconds(
        date.year as int,
        date.month as int,
        date.day as int,
        sod_local,
        date.offset_seconds as int,
    )
}

/// The civil time at the reference offset denoting `sod_local` seconds since
/// midnight of `date`; well defined by the existence and uniqueness lemmas
/// below.
pub open spec fn ref_civil(date: ZonedDate, sod_local: int) -> (int, int, int, int) {
    choose|c: (int, int, int, int)| ref_civil_matches(date, sod_local, c)
}

/// The rendering of a civil time, used by the encoder's contract.
pub open spec fn rfc3339_of_civil(c: (int, int, int, int)) -> Seq<char> {
    rfc3339_of_sod(c.0, c.1, c.2, c.3)
}

/// At one offset, equal instants mean equal civil times.
pub proof fn lemma_civil_instant_injective(
    c1: (int, int, int, int),
    c2: (int, int, int, int),
    off: int,
)
    requires
        valid_date(c1.0, c1.1, c1.2),
        valid_date(c2.0, c2.1, c2.2),
        0 <= c1.3 < 86400,
        0 <= c2.3 < 86400,
        instant_seconds(c1.0, c1.1, c1.2, c1.3, off) == instant_seconds(
            c2.0,
            c2.1,
            c2.2,
            c2.3,
            off,
        ),
    ensures
        c1 == c2,
{
    let n1 = day_number(c1.0, c1.1, c1.2);
    let n2 = day_number(c2.0, c2.1, c2.2);
    assert(n1 * 86400 + c1.3 == n2 * 86400 + c2.3);
    if n1 < n2 {
        assert(n1 * 86400 + 86400 <= n2 * 86400) by (nonlinear_arith)
            requires
                n1 + 1 <= n2,
        ;
        assert(false);
    }
    if n2 < n1 {
        assert(n2 * 86400 + 86400 <= n1 * 86400) by (nonlinear_arith)
            requires
                n2 + 1 <= n1,
        ;
        assert(false);
    }
    lemma_day_number_injective(c1.0, c1.1, c1.2, c2.0, c2.1, c2.2);
}

/// Some civil time at the reference offset denotes `sod_local` seconds into
/// `date`, so `ref_civil` satisfies its defining property.
pub proof fn lemma_ref_civil_exists(date: ZonedDate, sod_local: int)
    requires
        date.wf(),
        0 <= sod_local < 86400,
    ensures
        ref_civil_matches(date, sod_local, ref_civil(date, sod_local)),
{
    let y = date.year as int;
    let m = date.month as int;
    let d = date.day as int;
    let off = date.offset_seconds as int;
    let s = sod_local + 7200 - off;
    if s < 0 {
        lemma_prev_date(y, m, d);
        let p = prev_date(y, m, d);
        let c = (p.0, p.1, p.2, s + 86400);
        assert(ref_civil_matches(date, sod_local, c));
    } else if s < 86400 {
        let c = (y, m, d, s);
        assert(ref_civil_matches(date, sod_local, c));
    } else if s < 172800 {
        lemma_next_date(y, m, d);
        let n = next_date(y, m, d);
        let c = (n.0, n.1, n.2, s - 86400);
        assert(ref_civil_matches(date, sod_local, c));
    } else {
        lemma_next_date(y, m, d);
        let n1 = next_date(y, m, d);
        lemma_not_last_day(y, m, d, n1);
        lemma_next_date(n1.0, n1.1, n1.2);
        let n2 = next_date(n1.0, n1.1, n1.2);
        let c = (n2.0, n2.1, n2.2, s - 172800);
        assert(ref_civil_matches(date, sod_local, c));
    }
}

/// A date whose day number is at most one past a year-9998 date cannot be
/// the last representable day.
proof fn lemma_not_last_day(y: int, m: int, d: int, n: (int, int, int))
    requires
        valid_date(y, m, d),
        y <= 9998,
        valid_date(n.0, n.1, n.2),
        day_number(n.0, n.1, n.2) == day_number(y, m, d) + 1,
    ensures
        !(n.0 == 9999 && n.1 == 12 && n.2 == 31),
{
    lemma_day_number_in_year(y, m, d);
    lemma_days_before_year_mono(y + 1, 9999);
    assert(day_number(n.0, n.1, n.2) <= days_before_year(9999) + 1);
    if n.0 == 9999 && n.1 == 12 && n.2 == 31 {
        assert(days_before_month(9999, 2) == days_before_month(9999, 1) + days_in_month(9999, 1));
        lemma_days_before_month_mono(9999, 2, 12);
        assert(day_number(9999, 12, 31) >= days_before_year(9999) + 31 + 30);
        assert(false);
    }
}

/// Converts `sod_local` seconds into `date` (read at `date`'s offset) to the
/// civil time at the reference offset denoting the same instant.
fn to_reference_civil(date: &ZonedDate, sod_local: u32) -> (r: (u32, u32, u32, u32))
    requires
        date.wf(),
        sod_local < 86400,
    ensures
        ref_civil_matches(
            *date,
            sod_local as int,
            (r.0 as int, r.1 as int, r.2 as int, r.3 as int),
        ),
        (r.0 as int, r.1 as int, r.2 as int, r.3 as int) == ref_civil(*date, sod_local as int),
{
    let ghost n0 = day_number(date.year as int, date.month as int, date.day as int);
    let mut y = date.year;
    let mut m = date.month;
    let mut d = date.day;
    let mut s: i64 = sod_local as i64 + 7200 - date.offset_seconds as i64;
    if s < 0 {
        let p = prev_day(y, m, d);
        y = p.0;
        m = p.1;
        d = p.2;
        s = s + 86400;
    }
    assert(0 <= s < 259199);
    if s >= 86400 {
        let n = next_day(y, m, d);
        y = n.0;
        m = n.1;
        d = n.2;
        s = s - 86400;
    }
    if s >= 86400 {
        proof {
            lemma_not_last_day(
                date.year as int,
                date.month as int,
                date.day as int,
                (y as int, m as int, d as int),
            );
        }
        let n = next_day(y, m, d);
        y = n.0;
        m = n.1;
        d = n.2;
        s = s - 86400;
    }
    let sod = s as u32;
    proof {
        assert(ref_civil_matches(
            *date,
            sod_local as int,
            (y as int, m as int, d as int, sod as int),
        ));
        let picked = ref_civil(*date, sod_local as int);
        lemma_civil_instant_injective(
            (y as int, m as int, d as int, sod as int),
            picked,
            7200,
        );
    }
    (y, m, d, sod)
}

/// Encodes the day range of `date`: the RFC 3339 timestamps, in the
/// reference offset UTC+2, of 00:00:00 and 23:00:00 local time on `date` in
/// its own offset.
pub fn day_range_rfc3339(date: &ZonedDate) -> (r: (String, String))
    requires
        date.wf(),
    ensures
        ref_civil_matches(*date, 0, ref_civil(*date, 0)),
        ref_civil_matches(*date, 82800, ref_civil(*date, 82800)),
        r.0@ == rfc3339_of_civil(ref_civil(*date, 0)),
        r.1@ == rfc3339_of_civil(ref_civil(*date, 82800)),
{
    let start_civil = to_reference_civil(date, 0);
    let end_civil = to_reference_civil(date, 23 * 3600);
    let start = format_rfc3339(start_civil.0, start_civil.1, start_civil.2, start_civil.3);
    let end = format_rfc3339(end_civil.0, end_civil.1, end_civil.2, end_civil.3);
    (start, end)
}

/// Round-trip law of the time-range encoder. Each timestamp of the pair
/// denotes, at the reference offset, exactly the instant of 00:00:00
/// (respectively 23:00:00) of the input calendar date read in the input
/// offset; and that local time on that date is the only civil time in the
/// input offset denoting the instant. Decoding the pair back in the input
/// offset therefore reproduces the bounds of the input day, even when the
/// rendered timestamps fall on neighbouring calendar days in the reference
/// offset.
pub proof fn lemma_day_range_round_trip(date: ZonedDate)
    requires
        date.wf(),
    ensures
        ref_civil_matches(date, 0, ref_civil(date, 0)),
        ref_civil_matches(date, 82800, ref_civil(date, 82800)),
        forall|y2: int, m2: int, d2: int, sod2: int|
            valid_date(y2, m2, d2) && 0 <= sod2 < 86400 && instant_seconds(
                y2,
                m2,
                d2,
                sod2,
                date.offset_seconds as int,
            ) == instant_seconds(
                ref_civil(date, 0).0,
                ref_civil(date, 0).1,
                ref_civil(date, 0).2,
                ref_civil(date, 0).3,
                7200,
            ) ==> y2 == date.year && m2 == date.month && d2 == date.day && sod2 == 0,
        forall|y2: int, m2: int, d2: int, sod2: int|
            valid_date(y2, m2, d2) && 0 <= sod2 < 86400 && instant_seconds(
                y2,
                m2,
                d2,
                sod2,
                date.offset_seconds as int,
            ) == instant_seconds(
                ref_civil(date, 82800).0,
                ref_civil(date, 82800).1,
                ref_civil(date, 82800).2,
                ref_civil(date, 82800).3,
                7200,
            ) ==> y2 == date.year && m2 == date.month && d2 == date.day && sod2 == 82800,
{
    lemma_ref_civil_exists(date, 0);
    lemma_ref_civil_exists(date, 82800);
    let yy = date.year as int;
    let mm = date.month as int;
    let dd = date.day as int;
    let off = date.offset_seconds as int;
    assert forall|y2: int, m2: int, d2: int, sod2: int|
        valid_date(y2, m2, d2) && 0 <= sod2 < 86400 && instant_seconds(
            y2,
            m2,
            d2,
            sod2,
            off,
        ) == instant_seconds(
            ref_civil(date, 0).0,
            ref_civil(date, 0).1,
            ref_civil(date, 0).2,
            ref_civil(date, 0).3,
            7200,
        ) implies y2 == date.year && m2 == date.month && d2 == date.day && sod2 == 0 by {
        lemma_civil_instant_injective((y2, m2, d2, sod2), (yy, mm, dd, 0), off);
    }
    assert forall|y2: int, m2: int, d2: int, sod2: int|
        valid_date(y2, m2, d2) && 0 <= sod2 < 86400 && instant_seconds(
            y2,
            m2,
            d2,
            sod2,
            off,
        ) == instant_seconds(
            ref_civil(date, 82800).0,
            ref_civil(date, 82800).1,
            ref_civil(date, 82800).2,
            ref_civil(date, 82800).3,
            7200,
        ) implies y2 == date.year && m2 == date.month && d2 == date.day && sod2 == 82800 by {
        lemma_civil_instant_injective((y2, m2, d2, sod2), (yy, mm, dd, 82800), off);
    }
}

} // verus!
