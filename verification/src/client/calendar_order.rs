//! Timestamps sort as the instants they name: for readings before the year
//! 10000, the `YYYY-MM-DDTHH:MM:SSZ` texts compare character by character as
//! the instants compare in time.

use vstd::prelude::*;
use crate::client::calendar::{
    days_before, days_before_year, is_leap_year, lemma_days_before_year_monotone,
    lemma_months_tile_year, lemma_reading_denotes_instant, lemma_reading_in_range,
    lemma_reading_unique, month_length, CivilTime,
};
use crate::text::{decimal, digit_char, zero_padded};

verus! {

/// `a` comes before `b` in character order: at the first place where they
/// differ, `a` has the smaller character.
pub open spec fn text_precedes(a: Seq<char>, b: Seq<char>) -> bool {
    exists|i: int|
        0 <= i < a.len() && i < b.len() && a.subrange(0, i) == b.subrange(0, i) && (#[trigger] a[i]
            as u32) < (b[i] as u32)
}

/// A text that comes before another differs from it.
pub proof fn lemma_precedes_differs(a: Seq<char>, b: Seq<char>)
    requires
        text_precedes(a, b),
    ensures
        a != b,
{
}

proof fn lemma_precedes_extend(x: Seq<char>, y: Seq<char>, u: Seq<char>, v: Seq<char>)
    requires
        x.len() == y.len(),
        text_precedes(x, y),
    ensures
        text_precedes(x + u, y + v),
{
    let i = choose|i: int|
        0 <= i < x.len() && i < y.len() && x.subrange(0, i) == y.subrange(0, i) && (#[trigger] x[i]
            as u32) < (y[i] as u32);
    assert((x + u).subrange(0, i) =~= x.subrange(0, i));
    assert((y + v).subrange(0, i) =~= y.subrange(0, i));
    assert((x + u)[i] == x[i]);
    assert((y + v)[i] == y[i]);
}

proof fn lemma_precedes_after(x: Seq<char>, u: Seq<char>, v: Seq<char>)
    requires
        text_precedes(u, v),
    ensures
        text_precedes(x + u, x + v),
{
    let i = choose|i: int|
        0 <= i < u.len() && i < v.len() && u.subrange(0, i) == v.subrange(0, i) && (#[trigger] u[i]
            as u32) < (v[i] as u32);
    let j = x.len() + i;
    assert((x + u).subrange(0, j) =~= x + u.subrange(0, i));
    assert((x + v).subrange(0, j) =~= x + v.subrange(0, i));
    assert((x + u)[j] == u[i]);
    assert((x + v)[j] == v[i]);
}

proof fn lemma_digit_order(a: nat, b: nat)
    requires
        a < b < 10,
    ensures
        (digit_char(a) as u32) < (digit_char(b) as u32),
{
}

/// Two digits, as `{n:02}` prints a number below 100.
proof fn lemma_two_digits(n: nat)
    requires
        n < 100,
    ensures
        zero_padded(n, 2) == seq![digit_char(n / 10), digit_char(n % 10)],
{
    if n < 10 {
        assert(decimal(n) == seq![digit_char(n)]);
        assert(zero_padded(n, 2) =~= seq![digit_char(n / 10), digit_char(n % 10)]);
    } else {
        assert(decimal(n / 10) == seq![digit_char(n / 10)]);
        assert(zero_padded(n, 2) =~= seq![digit_char(n / 10), digit_char(n % 10)]);
    }
}

/// Four digits, as `{y:04}` prints a year from 1000 to 9999.
proof fn lemma_four_digits(y: nat)
    requires
        1000 <= y < 10000,
    ensures
        zero_padded(y, 4) == seq![
            digit_char(y / 1000),
            digit_char((y / 100) % 10),
            digit_char((y / 10) % 10),
            digit_char(y % 10),
        ],
{
    assert((y / 10) / 10 == y / 100);
    assert((y / 100) / 10 == y / 1000);
    assert(decimal(y / 1000) == seq![digit_char(y / 1000)]);
    assert(decimal(y / 100) =~= seq![digit_char(y / 1000), digit_char((y / 100) % 10)]);
    assert(decimal(y / 10) =~= seq![
        digit_char(y / 1000),
        digit_char((y / 100) % 10),
        digit_char((y / 10) % 10),
    ]);
    assert(zero_padded(y, 4) =~= seq![
        digit_char(y / 1000),
        digit_char((y / 100) % 10),
        digit_char((y / 10) % 10),
        digit_char(y % 10),
    ]);
}

proof fn lemma_two_digits_order(n: nat, m: nat)
    requires
        n < m < 100,
    ensures
        text_precedes(zero_padded(n, 2), zero_padded(m, 2)),
{
    lemma_two_digits(n);
    lemma_two_digits(m);
    let a = zero_padded(n, 2);
    let b = zero_padded(m, 2);
    if n / 10 < m / 10 {
        lemma_digit_order(n / 10, m / 10);
        assert(a.subrange(0, 0) =~= b.subrange(0, 0));
        assert((a[0] as u32) < (b[0] as u32));
    } else {
        lemma_digit_order(n % 10, m % 10);
        assert(a.subrange(0, 1) =~= b.subrange(0, 1));
        assert((a[1] as u32) < (b[1] as u32));
    }
}

proof fn lemma_four_digit_parts(n: nat)
    requires
        1000 <= n < 10000,
    ensures
        n == 1000 * (n / 1000) + 100 * ((n / 100) % 10) + 10 * ((n / 10) % 10) + n % 10,
        1 <= n / 1000 < 10,
        (n / 100) % 10 < 10,
        (n / 10) % 10 < 10,
        n % 10 < 10,
{
    assert(n / 100 == 10 * (n / 1000) + (n / 100) % 10);
    assert(n / 10 == 10 * (n / 100) + (n / 10) % 10);
}

proof fn lemma_four_digits_order(n: nat, m: nat)
    requires
        1000 <= n < m < 10000,
    ensures
        text_precedes(zero_padded(n, 4), zero_padded(m, 4)),
{
    lemma_four_digits(n);
    lemma_four_digits(m);
    lemma_four_digit_parts(n);
    lemma_four_digit_parts(m);
    let a = zero_padded(n, 4);
    let b = zero_padded(m, 4);
    let (a1, b1, c1, d1) = (n / 1000, (n / 100) % 10, (n / 10) % 10, n % 10);
    let (a2, b2, c2, d2) = (m / 1000, (m / 100) % 10, (m / 10) % 10, m % 10);
    if a1 < a2 {
        lemma_digit_order(a1, a2);
        assert(a.subrange(0, 0) =~= b.subrange(0, 0));
        assert((a[0] as u32) < (b[0] as u32));
    } else if b1 < b2 {
        assert(a1 == a2);
        lemma_digit_order(b1, b2);
        assert(a.subrange(0, 1) =~= b.subrange(0, 1));
        assert((a[1] as u32) < (b[1] as u32));
    } else if c1 < c2 {
        assert(a1 == a2 && b1 == b2);
        lemma_digit_order(c1, c2);
        assert(a.subrange(0, 2) =~= b.subrange(0, 2));
        assert((a[2] as u32) < (b[2] as u32));
    } else {
        assert(a1 == a2 && b1 == b2 && c1 == c2);
        lemma_digit_order(d1, d2);
        assert(a.subrange(0, 3) =~= b.subrange(0, 3));
        assert((a[3] as u32) < (b[3] as u32));
    }
}

proof fn lemma_precedes_at(x: Seq<char>, f1: Seq<char>, f2: Seq<char>, r1: Seq<char>, r2: Seq<
    char,
>)
    requires
        f1.len() == f2.len(),
        text_precedes(f1, f2),
    ensures
        text_precedes(x + f1 + r1, x + f2 + r2),
{
    lemma_precedes_extend(f1, f2, r1, r2);
    lemma_precedes_after(x, f1 + r1, f2 + r2);
    assert(x + f1 + r1 =~= x + (f1 + r1));
    assert(x + f2 + r2 =~= x + (f2 + r2));
}

/// The fields of a reading before the year 10000, each within its width.
pub open spec fn fits_timestamp(t: CivilTime) -> bool {
    &&& 1000 <= t.year < 10000
    &&& t.month < 100
    &&& t.day < 100
    &&& t.hour < 100
    &&& t.minute < 100
    &&& t.second < 100
}

/// The layout of a timestamp around its six fields.
pub open spec fn layout(
    year: Seq<char>,
    month: Seq<char>,
    day: Seq<char>,
    hour: Seq<char>,
    minute: Seq<char>,
    second: Seq<char>,
) -> Seq<char> {
    year + seq!['-'] + month + seq!['-'] + day + seq!['T'] + hour + seq![':'] + minute + seq![':']
        + second + seq!['Z']
}

/// Six field texts, one list per timestamp.
proof fn lemma_layout_order(a: Seq<Seq<char>>, b: Seq<Seq<char>>, k: int)
    requires
        a.len() == 6,
        b.len() == 6,
        0 <= k < 6,
        forall|i: int| 0 <= i < 6 ==> (#[trigger] a[i]).len() == b[i].len(),
        forall|i: int| 0 <= i < k ==> #[trigger] a[i] == b[i],
        text_precedes(a[k], b[k]),
    ensures
        text_precedes(layout(a[0], a[1], a[2], a[3], a[4], a[5]), layout(b[0], b[1], b[2], b[3], b[4], b[5])),
{
    let la = layout(a[0], a[1], a[2], a[3], a[4], a[5]);
    let lb = layout(b[0], b[1], b[2], b[3], b[4], b[5]);
    if k == 0 {
        let q1 = seq!['-'] + a[1] + seq!['-'] + a[2] + seq!['T'] + a[3] + seq![':'] + a[4] + seq![':'] + a[5] + seq!['Z'];
        let q2 = seq!['-'] + b[1] + seq!['-'] + b[2] + seq!['T'] + b[3] + seq![':'] + b[4] + seq![':'] + b[5] + seq!['Z'];
        let x: Seq<char> = seq![];
        lemma_precedes_at(x, a[0], b[0], q1, q2);
        assert(la =~= x + a[0] + q1);
        assert(lb =~= x + b[0] + q2);
    } else if k == 1 {
        let x = a[0] + seq!['-'];
        let q1 = seq!['-'] + a[2] + seq!['T'] + a[3] + seq![':'] + a[4] + seq![':'] + a[5] + seq!['Z'];
        let q2 = seq!['-'] + b[2] + seq!['T'] + b[3] + seq![':'] + b[4] + seq![':'] + b[5] + seq!['Z'];
        assert(a[0] == b[0]);
        lemma_precedes_at(x, a[1], b[1], q1, q2);
        assert(la =~= x + a[1] + q1);
        assert(lb =~= x + b[1] + q2);
    } else if k == 2 {
        assert(a[0] == b[0] && a[1] == b[1]);
        let x = a[0] + seq!['-'] + a[1] + seq!['-'];
        let q1 = seq!['T'] + a[3] + seq![':'] + a[4] + seq![':'] + a[5] + seq!['Z'];
        let q2 = seq!['T'] + b[3] + seq![':'] + b[4] + seq![':'] + b[5] + seq!['Z'];
        lemma_precedes_at(x, a[2], b[2], q1, q2);
        assert(la =~= x + a[2] + q1);
        assert(lb =~= x + b[2] + q2);
    } else if k == 3 {
        assert(a[0] == b[0] && a[1] == b[1] && a[2] == b[2]);
        let x = a[0] + seq!['-'] + a[1] + seq!['-'] + a[2] + seq!['T'];
        let q1 = seq![':'] + a[4] + seq![':'] + a[5] + seq!['Z'];
        let q2 = seq![':'] + b[4] + seq![':'] + b[5] + seq!['Z'];
        lemma_precedes_at(x, a[3], b[3], q1, q2);
        assert(la =~= x + a[3] + q1);
        assert(lb =~= x + b[3] + q2);
    } else if k == 4 {
        assert(a[0] == b[0] && a[1] == b[1] && a[2] == b[2] && a[3] == b[3]);
        let x = a[0] + seq!['-'] + a[1] + seq!['-'] + a[2] + seq!['T'] + a[3] + seq![':'];
        let q1 = seq![':'] + a[5] + seq!['Z'];
        let q2 = seq![':'] + b[5] + seq!['Z'];
        lemma_precedes_at(x, a[4], b[4], q1, q2);
        assert(la =~= x + a[4] + q1);
        assert(lb =~= x + b[4] + q2);
    } else {
        assert(a[0] == b[0] && a[1] == b[1] && a[2] == b[2] && a[3] == b[3] && a[4] == b[4]);
        let x = a[0] + seq!['-'] + a[1] + seq!['-'] + a[2] + seq!['T'] + a[3] + seq![':'] + a[4] + seq![':'];
        let q: Seq<char> = seq!['Z'];
        lemma_precedes_at(x, a[5], b[5], q, q);
        assert(la =~= x + a[5] + q);
        assert(lb =~= x + b[5] + q);
    }
}

/// The six field texts of a reading.
pub open spec fn field_texts(t: CivilTime) -> Seq<Seq<char>> {
    seq![
        zero_padded(t.year as nat, 4),
        zero_padded(t.month as nat, 2),
        zero_padded(t.day as nat, 2),
        zero_padded(t.hour as nat, 2),
        zero_padded(t.minute as nat, 2),
        zero_padded(t.second as nat, 2),
    ]
}

/// The six fields of a reading.
pub open spec fn fields(t: CivilTime) -> Seq<int> {
    seq![
        t.year as int,
        t.month as int,
        t.day as int,
        t.hour as int,
        t.minute as int,
        t.second as int,
    ]
}

proof fn lemma_field_texts(t: CivilTime)
    requires
        fits_timestamp(t),
    ensures
        t.iso8601() == layout(field_texts(t)[0], field_texts(t)[1], field_texts(t)[2], field_texts(t)[3], field_texts(t)[4], field_texts(t)[5]),
        field_texts(t).len() == 6,
        field_texts(t)[0].len() == 4,
        forall|i: int| 1 <= i < 6 ==> (#[trigger] field_texts(t)[i]).len() == 2,
{
    lemma_four_digits(t.year as nat);
    lemma_two_digits(t.month as nat);
    lemma_two_digits(t.day as nat);
    lemma_two_digits(t.hour as nat);
    lemma_two_digits(t.minute as nat);
    lemma_two_digits(t.second as nat);
    assert(t.iso8601() =~= layout(field_texts(t)[0], field_texts(t)[1], field_texts(t)[2], field_texts(t)[3], field_texts(t)[4], field_texts(t)[5]));
}

/// In field `k`, the first in which they differ, `t1` is the smaller.
pub open spec fn first_difference(t1: CivilTime, t2: CivilTime, k: int) -> bool {
    &&& 0 <= k < 6
    &&& forall|i: int| 0 <= i < k ==> #[trigger] fields(t1)[i] == fields(t2)[i]
    &&& fields(t1)[k] < fields(t2)[k]
}

/// A reading earlier on the calendar is written earlier in character order.
proof fn lemma_text_follows_calendar(t1: CivilTime, t2: CivilTime, k: int)
    requires
        fits_timestamp(t1),
        fits_timestamp(t2),
        first_difference(t1, t2, k),
    ensures
        text_precedes(t1.iso8601(), t2.iso8601()),
{
    lemma_field_texts(t1);
    lemma_field_texts(t2);
    let a = field_texts(t1);
    let b = field_texts(t2);
    assert forall|i: int| 0 <= i < k implies #[trigger] a[i] == b[i] by {
        assert(fields(t1)[i] == fields(t2)[i]);
    }
    if k == 0 {
        lemma_four_digits_order(t1.year as nat, t2.year as nat);
    } else if k == 1 {
        lemma_two_digits_order(t1.month as nat, t2.month as nat);
    } else if k == 2 {
        lemma_two_digits_order(t1.day as nat, t2.day as nat);
    } else if k == 3 {
        lemma_two_digits_order(t1.hour as nat, t2.hour as nat);
    } else if k == 4 {
        lemma_two_digits_order(t1.minute as nat, t2.minute as nat);
    } else {
        lemma_two_digits_order(t1.second as nat, t2.second as nat);
    }
    assert forall|i: int| 0 <= i < 6 implies (#[trigger] a[i]).len() == b[i].len() by {}
    lemma_layout_order(a, b, k);
}

proof fn lemma_days_before_increasing(m1: int, m2: int, leap: bool)
    requires
        1 <= m1 < m2 <= 12,
    ensures
        days_before(m1, leap) + month_length(m1, leap) <= days_before(m2, leap),
    decreases m2 - m1,
{
    lemma_months_tile_year(m2 - 1, leap);
    if m1 < m2 - 1 {
        lemma_days_before_increasing(m1, m2 - 1, leap);
        lemma_months_tile_year(m1, leap);
    }
}

/// The days from the epoch to the date of a reading.
pub open spec fn day_number(t: CivilTime) -> int {
    days_before_year(t.year as int) + days_before(t.month as int, is_leap_year(t.year as int))
        + t.day - 1
}

/// A reading earlier on the calendar names an earlier instant.
proof fn lemma_calendar_follows_time(t1: CivilTime, t2: CivilTime, s1: int, s2: int, k: int)
    requires
        t1.reads(s1),
        t2.reads(s2),
        first_difference(t1, t2, k),
    ensures
        s1 < s2,
{
    lemma_reading_denotes_instant(t1, s1);
    lemma_reading_denotes_instant(t2, s2);
    lemma_reading_in_range(t1, s1);
    lemma_reading_in_range(t2, s2);
    let leap1 = is_leap_year(t1.year as int);
    let leap2 = is_leap_year(t2.year as int);
    assert(fields(t1)[0] == t1.year && fields(t2)[0] == t2.year);
    assert(fields(t1)[1] == t1.month && fields(t2)[1] == t2.month);
    assert(fields(t1)[2] == t1.day && fields(t2)[2] == t2.day);
    assert(fields(t1)[3] == t1.hour && fields(t2)[3] == t2.hour);
    assert(fields(t1)[4] == t1.minute && fields(t2)[4] == t2.minute);
    assert(fields(t1)[5] == t1.second && fields(t2)[5] == t2.second);
    let tod1 = t1.hour * 3600 + t1.minute * 60 + t1.second;
    let tod2 = t2.hour * 3600 + t2.minute * 60 + t2.second;
    assert(s1 == day_number(t1) * 86400 + tod1);
    assert(s2 == day_number(t2) * 86400 + tod2);
    assert(0 <= tod1 < 86400 && 0 <= tod2 < 86400);
    if k <= 2 {
        if k == 0 {
            lemma_days_before_year_monotone(t1.year as int, t2.year as int);
        } else if k == 1 {
            lemma_days_before_increasing(t1.month as int, t2.month as int, leap1);
        }
        assert(day_number(t1) < day_number(t2));
        assert(day_number(t1) * 86400 + 86400 <= day_number(t2) * 86400);
    } else {
        assert(day_number(t1) == day_number(t2));
    }
}

/// Timestamps sort as the instants they name: for two readings before the
/// year 10000, the earlier instant is written earlier in character order, and
/// the texts are equal exactly when the instants are.
pub proof fn lemma_timestamps_sort_as_instants(t1: CivilTime, t2: CivilTime, s1: int, s2: int)
    requires
        t1.reads(s1),
        t2.reads(s2),
        t1.year < 10000,
        t2.year < 10000,
    ensures
        s1 < s2 ==> text_precedes(t1.iso8601(), t2.iso8601()),
        t1.iso8601() == t2.iso8601() <==> s1 == s2,
{
    lemma_reading_in_range(t1, s1);
    lemma_reading_in_range(t2, s2);
    assert(fits_timestamp(t1) && fits_timestamp(t2));
    if s1 == s2 {
        lemma_reading_unique(t1, t2, s1);
    } else {
        let f1 = fields(t1);
        let f2 = fields(t2);
        if f1 =~= f2 {
            assert(f1[0] == f2[0] && f1[1] == f2[1] && f1[2] == f2[2] && f1[3] == f2[3] && f1[4]
                == f2[4] && f1[5] == f2[5]);
            assert(t1 == t2);
            lemma_reading_denotes_instant(t1, s1);
            lemma_reading_denotes_instant(t2, s2);
        } else {
            let k = if f1[0] != f2[0] {
                0int
            } else if f1[1] != f2[1] {
                1int
            } else if f1[2] != f2[2] {
                2int
            } else if f1[3] != f2[3] {
                3int
            } else if f1[4] != f2[4] {
                4int
            } else {
                5int
            };
            assert(f1[k] != f2[k]) by {
                if k == 5 && f1[5] == f2[5] {
                    assert(f1 =~= f2);
                }
            }
            if f1[k] < f2[k] {
                assert(first_difference(t1, t2, k));
                lemma_calendar_follows_time(t1, t2, s1, s2, k);
                lemma_text_follows_calendar(t1, t2, k);
                lemma_precedes_differs(t1.iso8601(), t2.iso8601());
            } else {
                assert(first_difference(t2, t1, k));
                lemma_calendar_follows_time(t2, t1, s2, s1, k);
                lemma_text_follows_calendar(t2, t1, k);
                lemma_precedes_differs(t2.iso8601(), t1.iso8601());
            }
        }
    }
}

} // verus!
