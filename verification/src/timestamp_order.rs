use vstd::prelude::*;
use crate::calendar::{rfc3339_millis_text, civil_date, civil_from_year, civil_in_year, days_before_month, month_length, year_length};
use crate::numtext::{digit_char, lemma_padded_len, padded_text};

verus! {

/// `a` comes before `b` at index `i`: both agree before `i`, and at `i` the character
/// of `a` has the smaller code point.
pub open spec fn before_at(a: Seq<char>, b: Seq<char>, i: int) -> bool {
    &&& 0 <= i < a.len()
    &&& i < b.len()
    &&& a.subrange(0, i) == b.subrange(0, i)
    &&& (a[i] as u32) < (b[i] as u32)
}

/// `a` comes strictly before `b` in lexicographic (code point) order, at some index
/// where both have a character.
pub open spec fn text_before(a: Seq<char>, b: Seq<char>) -> bool {
    exists|i: int| #[trigger] before_at(a, b, i)
}

/// `10` to the power `w`.
pub open spec fn pow10(w: nat) -> nat
    decreases w,
{
    if w == 0 { 1 } else { 10 * pow10((w - 1) as nat) }
}

proof fn lemma_digit_code(d: int)
    requires
        0 <= d < 10,
    ensures
        digit_char(d) as u32 == 48 + d,
{
}

/// Zero-padded decimal texts of the same width are ordered as the numbers they show.
pub proof fn lemma_padded_before(a: nat, b: nat, w: nat)
    requires
        a < b,
        b < pow10(w),
    ensures
        exists|i: int| #[trigger] before_at(padded_text(a, w), padded_text(b, w), i),
    decreases w,
{
    if w == 0 {
        assert(false);
    } else {
        let v = (w - 1) as nat;
        let pa = padded_text(a / 10, v);
        let pb = padded_text(b / 10, v);
        let da = digit_char((a % 10) as int);
        let db = digit_char((b % 10) as int);
        lemma_padded_len(a / 10, v);
        lemma_padded_len(b / 10, v);
        assert(padded_text(a, w) == pa.push(da));
        assert(padded_text(b, w) == pb.push(db));
        assert(b / 10 < pow10(v)) by (nonlinear_arith)
            requires
                b < 10 * pow10(v),
        ;
        assert(a / 10 <= b / 10) by (nonlinear_arith)
            requires
                a < b,
        ;
        if a / 10 < b / 10 {
            lemma_padded_before(a / 10, b / 10, v);
            let i = choose|i: int| #[trigger] before_at(pa, pb, i);
            assert(pa.push(da).subrange(0, i) =~= pa.subrange(0, i));
            assert(pb.push(db).subrange(0, i) =~= pb.subrange(0, i));
            assert(before_at(padded_text(a, w), padded_text(b, w), i));
        } else {
            assert(a % 10 < b % 10) by (nonlinear_arith)
                requires
                    a < b,
                    a / 10 == b / 10,
            ;
            lemma_digit_code((a % 10) as int);
            lemma_digit_code((b % 10) as int);
            let i = v as int;
            assert(pa.push(da).subrange(0, i) =~= pa);
            assert(pb.push(db).subrange(0, i) =~= pb);
            assert(before_at(padded_text(a, w), padded_text(b, w), i));
        }
    }
}

/// Two texts that agree on their first `o` characters and differ first inside a window of
/// `x.len()` characters at `o` come in the order of that window.
pub proof fn lemma_before_in_window(a: Seq<char>, b: Seq<char>, o: int, x: Seq<char>, y: Seq<char>, j: int)
    requires
        0 <= o,
        x.len() == y.len(),
        o + x.len() <= a.len(),
        o + y.len() <= b.len(),
        a.subrange(0, o) == b.subrange(0, o),
        a.subrange(o, o + x.len()) == x,
        b.subrange(o, o + y.len()) == y,
        before_at(x, y, j),
    ensures
        before_at(a, b, o + j),
{
    assert(a.subrange(0, o + j) =~= a.subrange(0, o) + x.subrange(0, j));
    assert(b.subrange(0, o + j) =~= b.subrange(0, o) + y.subrange(0, j));
    assert(a[o + j] == a.subrange(o, o + x.len())[j]);
    assert(b[o + j] == b.subrange(o, o + y.len())[j]);
}


/// Calendar date `d` comes before calendar date `e`.
pub open spec fn date_before(d: (int, int, int), e: (int, int, int)) -> bool {
    d.0 < e.0 || (d.0 == e.0 && (d.1 < e.1 || (d.1 == e.1 && d.2 < e.2)))
}

/// Walking month by month from month `m` stays in year `y`, lands on a month from `m` to
/// 12 and on a day that month has, while the days left fit in the year.
pub proof fn lemma_in_year_bounds(y: int, m: int, rem: nat)
    requires
        1 <= m <= 12,
        rem + days_before_month(y, m) < year_length(y),
    ensures
        civil_in_year(y, m, rem).0 == y,
        m <= civil_in_year(y, m, rem).1 <= 12,
        1 <= civil_in_year(y, m, rem).2 <= month_length(y, civil_in_year(y, m, rem).1),
    decreases 12 - m,
{
    if m >= 12 || rem < month_length(y, m) {
    } else {
        assert(days_before_month(y, m + 1) == days_before_month(y, m) + month_length(y, m));
        lemma_in_year_bounds(y, m + 1, (rem - month_length(y, m)) as nat);
    }
}

/// Within a year, a later day count lands on a later date.
pub proof fn lemma_in_year_increasing(y: int, m: int, r1: nat, r2: nat)
    requires
        1 <= m <= 12,
        r1 < r2,
        r2 + days_before_month(y, m) < year_length(y),
    ensures
        date_before(civil_in_year(y, m, r1), civil_in_year(y, m, r2)),
    decreases 12 - m,
{
    if m >= 12 || r2 < month_length(y, m) {
    } else {
        assert(days_before_month(y, m + 1) == days_before_month(y, m) + month_length(y, m));
        let ml = month_length(y, m);
        if r1 < ml {
            lemma_in_year_bounds(y, m + 1, (r2 - ml) as nat);
        } else {
            lemma_in_year_increasing(y, m + 1, (r1 - ml) as nat, (r2 - ml) as nat);
        }
    }
}

/// Walking year by year from year `y` lands on a year from `y` to `y + rem / 365`, on a
/// month from 1 to 12 and on a day that month has.
pub proof fn lemma_from_year_bounds(y: int, rem: nat)
    ensures
        y <= civil_from_year(y, rem).0 <= y + rem / 365,
        1 <= civil_from_year(y, rem).1 <= 12,
        1 <= civil_from_year(y, rem).2 <= month_length(civil_from_year(y, rem).0, civil_from_year(y, rem).1),
    decreases rem,
{
    let yl = year_length(y);
    if rem < yl {
        lemma_in_year_bounds(y, 1, rem);
    } else {
        lemma_from_year_bounds(y + 1, (rem - yl) as nat);
        assert((rem - yl) / 365 + 1 <= rem / 365) by (nonlinear_arith)
            requires
                rem >= yl,
                yl >= 365,
        ;
    }
}

/// A later day count from the same year lands on a later date.
pub proof fn lemma_from_year_increasing(y: int, r1: nat, r2: nat)
    requires
        r1 < r2,
    ensures
        date_before(civil_from_year(y, r1), civil_from_year(y, r2)),
    decreases r2,
{
    let yl = year_length(y);
    if r2 < yl {
        lemma_in_year_increasing(y, 1, r1, r2);
    } else if r1 < yl {
        lemma_in_year_bounds(y, 1, r1);
        lemma_from_year_bounds(y + 1, (r2 - yl) as nat);
    } else {
        lemma_from_year_increasing(y + 1, (r1 - yl) as nat, (r2 - yl) as nat);
    }
}

/// Later days since the epoch fall on later dates.
pub proof fn lemma_civil_date_increasing(d1: nat, d2: nat)
    requires
        d1 < d2,
    ensures
        date_before(civil_date(d1), civil_date(d2)),
{
    lemma_from_year_increasing(1970, d1, d2);
}


/// `YYYY-MM-DDTHH:MM:SS.000Z` for the given fields, each zero-padded to its width.
pub open spec fn stamp_text(f: (nat, nat, nat, nat, nat, nat)) -> Seq<char> {
    padded_text(f.0, 4) + seq!['-'] + padded_text(f.1, 2) + seq!['-'] + padded_text(f.2, 2) + seq!['T']
        + padded_text(f.3, 2) + seq![':'] + padded_text(f.4, 2) + seq![':'] + padded_text(f.5, 2)
        + seq!['.'] + seq!['0', '0', '0', 'Z']
}

/// The fields `f` come before the fields `g`, compared field by field from the year down.
pub open spec fn fields_before(f: (nat, nat, nat, nat, nat, nat), g: (nat, nat, nat, nat, nat, nat)) -> bool {
    ||| f.0 < g.0
    ||| f.0 == g.0 && f.1 < g.1
    ||| f.0 == g.0 && f.1 == g.1 && f.2 < g.2
    ||| f.0 == g.0 && f.1 == g.1 && f.2 == g.2 && f.3 < g.3
    ||| f.0 == g.0 && f.1 == g.1 && f.2 == g.2 && f.3 == g.3 && f.4 < g.4
    ||| f.0 == g.0 && f.1 == g.1 && f.2 == g.2 && f.3 == g.3 && f.4 == g.4 && f.5 < g.5
}

/// Every field fits its width: four digits of year, two of each other field.
pub open spec fn fields_fit(f: (nat, nat, nat, nat, nat, nat)) -> bool {
    f.0 < 10000 && f.1 < 100 && f.2 < 100 && f.3 < 100 && f.4 < 100 && f.5 < 100
}

/// Where each field of a stamp stands, and its length.
pub proof fn lemma_stamp_layout(f: (nat, nat, nat, nat, nat, nat))
    ensures
        stamp_text(f).len() == 24,
        stamp_text(f).subrange(0, 4) == padded_text(f.0, 4),
        stamp_text(f).subrange(5, 7) == padded_text(f.1, 2),
        stamp_text(f).subrange(8, 10) == padded_text(f.2, 2),
        stamp_text(f).subrange(11, 13) == padded_text(f.3, 2),
        stamp_text(f).subrange(14, 16) == padded_text(f.4, 2),
        stamp_text(f).subrange(17, 19) == padded_text(f.5, 2),
        stamp_text(f).subrange(0, 5) == padded_text(f.0, 4) + seq!['-'],
        stamp_text(f).subrange(0, 8) == padded_text(f.0, 4) + seq!['-'] + padded_text(f.1, 2) + seq!['-'],
        stamp_text(f).subrange(0, 11) == padded_text(f.0, 4) + seq!['-'] + padded_text(f.1, 2) + seq!['-']
            + padded_text(f.2, 2) + seq!['T'],
        stamp_text(f).subrange(0, 14) == padded_text(f.0, 4) + seq!['-'] + padded_text(f.1, 2) + seq!['-']
            + padded_text(f.2, 2) + seq!['T'] + padded_text(f.3, 2) + seq![':'],
        stamp_text(f).subrange(0, 17) == padded_text(f.0, 4) + seq!['-'] + padded_text(f.1, 2) + seq!['-']
            + padded_text(f.2, 2) + seq!['T'] + padded_text(f.3, 2) + seq![':'] + padded_text(f.4, 2)
            + seq![':'],
{
    lemma_padded_len(f.0, 4);
    lemma_padded_len(f.1, 2);
    lemma_padded_len(f.2, 2);
    lemma_padded_len(f.3, 2);
    lemma_padded_len(f.4, 2);
    lemma_padded_len(f.5, 2);
    let t = stamp_text(f);
    assert(t.subrange(0, 4) =~= padded_text(f.0, 4));
    assert(t.subrange(5, 7) =~= padded_text(f.1, 2));
    assert(t.subrange(8, 10) =~= padded_text(f.2, 2));
    assert(t.subrange(11, 13) =~= padded_text(f.3, 2));
    assert(t.subrange(14, 16) =~= padded_text(f.4, 2));
    assert(t.subrange(17, 19) =~= padded_text(f.5, 2));
    assert(t.subrange(0, 5) =~= padded_text(f.0, 4) + seq!['-']);
    assert(t.subrange(0, 8) =~= padded_text(f.0, 4) + seq!['-'] + padded_text(f.1, 2) + seq!['-']);
    assert(t.subrange(0, 11) =~= padded_text(f.0, 4) + seq!['-'] + padded_text(f.1, 2) + seq!['-']
        + padded_text(f.2, 2) + seq!['T']);
    assert(t.subrange(0, 14) =~= padded_text(f.0, 4) + seq!['-'] + padded_text(f.1, 2) + seq!['-']
        + padded_text(f.2, 2) + seq!['T'] + padded_text(f.3, 2) + seq![':']);
    assert(t.subrange(0, 17) =~= padded_text(f.0, 4) + seq!['-'] + padded_text(f.1, 2) + seq!['-']
        + padded_text(f.2, 2) + seq!['T'] + padded_text(f.3, 2) + seq![':'] + padded_text(f.4, 2)
        + seq![':']);
}

/// Stamps of fields that fit their widths are ordered as their fields.
pub proof fn lemma_stamp_before(f: (nat, nat, nat, nat, nat, nat), g: (nat, nat, nat, nat, nat, nat))
    requires
        fields_fit(f),
        fields_fit(g),
        fields_before(f, g),
    ensures
        text_before(stamp_text(f), stamp_text(g)),
{
    lemma_stamp_layout(f);
    lemma_stamp_layout(g);
    let a = stamp_text(f);
    let b = stamp_text(g);
    assert(pow10(2) == 100 && pow10(4) == 10000) by {
        reveal_with_fuel(pow10, 5);
    }
    if f.0 < g.0 {
        lemma_padded_before(f.0, g.0, 4);
        let j = choose|j: int| #[trigger] before_at(padded_text(f.0, 4), padded_text(g.0, 4), j);
        assert(a.subrange(0, 0) =~= b.subrange(0, 0));
        lemma_before_in_window(a, b, 0, padded_text(f.0, 4), padded_text(g.0, 4), j);
        assert(before_at(a, b, 0 + j));
    } else if f.1 < g.1 {
        lemma_padded_before(f.1, g.1, 2);
        let j = choose|j: int| #[trigger] before_at(padded_text(f.1, 2), padded_text(g.1, 2), j);
        lemma_before_in_window(a, b, 5, padded_text(f.1, 2), padded_text(g.1, 2), j);
        assert(before_at(a, b, 5 + j));
    } else if f.2 < g.2 {
        lemma_padded_before(f.2, g.2, 2);
        let j = choose|j: int| #[trigger] before_at(padded_text(f.2, 2), padded_text(g.2, 2), j);
        lemma_before_in_window(a, b, 8, padded_text(f.2, 2), padded_text(g.2, 2), j);
        assert(before_at(a, b, 8 + j));
    } else if f.3 < g.3 {
        lemma_padded_before(f.3, g.3, 2);
        let j = choose|j: int| #[trigger] before_at(padded_text(f.3, 2), padded_text(g.3, 2), j);
        lemma_before_in_window(a, b, 11, padded_text(f.3, 2), padded_text(g.3, 2), j);
        assert(before_at(a, b, 11 + j));
    } else if f.4 < g.4 {
        lemma_padded_before(f.4, g.4, 2);
        let j = choose|j: int| #[trigger] before_at(padded_text(f.4, 2), padded_text(g.4, 2), j);
        lemma_before_in_window(a, b, 14, padded_text(f.4, 2), padded_text(g.4, 2), j);
        assert(before_at(a, b, 14 + j));
    } else {
        lemma_padded_before(f.5, g.5, 2);
        let j = choose|j: int| #[trigger] before_at(padded_text(f.5, 2), padded_text(g.5, 2), j);
        lemma_before_in_window(a, b, 17, padded_text(f.5, 2), padded_text(g.5, 2), j);
        assert(before_at(a, b, 17 + j));
    }
}


/// The fields that the timestamp of `seconds` after the epoch shows: the date, then the
/// hour, minute and second of the day.
pub open spec fn rfc3339_fields(seconds: nat) -> (nat, nat, nat, nat, nat, nat) {
    let date = civil_date(seconds / 86400);
    let sod = seconds % 86400;
    (date.0 as nat, date.1 as nat, date.2 as nat, sod / 3600, (sod % 3600) / 60, sod % 60)
}

/// A timestamp is the stamp of its fields, and for a `u32` count of seconds every field
/// fits its width and names a real date and time of day.
pub proof fn lemma_rfc3339_fields(seconds: u32)
    ensures
        rfc3339_millis_text(seconds as nat) == stamp_text(rfc3339_fields(seconds as nat)),
        fields_fit(rfc3339_fields(seconds as nat)),
        1 <= civil_date(seconds as nat / 86400).1 <= 12,
        1 <= civil_date(seconds as nat / 86400).2 <= month_length(
            civil_date(seconds as nat / 86400).0,
            civil_date(seconds as nat / 86400).1,
        ),
        rfc3339_fields(seconds as nat).3 < 24,
        rfc3339_fields(seconds as nat).4 < 60,
        rfc3339_fields(seconds as nat).5 < 60,
{
    let d = seconds as nat / 86400;
    lemma_from_year_bounds(1970, d);
    assert(d <= 49710);
    assert(d / 365 <= 136);
    assert(rfc3339_millis_text(seconds as nat) =~= stamp_text(rfc3339_fields(seconds as nat)));
}

/// A later count of seconds shows later fields.
pub proof fn lemma_rfc3339_fields_increasing(s1: u32, s2: u32)
    requires
        s1 < s2,
    ensures
        fields_before(rfc3339_fields(s1 as nat), rfc3339_fields(s2 as nat)),
{
    let d1 = s1 as nat / 86400;
    let d2 = s2 as nat / 86400;
    lemma_from_year_bounds(1970, d1);
    lemma_from_year_bounds(1970, d2);
    if d1 < d2 {
        lemma_civil_date_increasing(d1, d2);
    } else {
        assert(d1 == d2);
        let t1 = s1 as nat % 86400;
        let t2 = s2 as nat % 86400;
        assert(t1 < t2);
        let (h1, m1, x1) = (t1 / 3600, (t1 % 3600) / 60, t1 % 60);
        let (h2, m2, x2) = (t2 / 3600, (t2 % 3600) / 60, t2 % 60);
        assert(t1 == 3600 * h1 + 60 * m1 + x1 && m1 < 60 && x1 < 60);
        assert(t2 == 3600 * h2 + 60 * m2 + x2 && m2 < 60 && x2 < 60);
    }
}

} // verus!
