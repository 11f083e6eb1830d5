//! A local calendar time to the second, and its fixed-width text form
//! `YYYY-MM-DD HH:MM:SS`, which sorts as the times do.
use vstd::prelude::*;
use crate::collation::{text_lt, lemma_lt_concat};

verus! {

pub open spec fn is_leap_year(y: int) -> bool {
    (y % 4 == 0 && y % 100 != 0) || y % 400 == 0
}

pub open spec fn days_in_month(y: int, m: int) -> int {
    if m == 2 {
        if is_leap_year(y) {
            29
        } else {
            28
        }
    } else if m == 4 || m == 6 || m == 9 || m == 11 {
        30
    } else {
        31
    }
}

/// The calendar fields of a timestamp.
pub struct TimestampView {
    pub year: int,
    pub month: int,
    pub day: int,
    pub hour: int,
    pub minute: int,
    pub second: int,
}

/// Fields that name a real second of a four-digit year.
pub open spec fn valid_fields(v: TimestampView) -> bool {
    &&& 0 <= v.year <= 9999
    &&& 1 <= v.month <= 12
    &&& 1 <= v.day <= days_in_month(v.year, v.month)
    &&& 0 <= v.hour <= 23
    &&& 0 <= v.minute <= 59
    &&& 0 <= v.second <= 59
}

/// `a` is an earlier second than `b`.
pub open spec fn earlier(a: TimestampView, b: TimestampView) -> bool {
    if a.year != b.year {
        a.year < b.year
    } else if a.month != b.month {
        a.month < b.month
    } else if a.day != b.day {
        a.day < b.day
    } else if a.hour != b.hour {
        a.hour < b.hour
    } else if a.minute != b.minute {
        a.minute < b.minute
    } else {
        a.second < b.second
    }
}

pub open spec fn pow10(w: nat) -> nat
    decreases w,
{
    if w == 0 {
        1
    } else {
        10 * pow10((w - 1) as nat)
    }
}

pub open spec fn digit_char(d: int) -> char {
    seq!['0', '1', '2', '3', '4', '5', '6', '7', '8', '9'][d]
}

/// The last `w` decimal digits of `n`, with leading zeros.
pub open spec fn digits(n: nat, w: nat) -> Seq<char>
    decreases w,
{
    if w == 0 {
        Seq::empty()
    } else {
        digits(n / 10, (w - 1) as nat).push(digit_char((n % 10) as int))
    }
}

/// `YYYY-MM-DD HH:MM:SS`.
pub open spec fn timestamp_text(v: TimestampView) -> Seq<char> {
    digits(v.year as nat, 4) + (seq!['-'] + (digits(v.month as nat, 2) + (seq!['-'] + (digits(
        v.day as nat,
        2,
    ) + (seq![' '] + (digits(v.hour as nat, 2) + (seq![':'] + (digits(v.minute as nat, 2) + (
    seq![':'] + digits(v.second as nat, 2))))))))))
}

/// A local date and time to the second, year 0 to 9999.
pub struct Timestamp {
    year: u16,
    month: u8,
    day: u8,
    hour: u8,
    minute: u8,
    second: u8,
}

impl View for Timestamp {
    type V = TimestampView;

    closed spec fn view(&self) -> TimestampView {
        TimestampView {
            year: self.year as int,
            month: self.month as int,
            day: self.day as int,
            hour: self.hour as int,
            minute: self.minute as int,
            second: self.second as int,
        }
    }
}

fn days_in_month_exec(y: u16, m: u8) -> (r: u8)
    ensures
        r == days_in_month(y as int, m as int),
{
    if m == 2 {
        if (y % 4 == 0 && y % 100 != 0) || y % 400 == 0 {
            29
        } else {
            28
        }
    } else if m == 4 || m == 6 || m == 9 || m == 11 {
        30
    } else {
        31
    }
}

fn digit_str(d: u64) -> (r: &'static str)
    requires
        d < 10,
    ensures
        r@ == seq![digit_char(d as int)],
{
    proof {
        reveal_strlit("0");
        reveal_strlit("1");
        reveal_strlit("2");
        reveal_strlit("3");
        reveal_strlit("4");
        reveal_strlit("5");
        reveal_strlit("6");
        reveal_strlit("7");
        reveal_strlit("8");
        reveal_strlit("9");
    }
    match d {
        0 => "0",
        1 => "1",
        2 => "2",
        3 => "3",
        4 => "4",
        5 => "5",
        6 => "6",
        7 => "7",
        8 => "8",
        _ => "9",
    }
}

fn push_digits(out: &mut String, n: u64, w: u64)
    ensures
        final(out)@ == old(out)@ + digits(n as nat, w as nat),
    decreases w,
{
    if w > 0 {
        push_digits(out, n / 10, w - 1);
        out.append(digit_str(n % 10));
        assert(digits(n as nat, w as nat) == digits((n / 10) as nat, (w - 1) as nat).push(
            digit_char((n % 10) as int),
        ));
    }
}

fn push_sep(out: &mut String, sep: &str)
    ensures
        final(out)@ == old(out)@ + sep@,
{
    out.append(sep);
}

impl Timestamp {
    #[verifier::type_invariant]
    closed spec fn inv(self) -> bool {
        valid_fields(self@)
    }

    /// The timestamp with these fields, where they name a second of a year
    /// from 0 to 9999.
    pub fn new(year: i32, month: u32, day: u32, hour: u32, minute: u32, second: u32) -> (r: Option<
        Timestamp,
    >)
        ensures
            r is Some <==> valid_fields(
                TimestampView {
                    year: year as int,
                    month: month as int,
                    day: day as int,
                    hour: hour as int,
                    minute: minute as int,
                    second: second as int,
                },
            ),
            r matches Some(t) ==> t@ == (TimestampView {
                year: year as int,
                month: month as int,
                day: day as int,
                hour: hour as int,
                minute: minute as int,
                second: second as int,
            }),
    {
        if year < 0 || year > 9999 || month < 1 || month > 12 || hour > 23 || minute > 59 || second
            > 59 {
            return None;
        }
        if day < 1 || day > days_in_month_exec(year as u16, month as u8) as u32 {
            return None;
        }
        Some(
            Timestamp {
                year: year as u16,
                month: month as u8,
                day: day as u8,
                hour: hour as u8,
                minute: minute as u8,
                second: second as u8,
            },
        )
    }

    pub fn year(&self) -> (r: u16)
        ensures
            r == self@.year,
    {
        self.year
    }

    pub fn month(&self) -> (r: u8)
        ensures
            r == self@.month,
    {
        self.month
    }

    pub fn day(&self) -> (r: u8)
        ensures
            r == self@.day,
    {
        self.day
    }

    pub fn hour(&self) -> (r: u8)
        ensures
            r == self@.hour,
    {
        self.hour
    }

    pub fn minute(&self) -> (r: u8)
        ensures
            r == self@.minute,
    {
        self.minute
    }

    pub fn second(&self) -> (r: u8)
        ensures
            r == self@.second,
    {
        self.second
    }

    /// The text form `YYYY-MM-DD HH:MM:SS`.
    pub fn to_text(&self) -> (r: String)
        ensures
            r@ == timestamp_text(self@),
            r@.len() == 19,
            valid_fields(self@),
    {
        proof {
            use_type_invariant(self);
            reveal_strlit("-");
            reveal_strlit(" ");
            reveal_strlit(":");
            lemma_digits_len(self@.year as nat, 4);
            lemma_digits_len(self@.month as nat, 2);
            lemma_digits_len(self@.day as nat, 2);
            lemma_digits_len(self@.hour as nat, 2);
            lemma_digits_len(self@.minute as nat, 2);
            lemma_digits_len(self@.second as nat, 2);
        }
        let mut out = String::new();
        push_digits(&mut out, self.year as u64, 4);
        push_sep(&mut out, "-");
        push_digits(&mut out, self.month as u64, 2);
        push_sep(&mut out, "-");
        push_digits(&mut out, self.day as u64, 2);
        push_sep(&mut out, " ");
        push_digits(&mut out, self.hour as u64, 2);
        push_sep(&mut out, ":");
        push_digits(&mut out, self.minute as u64, 2);
        push_sep(&mut out, ":");
        push_digits(&mut out, self.second as u64, 2);
        let ghost v = self@;
        assert(out@ =~= timestamp_text(v));
        out
    }
}

pub proof fn lemma_digits_len(n: nat, w: nat)
    ensures
        digits(n, w).len() == w,
    decreases w,
{
    if w > 0 {
        lemma_digits_len(n / 10, (w - 1) as nat);
    }
}

/// For numbers below `10^w`, the digit strings are equal exactly when the
/// numbers are, and sort as the numbers do.
pub proof fn lemma_digits_order(n: nat, m: nat, w: nat)
    requires
        n < pow10(w),
        m < pow10(w),
    ensures
        (digits(n, w) == digits(m, w)) == (n == m),
        text_lt(digits(n, w), digits(m, w)) == (n < m),
    decreases w,
{
    if w == 0 {
        assert(n == 0 && m == 0);
        assert(!text_lt(Seq::<char>::empty(), Seq::<char>::empty()));
    } else {
        let w1 = (w - 1) as nat;
        assert(n / 10 < pow10(w1) && m / 10 < pow10(w1)) by (nonlinear_arith)
            requires
                n < 10 * pow10(w1),
                m < 10 * pow10(w1),
        ;
        lemma_digits_order(n / 10, m / 10, w1);
        lemma_digits_len(n / 10, w1);
        lemma_digits_len(m / 10, w1);
        let cn = digit_char((n % 10) as int);
        let cm = digit_char((m % 10) as int);
        lemma_lt_concat(digits(n / 10, w1), seq![cn], digits(m / 10, w1), seq![cm]);
        assert(digits(n, w) == digits(n / 10, w1) + seq![cn]);
        assert(digits(m, w) == digits(m / 10, w1) + seq![cm]);
        lemma_digit_char_order((n % 10) as int, (m % 10) as int);
        assert(text_lt(seq![cn], seq![cm]) == ((cn as u32) < (cm as u32))) by {
            reveal_with_fuel(text_lt, 2);
            assert(seq![cn].drop_first() =~= Seq::<char>::empty());
            assert(seq![cm].drop_first() =~= Seq::<char>::empty());
        }
        assert(n == 10 * (n / 10) + n % 10 && m == 10 * (m / 10) + m % 10) by (nonlinear_arith);
        if digits(n / 10, w1) + seq![cn] == digits(m / 10, w1) + seq![cm] {
            assert((digits(n / 10, w1) + seq![cn]).last() == cn);
            assert((digits(m / 10, w1) + seq![cm]).last() == cm);
            assert(digits(n / 10, w1) =~= (digits(n / 10, w1) + seq![cn]).drop_last());
            assert(digits(m / 10, w1) =~= (digits(m / 10, w1) + seq![cm]).drop_last());
        }
    }
}

proof fn lemma_digit_char_order(a: int, b: int)
    requires
        0 <= a < 10,
        0 <= b < 10,
    ensures
        (digit_char(a) == digit_char(b)) == (a == b),
        ((digit_char(a) as u32) < (digit_char(b) as u32)) == (a < b),
{
    assert(digit_char(a) as u32 == 48 + a);
    assert(digit_char(b) as u32 == 48 + b);
}

/// The text forms of two timestamps are equal exactly when the timestamps are,
/// and sort as the times do: comparing the stored text compares the times.
pub proof fn lemma_text_order(a: TimestampView, b: TimestampView)
    requires
        valid_fields(a),
        valid_fields(b),
    ensures
        (timestamp_text(a) == timestamp_text(b)) == (a == b),
        text_lt(timestamp_text(a), timestamp_text(b)) == earlier(a, b),
{
    reveal_with_fuel(pow10, 5);
    lemma_digits_order(a.year as nat, b.year as nat, 4);
    lemma_digits_order(a.month as nat, b.month as nat, 2);
    lemma_digits_order(a.day as nat, b.day as nat, 2);
    lemma_digits_order(a.hour as nat, b.hour as nat, 2);
    lemma_digits_order(a.minute as nat, b.minute as nat, 2);
    lemma_digits_order(a.second as nat, b.second as nat, 2);
    lemma_digits_len(a.year as nat, 4);
    lemma_digits_len(b.year as nat, 4);
    lemma_digits_len(a.month as nat, 2);
    lemma_digits_len(b.month as nat, 2);
    lemma_digits_len(a.day as nat, 2);
    lemma_digits_len(b.day as nat, 2);
    lemma_digits_len(a.hour as nat, 2);
    lemma_digits_len(b.hour as nat, 2);
    lemma_digits_len(a.minute as nat, 2);
    lemma_digits_len(b.minute as nat, 2);
    // The text after the minute, after the hour, and so on up to the year.
    let a9 = seq![':'] + digits(a.second as nat, 2);
    let b9 = seq![':'] + digits(b.second as nat, 2);
    let a8 = digits(a.minute as nat, 2) + a9;
    let b8 = digits(b.minute as nat, 2) + b9;
    let a7 = seq![':'] + a8;
    let b7 = seq![':'] + b8;
    let a6 = digits(a.hour as nat, 2) + a7;
    let b6 = digits(b.hour as nat, 2) + b7;
    let a5 = seq![' '] + a6;
    let b5 = seq![' '] + b6;
    let a4 = digits(a.day as nat, 2) + a5;
    let b4 = digits(b.day as nat, 2) + b5;
    let a3 = seq!['-'] + a4;
    let b3 = seq!['-'] + b4;
    let a2 = digits(a.month as nat, 2) + a3;
    let b2 = digits(b.month as nat, 2) + b3;
    let a1 = seq!['-'] + a2;
    let b1 = seq!['-'] + b2;
    lemma_sep_step(':', digits(a.second as nat, 2), digits(b.second as nat, 2));
    lemma_concat_step(digits(a.minute as nat, 2), a9, digits(b.minute as nat, 2), b9);
    lemma_sep_step(':', a8, b8);
    lemma_concat_step(digits(a.hour as nat, 2), a7, digits(b.hour as nat, 2), b7);
    lemma_sep_step(' ', a6, b6);
    lemma_concat_step(digits(a.day as nat, 2), a5, digits(b.day as nat, 2), b5);
    lemma_sep_step('-', a4, b4);
    lemma_concat_step(digits(a.month as nat, 2), a3, digits(b.month as nat, 2), b3);
    lemma_sep_step('-', a2, b2);
    lemma_concat_step(digits(a.year as nat, 4), a1, digits(b.year as nat, 4), b1);
}

proof fn lemma_sep_step(c: char, x: Seq<char>, y: Seq<char>)
    ensures
        (seq![c] + x == seq![c] + y) == (x == y),
        text_lt(seq![c] + x, seq![c] + y) == text_lt(x, y),
{
    lemma_concat_step(seq![c], x, seq![c], y);
}

proof fn lemma_concat_step(a1: Seq<char>, a2: Seq<char>, b1: Seq<char>, b2: Seq<char>)
    requires
        a1.len() == b1.len(),
    ensures
        (a1 + a2 == b1 + b2) == (a1 == b1 && a2 == b2),
        text_lt(a1 + a2, b1 + b2) == if a1 == b1 {
            text_lt(a2, b2)
        } else {
            text_lt(a1, b1)
        },
{
    lemma_lt_concat(a1, a2, b1, b2);
    if a1 + a2 == b1 + b2 {
        assert(a1 =~= (a1 + a2).subrange(0, a1.len() as int));
        assert(b1 =~= (b1 + b2).subrange(0, b1.len() as int));
        assert(a2 =~= (a1 + a2).subrange(a1.len() as int, (a1 + a2).len() as int));
        assert(b2 =~= (b1 + b2).subrange(b1.len() as int, (b1 + b2).len() as int));
    }
}

} // verus!
