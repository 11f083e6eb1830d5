//! Reading a time range from free text: the timestamps it holds, left to
//! right, and what a reply at the range prompt asks for.
use vstd::prelude::*;
use crate::timestamp::{TimestampView, valid_fields, timestamp_text, digits, digit_char, lemma_digits_len};

verus! {

/// Length of the timestamp shape `dddd-dd-dd dd:dd:dd`.
pub const STAMP_LEN: usize = 19;

pub open spec fn is_digit(c: char) -> bool {
    '0' <= c <= '9'
}

/// The character at offset `k` of a timestamp fits the shape.
pub open spec fn fits_shape(c: char, k: int) -> bool {
    if k == 4 || k == 7 {
        c == '-'
    } else if k == 10 {
        c == ' '
    } else if k == 13 || k == 16 {
        c == ':'
    } else {
        is_digit(c)
    }
}

/// The text holds a timestamp shape starting at `i`.
pub open spec fn shape_at(s: Seq<char>, i: int) -> bool {
    &&& 0 <= i
    &&& i + 19 <= s.len()
    &&& forall|k: int| 0 <= k < 19 ==> #[trigger] fits_shape(s[i + k], k)
}

/// The timestamp shapes found scanning from `i`: the leftmost one, then the
/// leftmost one after its end, and so on.
pub open spec fn stamps_from(s: Seq<char>, i: int) -> Seq<Seq<char>>
    decreases s.len() - i,
{
    if i < 0 || i + 19 > s.len() {
        Seq::empty()
    } else if shape_at(s, i) {
        seq![s.subrange(i, i + 19)] + stamps_from(s, i + 19)
    } else {
        stamps_from(s, i + 1)
    }
}

/// All timestamps in the text, left to right, none overlapping.
pub open spec fn stamps_in(s: Seq<char>) -> Seq<Seq<char>> {
    stamps_from(s, 0)
}

/// The text is one timestamp shape.
pub open spec fn is_stamp_shape(t: Seq<char>) -> bool {
    t.len() == 19 && forall|k: int| 0 <= k < 19 ==> #[trigger] fits_shape(t[k], k)
}

pub open spec fn has_no_digit(x: Seq<char>) -> bool {
    forall|k: int| 0 <= k < x.len() ==> !is_digit(#[trigger] x[k])
}

proof fn lemma_skip_no_digit(s: Seq<char>, i: int, j: int)
    requires
        0 <= i <= j <= s.len(),
        forall|k: int| i <= k < j ==> !is_digit(#[trigger] s[k]),
    ensures
        stamps_from(s, i) == stamps_from(s, j),
    decreases j - i,
{
    if i < j {
        assert(!fits_shape(s[i + 0], 0));
        lemma_skip_no_digit(s, i + 1, j);
        if i + 19 > s.len() {
            assert(stamps_from(s, i + 1) == Seq::<Seq<char>>::empty());
        }
    }
}

proof fn lemma_found_at(s: Seq<char>, i: int, t: Seq<char>)
    requires
        0 <= i,
        i + 19 <= s.len(),
        s.subrange(i, i + 19) == t,
        is_stamp_shape(t),
    ensures
        stamps_from(s, i) == seq![t] + stamps_from(s, i + 19),
{
    assert forall|k: int| 0 <= k < 19 implies #[trigger] fits_shape(s[i + k], k) by {
        assert(s[i + k] == t[k]);
    }
}

/// Two timestamps with text around them that holds no digit are found, and
/// no others, in the order they stand.
pub proof fn lemma_two_stamps_found(
    p: Seq<char>,
    t1: Seq<char>,
    m: Seq<char>,
    t2: Seq<char>,
    q: Seq<char>,
)
    requires
        is_stamp_shape(t1),
        is_stamp_shape(t2),
        has_no_digit(p),
        has_no_digit(m),
        has_no_digit(q),
    ensures
        stamps_in(p + t1 + m + t2 + q) == seq![t1, t2],
{
    let s = p + t1 + m + t2 + q;
    let a = p.len() as int;
    let b = a + 19;
    let c = b + m.len();
    let d = c + 19;
    assert(s.subrange(a, b) =~= t1);
    assert(s.subrange(c, d) =~= t2);
    assert forall|k: int| 0 <= k < a implies !is_digit(#[trigger] s[k]) by {
        assert(s[k] == p[k]);
    }
    assert forall|k: int| b <= k < c implies !is_digit(#[trigger] s[k]) by {
        assert(s[k] == m[k - b]);
    }
    assert forall|k: int| d <= k < s.len() implies !is_digit(#[trigger] s[k]) by {
        assert(s[k] == q[k - d]);
    }
    lemma_skip_no_digit(s, 0, a);
    lemma_found_at(s, a, t1);
    lemma_skip_no_digit(s, b, c);
    lemma_found_at(s, c, t2);
    lemma_skip_no_digit(s, d, s.len() as int);
    assert(stamps_from(s, s.len() as int) == Seq::<Seq<char>>::empty());
    assert(seq![t1] + (seq![t2] + Seq::<Seq<char>>::empty()) =~= seq![t1, t2]);
}

proof fn lemma_digits_are_digits(n: nat, w: nat)
    ensures
        forall|k: int| 0 <= k < w ==> is_digit(#[trigger] digits(n, w)[k]),
    decreases w,
{
    if w > 0 {
        lemma_digits_are_digits(n / 10, (w - 1) as nat);
        lemma_digits_len(n / 10, (w - 1) as nat);
        let c = digit_char((n % 10) as int);
        assert(is_digit(c));
        assert forall|k: int| 0 <= k < w implies is_digit(#[trigger] digits(n, w)[k]) by {
            if k < w - 1 {
                assert(digits(n, w)[k] == digits(n / 10, (w - 1) as nat)[k]);
            } else {
                assert(digits(n, w)[k] == c);
            }
        }
    }
}

/// The text of every timestamp has the shape that range replies are read
/// for: what a tick writes, a range reply can name.
pub proof fn lemma_timestamp_text_shape(v: TimestampView)
    requires
        valid_fields(v),
    ensures
        is_stamp_shape(timestamp_text(v)),
{
    let y = digits(v.year as nat, 4);
    let mo = digits(v.month as nat, 2);
    let d = digits(v.day as nat, 2);
    let h = digits(v.hour as nat, 2);
    let mi = digits(v.minute as nat, 2);
    let sec = digits(v.second as nat, 2);
    lemma_digits_len(v.year as nat, 4);
    lemma_digits_len(v.month as nat, 2);
    lemma_digits_len(v.day as nat, 2);
    lemma_digits_len(v.hour as nat, 2);
    lemma_digits_len(v.minute as nat, 2);
    lemma_digits_len(v.second as nat, 2);
    lemma_digits_are_digits(v.year as nat, 4);
    lemma_digits_are_digits(v.month as nat, 2);
    lemma_digits_are_digits(v.day as nat, 2);
    lemma_digits_are_digits(v.hour as nat, 2);
    lemma_digits_are_digits(v.minute as nat, 2);
    lemma_digits_are_digits(v.second as nat, 2);
    let flat = y + seq!['-'] + mo + seq!['-'] + d + seq![' '] + h + seq![':'] + mi + seq![':']
        + sec;
    assert(timestamp_text(v) =~= flat);
    assert forall|k: int| 0 <= k < 19 implies #[trigger] fits_shape(flat[k], k) by {
        if k < 4 {
            assert(flat[k] == y[k]);
        } else if k == 4 {
        } else if k < 7 {
            assert(flat[k] == mo[k - 5]);
        } else if k == 7 {
        } else if k < 10 {
            assert(flat[k] == d[k - 8]);
        } else if k == 10 {
        } else if k < 13 {
            assert(flat[k] == h[k - 11]);
        } else if k == 13 {
        } else if k < 16 {
            assert(flat[k] == mi[k - 14]);
        } else if k == 16 {
        } else {
            assert(flat[k] == sec[k - 17]);
        }
    }
}

/// The character has the Unicode White_Space property, which is what
/// `char::is_whitespace` tests and `str::trim` strips.
pub open spec fn white_space(c: char) -> bool {
    let u = c as u32;
    (0x09 <= u <= 0x0D) || u == 0x20 || u == 0x85 || u == 0xA0 || u == 0x1680 || (0x2000 <= u
        <= 0x200A) || u == 0x2028 || u == 0x2029 || u == 0x202F || u == 0x205F || u == 0x3000
}

fn is_white(c: char) -> (r: bool)
    ensures
        r == white_space(c),
{
    let u = c as u32;
    (0x09 <= u && u <= 0x0D) || u == 0x20 || u == 0x85 || u == 0xA0 || u == 0x1680 || (0x2000 <= u
        && u <= 0x200A) || u == 0x2028 || u == 0x2029 || u == 0x202F || u == 0x205F || u == 0x3000
}

/// With surrounding white space taken off, the text is the single letter `q`.
pub open spec fn is_quit_reply(s: Seq<char>) -> bool {
    exists|i: int|
        0 <= i < s.len() && s[i] == 'q' && !white_space(s[i]) && forall|k: int|
            0 <= k < s.len() && k != i ==> #[trigger] white_space(s[k])
}

/// Why a reply at the range prompt gives no range.
#[derive(Debug, Clone, Copy, PartialEq, Eq, Structural)]
pub enum RangeRejection {
    /// No timestamp in the reply.
    NoDatetime,
    /// One timestamp only.
    OnlyOne,
    /// Three timestamps or more.
    TooMany,
}

/// What a reply at the range prompt asks for.
#[derive(Debug)]
pub enum RangeReply {
    /// Leave the prompt without a query.
    Quit,
    /// The two timestamps of the reply, as found left to right.
    Range { start: String, end: String },
    /// Prompt again, for this reason.
    Rejected(RangeRejection),
}

fn chars_of(text: &str) -> (r: Vec<char>)
    ensures
        r@ == text@,
{
    let mut out: Vec<char> = Vec::new();
    let n = text.unicode_len();
    let mut i: usize = 0;
    while i < n
        invariant
            n == text@.len(),
            i <= n,
            out@ == text@.subrange(0, i as int),
        decreases n - i,
    {
        out.push(text.get_char(i));
        i = i + 1;
    }
    out
}

fn shape_at_exec(s: &Vec<char>, i: usize) -> (r: bool)
    requires
        i + 19 <= s@.len(),
    ensures
        r == shape_at(s@, i as int),
{
    let mut k: usize = 0;
    let n = s.len();
    while k < STAMP_LEN
        invariant
            n == s@.len(),
            i + 19 <= s@.len(),
            k <= 19,
            forall|j: int| 0 <= j < k ==> #[trigger] fits_shape(s@[i + j], j),
        decreases 19 - k,
    {
        let c = s[i + k];
        let ok = if k == 4 || k == 7 {
            c == '-'
        } else if k == 10 {
            c == ' '
        } else if k == 13 || k == 16 {
            c == ':'
        } else {
            '0' <= c && c <= '9'
        };
        if !ok {
            assert(!fits_shape(s@[i + k as int], k as int));
            return false;
        }
        k = k + 1;
    }
    true
}

/// The timestamps in the text, left to right.
pub fn parse_datetime_range(text: &str) -> (r: Vec<String>)
    ensures
        r@.len() == stamps_in(text@).len(),
        forall|j: int| 0 <= j < r@.len() ==> #[trigger] r@[j]@ == stamps_in(text@)[j],
{
    let s = chars_of(text);
    let n = s.len();
    let mut out: Vec<String> = Vec::new();
    let mut i: usize = 0;
    while i <= n && n - i >= STAMP_LEN
        invariant
            n == s@.len(),
            s@ == text@,
            i <= n,
            out@.len() + stamps_from(s@, i as int).len() == stamps_in(s@).len(),
            forall|j: int| 0 <= j < out@.len() ==> #[trigger] out@[j]@ == stamps_in(s@)[j],
            forall|j: int|
                0 <= j < stamps_from(s@, i as int).len() ==> #[trigger] stamps_from(
                    s@,
                    i as int,
                )[j] == stamps_in(s@)[out@.len() + j],
        decreases n - i,
    {
        if shape_at_exec(&s, i) {
            let found = text.substring_char(i, i + STAMP_LEN).to_owned();
            let ghost rest = stamps_from(s@, i + 19);
            assert(stamps_from(s@, i as int) == seq![s@.subrange(i as int, i + 19)] + rest);
            assert(stamps_from(s@, i as int)[0] == found@);
            assert forall|j: int| 0 <= j < rest.len() implies #[trigger] rest[j] == stamps_in(
                s@,
            )[out@.len() + 1 + j] by {
                assert(rest[j] == stamps_from(s@, i as int)[j + 1]);
            }
            out.push(found);
            i = i + STAMP_LEN;
        } else {
            i = i + 1;
        }
    }
    assert(stamps_from(s@, i as int).len() == 0);
    out
}

/// Whether the reply is `q` alone, as the prompts read it to leave.
pub fn is_quit(text: &str) -> (r: bool)
    ensures
        r == is_quit_reply(text@),
{
    let s = chars_of(text);
    let n = s.len();
    // Position of the only character that is not white space, if any so far.
    let mut seen: Option<usize> = None;
    let mut i: usize = 0;
    while i < n
        invariant
            n == s@.len(),
            s@ == text@,
            i <= n,
            seen matches Some(p) ==> p < i && !white_space(s@[p as int]),
            forall|k: int|
                0 <= k < i && (seen matches Some(p) ==> k != p) ==> #[trigger] white_space(s@[k]),
        decreases n - i,
    {
        if !is_white(s[i]) {
            match seen {
                Some(p) => {
                    assert(!is_quit_reply(text@)) by {
                        if is_quit_reply(text@) {
                            let q = choose|q: int|
                                0 <= q < s@.len() && s@[q] == 'q' && !white_space(s@[q])
                                    && forall|k: int|
                                    0 <= k < s@.len() && k != q ==> #[trigger] white_space(s@[k]);
                            if q == p {
                                assert(white_space(s@[i as int]));
                            } else {
                                assert(white_space(s@[p as int]));
                            }
                        }
                    }
                    return false;
                },
                None => {
                    seen = Some(i);
                },
            }
        }
        i = i + 1;
    }
    match seen {
        Some(p) => {
            if s[p] == 'q' {
                assert(is_quit_reply(text@)) by {
                    assert(forall|k: int|
                        0 <= k < s@.len() && k != p ==> #[trigger] white_space(s@[k]));
                }
                true
            } else {
                assert(!is_quit_reply(text@)) by {
                    if is_quit_reply(text@) {
                        let q = choose|q: int|
                            0 <= q < s@.len() && s@[q] == 'q' && !white_space(s@[q])
                                && forall|k: int|
                                0 <= k < s@.len() && k != q ==> #[trigger] white_space(s@[k]);
                        if q != p {
                            assert(white_space(s@[p as int]));
                        }
                    }
                }
                false
            }
        },
        None => {
            assert(!is_quit_reply(text@)) by {
                if is_quit_reply(text@) {
                    let q = choose|q: int|
                        0 <= q < s@.len() && s@[q] == 'q' && !white_space(s@[q])
                            && forall|k: int|
                            0 <= k < s@.len() && k != q ==> #[trigger] white_space(s@[k]);
                    assert(white_space(s@[q]));
                }
            }
            false
        },
    }
}

/// What a reply at the range prompt asks for: `q` alone leaves; otherwise
/// exactly two timestamps give the range, in the order found, and any other
/// count is rejected with its reason.
pub fn read_range_reply(text: &str) -> (r: RangeReply)
    ensures
        is_quit_reply(text@) ==> r is Quit,
        !is_quit_reply(text@) ==> match r {
            RangeReply::Quit => false,
            RangeReply::Range { start, end } => stamps_in(text@).len() == 2 && start@ == stamps_in(
                text@,
            )[0] && end@ == stamps_in(text@)[1],
            RangeReply::Rejected(why) => match why {
                RangeRejection::NoDatetime => stamps_in(text@).len() == 0,
                RangeRejection::OnlyOne => stamps_in(text@).len() == 1,
                RangeRejection::TooMany => stamps_in(text@).len() >= 3,
            },
        },
{
    if is_quit(text) {
        return RangeReply::Quit;
    }
    let mut found = parse_datetime_range(text);
    let count = found.len();
    if count == 0 {
        RangeReply::Rejected(RangeRejection::NoDatetime)
    } else if count == 1 {
        RangeReply::Rejected(RangeRejection::OnlyOne)
    } else if count == 2 {
        let end = found.pop().unwrap();
        let start = found.pop().unwrap();
        RangeReply::Range { start, end }
    } else {
        RangeReply::Rejected(RangeRejection::TooMany)
    }
}

} // verus!
